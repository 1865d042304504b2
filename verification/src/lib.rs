//! Core of a music-player engine: a repeat-aware playback queue, the player
//! state machine with its transport controls, and the value types the two
//! share (tracks, volume state, the elapsed-time clock, error taxonomy).
//!
//! Decoding, resampling and the hardware callback live outside this crate;
//! they drive the types defined here through the worker-facing methods of
//! [`playback::Player`].

pub mod errors;
pub mod playback;
pub mod queue;
