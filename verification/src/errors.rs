//! Error taxonomy of the engine.
//!
//! Validation errors are returned synchronously to the caller and never
//! crash a worker thread; device errors are reported through the player's
//! update stream instead.

use vstd::prelude::*;

verus! {

/// Returned by [`Player::run`] when the player cannot start.
///
/// [`Player::run`]: crate::playback::Player::run
#[derive(Debug, PartialEq, Eq)]
pub enum PlayerStartError {
    /// This player was already started.
    Running,
    /// The player was started with an empty queue.
    EmptyQueue,
}

/// A value fell outside the bounds a method expected.
///
/// Used by queue navigation; the bounded value is generic so the same shape
/// serves indices and durations alike.
#[derive(Debug, PartialEq, Eq)]
pub enum OutOfBoundsError<T> {
    /// The value was below the smallest acceptable one.
    Low { value: T, min: T },
    /// The value was above the largest acceptable one.
    High { value: T, max: T },
    /// The value fell outside a two-sided range.
    Range { value: T, min: T, max: T },
}

impl<T> OutOfBoundsError<T> {
    pub fn low(value: T, min: T) -> (r: Self)
        ensures
            r == (OutOfBoundsError::Low { value, min }),
    {
        Self::Low { value, min }
    }

    pub fn high(value: T, max: T) -> (r: Self)
        ensures
            r == (OutOfBoundsError::High { value, max }),
    {
        Self::High { value, max }
    }

    pub fn range(value: T, min: T, max: T) -> (r: Self)
        ensures
            r == (OutOfBoundsError::Range { value, min, max }),
    {
        Self::Range { value, min, max }
    }
}

/// Returned when [`Player::seek_duration`] fails.
///
/// Either the requested position lies beyond the current track, or no track
/// is current at all.
///
/// [`Player::seek_duration`]: crate::playback::Player::seek_duration
#[derive(Debug, PartialEq, Eq)]
pub enum SeekError {
    /// The requested position (in milliseconds) exceeds the track's duration.
    OutOfRange(OutOfBoundsError<u64>),
    /// The player does not have a current track to seek within.
    NoCurrentSong,
}

impl SeekError {
    pub fn out_of_range(to: u64, max: u64) -> (r: Self)
        ensures
            r == SeekError::OutOfRange(OutOfBoundsError::High { value: to, max }),
    {
        Self::OutOfRange(OutOfBoundsError::High { value: to, max })
    }
}

/// Returned when building the output device stream fails.
///
/// Stream construction itself happens outside this crate; the variants carry
/// a plain description of what the host audio subsystem reported.
#[derive(Debug, PartialEq, Eq)]
pub enum StreamSetupError {
    /// The device's sample format is not one the sink can write.
    UnsupportedSampleFormat(String),
    /// The host audio subsystem failed to build the stream.
    BuildStreamError(String),
    /// No default output device was found.
    NoDeviceFound,
}

} // verus!
