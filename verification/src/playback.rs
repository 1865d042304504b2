//! The player: tracks, shared-state value types, and the transport facade
//! with its worker-facing state machine.

use vstd::prelude::*;

use crate::errors::{OutOfBoundsError, PlayerStartError, SeekError};
use crate::queue::{Queue, RepeatMode};

verus! {

/// A song from a [`Player`]'s queue: identity, display title, source
/// locator and a precomputed duration in milliseconds.
///
/// Songs are immutable once created and cloned freely, since decoding
/// happens from the locator, not from in-memory audio.
#[derive(Debug)]
pub struct Song {
    id: usize,
    title: String,
    path: String,
    duration_millis: u64,
}

impl Song {
    /// Create a new song from already-resolved metadata.
    pub fn new(id: usize, title: String, path: String, duration_millis: u64) -> (s: Self)
        ensures
            s.id_spec() == id,
            s.title_spec() == title@,
            s.path_spec() == path@,
            s.duration_spec() == duration_millis,
    {
        Self { id, title, path, duration_millis }
    }

    /// The song's numeric identity.
    pub closed spec fn id_spec(&self) -> usize {
        self.id
    }

    /// The song's display title.
    pub closed spec fn title_spec(&self) -> Seq<char> {
        self.title@
    }

    /// The song's source locator.
    pub closed spec fn path_spec(&self) -> Seq<char> {
        self.path@
    }

    /// The song's duration in milliseconds.
    pub closed spec fn duration_spec(&self) -> u64 {
        self.duration_millis
    }

    pub fn id(&self) -> (r: &usize)
        ensures
            *r == self.id_spec(),
    {
        &self.id
    }

    pub fn title(&self) -> (r: &str)
        ensures
            r@ == self.title_spec(),
    {
        self.title.as_str()
    }

    pub fn path(&self) -> (r: &str)
        ensures
            r@ == self.path_spec(),
    {
        self.path.as_str()
    }

    /// The duration of the song, in milliseconds.
    pub fn duration(&self) -> (r: u64)
        ensures
            r == self.duration_spec(),
    {
        self.duration_millis
    }
}

impl Clone for Song {
    fn clone(&self) -> (r: Self)
        ensures
            r == *self,
    {
        Self {
            id: self.id,
            title: self.title.clone(),
            path: self.path.clone(),
            duration_millis: self.duration_millis,
        }
    }
}

/// A named folder of songs: the descriptor that a playlist/library
/// component hands to the engine.
///
/// Scanning the folder for playable files happens outside this crate; here
/// a playlist is plain data.
#[derive(Debug)]
pub struct Playlist {
    name: String,
    path: String,
    icon_path: Option<String>,
}

impl Playlist {
    /// Create a playlist descriptor from an already-resolved path.
    pub fn new(path: String, name: String, icon_path: Option<String>) -> (p: Self)
        ensures
            p.name_spec() == name@,
            p.path_spec() == path@,
            (match icon_path {
                Some(ip) => p.icon_path_spec() matches Some(s) && s == ip@,
                None => p.icon_path_spec() is None,
            }),
    {
        Self { path, name, icon_path }
    }

    /// The playlist's display name.
    pub closed spec fn name_spec(&self) -> Seq<char> {
        self.name@
    }

    /// The playlist's folder locator.
    pub closed spec fn path_spec(&self) -> Seq<char> {
        self.path@
    }

    /// The locator of the playlist's icon, if any.
    pub closed spec fn icon_path_spec(&self) -> Option<Seq<char>> {
        match self.icon_path {
            Some(ref s) => Some(s@),
            None => None,
        }
    }

    pub fn name(&self) -> (r: &str)
        ensures
            r@ == self.name_spec(),
    {
        self.name.as_str()
    }

    pub fn path(&self) -> (r: &str)
        ensures
            r@ == self.path_spec(),
    {
        self.path.as_str()
    }

    pub fn icon_path(&self) -> (r: Option<&str>)
        ensures
            (match r {
                Some(s) => self.icon_path_spec() matches Some(v) && v == s@,
                None => self.icon_path_spec() is None,
            }),
    {
        match &self.icon_path {
            Some(s) => Some(s.as_str()),
            None => None,
        }
    }
}

/// The volume as a unit: a percentage and the sample multiplier derived
/// from it, kept together so that readers never observe a multiplier that
/// belongs to a different percentage than the one reported.
///
/// Both numbers are stored as the 64 bit patterns of their floating-point
/// representation; deriving the multiplier from the percentage is the
/// caller's perceptual-loudness curve and happens outside this crate.
#[derive(Debug)]
pub struct AtomicVolume {
    percent_bits: u64,
    multiplier_bits: u64,
}

impl View for AtomicVolume {
    type V = (u64, u64);

    /// The pair `(percent, multiplier)`, each as its 64 bit pattern.
    closed spec fn view(&self) -> (u64, u64) {
        (self.percent_bits, self.multiplier_bits)
    }
}

impl AtomicVolume {
    /// Assemble a volume from the bit patterns of its percentage and its
    /// multiplier.
    pub fn from_bits(percent_bits: u64, multiplier_bits: u64) -> (v: Self)
        ensures
            v@ == (percent_bits, multiplier_bits),
    {
        Self { percent_bits, multiplier_bits }
    }

    /// The bit pattern of the percentage in `[0, 1]`.
    pub fn percent_bits(&self) -> (r: u64)
        ensures
            r == self@.0,
    {
        self.percent_bits
    }

    /// The bit pattern of the sample multiplier.
    pub fn multiplier_bits(&self) -> (r: u64)
        ensures
            r == self@.1,
    {
        self.multiplier_bits
    }

    /// Take over another volume, percentage and multiplier as one unit.
    pub fn set_volume(&mut self, other: &Self)
        ensures
            final(self)@ == other@,
    {
        self.percent_bits = other.percent_bits;
        self.multiplier_bits = other.multiplier_bits;
    }
}

impl Clone for AtomicVolume {
    fn clone(&self) -> (r: Self)
        ensures
            r == *self,
    {
        Self { percent_bits: self.percent_bits, multiplier_bits: self.multiplier_bits }
    }
}

/// The time played in the current track, in milliseconds: written by the
/// decode worker on every decoded packet and on seek completion, read for
/// display.
#[derive(Debug)]
pub struct AtomicMilliseconds {
    millis: u64,
}

impl View for AtomicMilliseconds {
    type V = u64;

    /// The stored number of milliseconds.
    closed spec fn view(&self) -> u64 {
        self.millis
    }
}

impl AtomicMilliseconds {
    pub fn new(millis: u64) -> (r: Self)
        ensures
            r@ == millis,
    {
        Self { millis }
    }

    /// The stored number of milliseconds.
    pub fn as_millis(&self) -> (r: u64)
        ensures
            r == self@,
    {
        self.millis
    }

    /// Whole seconds, rounded down.
    pub fn as_secs(&self) -> (r: u64)
        ensures
            r == self@ / 1000,
    {
        self.millis / 1000
    }

    pub fn set_millis(&mut self, millis: u64)
        ensures
            final(self)@ == millis,
    {
        self.millis = millis;
    }
}

impl Default for AtomicMilliseconds {
    /// A clock that has not played anything yet.
    fn default() -> (r: Self)
        ensures
            r@ == 0,
    {
        Self { millis: 0 }
    }
}

/// The decode worker's externally visible state. `NotStarted` is initial;
/// `Finished` is terminal until a new `run` is issued.
#[derive(Copy, Clone, Debug, PartialEq, Eq, Structural)]
pub enum PlayerState {
    Paused,
    Playing,
    Finished,
    NotStarted,
}

impl PlayerState {
    /// Whether a worker is attached in this state, that is playing or
    /// paused. (Contrast [`Player::is_playing`], which asks whether sound
    /// is currently coming out.)
    pub fn is_playing(&self) -> (r: bool)
        ensures
            r == (*self is Playing || *self is Paused),
    {
        matches!(*self, PlayerState::Playing | PlayerState::Paused)
    }
}

/// A control message from the caller to the decode worker. Messages are
/// processed in send order.
#[derive(Copy, Clone, Debug, PartialEq, Eq, Structural)]
pub enum PlayerMessage {
    /// Stop the current song; the next queued song follows.
    Stop,
    /// Pause playback (a no-op when already paused).
    Pause,
    /// Resume playback (a no-op when already playing).
    Resume,
    /// Seek to the given position, in milliseconds, within the current song.
    Seek(u64),
    /// Terminate the worker entirely.
    Quit,
}

/// A status update from the decode worker to the caller, emitted in the
/// order the underlying events occur.
#[derive(Debug)]
pub enum PlayerUpdate {
    /// A new song started (with its queue index), or the queue is exhausted
    /// (`None`).
    SongChange { song_info: Option<(usize, Song)> },
    /// The output device failed; the sink was rebuilt.
    DeviceDisconnect,
}

/// What the decode worker must do next, decided by
/// [`Player::apply_message`] from one control message.
#[derive(Copy, Clone, Debug, PartialEq, Eq, Structural)]
pub enum WorkerAction {
    /// Nothing to do; keep decoding.
    Proceed,
    /// Terminate the worker entirely.
    ExitWorker,
    /// Abandon the current song and pull the next one from the queue.
    NextTrack,
    /// Pause the output stream.
    PauseStream,
    /// Resume the output stream.
    ResumeStream,
    /// Ask the decoder to seek to the given position, in milliseconds.
    SeekTo(u64),
}

/// A mathematical image of a [`Player`]'s state.
pub ghost struct PlayerView {
    /// The playback queue.
    pub queue: Queue<Song>,
    /// The worker's externally visible state.
    pub state: PlayerState,
    /// Control messages sent but not yet taken by the worker; `None` while
    /// no worker is attached.
    pub pending: Option<Seq<PlayerMessage>>,
    /// Status updates emitted by the worker but not yet taken by the caller.
    pub updates: Seq<PlayerUpdate>,
    /// Milliseconds played in the current track.
    pub time_playing: u64,
    /// The volume as `(percent, multiplier)` bit patterns.
    pub volume: (u64, u64),
    /// Playing longer than this many milliseconds makes `rewind` restart
    /// the current track instead of moving back.
    pub rewind_threshold: u64,
}

/// The public facade of the engine: owns the playback queue, the worker's
/// state, the elapsed-time clock and the volume, and exposes transport
/// operations.
///
/// The control and update channels between caller and decode worker are
/// held here as message queues: transport operations append control
/// messages, the worker drains them with [`take_messages`] and applies
/// them with [`apply_message`]; the worker appends status updates, the
/// caller drains them with [`take_updates`]. The thread, the decoder and
/// the output stream that drive the worker-facing methods live outside
/// this crate.
///
/// [`take_messages`]: Self::take_messages
/// [`apply_message`]: Self::apply_message
/// [`take_updates`]: Self::take_updates
#[derive(Debug)]
pub struct Player {
    queue: Queue<Song>,
    state: PlayerState,
    /// `None` until `run` attaches a worker; control messages sent since the
    /// worker last drained them.
    sender: Option<Vec<PlayerMessage>>,
    /// Status updates the caller has not taken yet.
    updates: Vec<PlayerUpdate>,
    time_playing: AtomicMilliseconds,
    volume: AtomicVolume,
    /// If a song has been playing longer than this many milliseconds, only
    /// rewind to the beginning of it.
    rewind_threshold: u64,
}

impl View for Player {
    type V = PlayerView;

    closed spec fn view(&self) -> PlayerView {
        PlayerView {
            queue: self.queue,
            state: self.state,
            pending: (match self.sender {
                Some(ref v) => Some(v@),
                None => None,
            }),
            updates: self.updates@,
            time_playing: self.time_playing@,
            volume: self.volume@,
            rewind_threshold: self.rewind_threshold,
        }
    }
}

impl Player {
    /// The player's invariant: its queue is well formed.
    pub open spec fn wf(&self) -> bool {
        self@.queue.wf()
    }

    /// Create a new player with the given volume and an empty queue that
    /// repeats all.
    pub fn new(volume: AtomicVolume) -> (p: Self)
        ensures
            p@.queue@.len() == 0,
            p@.queue.position() == 0,
            p@.queue.mode() is All,
            !p@.queue.advanced(),
            p@.state is NotStarted,
            p@.pending is None,
            p@.updates.len() == 0,
            p@.time_playing == 0,
            p@.volume == volume@,
            p@.rewind_threshold == 3000,
            p.wf(),
    {
        Self {
            queue: Queue::new(RepeatMode::All),
            state: PlayerState::NotStarted,
            sender: None,
            updates: Vec::new(),
            time_playing: AtomicMilliseconds::default(),
            volume,
            rewind_threshold: 3000,
        }
    }

    /// Create a new player that starts out with the given queue.
    pub fn with_queue(queue: Queue<Song>, volume: AtomicVolume) -> (p: Self)
        ensures
            p@.queue == queue,
            p@.state is NotStarted,
            p@.pending is None,
            p@.updates.len() == 0,
            p@.time_playing == 0,
            p@.volume == volume@,
            p@.rewind_threshold == 3000,
            queue.wf() ==> p.wf(),
    {
        Self {
            queue,
            state: PlayerState::NotStarted,
            sender: None,
            updates: Vec::new(),
            time_playing: AtomicMilliseconds::default(),
            volume,
            rewind_threshold: 3000,
        }
    }

    /// Mutable access to the player's queue.
    pub fn queue_mut(&mut self) -> (q: &mut Queue<Song>)
        ensures
            *q == old(self)@.queue,
            final(self)@ == (PlayerView { queue: *final(q), ..old(self)@ }),
    {
        &mut self.queue
    }

    /// Set the player's volume, percentage and multiplier as one unit.
    pub fn set_volume(&mut self, volume: &AtomicVolume)
        ensures
            final(self)@ == (PlayerView { volume: volume@, ..old(self)@ }),
    {
        self.volume.set_volume(volume);
    }

    /// The player's volume.
    pub fn volume(&self) -> (r: &AtomicVolume)
        ensures
            r@ == self@.volume,
    {
        &self.volume
    }

    /// If available, a cloned copy of the song at the queue's current
    /// index.
    pub fn current(&self) -> (r: Option<Song>)
        ensures
            (match r {
                Some(s) => self@.queue.position() < self@.queue@.len()
                    && s == self@.queue@[self@.queue.position()],
                None => self@.queue.position() >= self@.queue@.len(),
            }),
    {
        match self.queue.current() {
            Some(song) => Some(song.clone()),
            None => None,
        }
    }

    /// The clock counting milliseconds played in the current track.
    pub fn time_playing(&self) -> (r: &AtomicMilliseconds)
        ensures
            r@ == self@.time_playing,
    {
        &self.time_playing
    }

    /// Whether the worker is currently paused.
    ///
    /// The player might not be paused immediately after [`pause`]: state
    /// updates are applied by the worker, never synchronously by the
    /// transport calls.
    ///
    /// [`pause`]: Self::pause
    pub fn is_paused(&self) -> (r: bool)
        ensures
            r == (self@.state is Paused),
    {
        matches!(self.state, PlayerState::Paused)
    }

    /// Whether the worker is currently playing. Like [`is_paused`], this
    /// reflects the worker's last applied transition, not messages still in
    /// flight.
    ///
    /// [`is_paused`]: Self::is_paused
    pub fn is_playing(&self) -> (r: bool)
        ensures
            r == (self@.state is Playing),
    {
        matches!(self.state, PlayerState::Playing)
    }

    /// Whether the player is active, that is paused or playing.
    pub fn is_active(&self) -> (r: bool)
        ensures
            r == (self@.state is Paused || self@.state is Playing),
    {
        matches!(self.state, PlayerState::Paused | PlayerState::Playing)
    }

    /// The worker's state. Transport calls do not update it synchronously;
    /// the worker does.
    pub fn state(&self) -> (r: PlayerState)
        ensures
            r == self@.state,
    {
        self.state
    }

    /// Send a control message to the worker.
    ///
    /// Returns `true` when a worker is attached to receive it.
    pub fn send_message(&mut self, message: PlayerMessage) -> (r: bool)
        ensures
            r == (old(self)@.pending is Some),
            (old(self)@.pending matches Some(p) ==> final(self)@ == (PlayerView {
                pending: Some(p.push(message)),
                ..old(self)@
            })),
            old(self)@.pending is None ==> final(self)@ == old(self)@,
    {
        match &mut self.sender {
            Some(v) => {
                v.push(message);
                true
            }
            None => false,
        }
    }

    /// Ask the worker to quit playing entirely.
    pub fn quit(&mut self) -> (r: bool)
        ensures
            r == (old(self)@.pending is Some),
            (old(self)@.pending matches Some(p) ==> final(self)@ == (PlayerView {
                pending: Some(p.push(PlayerMessage::Quit)),
                ..old(self)@
            })),
            old(self)@.pending is None ==> final(self)@ == old(self)@,
    {
        self.send_message(PlayerMessage::Quit)
    }

    /// Ask the worker to stop the current song; remaining queued songs
    /// follow.
    pub fn stop(&mut self) -> (r: bool)
        ensures
            r == (old(self)@.pending is Some),
            (old(self)@.pending matches Some(p) ==> final(self)@ == (PlayerView {
                pending: Some(p.push(PlayerMessage::Stop)),
                ..old(self)@
            })),
            old(self)@.pending is None ==> final(self)@ == old(self)@,
    {
        self.send_message(PlayerMessage::Stop)
    }

    /// Ask the worker to pause playback.
    pub fn pause(&mut self) -> (r: bool)
        ensures
            r == (old(self)@.pending is Some),
            (old(self)@.pending matches Some(p) ==> final(self)@ == (PlayerView {
                pending: Some(p.push(PlayerMessage::Pause)),
                ..old(self)@
            })),
            old(self)@.pending is None ==> final(self)@ == old(self)@,
    {
        self.send_message(PlayerMessage::Pause)
    }

    /// Ask the worker to resume playback.
    pub fn resume(&mut self) -> (r: bool)
        ensures
            r == (old(self)@.pending is Some),
            (old(self)@.pending matches Some(p) ==> final(self)@ == (PlayerView {
                pending: Some(p.push(PlayerMessage::Resume)),
                ..old(self)@
            })),
            old(self)@.pending is None ==> final(self)@ == old(self)@,
    {
        self.send_message(PlayerMessage::Resume)
    }

    /// Clear the queue and refill it with `songs`, keeping the repeat mode.
    /// Most likely you also want to call [`stop`] afterwards.
    ///
    /// [`stop`]: Self::stop
    pub fn set_songs(&mut self, songs: Vec<Song>)
        ensures
            final(self)@.queue@ == songs@,
            final(self)@.queue.position() == 0,
            !final(self)@.queue.advanced(),
            final(self)@.queue.mode() == old(self)@.queue.mode(),
            final(self)@.state == old(self)@.state,
            final(self)@.pending == old(self)@.pending,
            final(self)@.updates == old(self)@.updates,
            final(self)@.time_playing == old(self)@.time_playing,
            final(self)@.volume == old(self)@.volume,
            final(self)@.rewind_threshold == old(self)@.rewind_threshold,
            final(self).wf(),
    {
        self.queue.clear();
        self.queue.extend(songs);
        proof {
            assert(self.queue@ =~= songs@);
        }
    }

    /// Change the repeat mode of the queue.
    pub fn set_repeat_mode(&mut self, repeat_mode: RepeatMode)
        ensures
            final(self)@.queue@ == old(self)@.queue@,
            final(self)@.queue.position() == old(self)@.queue.position(),
            final(self)@.queue.advanced() == old(self)@.queue.advanced(),
            final(self)@.queue.mode() == repeat_mode,
            final(self)@.state == old(self)@.state,
            final(self)@.pending == old(self)@.pending,
            final(self)@.updates == old(self)@.updates,
            final(self)@.time_playing == old(self)@.time_playing,
            final(self)@.volume == old(self)@.volume,
            final(self)@.rewind_threshold == old(self)@.rewind_threshold,
            old(self).wf() ==> final(self).wf(),
    {
        self.queue.set_repeat_mode(repeat_mode);
    }

    /// Start the player: attach a fresh worker, with the update stream
    /// emptied and the state set to `Paused` until the worker takes up the
    /// first song.
    ///
    /// Fails with [`PlayerStartError::Running`] when the player is already
    /// active, and with [`PlayerStartError::EmptyQueue`] when there is
    /// nothing to play. The thread that drives the worker-facing methods is
    /// spawned by the embedding layer after this call succeeds.
    pub fn run(&mut self) -> (r: Result<(), PlayerStartError>)
        ensures
            (old(self)@.state is Playing || old(self)@.state is Paused) ==> {
                &&& r matches Err(e) && e is Running
                &&& final(self)@ == old(self)@
            },
            !(old(self)@.state is Playing || old(self)@.state is Paused)
                && old(self)@.queue@.len() == 0 ==> {
                &&& r matches Err(e) && e is EmptyQueue
                &&& final(self)@ == old(self)@
            },
            !(old(self)@.state is Playing || old(self)@.state is Paused)
                && old(self)@.queue@.len() > 0 ==> {
                &&& r is Ok
                &&& final(self)@ == (PlayerView {
                    state: PlayerState::Paused,
                    pending: Some(Seq::<PlayerMessage>::empty()),
                    updates: Seq::<PlayerUpdate>::empty(),
                    ..old(self)@
                })
            },
    {
        match self.state {
            PlayerState::Playing | PlayerState::Paused => {
                return Err(PlayerStartError::Running);
            }
            _ => {}
        }
        if self.queue.is_empty() {
            return Err(PlayerStartError::EmptyQueue);
        }
        self.state = PlayerState::Paused;
        self.sender = Some(Vec::new());
        self.updates = Vec::new();
        Ok(())
    }

    /// Seek to the given position, in milliseconds, within the current
    /// song.
    ///
    /// Fails with [`SeekError::NoCurrentSong`] when no song is current, and
    /// with [`SeekError::OutOfRange`] when the position lies past the
    /// song's duration; neither failure sends a control message. On success
    /// returns whether a worker was attached to receive the seek.
    pub fn seek_duration(&mut self, millis: u64) -> (r: Result<bool, SeekError>)
        ensures
            old(self)@.queue.position() >= old(self)@.queue@.len() ==> {
                &&& r matches Err(e) && e is NoCurrentSong
                &&& final(self)@ == old(self)@
            },
            (old(self)@.queue.position() < old(self)@.queue@.len()
                && millis > old(self)@.queue@[old(self)@.queue.position()].duration_spec()) ==> {
                &&& r matches Err(e) && e == SeekError::OutOfRange(OutOfBoundsError::High {
                    value: millis,
                    max: old(self)@.queue@[old(self)@.queue.position()].duration_spec(),
                })
                &&& final(self)@ == old(self)@
            },
            (old(self)@.queue.position() < old(self)@.queue@.len()
                && millis <= old(self)@.queue@[old(self)@.queue.position()].duration_spec()) ==> {
                &&& r matches Ok(sent) && sent == (old(self)@.pending is Some)
                &&& (old(self)@.pending matches Some(p) ==> final(self)@ == (PlayerView {
                    pending: Some(p.push(PlayerMessage::Seek(millis))),
                    ..old(self)@
                }))
                &&& (old(self)@.pending is None ==> final(self)@ == old(self)@)
            },
    {
        let duration_max: u64 = match self.queue.current() {
            Some(song) => song.duration(),
            None => {
                return Err(SeekError::NoCurrentSong);
            }
        };
        if millis > duration_max {
            return Err(SeekError::out_of_range(millis, duration_max));
        }
        Ok(self.send_message(PlayerMessage::Seek(millis)))
    }

    /// Skip to the next song. Equivalent to [`stop`]: the worker reacts by
    /// advancing to the next queued song.
    ///
    /// [`stop`]: Self::stop
    pub fn fast_forward(&mut self)
        ensures
            (old(self)@.pending matches Some(p) ==> final(self)@ == (PlayerView {
                pending: Some(p.push(PlayerMessage::Stop)),
                ..old(self)@
            })),
            old(self)@.pending is None ==> final(self)@ == old(self)@,
    {
        let _ = self.stop();
    }

    /// Rewind: when the current track has been playing longer than the
    /// rewind threshold, ask the worker to seek back to its start;
    /// otherwise move the queue back one position and stop the current
    /// track, so that playback restarts from the previous one.
    pub fn rewind(&mut self)
        requires
            old(self).wf(),
        ensures
            final(self).wf(),
            (old(self)@.time_playing > old(self)@.rewind_threshold
                && old(self)@.queue.position() < old(self)@.queue@.len()) ==> {
                &&& (old(self)@.pending matches Some(p) ==> final(self)@ == (PlayerView {
                    pending: Some(p.push(PlayerMessage::Seek(0))),
                    ..old(self)@
                }))
                &&& (old(self)@.pending is None ==> final(self)@ == old(self)@)
            },
            // below or at the threshold (or without a current song), the
            // queue moves back one position exactly as `Queue::rewind(1)`
            // does and one `Stop` is sent, nothing else
            (old(self)@.time_playing <= old(self)@.rewind_threshold
                || old(self)@.queue.position() >= old(self)@.queue@.len()) ==> {
                &&& final(self)@.queue@ == old(self)@.queue@
                &&& final(self)@.queue.mode() == old(self)@.queue.mode()
                &&& final(self)@.queue.position() == old(self)@.queue.rewind_position(1)
                &&& !final(self)@.queue.advanced()
                &&& (old(self)@.pending matches Some(p)
                    ==> final(self)@.pending == Some(p.push(PlayerMessage::Stop)))
                &&& (old(self)@.pending is None ==> final(self)@.pending is None)
                &&& final(self)@.state == old(self)@.state
                &&& final(self)@.updates == old(self)@.updates
                &&& final(self)@.time_playing == old(self)@.time_playing
                &&& final(self)@.volume == old(self)@.volume
                &&& final(self)@.rewind_threshold == old(self)@.rewind_threshold
            },
    {
        let time_playing: u64 = self.time_playing.as_millis();
        let has_current = match self.queue.current() {
            Some(_) => true,
            None => false,
        };
        if time_playing > self.rewind_threshold && has_current {
            let r = self.seek_duration(0);
            assert(r is Ok);
        } else {
            self.queue.rewind(1);
            let _ = self.stop();
        }
    }

    /// The worker's entry point for each control message: applies the state
    /// transition the message asks for and returns what remains for the
    /// worker to do with its decoder and stream. `Pause` and `Resume` are
    /// idempotent: applied in the target state they are no-ops.
    pub fn apply_message(&mut self, message: PlayerMessage) -> (r: WorkerAction)
        ensures
            message is Quit ==> r is ExitWorker && final(self)@ == old(self)@,
            message is Stop ==> r is NextTrack && final(self)@ == old(self)@,
            message is Pause && old(self)@.state is Paused ==> r is Proceed
                && final(self)@ == old(self)@,
            message is Pause && !(old(self)@.state is Paused) ==> r is PauseStream
                && final(self)@ == (PlayerView { state: PlayerState::Paused, ..old(self)@ }),
            message is Resume && old(self)@.state is Playing ==> r is Proceed
                && final(self)@ == old(self)@,
            message is Resume && !(old(self)@.state is Playing) ==> r is ResumeStream
                && final(self)@ == (PlayerView { state: PlayerState::Playing, ..old(self)@ }),
            (message matches PlayerMessage::Seek(ms) ==> r == WorkerAction::SeekTo(ms)
                && final(self)@ == old(self)@),
    {
        match message {
            PlayerMessage::Quit => WorkerAction::ExitWorker,
            PlayerMessage::Stop => WorkerAction::NextTrack,
            PlayerMessage::Pause => {
                if self.state != PlayerState::Paused {
                    self.state = PlayerState::Paused;
                    WorkerAction::PauseStream
                } else {
                    WorkerAction::Proceed
                }
            }
            PlayerMessage::Resume => {
                if self.state != PlayerState::Playing {
                    self.state = PlayerState::Playing;
                    WorkerAction::ResumeStream
                } else {
                    WorkerAction::Proceed
                }
            }
            PlayerMessage::Seek(ms) => WorkerAction::SeekTo(ms),
        }
    }

    /// The worker's per-track step: pull the next song from the queue and
    /// emit a `SongChange` update. When a song comes, the clock is reset
    /// and the state becomes `Playing`; when the queue is exhausted the
    /// update carries `None` and the caller is expected to finish with
    /// [`set_finished`].
    ///
    /// [`set_finished`]: Self::set_finished
    pub fn begin_next_track(&mut self) -> (r: Option<Song>)
        requires
            old(self).wf(),
        ensures
            final(self).wf(),
            final(self)@.queue == old(self)@.queue.after_advance(),
            final(self)@.queue@ == old(self)@.queue@,
            final(self)@.queue.mode() == old(self)@.queue.mode(),
            final(self)@.queue.position() == old(self)@.queue.advance_position(),
            final(self)@.queue.advanced() == (old(self)@.queue.advanced()
                || old(self)@.queue@.len() > 0),
            final(self)@.pending == old(self)@.pending,
            final(self)@.volume == old(self)@.volume,
            final(self)@.rewind_threshold == old(self)@.rewind_threshold,
            (match r {
                Some(song) => {
                    &&& old(self)@.queue.advance_result() == Some(song)
                    &&& final(self)@.state is Playing
                    &&& final(self)@.time_playing == 0
                    &&& final(self)@.updates == old(self)@.updates.push(
                        PlayerUpdate::SongChange {
                            song_info: Some((final(self)@.queue.position() as usize, song)),
                        },
                    )
                }
                None => {
                    &&& old(self)@.queue.advance_result() is None
                    &&& final(self)@.state == old(self)@.state
                    &&& final(self)@.time_playing == old(self)@.time_playing
                    &&& final(self)@.updates == old(self)@.updates.push(
                        PlayerUpdate::SongChange { song_info: None },
                    )
                }
            }),
    {
        let next = match self.queue.next_item() {
            Some(song) => Some(song.clone()),
            None => None,
        };
        match &next {
            Some(song) => {
                let index: usize = self.queue.index();
                self.updates.push(PlayerUpdate::SongChange {
                    song_info: Some((index, song.clone())),
                });
                self.time_playing.set_millis(0);
                self.state = PlayerState::Playing;
            }
            None => {
                self.updates.push(PlayerUpdate::SongChange { song_info: None });
            }
        }
        next
    }

    /// The worker's reaction to a device error: pause, so the rebuilt
    /// stream starts silent, and report the disconnect on the update
    /// stream.
    pub fn handle_device_error(&mut self)
        ensures
            final(self)@ == (PlayerView {
                state: PlayerState::Paused,
                updates: old(self)@.updates.push(PlayerUpdate::DeviceDisconnect),
                ..old(self)@
            }),
    {
        self.state = PlayerState::Paused;
        self.updates.push(PlayerUpdate::DeviceDisconnect);
    }

    /// Record the time played in the current track, in milliseconds:
    /// called by the worker on every decoded packet and when a seek
    /// completes.
    pub fn set_time_playing(&mut self, millis: u64)
        ensures
            final(self)@ == (PlayerView { time_playing: millis, ..old(self)@ }),
    {
        self.time_playing.set_millis(millis);
    }

    /// The worker's exit: the state becomes `Finished`, the clock is
    /// reset, and the control channel is torn down, so that transport
    /// calls report the worker as unreachable until the next `run`.
    pub fn set_finished(&mut self)
        ensures
            final(self)@ == (PlayerView {
                state: PlayerState::Finished,
                pending: None,
                time_playing: 0,
                ..old(self)@
            }),
    {
        self.state = PlayerState::Finished;
        self.sender = None;
        self.time_playing.set_millis(0);
    }

    /// Drain the control messages sent since the worker last looked, in
    /// send order. Without an attached worker there is nothing to drain.
    pub fn take_messages(&mut self) -> (msgs: Vec<PlayerMessage>)
        ensures
            (old(self)@.pending matches Some(p) ==> msgs@ == p && final(self)@ == (PlayerView {
                pending: Some(Seq::<PlayerMessage>::empty()),
                ..old(self)@
            })),
            old(self)@.pending is None ==> msgs@.len() == 0 && final(self)@ == old(self)@,
    {
        match self.sender.take() {
            Some(v) => {
                self.sender = Some(Vec::new());
                v
            }
            None => Vec::new(),
        }
    }

    /// Drain the status updates the worker has emitted since the caller
    /// last looked, in emission order.
    pub fn take_updates(&mut self) -> (updates: Vec<PlayerUpdate>)
        ensures
            updates@ == old(self)@.updates,
            final(self)@ == (PlayerView { updates: Seq::<PlayerUpdate>::empty(), ..old(self)@ }),
    {
        let mut updates = Vec::new();
        core::mem::swap(&mut updates, &mut self.updates);
        updates
    }
}

/// How many input frames the output callback must pull from the sample
/// channel before it can fill `out_len` output samples: with resampling
/// bypassed, one per output sample; otherwise whatever the resampler's
/// next chunk still misses beyond the `buffered` frames already gathered.
pub fn frames_to_request(bypass_resampler: bool, out_len: usize, chunk_input_frames: usize,
    buffered: usize) -> (r: usize)
    requires
        buffered <= chunk_input_frames,
    ensures
        bypass_resampler ==> r == out_len,
        !bypass_resampler ==> r == chunk_input_frames - buffered,
{
    if bypass_resampler {
        out_len
    } else {
        chunk_input_frames - buffered
    }
}

/// How many frames of silence the callback must append when the sample
/// channel ran dry: the resampler wants `needed` input frames but only
/// `available` arrived. Padding with the equilibrium value instead of
/// blocking keeps the real-time callback on its timing budget.
pub fn silence_padding(needed: usize, available: usize) -> (r: usize)
    ensures
        available < needed ==> r == needed - available,
        available >= needed ==> r == 0,
{
    if available < needed {
        needed - available
    } else {
        0
    }
}

} // verus!
