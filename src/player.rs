//! The adapter that the GUI thread talks to, and the state it shares with the
//! playback worker.
//!
//! All of the shared state lives in one value. Whoever shares it between
//! threads wraps it in a lock, so each method below is one indivisible step of
//! the protocol between the GUI thread and the worker.

use vstd::prelude::*;

verus! {

/// Lowest accepted volume level; it means mute.
pub const MIN_VOLUME: i32 = 0;

/// Highest accepted volume level.
pub const MAX_VOLUME: i32 = 100;

/// Whether `v` is a volume level the native player accepts.
pub open spec fn is_valid_volume(v: int) -> bool {
    MIN_VOLUME <= v <= MAX_VOLUME
}

/// The accepted volume level nearest to `v`.
pub open spec fn clamped_volume(v: int) -> int {
    if v < MIN_VOLUME {
        MIN_VOLUME as int
    } else if v > MAX_VOLUME {
        MAX_VOLUME as int
    } else {
        v
    }
}

/// A volume request that was refused.
#[derive(Clone, Copy, Debug, PartialEq, Eq, Structural)]
pub enum VolumeError {
    /// The requested level lies outside `MIN_VOLUME..=MAX_VOLUME`.
    OutOfRange(i32),
}

/// Why a playback worker could not do its work.
#[derive(Clone, Copy, Debug, PartialEq, Eq, Structural)]
pub enum PlaybackError {
    /// The native player library could not be initialised.
    InstanceUnavailable,
    /// No native media player could be created.
    PlayerUnavailable,
    /// The native player refused to open media from the station URL.
    MediaRejected,
    /// The native player refused to start playing.
    StartRejected,
    /// The native player refused a volume level.
    VolumeRejected,
}

impl VolumeError {
    /// A sentence that describes the error.
    pub fn message(&self) -> (r: String)
        ensures
            r@ == "the volume must lie between 0 and 100"@,
    {
        match self {
            VolumeError::OutOfRange(_) => "the volume must lie between 0 and 100".to_owned(),
        }
    }
}

/// The sentence that describes playback error `e`.
pub open spec fn playback_error_text(e: PlaybackError) -> Seq<char> {
    match e {
        PlaybackError::InstanceUnavailable => "the native player could not be initialised"@,
        PlaybackError::PlayerUnavailable => "no native media player could be created"@,
        PlaybackError::MediaRejected => "the station URL could not be opened"@,
        PlaybackError::StartRejected => "the station could not be played"@,
        PlaybackError::VolumeRejected => "the volume could not be changed"@,
    }
}

impl PlaybackError {
    /// A sentence that describes the error.
    pub fn message(&self) -> (r: String)
        ensures
            r@ == playback_error_text(*self),
    {
        match self {
            PlaybackError::InstanceUnavailable => "the native player could not be initialised".to_owned(),
            PlaybackError::PlayerUnavailable => "no native media player could be created".to_owned(),
            PlaybackError::MediaRejected => "the station URL could not be opened".to_owned(),
            PlaybackError::StartRejected => "the station could not be played".to_owned(),
            PlaybackError::VolumeRejected => "the volume could not be changed".to_owned(),
        }
    }
}

/// What the adapter and the worker share, as plain values.
pub struct PlayerView {
    /// Whether playback is wanted.
    pub is_playing: bool,
    /// Whether `volume` was set and the worker has not applied it yet.
    pub is_volume_changed: bool,
    /// The latest requested volume level.
    pub volume: int,
    /// The station URL that the next worker will open.
    pub url: Seq<char>,
    /// The ticket number of the only worker that may play; 0 before the first.
    pub generation: nat,
    /// What made the latest worker give up, if it did.
    pub last_error: Option<PlaybackError>,
}

/// The state right after `VLCMediaPlayer::new(volume)`.
pub open spec fn initial_state(volume: int) -> PlayerView {
    PlayerView {
        is_playing: false,
        is_volume_changed: false,
        volume: clamped_volume(volume),
        url: Seq::empty(),
        generation: 0,
        last_error: None,
    }
}

/// The state after the station URL was set to `url`.
pub open spec fn after_set_src(s: PlayerView, url: Seq<char>) -> PlayerView {
    PlayerView { url: url, ..s }
}

/// Whether `play` starts a new worker in state `s`: playback is not yet
/// wanted, and a fresh ticket number is left.
pub open spec fn can_start(s: PlayerView) -> bool {
    !s.is_playing && s.generation < u64::MAX
}

/// The state after `play`.
pub open spec fn after_play(s: PlayerView) -> PlayerView {
    if can_start(s) {
        PlayerView { is_playing: true, generation: s.generation + 1, last_error: None, ..s }
    } else {
        s
    }
}

/// The ticket that `play` hands out in state `s` when it starts a worker:
/// the next ticket number and the station URL recorded so far.
pub open spec fn ticket_of(s: PlayerView) -> StartView {
    StartView { generation: s.generation + 1, url: s.url }
}

/// The state after `pause`.
pub open spec fn after_pause(s: PlayerView) -> PlayerView {
    PlayerView { is_playing: false, ..s }
}

/// The state after `set_volume(v)`: an accepted level replaces the previous
/// request and marks it for the worker; a refused one changes nothing.
pub open spec fn after_set_volume(s: PlayerView, v: int) -> PlayerView {
    if is_valid_volume(v) {
        PlayerView { volume: v, is_volume_changed: true, ..s }
    } else {
        s
    }
}

/// Whether the worker holding ticket `g` may keep playing in state `s`.
pub open spec fn is_current(s: PlayerView, g: nat) -> bool {
    s.is_playing && s.generation == g
}

/// What the worker holding ticket `g` is told when it polls in state `s`.
pub open spec fn signal_for(s: PlayerView, g: nat) -> WorkerSignal {
    if !is_current(s, g) {
        WorkerSignal::Stop
    } else if s.is_volume_changed {
        WorkerSignal::Volume(s.volume as i32)
    } else {
        WorkerSignal::Idle
    }
}

/// The state after the worker holding ticket `g` polled: a pending volume that
/// it was handed is no longer pending.
pub open spec fn after_poll(s: PlayerView, g: nat) -> PlayerView {
    if is_current(s, g) && s.is_volume_changed {
        PlayerView { is_volume_changed: false, ..s }
    } else {
        s
    }
}

/// The state after the worker holding ticket `g` reported `e`: if that worker
/// is the latest one, playback is no longer wanted and `e` is kept.
pub open spec fn after_failure(s: PlayerView, g: nat, e: PlaybackError) -> PlayerView {
    if s.generation == g {
        PlayerView { is_playing: false, last_error: Some(e), ..s }
    } else {
        s
    }
}

/// What a polling worker is told.
#[derive(Clone, Copy, Debug, PartialEq, Eq, Structural)]
pub enum WorkerSignal {
    /// Playback is no longer wanted from this worker: stop the native player.
    Stop,
    /// Apply this volume level to the native player.
    Volume(i32),
    /// Nothing to do.
    Idle,
}

/// The permission to run one playback worker: its ticket number and a copy of
/// the station URL taken when playback was requested.
pub struct WorkerStart {
    generation: u64,
    url: String,
}

/// The contents of a [`WorkerStart`].
pub struct StartView {
    pub generation: nat,
    pub url: Seq<char>,
}

impl View for WorkerStart {
    type V = StartView;

    closed spec fn view(&self) -> StartView {
        StartView { generation: self.generation as nat, url: self.url@ }
    }
}

impl WorkerStart {
    /// The ticket number.
    pub fn generation(&self) -> (r: u64)
        ensures
            r == self@.generation,
    {
        self.generation
    }

    /// The station URL that the worker is to open.
    pub fn url(&self) -> (r: &str)
        ensures
            r@ == self@.url,
    {
        self.url.as_str()
    }
}

/// The media player adapter used from the GUI thread.
///
/// It records the station to stream and the wanted playing state and volume.
/// The native player itself belongs to a playback worker, which polls this
/// value: a volume level is handed to the worker once, and only the worker
/// holding the latest ticket may play.
pub struct VLCMediaPlayer {
    is_playing: bool,
    is_volume_changed: bool,
    volume: i32,
    url: String,
    generation: u64,
    last_error: Option<PlaybackError>,
}

impl View for VLCMediaPlayer {
    type V = PlayerView;

    closed spec fn view(&self) -> PlayerView {
        PlayerView {
            is_playing: self.is_playing,
            is_volume_changed: self.is_volume_changed,
            volume: self.volume as int,
            url: self.url@,
            generation: self.generation as nat,
            last_error: self.last_error,
        }
    }
}

impl VLCMediaPlayer {
    #[verifier::type_invariant]
    spec fn volume_is_valid(&self) -> bool {
        is_valid_volume(self.volume as int)
    }

    /// Checks that `volume` is an accepted level and hands it back.
    pub fn validate_volume(volume: i32) -> (r: Result<i32, VolumeError>)
        ensures
            is_valid_volume(volume as int) ==> r == Ok::<i32, VolumeError>(volume),
            !is_valid_volume(volume as int) ==> r == Err::<i32, VolumeError>(
                VolumeError::OutOfRange(volume),
            ),
    {
        if MIN_VOLUME <= volume && volume <= MAX_VOLUME {
            Ok(volume)
        } else {
            Err(VolumeError::OutOfRange(volume))
        }
    }

    /// The accepted level nearest to `volume`.
    pub fn clamp_volume(volume: i32) -> (r: i32)
        ensures
            r as int == clamped_volume(volume as int),
    {
        if volume < MIN_VOLUME {
            MIN_VOLUME
        } else if volume > MAX_VOLUME {
            MAX_VOLUME
        } else {
            volume
        }
    }

    /// A stopped player with no station and the given volume level, where 0 is
    /// mute and 100 the loudest; a level outside that range is clamped to it.
    pub fn new(volume: i32) -> (r: Self)
        ensures
            r@ == initial_state(volume as int),
    {
        VLCMediaPlayer {
            is_playing: false,
            is_volume_changed: false,
            volume: VLCMediaPlayer::clamp_volume(volume),
            url: String::new(),
            generation: 0,
            last_error: None,
        }
    }

    /// Records the station URL that the next worker will open. A worker that
    /// already runs keeps its own copy.
    pub fn set_src(&mut self, url: &str)
        ensures
            final(self)@ == after_set_src(old(self)@, url@),
    {
        proof {
            use_type_invariant(&*self);
        }
        self.url = url.to_owned();
    }

    /// Asks for playback. When playback was not wanted yet, this takes the next
    /// ticket number and returns the ticket for the worker to spawn, with a
    /// copy of the current station URL. When it was wanted already, the worker
    /// that runs keeps running and no second one is started; the same holds in
    /// the unreachable case that every ticket number is used up.
    pub fn play(&mut self) -> (r: Option<WorkerStart>)
        ensures
            final(self)@ == after_play(old(self)@),
            can_start(old(self)@) <==> r is Some,
            r matches Some(t) ==> t@ == ticket_of(old(self)@),
    {
        proof {
            use_type_invariant(&*self);
        }
        if self.is_playing || self.generation == u64::MAX {
            return None;
        }
        self.generation = self.generation + 1;
        self.is_playing = true;
        self.last_error = None;
        Some(WorkerStart { generation: self.generation, url: self.url.clone() })
    }

    /// Switches to the station at `url`: records it, stops the worker that
    /// may be running, and starts a new one that opens `url`.
    pub fn play_station(&mut self, url: &str) -> (r: Option<WorkerStart>)
        ensures
            final(self)@ == after_play(after_pause(after_set_src(old(self)@, url@))),
            old(self)@.generation < u64::MAX <==> r is Some,
            r matches Some(t) ==> t@ == ticket_of(after_set_src(old(self)@, url@)),
    {
        self.set_src(url);
        self.pause();
        self.play()
    }

    /// Asks for playback to stop. The running worker notices on its next poll;
    /// this does not wait for it.
    pub fn pause(&mut self)
        ensures
            final(self)@ == after_pause(old(self)@),
    {
        proof {
            use_type_invariant(&*self);
        }
        self.is_playing = false;
    }

    /// Flips the wanted playing state and returns the new one, with the ticket
    /// of the worker to spawn when playback was started.
    pub fn toggle_play_and_get_is_playing(&mut self) -> (r: (bool, Option<WorkerStart>))
        ensures
            old(self)@.is_playing ==> final(self)@ == after_pause(old(self)@) && r.1 is None,
            !old(self)@.is_playing ==> final(self)@ == after_play(old(self)@) && (
            r.1 matches Some(t) ==> t@ == ticket_of(old(self)@)) && (can_start(old(self)@)
                <==> r.1 is Some),
            r.0 == final(self)@.is_playing,
    {
        if self.is_playing {
            self.pause();
            (false, None)
        } else {
            let start = self.play();
            (self.is_playing, start)
        }
    }

    /// Requests a volume level, where 0 is mute and 100 the loudest. An
    /// accepted level replaces any request the worker has not applied yet; a
    /// level outside the range is refused and changes nothing.
    pub fn set_volume(&mut self, volume: i32) -> (r: Result<(), VolumeError>)
        ensures
            final(self)@ == after_set_volume(old(self)@, volume as int),
            is_valid_volume(volume as int) <==> r is Ok,
            !is_valid_volume(volume as int) ==> r == Err::<(), VolumeError>(
                VolumeError::OutOfRange(volume),
            ),
    {
        proof {
            use_type_invariant(&*self);
        }
        match VLCMediaPlayer::validate_volume(volume) {
            Ok(v) => {
                self.volume = v;
                self.is_volume_changed = true;
                Ok(())
            },
            Err(e) => Err(e),
        }
    }

    /// Whether playback is wanted.
    pub fn is_playing(&self) -> (r: bool)
        ensures
            r == self@.is_playing,
    {
        self.is_playing
    }

    /// Whether a requested volume level waits for the worker.
    pub fn is_volume_changed(&self) -> (r: bool)
        ensures
            r == self@.is_volume_changed,
    {
        self.is_volume_changed
    }

    /// The latest requested volume level.
    pub fn volume(&self) -> (r: i32)
        ensures
            r == self@.volume,
            is_valid_volume(r as int),
    {
        proof {
            use_type_invariant(self);
        }
        self.volume
    }

    /// The station URL that the next worker will open.
    pub fn src(&self) -> (r: &str)
        ensures
            r@ == self@.url,
    {
        self.url.as_str()
    }

    /// The ticket number of the latest worker; 0 before the first.
    pub fn generation(&self) -> (r: u64)
        ensures
            r == self@.generation,
    {
        self.generation
    }

    /// What made the latest worker give up, if it did.
    pub fn last_error(&self) -> (r: Option<PlaybackError>)
        ensures
            r == self@.last_error,
    {
        self.last_error
    }

    /// One poll of the worker holding ticket `generation`. A worker that is not
    /// the latest, or polls after playback was stopped, is told to stop.
    /// Otherwise it is handed the pending volume level, at most once, or told
    /// that there is nothing to do. Telling the latest worker to stop leaves
    /// `is_playing` as it is: it is already cleared then.
    pub fn poll_worker(&mut self, generation: u64) -> (r: WorkerSignal)
        ensures
            r == signal_for(old(self)@, generation as nat),
            final(self)@ == after_poll(old(self)@, generation as nat),
    {
        proof {
            use_type_invariant(&*self);
        }
        if !self.is_playing || self.generation != generation {
            WorkerSignal::Stop
        } else if self.is_volume_changed {
            self.is_volume_changed = false;
            WorkerSignal::Volume(self.volume)
        } else {
            WorkerSignal::Idle
        }
    }

    /// The worker holding ticket `generation` gave up with `error`. If it is
    /// the latest worker, playback is no longer wanted and the error is kept
    /// for the GUI to show; a report from an older worker changes nothing.
    pub fn report_failure(&mut self, generation: u64, error: PlaybackError)
        ensures
            final(self)@ == after_failure(old(self)@, generation as nat, error),
    {
        proof {
            use_type_invariant(&*self);
        }
        if self.generation == generation {
            self.is_playing = false;
            self.last_error = Some(error);
        }
    }
}

} // verus!
