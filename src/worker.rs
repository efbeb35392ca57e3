//! The playback worker: the owner of the native player, as a state machine.
//!
//! The thread that runs a worker opens the native player from the ticket's URL,
//! reports how that went, and then polls in a loop, doing what each poll
//! returns and yielding in between. The decisions are all made here; the
//! thread only performs them.

use vstd::prelude::*;
use crate::player::{
    after_failure, after_poll, is_current, signal_for, StartView, PlaybackError, PlayerView, VLCMediaPlayer, WorkerSignal,
    WorkerStart,
};

verus! {

/// Where a worker is in its life.
#[derive(Clone, Copy, Debug, PartialEq, Eq, Structural)]
pub enum WorkerPhase {
    /// The native player is being opened.
    Starting,
    /// The native player plays; the worker polls.
    Playing,
    /// The native player was told to stop.
    Stopping,
    /// The worker is done and releases the native player.
    Terminated,
}

/// What the thread running a worker does after a poll.
#[derive(Clone, Copy, Debug, PartialEq, Eq, Structural)]
pub enum WorkerAction {
    /// Nothing; yield and poll again.
    Continue,
    /// Set the native player's volume to this level, then yield and poll again.
    SetVolume(i32),
    /// Stop the native player, then poll again.
    Stop,
    /// Leave the loop and release the native player.
    Exit,
}

/// The contents of a [`PlaybackWorker`].
pub struct WorkerView {
    /// The ticket number the worker was started with.
    pub generation: nat,
    /// The station URL the worker opens.
    pub url: Seq<char>,
    /// Where the worker is in its life.
    pub phase: WorkerPhase,
}

/// A fresh worker for ticket `t`.
pub open spec fn worker_for(t: StartView) -> WorkerView {
    WorkerView { generation: t.generation, url: t.url, phase: WorkerPhase::Starting }
}

/// Whether worker `w` may play in shared state `s`: it has not begun to stop,
/// and it holds the latest ticket while playback is wanted.
pub open spec fn is_active(w: WorkerView, s: PlayerView) -> bool {
    (w.phase == WorkerPhase::Starting || w.phase == WorkerPhase::Playing) && is_current(
        s,
        w.generation,
    )
}

/// The worker's state after the native player was opened and started.
pub open spec fn worker_after_started(w: WorkerView) -> WorkerView {
    if w.phase == WorkerPhase::Starting {
        WorkerView { phase: WorkerPhase::Playing, ..w }
    } else {
        w
    }
}

/// The worker's state after it gave up: one that never got to play has
/// nothing to stop and is done; one that plays learns on its next poll that
/// it must stop.
pub open spec fn worker_after_failure(w: WorkerView) -> WorkerView {
    if w.phase == WorkerPhase::Starting {
        WorkerView { phase: WorkerPhase::Terminated, ..w }
    } else {
        w
    }
}

/// The shared state after worker `w` reported `e`.
pub open spec fn shared_after_failure(w: WorkerView, s: PlayerView, e: PlaybackError) -> PlayerView {
    after_failure(s, w.generation, e)
}

/// What worker `w` does after polling shared state `s`.
pub open spec fn poll_action(w: WorkerView, s: PlayerView) -> WorkerAction {
    match w.phase {
        WorkerPhase::Starting => WorkerAction::Continue,
        WorkerPhase::Playing => match signal_for(s, w.generation) {
            WorkerSignal::Stop => WorkerAction::Stop,
            WorkerSignal::Volume(v) => WorkerAction::SetVolume(v),
            WorkerSignal::Idle => WorkerAction::Continue,
        },
        WorkerPhase::Stopping => WorkerAction::Exit,
        WorkerPhase::Terminated => WorkerAction::Exit,
    }
}

/// Worker `w`'s state after polling shared state `s`.
pub open spec fn worker_after_poll(w: WorkerView, s: PlayerView) -> WorkerView {
    match w.phase {
        WorkerPhase::Playing => if signal_for(s, w.generation) == WorkerSignal::Stop {
            WorkerView { phase: WorkerPhase::Stopping, ..w }
        } else {
            w
        },
        WorkerPhase::Stopping => WorkerView { phase: WorkerPhase::Terminated, ..w },
        _ => w,
    }
}

/// The shared state after worker `w` polled it in state `s`.
pub open spec fn shared_after_worker_poll(w: WorkerView, s: PlayerView) -> PlayerView {
    if w.phase == WorkerPhase::Playing {
        after_poll(s, w.generation)
    } else {
        s
    }
}

/// A playback worker: the ticket it was started with and its phase.
pub struct PlaybackWorker {
    start: WorkerStart,
    phase: WorkerPhase,
}

impl View for PlaybackWorker {
    type V = WorkerView;

    closed spec fn view(&self) -> WorkerView {
        WorkerView {
            generation: self.start@.generation,
            url: self.start@.url,
            phase: self.phase,
        }
    }
}

impl PlaybackWorker {
    /// A worker for the ticket `start`, about to open the native player.
    pub fn new(start: WorkerStart) -> (r: Self)
        ensures
            r@ == worker_for(start@),
    {
        PlaybackWorker { start, phase: WorkerPhase::Starting }
    }

    /// The URL from which the native player is to open media: the one recorded
    /// when playback was requested.
    pub fn media_url(&self) -> (r: &str)
        ensures
            r@ == self@.url,
    {
        self.start.url()
    }

    /// The ticket number the worker was started with.
    pub fn generation(&self) -> (r: u64)
        ensures
            r == self@.generation,
    {
        self.start.generation()
    }

    /// Where the worker is in its life.
    pub fn phase(&self) -> (r: WorkerPhase)
        ensures
            r == self@.phase,
    {
        self.phase
    }

    /// The native player was opened and started: the worker begins to poll.
    pub fn started(&mut self)
        ensures
            final(self)@ == worker_after_started(old(self)@),
    {
        if self.phase == WorkerPhase::Starting {
            self.phase = WorkerPhase::Playing;
        }
    }

    /// The native player failed with `error`. The failure is reported to the
    /// adapter; a worker that never got to play is done at once, one that
    /// plays is told to stop on its next poll.
    pub fn fail(&mut self, player: &mut VLCMediaPlayer, error: PlaybackError)
        ensures
            final(self)@ == worker_after_failure(old(self)@),
            final(player)@ == shared_after_failure(old(self)@, old(player)@, error),
    {
        let generation = self.start.generation();
        player.report_failure(generation, error);
        if self.phase == WorkerPhase::Starting {
            self.phase = WorkerPhase::Terminated;
        }
    }

    /// One iteration of the poll loop against the adapter's state.
    pub fn poll(&mut self, player: &mut VLCMediaPlayer) -> (r: WorkerAction)
        ensures
            r == poll_action(old(self)@, old(player)@),
            final(self)@ == worker_after_poll(old(self)@, old(player)@),
            final(player)@ == shared_after_worker_poll(old(self)@, old(player)@),
    {
        match self.phase {
            WorkerPhase::Starting => WorkerAction::Continue,
            WorkerPhase::Playing => {
                let generation = self.start.generation();
                match player.poll_worker(generation) {
                    WorkerSignal::Stop => {
                        self.phase = WorkerPhase::Stopping;
                        WorkerAction::Stop
                    },
                    WorkerSignal::Volume(v) => WorkerAction::SetVolume(v),
                    WorkerSignal::Idle => WorkerAction::Continue,
                }
            },
            WorkerPhase::Stopping => {
                self.phase = WorkerPhase::Terminated;
                WorkerAction::Exit
            },
            WorkerPhase::Terminated => WorkerAction::Exit,
        }
    }
}

} // verus!
