//! What the protocol between the adapter and its playback workers guarantees,
//! stated over the transitions that the adapter's and the worker's methods
//! follow.

use vstd::prelude::*;
use crate::player::{
    after_pause, after_play, after_set_src, after_set_volume, can_start, is_current,
    is_valid_volume, ticket_of, PlayerView,
};
use crate::worker::{
    is_active, poll_action, shared_after_worker_poll, worker_after_failure, worker_after_poll,
    worker_after_started, worker_for, WorkerAction, WorkerPhase, WorkerView,
};

verus! {

/// A volume level set while a worker plays reaches that worker's native player
/// on its next poll, exactly as set, and only once: afterwards no level is
/// pending, and the poll after that has nothing to apply.
pub proof fn lemma_volume_applied_once(w: WorkerView, s: PlayerView, v: int)
    requires
        w.phase == WorkerPhase::Playing,
        is_current(s, w.generation),
        is_valid_volume(v),
    ensures
        ({
            let s1 = after_set_volume(s, v);
            let w2 = worker_after_poll(w, s1);
            let s2 = shared_after_worker_poll(w, s1);
            &&& poll_action(w, s1) == WorkerAction::SetVolume(v as i32)
            &&& !s2.is_volume_changed
            &&& s2.volume == v
            &&& poll_action(w2, s2) == WorkerAction::Continue
        }),
{
}

/// Only the latest accepted volume level survives until the worker's next
/// poll: setting `a` and then `b` leaves the same state as setting `b` alone,
/// so a playing worker applies `b` and never sees `a`.
pub proof fn lemma_last_volume_wins(w: WorkerView, s: PlayerView, a: int, b: int)
    requires
        is_valid_volume(a),
        is_valid_volume(b),
    ensures
        after_set_volume(after_set_volume(s, a), b) == after_set_volume(s, b),
        w.phase == WorkerPhase::Playing && is_current(s, w.generation) ==> poll_action(
            w,
            after_set_volume(after_set_volume(s, a), b),
        ) == WorkerAction::SetVolume(b as i32),
{
}

/// After `pause`, a playing worker is told to stop on its next poll and moves
/// to stopping; from then on every poll tells it to leave, so the native player
/// receives the stop instruction once.
pub proof fn lemma_pause_stops_once(w: WorkerView, s: PlayerView)
    requires
        w.phase == WorkerPhase::Playing,
    ensures
        ({
            let s1 = after_pause(s);
            let w2 = worker_after_poll(w, s1);
            &&& poll_action(w, s1) == WorkerAction::Stop
            &&& w2.phase == WorkerPhase::Stopping
            &&& forall|s2: PlayerView| #[trigger]
                poll_action(w2, s2) == WorkerAction::Exit && worker_after_poll(w2, s2).phase
                    == WorkerPhase::Terminated
        }),
{
}

/// A worker that has begun to stop never plays again and is never told to stop
/// a second time, whatever happens to the shared state.
pub proof fn lemma_stopping_is_final(w: WorkerView, s: PlayerView)
    requires
        w.phase == WorkerPhase::Stopping || w.phase == WorkerPhase::Terminated,
    ensures
        poll_action(w, s) == WorkerAction::Exit,
        worker_after_poll(w, s).phase == WorkerPhase::Terminated,
        worker_after_started(w) == w,
        worker_after_failure(w) == w,
        shared_after_worker_poll(w, s) == s,
{
}

/// Calling `play` twice with no `pause` between starts at most one worker: the
/// second call hands out no ticket and changes nothing.
pub proof fn lemma_second_play_starts_nothing(s: PlayerView)
    ensures
        !can_start(after_play(s)),
        after_play(after_play(s)) == after_play(s),
{
}

/// At most one worker is active at a time: two active workers hold the same
/// ticket, and every ticket handed out is newer than all earlier ones.
pub proof fn lemma_single_active_worker(w1: WorkerView, w2: WorkerView, s: PlayerView)
    ensures
        is_active(w1, s) && is_active(w2, s) ==> w1.generation == w2.generation,
        can_start(s) ==> ticket_of(s).generation > s.generation && after_play(s).generation
            == ticket_of(s).generation,
{
}

/// A worker whose ticket is not the latest is told to stop on its first poll
/// as a player and takes nothing from the shared state.
pub proof fn lemma_stale_worker_stops(w: WorkerView, s: PlayerView)
    requires
        w.phase == WorkerPhase::Playing,
        w.generation != s.generation,
    ensures
        poll_action(w, s) == WorkerAction::Stop,
        shared_after_worker_poll(w, s) == s,
{
}

/// After `set_src(u)` and a `play` that starts a worker, the worker opens its
/// media from exactly `u`.
pub proof fn lemma_worker_opens_source(s: PlayerView, u: Seq<char>)
    requires
        can_start(s),
    ensures
        can_start(after_set_src(s, u)),
        worker_for(ticket_of(after_set_src(s, u))).url == u,
{
}

} // verus!
