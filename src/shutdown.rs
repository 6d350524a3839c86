//! Decisions of the shutdown watcher.
//!
//! A background task waits on a channel that request workers may signal. The
//! task hands each thing it sees to `on_event` and performs the action it
//! gets back: the first signal asks the server to stop accepting connections
//! and drain the ones in flight; a channel whose senders are all gone means
//! that shutdown will never be asked for, and the watcher ends without stopping
//! anything.

use vstd::prelude::*;

verus! {

/// Where the watcher stands.
#[derive(Clone, Copy, Debug, PartialEq, Eq, Structural)]
pub enum WatchState {
    /// Waiting for a signal.
    Waiting,
    /// A stop has been asked for; the server is draining.
    Stopping,
    /// The channel closed before any signal: nothing will be stopped.
    Finished,
}

/// What the watcher saw on its channel.
#[derive(Clone, Copy, Debug, PartialEq, Eq, Structural)]
pub enum WatchEvent {
    /// A shutdown signal arrived.
    Signal,
    /// Every sender is gone.
    Disconnected,
}

/// What the watcher asks its runner to do.
#[derive(Clone, Copy, Debug, PartialEq, Eq, Structural)]
pub enum WatchAction {
    /// Stop the server; with `graceful`, in-flight requests finish first.
    StopServer { graceful: bool },
    /// Stop watching.
    Exit,
    /// Do nothing.
    Ignore,
}

/// The next state and action of the watcher.
pub open spec fn watch_spec(state: WatchState, event: WatchEvent) -> (WatchState, WatchAction) {
    match (state, event) {
        (WatchState::Waiting, WatchEvent::Signal) => (
            WatchState::Stopping,
            WatchAction::StopServer { graceful: true },
        ),
        (WatchState::Waiting, WatchEvent::Disconnected) => (WatchState::Finished, WatchAction::Exit),
        _ => (state, WatchAction::Ignore),
    }
}

/// How many stops a watcher in `state` asks for over `events`.
pub open spec fn stops_over(state: WatchState, events: Seq<WatchEvent>) -> nat
    decreases events.len(),
{
    if events.len() == 0 {
        0
    } else {
        let (next, action) = watch_spec(state, events[0]);
        let here: nat = if action is StopServer {
            1
        } else {
            0
        };
        here + stops_over(next, events.subrange(1, events.len() as int))
    }
}

/// Whether the watcher still waits for events.
pub fn is_waiting(state: WatchState) -> (r: bool)
    ensures
        r == (state == WatchState::Waiting),
{
    match state {
        WatchState::Waiting => true,
        _ => false,
    }
}

/// Decides what the watcher does with one event.
pub fn on_event(state: WatchState, event: WatchEvent) -> (r: (WatchState, WatchAction))
    ensures
        r == watch_spec(state, event),
{
    match (state, event) {
        (WatchState::Waiting, WatchEvent::Signal) => (
            WatchState::Stopping,
            WatchAction::StopServer { graceful: true },
        ),
        (WatchState::Waiting, WatchEvent::Disconnected) => (WatchState::Finished, WatchAction::Exit),
        _ => (state, WatchAction::Ignore),
    }
}

proof fn lemma_no_stop_after_waiting(state: WatchState, events: Seq<WatchEvent>)
    requires
        state != WatchState::Waiting,
    ensures
        stops_over(state, events) == 0,
    decreases events.len(),
{
    if events.len() > 0 {
        lemma_no_stop_after_waiting(state, events.subrange(1, events.len() as int));
    }
}

/// A waiting watcher asks for exactly one graceful stop if the first thing it
/// sees is a signal, whatever follows, and for none otherwise: signals after
/// the first are of no effect, and a closed channel stops nothing.
pub proof fn lemma_signal_stops_once(events: Seq<WatchEvent>)
    ensures
        stops_over(WatchState::Waiting, events) == (if events.len() > 0 && events[0]
            == WatchEvent::Signal {
            1nat
        } else {
            0nat
        }),
        events.len() > 0 && events[0] == WatchEvent::Signal ==> watch_spec(
            WatchState::Waiting,
            events[0],
        ).1 == (WatchAction::StopServer { graceful: true }),
{
    if events.len() > 0 {
        let (next, _) = watch_spec(WatchState::Waiting, events[0]);
        lemma_no_stop_after_waiting(next, events.subrange(1, events.len() as int));
    }
}

} // verus!
