use session_counter::shutdown::{is_waiting, on_event, WatchAction, WatchEvent, WatchState};

#[test]
fn first_signal_stops_gracefully() {
    let (state, action) = on_event(WatchState::Waiting, WatchEvent::Signal);
    assert_eq!(state, WatchState::Stopping);
    assert_eq!(action, WatchAction::StopServer { graceful: true });
    assert!(!is_waiting(state));
}

#[test]
fn later_signals_are_ignored() {
    let (state, _) = on_event(WatchState::Waiting, WatchEvent::Signal);
    let (state, action) = on_event(state, WatchEvent::Signal);
    assert_eq!(state, WatchState::Stopping);
    assert_eq!(action, WatchAction::Ignore);
    let (state, action) = on_event(state, WatchEvent::Disconnected);
    assert_eq!(state, WatchState::Stopping);
    assert_eq!(action, WatchAction::Ignore);
}

#[test]
fn closed_channel_stops_nothing() {
    let (state, action) = on_event(WatchState::Waiting, WatchEvent::Disconnected);
    assert_eq!(state, WatchState::Finished);
    assert_eq!(action, WatchAction::Exit);
    assert!(!is_waiting(state));
    assert!(is_waiting(WatchState::Waiting));
}
