use platform::bootstrap::{startup_step, StartupAction, StartupEvent, StartupState};

const STATES: [StartupState; 5] = [
    StartupState::Checking,
    StartupState::Removing,
    StartupState::Binding,
    StartupState::Serving,
    StartupState::Aborted,
];

const EVENTS: [StartupEvent; 6] = [
    StartupEvent::StaleFound,
    StartupEvent::PathClear,
    StartupEvent::RemoveSucceeded,
    StartupEvent::RemoveFailed,
    StartupEvent::BindSucceeded,
    StartupEvent::BindFailed,
];

#[test]
fn stale_socket_file_is_removed_then_bound() {
    let (s1, a1) = startup_step(StartupState::Checking, StartupEvent::StaleFound);
    assert_eq!(s1, StartupState::Removing);
    assert_eq!(a1, StartupAction::RemoveStaleFile);

    let (s2, a2) = startup_step(s1, StartupEvent::RemoveSucceeded);
    assert_eq!(s2, StartupState::Binding);
    assert_eq!(a2, StartupAction::BindSocket);

    let (s3, a3) = startup_step(s2, StartupEvent::BindSucceeded);
    assert_eq!(s3, StartupState::Serving);
    assert_eq!(a3, StartupAction::AcceptConnections);
}

#[test]
fn clear_path_binds_at_once() {
    let (s1, a1) = startup_step(StartupState::Checking, StartupEvent::PathClear);
    assert_eq!(s1, StartupState::Binding);
    assert_eq!(a1, StartupAction::BindSocket);
}

#[test]
fn remove_failure_aborts() {
    let (s, a) = startup_step(StartupState::Removing, StartupEvent::RemoveFailed);
    assert_eq!(s, StartupState::Aborted);
    assert_eq!(a, StartupAction::ExitWithError);
}

#[test]
fn bind_failure_aborts() {
    let (s, a) = startup_step(StartupState::Binding, StartupEvent::BindFailed);
    assert_eq!(s, StartupState::Aborted);
    assert_eq!(a, StartupAction::ExitWithError);
}

#[test]
fn no_connection_accepted_without_successful_bind() {
    for state in STATES {
        for event in EVENTS {
            let (_, action) = startup_step(state, event);
            if action == StartupAction::AcceptConnections {
                assert_eq!(state, StartupState::Binding);
                assert_eq!(event, StartupEvent::BindSucceeded);
            }
        }
    }
}

#[test]
fn unexpected_events_abort() {
    let (s1, a1) = startup_step(StartupState::Checking, StartupEvent::BindSucceeded);
    assert_eq!(s1, StartupState::Aborted);
    assert_eq!(a1, StartupAction::ExitWithError);

    let (s2, a2) = startup_step(StartupState::Aborted, StartupEvent::PathClear);
    assert_eq!(s2, StartupState::Aborted);
    assert_eq!(a2, StartupAction::ExitWithError);
}
