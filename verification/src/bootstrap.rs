//! The startup sequence, as a verified state machine.
//!
//! Before the service accepts its first connection it must clear a
//! stale socket file left at the bind path by an earlier unclean
//! shutdown, then bind a fresh listening socket there. The
//! filesystem and socket calls themselves happen outside the
//! library; the binary reports each outcome as a [`StartupEvent`]
//! and performs the [`StartupAction`] that [`startup_step`] decides.
//! The contracts pin every decision down, and the lemmas at the end
//! state the two guarantees that matter: a stale file is recovered
//! from by removing it, and no connection is ever accepted unless
//! the bind succeeded.

use vstd::prelude::*;

verus! {

/// Where startup stands.
#[derive(Clone, Copy, PartialEq, Eq, Structural, Debug)]
pub enum StartupState {
    /// Looking at the bind path to see whether a stale socket file
    /// is present.
    Checking,
    /// A stale file was found and its removal is in flight.
    Removing,
    /// The path is clear and the bind is in flight.
    Binding,
    /// The listener is bound; the server may accept connections.
    Serving,
    /// Startup failed; the process exits with the error printed.
    Aborted,
}

/// What the runtime observed since the last decision.
#[derive(Clone, Copy, PartialEq, Eq, Structural, Debug)]
pub enum StartupEvent {
    /// A file already sits at the bind path.
    StaleFound,
    /// Nothing sits at the bind path.
    PathClear,
    /// The stale file was removed.
    RemoveSucceeded,
    /// Removing the stale file failed.
    RemoveFailed,
    /// The socket was bound at the path.
    BindSucceeded,
    /// Binding failed (permission denied, parent directory missing,
    /// and the like).
    BindFailed,
}

/// What the runtime must do next.
#[derive(Clone, Copy, PartialEq, Eq, Structural, Debug)]
pub enum StartupAction {
    /// Delete the file at the bind path.
    RemoveStaleFile,
    /// Bind a listening socket at the path.
    BindSocket,
    /// Start serving requests.
    AcceptConnections,
    /// Print the error and exit the process.
    ExitWithError,
}

/// The startup transition relation: from a state and an observed
/// event to the next state and the action to perform. An event that
/// cannot belong to the state aborts startup rather than guessing.
pub open spec fn startup_step_spec(s: StartupState, e: StartupEvent) -> (
    StartupState,
    StartupAction,
) {
    match (s, e) {
        (StartupState::Checking, StartupEvent::StaleFound) => (
            StartupState::Removing,
            StartupAction::RemoveStaleFile,
        ),
        (StartupState::Checking, StartupEvent::PathClear) => (
            StartupState::Binding,
            StartupAction::BindSocket,
        ),
        (StartupState::Removing, StartupEvent::RemoveSucceeded) => (
            StartupState::Binding,
            StartupAction::BindSocket,
        ),
        (StartupState::Binding, StartupEvent::BindSucceeded) => (
            StartupState::Serving,
            StartupAction::AcceptConnections,
        ),
        _ => (StartupState::Aborted, StartupAction::ExitWithError),
    }
}

/// Decides the next startup step. The runtime starts in
/// [`StartupState::Checking`], feeds in what it observed, and
/// performs the returned action.
pub fn startup_step(s: StartupState, e: StartupEvent) -> (r: (StartupState, StartupAction))
    ensures
        r == startup_step_spec(s, e),
{
    match (s, e) {
        (StartupState::Checking, StartupEvent::StaleFound) => (
            StartupState::Removing,
            StartupAction::RemoveStaleFile,
        ),
        (StartupState::Checking, StartupEvent::PathClear) => (
            StartupState::Binding,
            StartupAction::BindSocket,
        ),
        (StartupState::Removing, StartupEvent::RemoveSucceeded) => (
            StartupState::Binding,
            StartupAction::BindSocket,
        ),
        (StartupState::Binding, StartupEvent::BindSucceeded) => (
            StartupState::Serving,
            StartupAction::AcceptConnections,
        ),
        _ => (StartupState::Aborted, StartupAction::ExitWithError),
    }
}

/// Startup with a pre-existing stale socket file at the bind path
/// succeeds after removing it: finding the stale file leads to its
/// removal, a successful removal leads straight to the bind, and a
/// successful bind starts the server.
pub proof fn lemma_stale_socket_recovery()
    ensures
        startup_step_spec(StartupState::Checking, StartupEvent::StaleFound) == (
            StartupState::Removing,
            StartupAction::RemoveStaleFile,
        ),
        startup_step_spec(StartupState::Removing, StartupEvent::RemoveSucceeded) == (
            StartupState::Binding,
            StartupAction::BindSocket,
        ),
        startup_step_spec(StartupState::Binding, StartupEvent::BindSucceeded) == (
            StartupState::Serving,
            StartupAction::AcceptConnections,
        ),
{
}

/// A startup failure aborts the process before any connection is
/// accepted: a failed removal or a failed bind (for instance when
/// the bind path's parent directory is missing or unwritable) ends
/// in [`StartupState::Aborted`] with the process exiting, and no
/// state or event other than a successful bind out of
/// [`StartupState::Binding`] ever produces
/// [`StartupAction::AcceptConnections`].
pub proof fn lemma_startup_failure_aborts()
    ensures
        startup_step_spec(StartupState::Removing, StartupEvent::RemoveFailed) == (
            StartupState::Aborted,
            StartupAction::ExitWithError,
        ),
        startup_step_spec(StartupState::Binding, StartupEvent::BindFailed) == (
            StartupState::Aborted,
            StartupAction::ExitWithError,
        ),
        forall|s: StartupState, e: StartupEvent|
            startup_step_spec(s, e).1 == StartupAction::AcceptConnections ==> s
                == StartupState::Binding && e == StartupEvent::BindSucceeded,
{
}

} // verus!
