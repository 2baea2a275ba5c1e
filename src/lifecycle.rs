use vstd::prelude::*;

verus! {

/// The life of a server: built, bound, serving, then stopped or failed.
#[derive(Clone, Copy, Debug, PartialEq, Eq, Structural)]
pub enum ServerState {
    Created,
    Bound,
    Running,
    Stopped,
    Failed,
}

/// What happened to the server since its last state.
#[derive(Clone, Copy, Debug, PartialEq, Eq, Structural)]
pub enum LifecycleEvent {
    /// The primary listener is bound.
    PrimaryBound,
    /// Parsing, resolving, TLS or binding of the primary listener failed.
    StartupFailed,
    /// `start` was called.
    StartRequested,
    /// The primary run loop returned.
    RunExited,
    /// The primary run loop failed.
    RunFailed,
}

/// The next state, and whether the redirect listeners are to be started now
/// in a unit of their own.
#[derive(Clone, Copy, Debug, PartialEq, Eq, Structural)]
pub struct LifecycleStep {
    pub state: ServerState,
    pub spawn_redirects: bool,
}

pub open spec fn next_state_of(s: ServerState, e: LifecycleEvent) -> ServerState {
    match (s, e) {
        (ServerState::Created, LifecycleEvent::PrimaryBound) => ServerState::Bound,
        (ServerState::Created, LifecycleEvent::StartupFailed) => ServerState::Failed,
        (ServerState::Bound, LifecycleEvent::StartRequested) => ServerState::Running,
        (ServerState::Running, LifecycleEvent::RunExited) => ServerState::Stopped,
        (ServerState::Running, LifecycleEvent::RunFailed) => ServerState::Failed,
        _ => s,
    }
}

/// Redirects are started once, when a bound server starts running, and
/// only where some legacy URL is configured.
pub open spec fn spawns_redirects(s: ServerState, e: LifecycleEvent, has_redirects: bool) -> bool {
    s == ServerState::Bound && e == LifecycleEvent::StartRequested && has_redirects
}

/// Takes the server from one state to the next on an event.
pub fn step(s: ServerState, e: LifecycleEvent, has_redirects: bool) -> (r: LifecycleStep)
    ensures
        r.state == next_state_of(s, e),
        r.spawn_redirects == spawns_redirects(s, e, has_redirects),
{
    let state = match (s, e) {
        (ServerState::Created, LifecycleEvent::PrimaryBound) => ServerState::Bound,
        (ServerState::Created, LifecycleEvent::StartupFailed) => ServerState::Failed,
        (ServerState::Bound, LifecycleEvent::StartRequested) => ServerState::Running,
        (ServerState::Running, LifecycleEvent::RunExited) => ServerState::Stopped,
        (ServerState::Running, LifecycleEvent::RunFailed) => ServerState::Failed,
        _ => s,
    };
    let spawn_redirects = match (s, e) {
        (ServerState::Bound, LifecycleEvent::StartRequested) => has_redirects,
        _ => false,
    };
    LifecycleStep { state, spawn_redirects }
}

/// Stopped and Failed are final: no event leaves them, and no redirect
/// listener is started from them.
pub proof fn lemma_final_states(s: ServerState, e: LifecycleEvent, has_redirects: bool)
    requires
        s == ServerState::Stopped || s == ServerState::Failed,
    ensures
        next_state_of(s, e) == s,
        !spawns_redirects(s, e, has_redirects),
{
}

/// A failed startup leaves no listener reachable: the server goes from
/// Created straight to Failed and never runs.
pub proof fn lemma_startup_failure_fatal(e: LifecycleEvent)
    ensures
        next_state_of(next_state_of(ServerState::Created, LifecycleEvent::StartupFailed), e)
            == ServerState::Failed,
{
}

} // verus!
