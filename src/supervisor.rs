use vstd::prelude::*;
use crate::error::StartupError;

verus! {

/// Where the accept loop stands.
#[derive(Debug, Clone, Copy, PartialEq, Eq, Structural)]
pub enum SupervisorState {
    /// The TLS contexts are being built.
    Starting,
    /// The contexts are built; the listen address is being bound.
    Binding,
    /// The listener is bound; connections are being accepted.
    Accepting,
    /// The proxy has stopped.
    Stopped,
}

/// What the outside world reports to the accept loop.
#[derive(Debug, Clone, Copy)]
pub enum SupervisorEvent {
    /// Building both TLS contexts succeeded or failed.
    ContextsBuilt(Result<(), StartupError>),
    /// Binding the listen address succeeded (`true`) or failed.
    Bound(bool),
    /// Accepting one raw connection succeeded (`true`) or failed transiently.
    Accepted(bool),
    /// The external shutdown signal arrived.
    Shutdown,
}

/// What the accept loop asks the outside world to do next.
#[derive(Debug, Clone, Copy)]
pub enum SupervisorAction {
    /// Bind the listen address.
    Bind,
    /// Wait for the next connection.
    Accept,
    /// Hand the accepted connection to a unit of work of its own, then accept
    /// the next one.
    Spawn,
    /// Log the failed accept, then accept the next one.
    LogAndAccept,
    /// Stop the accept loop: cleanly, or with the startup error. Connections
    /// already handed out are not waited for.
    Exit(Result<(), StartupError>),
    /// Nothing: the event does not belong to the current state.
    Nothing,
}

/// One step of the accept loop: from state `s`, event `ev` leads to state
/// `t` with action `a`.
pub open spec fn supervise_spec(s: SupervisorState, ev: SupervisorEvent, t: SupervisorState, a: SupervisorAction) -> bool {
    match (s, ev) {
        (SupervisorState::Starting, SupervisorEvent::ContextsBuilt(Ok(()))) => t == SupervisorState::Binding
            && a == SupervisorAction::Bind,
        (SupervisorState::Starting, SupervisorEvent::ContextsBuilt(Err(e))) => t == SupervisorState::Stopped
            && a == SupervisorAction::Exit(Err(e)),
        (SupervisorState::Binding, SupervisorEvent::Bound(true)) => t == SupervisorState::Accepting
            && a == SupervisorAction::Accept,
        (SupervisorState::Binding, SupervisorEvent::Bound(false)) => t == SupervisorState::Stopped
            && a == SupervisorAction::Exit(Err(StartupError::Bind)),
        (SupervisorState::Accepting, SupervisorEvent::Accepted(true)) => t == SupervisorState::Accepting
            && a == SupervisorAction::Spawn,
        (SupervisorState::Accepting, SupervisorEvent::Accepted(false)) => t == SupervisorState::Accepting
            && a == SupervisorAction::LogAndAccept,
        (SupervisorState::Binding, SupervisorEvent::Shutdown) => t == SupervisorState::Stopped
            && a == SupervisorAction::Exit(Ok(())),
        (SupervisorState::Accepting, SupervisorEvent::Shutdown) => t == SupervisorState::Stopped
            && a == SupervisorAction::Exit(Ok(())),
        _ => t == s && a == SupervisorAction::Nothing,
    }
}

/// The accept loop's own state.
#[derive(Debug)]
pub struct Supervisor {
    pub state: SupervisorState,
}

impl Supervisor {
    /// A supervisor that has not built its contexts yet.
    pub fn new() -> (r: Supervisor)
        ensures
            r.state == SupervisorState::Starting,
    {
        Supervisor { state: SupervisorState::Starting }
    }

    /// Takes one event: a startup failure stops the proxy before it binds; a
    /// bind failure stops it with `Bind`; a failed accept is logged and never
    /// stops it; the shutdown signal stops it cleanly.
    pub fn on_event(&mut self, ev: SupervisorEvent) -> (r: SupervisorAction)
        ensures
            supervise_spec(old(self).state, ev, final(self).state, r),
    {
        match (self.state, ev) {
            (SupervisorState::Starting, SupervisorEvent::ContextsBuilt(Ok(()))) => {
                self.state = SupervisorState::Binding;
                SupervisorAction::Bind
            },
            (SupervisorState::Starting, SupervisorEvent::ContextsBuilt(Err(e))) => {
                self.state = SupervisorState::Stopped;
                SupervisorAction::Exit(Err(e))
            },
            (SupervisorState::Binding, SupervisorEvent::Bound(true)) => {
                self.state = SupervisorState::Accepting;
                SupervisorAction::Accept
            },
            (SupervisorState::Binding, SupervisorEvent::Bound(false)) => {
                self.state = SupervisorState::Stopped;
                SupervisorAction::Exit(Err(StartupError::Bind))
            },
            (SupervisorState::Accepting, SupervisorEvent::Accepted(true)) => SupervisorAction::Spawn,
            (SupervisorState::Accepting, SupervisorEvent::Accepted(false)) => SupervisorAction::LogAndAccept,
            (SupervisorState::Binding, SupervisorEvent::Shutdown) | (SupervisorState::Accepting, SupervisorEvent::Shutdown) => {
                self.state = SupervisorState::Stopped;
                SupervisorAction::Exit(Ok(()))
            },
            _ => SupervisorAction::Nothing,
        }
    }
}

} // verus!
