use vstd::prelude::*;
use crate::address::{is_server_name, split_host_port, COLON};
use crate::error::{ConnectionError, HandshakeError, OperationError, StartupError};
use crate::session::{step_spec, timeout_result, Action, ByteCounts, Event, Phase};
use crate::supervisor::{supervise_spec, SupervisorAction, SupervisorEvent, SupervisorState};

verus! {

/// `phases` and `acts` are what a connection goes through when it is fed
/// `evs` from its start, with upstream address `up`.
pub open spec fn session_run(up: Seq<u8>, evs: Seq<Event>, phases: Seq<Phase>, acts: Seq<Action>) -> bool {
    &&& phases.len() == evs.len() + 1
    &&& acts.len() == evs.len()
    &&& phases[0] == Phase::Inbound
    &&& forall|i: int| 0 <= i < evs.len() ==> step_spec(phases[i], up, #[trigger] evs[i], phases[i + 1], acts[i])
}

/// `states` and `acts` are what the accept loop goes through when it is fed
/// `evs`, from `states[0]`.
pub open spec fn supervisor_run(evs: Seq<SupervisorEvent>, states: Seq<SupervisorState>, acts: Seq<SupervisorAction>) -> bool {
    &&& states.len() == evs.len() + 1
    &&& acts.len() == evs.len()
    &&& forall|i: int| 0 <= i < evs.len() ==> supervise_spec(states[i], #[trigger] evs[i], states[i + 1], acts[i])
}

/// The upstream is dialled only on a successful inbound handshake, and only
/// where the upstream address is of the form `host:port` with a host that
/// can name a TLS server.
pub proof fn lemma_dial_needs_inbound_success(p: Phase, up: Seq<u8>, ev: Event, q: Phase, a: Action)
    requires
        step_spec(p, up, ev, q, a),
    ensures
        a is Dial ==> p == Phase::Inbound && (ev matches Event::Inbound(Ok(_)))
            && (split_host_port(up) matches Some((host, _)) && is_server_name(host)),
{
}

/// A closed connection stays closed and asks for nothing more: no phase is
/// retried, and nothing that happens later changes its outcome.
pub proof fn lemma_closed_is_final(up: Seq<u8>, evs: Seq<Event>, phases: Seq<Phase>, acts: Seq<Action>, i: int, j: int)
    requires
        session_run(up, evs, phases, acts),
        0 <= i <= j < evs.len(),
        phases[i] == Phase::Closed,
    ensures
        phases[j + 1] == Phase::Closed,
        acts[j] == Action::Nothing,
    decreases j - i,
{
    if i < j {
        lemma_closed_is_final(up, evs, phases, acts, i, j - 1);
    }
    assert(step_spec(phases[j], up, evs[j], phases[j + 1], acts[j]));
}

/// A connection that has left the inbound phase never returns to it.
pub proof fn lemma_inbound_not_reentered(up: Seq<u8>, evs: Seq<Event>, phases: Seq<Phase>, acts: Seq<Action>, i: int, j: int)
    requires
        session_run(up, evs, phases, acts),
        0 <= i <= j <= evs.len(),
        phases[i] != Phase::Inbound,
    ensures
        phases[j] != Phase::Inbound,
    decreases j - i,
{
    if i < j {
        lemma_inbound_not_reentered(up, evs, phases, acts, i, j - 1);
        assert(step_spec(phases[j - 1], up, evs[j - 1], phases[j], acts[j - 1]));
    }
}

/// Each connection dials the upstream at most once: a failed dial is not
/// retried.
pub proof fn lemma_at_most_one_dial(up: Seq<u8>, evs: Seq<Event>, phases: Seq<Phase>, acts: Seq<Action>, i: int, j: int)
    requires
        session_run(up, evs, phases, acts),
        0 <= i < j < evs.len(),
        acts[i] is Dial,
    ensures
        !(acts[j] is Dial),
{
    assert(step_spec(phases[i], up, evs[i], phases[i + 1], acts[i]));
    lemma_inbound_not_reentered(up, evs, phases, acts, i + 1, j);
    assert(step_spec(phases[j], up, evs[j], phases[j + 1], acts[j]));
}

/// A connection whose inbound handshake fails (bad certificate, timeout) is
/// closed with that error and never dials the upstream.
pub proof fn lemma_failed_inbound_never_dials(up: Seq<u8>, evs: Seq<Event>, phases: Seq<Phase>, acts: Seq<Action>, e: HandshakeError, k: int)
    requires
        session_run(up, evs, phases, acts),
        evs.len() > 0,
        evs[0] == Event::Inbound(Err(e)),
        0 <= k < evs.len(),
    ensures
        acts[0] == Action::Close(Err(ConnectionError::Handshake(e))),
        !(acts[k] is Dial),
{
    assert(step_spec(phases[0], up, evs[0], phases[1], acts[0]));
    if k > 0 {
        lemma_closed_is_final(up, evs, phases, acts, 1, k);
    }
}

/// An upstream address without a `:` is not of the form `host:port`; with
/// such an address no connection ever dials, and a successful inbound
/// handshake closes with `BadAddress`.
pub proof fn lemma_malformed_upstream_never_dials(up: Seq<u8>, evs: Seq<Event>, phases: Seq<Phase>, acts: Seq<Action>, k: int)
    requires
        session_run(up, evs, phases, acts),
        forall|i: int| 0 <= i < up.len() ==> up[i] != COLON,
        0 <= k < evs.len(),
    ensures
        split_host_port(up) is None,
        !(acts[k] is Dial),
        phases[k] == Phase::Inbound && (evs[k] matches Event::Inbound(Ok(_)))
            ==> acts[k] == Action::Close(Err(ConnectionError::Handshake(HandshakeError::BadAddress))),
{
    assert(step_spec(phases[k], up, evs[k], phases[k + 1], acts[k]));
}

/// The counts a finished relay reports are the counts the connection closes
/// with.
pub proof fn lemma_relay_counts_reported(up: Seq<u8>, c: ByteCounts, q: Phase, a: Action)
    requires
        step_spec(Phase::Relaying, up, Event::Relayed(Ok(c)), q, a),
    ensures
        a == Action::Close(Ok(c)),
        q == Phase::Closed,
{
}

/// A deadline that passes gives `Timeout`, which differs from a certificate
/// failure, in the guard and in the outcome a connection closes with, on
/// either handshake.
pub proof fn lemma_timeout_distinguishable(up: Seq<u8>, q1: Phase, a1: Action, q2: Phase, a2: Action, outbound: bool)
    requires
        outbound ==> step_spec(Phase::Outbound, up, Event::Outbound(Err(HandshakeError::Timeout)), q1, a1)
            && step_spec(Phase::Outbound, up, Event::Outbound(Err(HandshakeError::CertInvalid)), q2, a2),
        !outbound ==> step_spec(Phase::Inbound, up, Event::Inbound(Err(HandshakeError::Timeout)), q1, a1)
            && step_spec(Phase::Inbound, up, Event::Inbound(Err(HandshakeError::CertInvalid)), q2, a2),
    ensures
        timeout_result::<()>(None) == Err::<(), HandshakeError>(HandshakeError::Timeout),
        forall|f: Result<(), OperationError>| timeout_result::<()>(Some(f)) != timeout_result::<()>(None),
        a1 == Action::Close(Err(ConnectionError::Handshake(HandshakeError::Timeout))),
        a2 == Action::Close(Err(ConnectionError::Handshake(HandshakeError::CertInvalid))),
        a1 != a2,
{
}

/// Connections are independent: what one goes through depends on the
/// upstream address and its own events alone. Two runs on the same events
/// pass the same phases and close with the same outcome, whatever other
/// connections did, failed or not, meanwhile.
pub proof fn lemma_run_depends_on_own_events(
    up: Seq<u8>,
    evs: Seq<Event>,
    p1: Seq<Phase>,
    a1: Seq<Action>,
    p2: Seq<Phase>,
    a2: Seq<Action>,
    k: int,
)
    requires
        session_run(up, evs, p1, a1),
        session_run(up, evs, p2, a2),
        0 <= k <= evs.len(),
    ensures
        p1[k] == p2[k],
        k < evs.len() && a1[k] is Close ==> a2[k] == a1[k],
    decreases k,
{
    if k > 0 {
        lemma_run_depends_on_own_events(up, evs, p1, a1, p2, a2, k - 1);
        assert(step_spec(p1[k - 1], up, evs[k - 1], p1[k], a1[k - 1]));
        assert(step_spec(p2[k - 1], up, evs[k - 1], p2[k], a2[k - 1]));
    }
    if k < evs.len() {
        assert(step_spec(p1[k], up, evs[k], p1[k + 1], a1[k]));
        assert(step_spec(p2[k], up, evs[k], p2[k + 1], a2[k]));
    }
}

/// Once accepting, every later connection is handed to a unit of work of its
/// own until the shutdown signal, whatever earlier connections or accepts did.
pub proof fn lemma_later_connections_spawned(evs: Seq<SupervisorEvent>, states: Seq<SupervisorState>, acts: Seq<SupervisorAction>, i: int, j: int)
    requires
        supervisor_run(evs, states, acts),
        0 <= i <= j < evs.len(),
        states[i] == SupervisorState::Accepting,
        forall|k: int| i <= k < j ==> !(#[trigger] evs[k] is Shutdown),
        evs[j] == SupervisorEvent::Accepted(true),
    ensures
        acts[j] == SupervisorAction::Spawn,
        states[j + 1] == SupervisorState::Accepting,
{
    lemma_accepting_until_shutdown(evs, states, acts, i, j);
    assert(supervise_spec(states[j], evs[j], states[j + 1], acts[j]));
}

/// Once accepting, the loop goes on accepting whatever accepts fail, until
/// the shutdown signal: no connection's failure ends it.
pub proof fn lemma_accepting_until_shutdown(evs: Seq<SupervisorEvent>, states: Seq<SupervisorState>, acts: Seq<SupervisorAction>, i: int, j: int)
    requires
        supervisor_run(evs, states, acts),
        0 <= i <= j <= evs.len(),
        states[i] == SupervisorState::Accepting,
        forall|k: int| i <= k < j ==> !(#[trigger] evs[k] is Shutdown),
    ensures
        states[j] == SupervisorState::Accepting,
    decreases j - i,
{
    if i < j {
        lemma_accepting_until_shutdown(evs, states, acts, i, j - 1);
        assert(supervise_spec(states[j - 1], evs[j - 1], states[j], acts[j - 1]));
        assert(!(evs[j - 1] is Shutdown));
    }
}

/// A stopped accept loop stays stopped and asks for nothing more.
pub proof fn lemma_stopped_is_final(evs: Seq<SupervisorEvent>, states: Seq<SupervisorState>, acts: Seq<SupervisorAction>, i: int, j: int)
    requires
        supervisor_run(evs, states, acts),
        0 <= i <= j < evs.len(),
        states[i] == SupervisorState::Stopped,
    ensures
        states[j + 1] == SupervisorState::Stopped,
        acts[j] == SupervisorAction::Nothing,
    decreases j - i,
{
    if i < j {
        lemma_stopped_is_final(evs, states, acts, i, j - 1);
    }
    assert(supervise_spec(states[j], evs[j], states[j + 1], acts[j]));
}

/// A startup failure (an empty trust store among them) stops the proxy with
/// that error before it ever binds the listen address.
pub proof fn lemma_startup_failure_never_binds(evs: Seq<SupervisorEvent>, states: Seq<SupervisorState>, acts: Seq<SupervisorAction>, e: StartupError, k: int)
    requires
        supervisor_run(evs, states, acts),
        states[0] == SupervisorState::Starting,
        evs.len() > 0,
        evs[0] == SupervisorEvent::ContextsBuilt(Err(e)),
        0 <= k < evs.len(),
    ensures
        acts[0] == SupervisorAction::Exit(Err(e)),
        acts[k] != SupervisorAction::Bind,
{
    assert(supervise_spec(states[0], evs[0], states[1], acts[0]));
    if k > 0 {
        lemma_stopped_is_final(evs, states, acts, 1, k);
    }
}

/// A listen address that cannot be bound stops the proxy with `Bind`, and
/// no connection is ever accepted.
pub proof fn lemma_bind_failure_is_fatal(evs: Seq<SupervisorEvent>, states: Seq<SupervisorState>, acts: Seq<SupervisorAction>, i: int, k: int)
    requires
        supervisor_run(evs, states, acts),
        0 <= i <= k < evs.len(),
        states[i] == SupervisorState::Binding,
        evs[i] == SupervisorEvent::Bound(false),
    ensures
        acts[i] == SupervisorAction::Exit(Err(StartupError::Bind)),
        acts[k] != SupervisorAction::Spawn,
{
    assert(supervise_spec(states[i], evs[i], states[i + 1], acts[i]));
    if k > i {
        lemma_stopped_is_final(evs, states, acts, i + 1, k);
    }
}

} // verus!
