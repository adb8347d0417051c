use vstd::prelude::*;
use rustls::pki_types::ServerName;
use crate::address::{is_server_name, server_name_of, split_host_port, split_upstream, UpstreamTarget};
use crate::error::{ConnectionError, HandshakeError, OperationError};

verus! {

/// The deadline of the inbound (server-side) handshake, in seconds.
pub const INBOUND_DEADLINE_SECS: u64 = 5;

/// The deadline of the outbound dial and handshake, in seconds.
pub const OUTBOUND_DEADLINE_SECS: u64 = 10;

/// The handshake error that an operation's own failure stands for.
pub open spec fn operation_error(e: OperationError) -> HandshakeError {
    match e {
        OperationError::CertInvalid => HandshakeError::CertInvalid,
        OperationError::DialFailed => HandshakeError::DialFailed,
        OperationError::Io => HandshakeError::Io,
    }
}

/// The result of a deadline-guarded operation.
pub open spec fn timeout_result<T>(finished: Option<Result<T, OperationError>>) -> Result<T, HandshakeError> {
    match finished {
        Some(Ok(v)) => Ok(v),
        Some(Err(e)) => Err(operation_error(e)),
        None => Err(HandshakeError::Timeout),
    }
}

/// Settles a deadline-guarded operation: `finished` is its own result where it
/// finished in time, `None` where the deadline passed first. `Timeout` comes
/// back exactly when the deadline passed; the operation's own errors cannot
/// be one.
pub fn with_timeout<T>(finished: Option<Result<T, OperationError>>) -> (r: Result<T, HandshakeError>)
    ensures
        r == timeout_result(finished),
        (r matches Err(HandshakeError::Timeout)) <==> finished is None,
{
    match finished {
        Some(Ok(v)) => Ok(v),
        Some(Err(OperationError::CertInvalid)) => Err(HandshakeError::CertInvalid),
        Some(Err(OperationError::DialFailed)) => Err(HandshakeError::DialFailed),
        Some(Err(OperationError::Io)) => Err(HandshakeError::Io),
        None => Err(HandshakeError::Timeout),
    }
}

/// The bytes relayed in each direction over one session.
#[derive(Debug, Clone, Copy, PartialEq, Eq, Structural)]
pub struct ByteCounts {
    pub from_client: u64,
    pub from_server: u64,
}

/// Where one connection stands.
#[derive(Debug, Clone, Copy, PartialEq, Eq, Structural)]
pub enum Phase {
    /// Waiting for the inbound handshake.
    Inbound,
    /// Waiting for the upstream dial and handshake.
    Outbound,
    /// Both handshakes done; bytes are being relayed.
    Relaying,
    /// The connection is over; nothing more happens to it.
    Closed,
}

/// What the outside world reports back to a connection.
#[derive(Debug, Clone, Copy)]
pub enum Event {
    /// The inbound handshake finished, failed, or timed out.
    Inbound(Result<(), HandshakeError>),
    /// The upstream dial and handshake finished, failed, or timed out.
    Outbound(Result<(), HandshakeError>),
    /// The relay ended: with the byte counts, or with an I/O failure.
    Relayed(Result<ByteCounts, ()>),
}

/// What a connection asks the outside world to do next.
#[derive(Debug)]
pub enum Action {
    /// Run the server-side handshake on the accepted socket.
    AcceptInbound { deadline_secs: u64 },
    /// Open a TCP connection to the target and run the client-side handshake,
    /// expecting the upstream's certificate to name `server_name`.
    Dial { target: UpstreamTarget, server_name: ServerName<'static>, deadline_secs: u64 },
    /// Relay bytes both ways between the two sessions.
    Relay,
    /// Close the connection with this outcome.
    Close(Result<ByteCounts, ConnectionError>),
    /// Nothing: the event does not belong to the current phase.
    Nothing,
}

/// One connection: its phase, owned by the unit of work that serves it.
#[derive(Debug)]
pub struct Session {
    pub phase: Phase,
}

/// One step of a connection: from phase `p`, with upstream address `up`,
/// event `ev` leads to phase `q` with action `a`.
pub open spec fn step_spec(p: Phase, up: Seq<u8>, ev: Event, q: Phase, a: Action) -> bool {
    match (p, ev) {
        (Phase::Inbound, Event::Inbound(Ok(()))) => match split_host_port(up) {
            Some((host, port)) => if is_server_name(host) {
                q == Phase::Outbound && (a matches Action::Dial { target, deadline_secs, .. }
                    && target.host@ == host && target.port == port && deadline_secs == OUTBOUND_DEADLINE_SECS)
            } else {
                q == Phase::Closed
                    && a == Action::Close(Err(ConnectionError::Handshake(HandshakeError::BadAddress)))
            },
            None => q == Phase::Closed
                && a == Action::Close(Err(ConnectionError::Handshake(HandshakeError::BadAddress))),
        },
        (Phase::Inbound, Event::Inbound(Err(e))) => q == Phase::Closed
            && a == Action::Close(Err(ConnectionError::Handshake(e))),
        (Phase::Outbound, Event::Outbound(Ok(()))) => q == Phase::Relaying && a == Action::Relay,
        (Phase::Outbound, Event::Outbound(Err(e))) => q == Phase::Closed
            && a == Action::Close(Err(ConnectionError::Handshake(e))),
        (Phase::Relaying, Event::Relayed(Ok(c))) => q == Phase::Closed && a == Action::Close(Ok(c)),
        (Phase::Relaying, Event::Relayed(Err(()))) => q == Phase::Closed
            && a == Action::Close(Err(ConnectionError::Relay)),
        _ => q == p && a == Action::Nothing,
    }
}

impl Session {
    /// A freshly accepted connection: it first runs the inbound handshake
    /// under its deadline.
    pub fn start() -> (r: (Session, Action))
        ensures
            r.0.phase == Phase::Inbound,
            r.1 == (Action::AcceptInbound { deadline_secs: INBOUND_DEADLINE_SECS }),
    {
        (Session { phase: Phase::Inbound }, Action::AcceptInbound { deadline_secs: INBOUND_DEADLINE_SECS })
    }

    /// Takes one event: the inbound handshake, then the dial of `upstream`
    /// (whose host must be a DNS name or IP address),
    /// then the relay, each attempted once; any failure closes the connection.
    pub fn step(&mut self, upstream: &[u8], ev: Event) -> (r: Action)
        ensures
            step_spec(old(self).phase, upstream@, ev, final(self).phase, r),
    {
        match (self.phase, ev) {
            (Phase::Inbound, Event::Inbound(Ok(()))) => match split_upstream(upstream) {
                Some(target) => match server_name_of(target.host.as_slice()) {
                    Some(server_name) => {
                        self.phase = Phase::Outbound;
                        Action::Dial { target, server_name, deadline_secs: OUTBOUND_DEADLINE_SECS }
                    },
                    None => {
                        self.phase = Phase::Closed;
                        Action::Close(Err(ConnectionError::Handshake(HandshakeError::BadAddress)))
                    },
                },
                None => {
                    self.phase = Phase::Closed;
                    Action::Close(Err(ConnectionError::Handshake(HandshakeError::BadAddress)))
                },
            },
            (Phase::Inbound, Event::Inbound(Err(e))) => {
                self.phase = Phase::Closed;
                Action::Close(Err(ConnectionError::Handshake(e)))
            },
            (Phase::Outbound, Event::Outbound(Ok(()))) => {
                self.phase = Phase::Relaying;
                Action::Relay
            },
            (Phase::Outbound, Event::Outbound(Err(e))) => {
                self.phase = Phase::Closed;
                Action::Close(Err(ConnectionError::Handshake(e)))
            },
            (Phase::Relaying, Event::Relayed(Ok(c))) => {
                self.phase = Phase::Closed;
                Action::Close(Ok(c))
            },
            (Phase::Relaying, Event::Relayed(Err(()))) => {
                self.phase = Phase::Closed;
                Action::Close(Err(ConnectionError::Relay))
            },
            _ => Action::Nothing,
        }
    }
}

} // verus!
