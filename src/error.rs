use vstd::prelude::*;

verus! {

/// Why the proxy could not start. Every variant is fatal: the listener is
/// never bound, or the process stops before accepting.
#[derive(Debug, Clone, Copy, PartialEq, Eq, Structural)]
pub enum StartupError {
    /// The listen address could not be bound.
    Bind,
    /// A trust-material file could not be read.
    Unreadable,
    /// A PEM file could not be parsed.
    Unparseable,
    /// A certificate file held no certificate.
    MissingCertificate,
    /// A key file held no key in the supported encoding (PKCS#8).
    MissingKey,
    /// No certificate of the CA file could serve as a trust anchor.
    EmptyTrustStore,
    /// The TLS library refused the certificate chain, key or trust store.
    Rejected,
}

/// Why one connection's handshake phase failed.
#[derive(Debug, Clone, Copy, PartialEq, Eq, Structural)]
pub enum HandshakeError {
    /// The handshake did not finish before its deadline.
    Timeout,
    /// The peer's certificate was missing or did not validate.
    CertInvalid,
    /// The TCP connection to the upstream could not be opened.
    DialFailed,
    /// The upstream address is not of the form `host:port`.
    BadAddress,
    /// The socket failed during the handshake (reset, closed early).
    Io,
}

/// Why a handshake operation failed by itself, before any deadline passed.
/// It has no timeout: only the deadline guard produces one.
#[derive(Debug, Clone, Copy, PartialEq, Eq, Structural)]
pub enum OperationError {
    /// The peer's certificate was missing or did not validate.
    CertInvalid,
    /// The TCP connection to the upstream could not be opened.
    DialFailed,
    /// The socket failed during the handshake.
    Io,
}

/// Why one connection ended in failure.
#[derive(Debug, Clone, Copy, PartialEq, Eq, Structural)]
pub enum ConnectionError {
    Handshake(HandshakeError),
    /// An I/O failure while relaying bytes after both handshakes.
    Relay,
}

} // verus!
