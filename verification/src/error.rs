//! The ways in which a connection, or start-up, can fail.

use vstd::prelude::*;

verus! {

/// Wire data that breaks the SOCKS5 rules, or asks for what is not offered.
#[derive(Clone, Copy, Debug, PartialEq, Eq, Structural)]
pub enum ProtocolError {
    /// The greeting's version byte is not 5.
    BadVersion,
    /// The greeting offers no method that can be selected.
    NoAcceptableAuth,
    /// The credential message's version byte is not 1.
    BadAuthVersion,
    /// The request's version byte is not 5.
    BadRequest,
    /// The request's command is not CONNECT.
    UnsupportedCommand,
    /// The request's address type is none of IPv4, domain name, IPv6.
    UnsupportedAddressType,
}

/// Every failure the proxy knows. A failure on one connection ends that
/// connection only.
#[derive(Clone, Debug, PartialEq, Eq)]
pub enum Errors {
    /// A transport failed; the text is the cause.
    IoError(String),
    /// The client sent malformed or unsupported wire data.
    ProtocolError(ProtocolError),
    /// The client's credentials are not the configured ones.
    AuthError,
    /// Connecting to the edge, the TLS handshake or the upgrade failed; the
    /// text is the cause.
    TunnelError(String),
    /// The configuration cannot be used; the text says why.
    ConfigError(String),
}

} // verus!
