//! The ways in which a bridged connection fails.

use vstd::prelude::*;

verus! {

/// Why a connection was given up.  Every failure ends one connection and
/// no other.
#[derive(Clone, Copy, Debug, PartialEq, Eq, Structural)]
pub enum BridgeError {
    /// The single read did not hold a complete, well-formed request head.
    IncompleteRequest,
    /// The request head carries no `Host` header.
    MissingHostHeader,
    /// The `Host` header is not valid UTF-8, or the text behind its colon
    /// is not a port number.
    InvalidHostHeader,
    /// The target is a domain name too long for a SOCKS5 command.
    HostTooLong,
    /// The relay could not be reached.
    ConnectFailure,
    /// Forwarding failed in one of the two directions.
    CopyError,
    /// An exchange failed before forwarding began: the read from the
    /// client, or a write or read while negotiating with the relay.
    Io,
}

impl BridgeError {
    /// The text of the log line for this failure.
    pub open spec fn message_text(self) -> Seq<char> {
        match self {
            BridgeError::IncompleteRequest => "incomplete http request"@,
            BridgeError::MissingHostHeader => "missing host header"@,
            BridgeError::InvalidHostHeader => "invalid host header"@,
            BridgeError::HostTooLong => "host name too long"@,
            BridgeError::ConnectFailure => "cannot connect to socks5 relay"@,
            BridgeError::CopyError => "forwarding failed"@,
            BridgeError::Io => "i/o failure"@,
        }
    }

    /// A short description, fit for a log line.
    pub fn message(&self) -> (text: &'static str)
        ensures
            text@ == self.message_text(),
    {
        match self {
            BridgeError::IncompleteRequest => "incomplete http request",
            BridgeError::MissingHostHeader => "missing host header",
            BridgeError::InvalidHostHeader => "invalid host header",
            BridgeError::HostTooLong => "host name too long",
            BridgeError::ConnectFailure => "cannot connect to socks5 relay",
            BridgeError::CopyError => "forwarding failed",
            BridgeError::Io => "i/o failure",
        }
    }
}

} // verus!
