//! The errors surfaced to callers of the connection layer.

use vstd::prelude::*;
use crate::api::types::PacketType;
use crate::text::clone_opt_string;

verus! {

/// A transport-level failure (TLS, TCP or WebSocket framing), reduced to
/// what the reconnect policy reads: the HTTP status of a failed upgrade, if
/// there was one, and a human-readable description.
#[derive(Debug, PartialEq)]
pub struct TransportError {
    /// The status code of the HTTP response that rejected the WebSocket
    /// upgrade, if the failure was an HTTP error.
    pub http_status: Option<u16>,
    /// A human-readable description of the failure.
    pub message: String,
}

impl Clone for TransportError {
    fn clone(&self) -> (r: Self)
        ensures
            r == *self,
    {
        TransportError { http_status: self.http_status, message: self.message.clone() }
    }
}

/// Possible communication errors.
#[derive(Debug, PartialEq)]
pub enum Error {
    /// The connection is closed.
    ConnectionClosed,
    /// A ping was not replied to in time.
    PingTimeout,
    /// A packet was not sent because it could not be encoded.
    MalformedPacket(String),
    /// A binary message was received.
    ReceivedBinaryMessage,
    /// A malformed packet was received.
    ReceivedMalformedPacket(String),
    /// A reply's payload type does not match the awaited reply type.
    ReceivedUnexpectedPacket(PacketType),
    /// A transport error.
    Transport(TransportError),
    /// A timeout occurred while opening a connection.
    ConnectionTimeout,
    /// The server did not reply to a command in time.
    CommandTimeout,
    /// The server replied with an error string.
    Euph(String),
}

impl Clone for Error {
    fn clone(&self) -> (r: Self)
        ensures
            r == *self,
    {
        match self {
            Error::ConnectionClosed => Error::ConnectionClosed,
            Error::PingTimeout => Error::PingTimeout,
            Error::MalformedPacket(c) => Error::MalformedPacket(c.clone()),
            Error::ReceivedBinaryMessage => Error::ReceivedBinaryMessage,
            Error::ReceivedMalformedPacket(c) => Error::ReceivedMalformedPacket(c.clone()),
            Error::ReceivedUnexpectedPacket(t) => Error::ReceivedUnexpectedPacket(*t),
            Error::Transport(t) => Error::Transport(t.clone()),
            Error::ConnectionTimeout => Error::ConnectionTimeout,
            Error::CommandTimeout => Error::CommandTimeout,
            Error::Euph(m) => Error::Euph(m.clone()),
        }
    }
}

impl Error {
    /// A human-readable description of the error.
    pub fn message(&self) -> (r: String)
        ensures
            self matches Error::Euph(m) ==> r@ == m@,
    {
        match self {
            Error::ConnectionClosed => "connection closed".to_owned(),
            Error::PingTimeout => "ping timed out".to_owned(),
            Error::MalformedPacket(_) => "malformed packet".to_owned(),
            Error::ReceivedBinaryMessage => "received binary message".to_owned(),
            Error::ReceivedMalformedPacket(_) => "received malformed packet".to_owned(),
            Error::ReceivedUnexpectedPacket(_) => "received packet of unexpected type".to_owned(),
            Error::Transport(t) => t.message.clone(),
            Error::ConnectionTimeout => "connection timed out while connecting".to_owned(),
            Error::CommandTimeout => "command timed out".to_owned(),
            Error::Euph(m) => m.clone(),
        }
    }
}

} // verus!
