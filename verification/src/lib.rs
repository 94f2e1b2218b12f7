//! A client-side library and bot framework for the Euphoria chat protocol:
//! a JSON-over-WebSocket request/response/event protocol for multi-user chat
//! rooms.
//!
//! The heart of the library is a connection machine that multiplexes an
//! outgoing command stream, an incoming packet stream, dual-layer liveness
//! pings and typed reply correlation, a client supervisor that drives the
//! handshake and reconnects under a failure classification policy, and a
//! multi-client aggregator that fans events from many clients into one sink.
//! A thin command dispatcher routes `!name` and `!name @nick` chat commands.

pub mod api;
pub mod client;
pub mod command;
pub mod conn;
pub mod cookies;
pub mod error;
pub mod json;
pub mod nick;
pub mod replies;
pub mod text;
