//! Session commands: the initial handshake and session maintenance.

use vstd::prelude::*;
use crate::api::types::{AuthOption, Time};
use crate::text::clone_opt_string;

verus! {

/// Attempt to join a private room.
#[derive(Debug, PartialEq)]
pub struct Auth {
    /// The method of authentication.
    pub auth_type: AuthOption,
    /// The passcode, for passcode authentication.
    pub passcode: Option<String>,
}

/// Reports whether the [`Auth`] command succeeded.
#[derive(Debug, PartialEq)]
pub struct AuthReply {
    /// True if authentication succeeded.
    pub success: bool,
    /// If authentication failed, the reason for failure.
    pub reason: Option<String>,
}

/// Initiate a client-to-server ping; the server echoes the timestamp.
#[derive(Debug, Clone, Copy, PartialEq, Eq, Structural)]
pub struct Ping {
    /// An arbitrary value, intended to be a unix timestamp.
    pub time: Time,
}

/// Response to a [`Ping`] command or ping event.
#[derive(Debug, Clone, Copy, PartialEq, Eq, Structural)]
pub struct PingReply {
    /// The timestamp of the ping being replied to.
    pub time: Option<Time>,
}


impl Clone for Auth {
    fn clone(&self) -> (r: Self)
        ensures
            r == *self,
    {
        Auth { auth_type: self.auth_type, passcode: clone_opt_string(&self.passcode) }
    }
}

impl Clone for AuthReply {
    fn clone(&self) -> (r: Self)
        ensures
            r == *self,
    {
        AuthReply { success: self.success, reason: clone_opt_string(&self.reason) }
    }
}

} // verus!
