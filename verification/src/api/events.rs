//! Asynchronous events sent by the server.

use vstd::prelude::*;
use crate::api::types::{
    AccountId, AuthOption, Message, PersonalAccountView, PmId, SessionId, SessionView, Snowflake,
    Time, UserId, clone_session_views, clone_messages,
};
use crate::text::clone_opt_string;

verus! {

/// The room is private and the client must authenticate to join.
#[derive(Debug, PartialEq)]
pub struct BounceEvent {
    /// The reason why the client was bounced.
    pub reason: Option<String>,
    /// The authentication options available to the client.
    pub auth_options: Option<Vec<AuthOption>>,
}

/// The server is about to close the connection.
#[derive(Debug, PartialEq)]
pub struct DisconnectEvent {
    /// The reason for the disconnect.
    pub reason: String,
}

/// A message in the room was edited.
#[derive(Debug, PartialEq)]
pub struct EditMessageEvent {
    /// The id of this edit.
    pub edit_id: Snowflake,
    /// The edited message.
    pub message: Message,
}

/// The server's greeting: a description of the client's own session.
#[derive(Debug, PartialEq)]
pub struct HelloEvent {
    /// The client's own session.
    pub session: SessionView,
    /// The account the client is logged into, if any.
    pub account: Option<PersonalAccountView>,
    /// Whether the room is private.
    pub room_is_private: bool,
    /// The version of the server.
    pub version: String,
}

/// Another session joined the room.
#[derive(Debug, PartialEq)]
pub struct JoinEvent(pub SessionView);

/// Another session logged into an account.
#[derive(Debug, Clone, Copy, PartialEq, Eq, Structural)]
pub struct LoginEvent {
    /// The id of the account.
    pub account_id: AccountId,
}

/// Another session logged out of its account.
#[derive(Debug, Clone, Copy, PartialEq, Eq, Structural)]
pub struct LogoutEvent;

/// A disruption in the server network.
///
/// When its kind is `"partition"`, the sessions on the named server and era
/// have disconnected.
#[derive(Debug, PartialEq)]
pub struct NetworkEvent {
    /// The kind of network event; `"partition"` is the one that affects the
    /// roster.
    pub kind: String,
    /// The id of the affected server.
    pub server_id: String,
    /// The era of the affected server.
    pub server_era: String,
}

/// Another session changed its name.
#[derive(Debug, PartialEq)]
pub struct NickEvent {
    /// The id of the session this name applies to.
    pub session_id: SessionId,
    /// The id of the agent or account logged into the session.
    pub id: UserId,
    /// The previous name associated with the session.
    pub from: String,
    /// The name associated with the session henceforth.
    pub to: String,
}

/// Another session left the room.
#[derive(Debug, PartialEq)]
pub struct PartEvent(pub SessionView);

/// A server-to-client ping; the client should reply promptly.
#[derive(Debug, Clone, Copy, PartialEq, Eq, Structural)]
pub struct PingEvent {
    /// The time this ping was sent.
    pub time: Time,
    /// The expected time of the next ping.
    pub next: Time,
}

/// Another user invited the client to a private chat.
#[derive(Debug, PartialEq)]
pub struct PmInitiateEvent {
    /// The id of the user inviting the client.
    pub from: UserId,
    /// The nick of the user inviting the client.
    pub from_nick: String,
    /// The room the invitation was sent from.
    pub from_room: String,
    /// The id of the private chat room.
    pub pm_id: PmId,
}

/// A message was sent to the room.
#[derive(Debug, PartialEq)]
pub struct SendEvent(pub Message);

/// The initial burst of room state after the greeting.
#[derive(Debug, PartialEq)]
pub struct SnapshotEvent {
    /// The id of the client's session.
    pub session_id: SessionId,
    /// The version of the server.
    pub version: String,
    /// The sessions currently joined with the room.
    pub listing: Vec<SessionView>,
    /// The most recent messages in the room.
    pub log: Vec<Message>,
    /// The client's pre-set name, if it has one.
    pub nick: Option<String>,
}


/// Whether two bounce events hold the same values.
///
/// Fields are compared by value; the list of auth options by its elements.
pub open spec fn bounce_event_equiv(a: BounceEvent, b: BounceEvent) -> bool {
    &&& a.reason == b.reason
    &&& match (a.auth_options, b.auth_options) {
        (Option::None, Option::None) => true,
        (Option::Some(x), Option::Some(y)) => x@ == y@,
        _ => false,
    }
}

/// Whether two snapshot events hold the same values.
///
/// Fields are compared by value; the roster listing and the message log by
/// their elements.
pub open spec fn snapshot_event_equiv(a: SnapshotEvent, b: SnapshotEvent) -> bool {
    &&& a.session_id == b.session_id
    &&& a.version == b.version
    &&& a.listing@ == b.listing@
    &&& a.log@ == b.log@
    &&& a.nick == b.nick
}

impl Clone for BounceEvent {
    fn clone(&self) -> (r: Self)
        ensures
            bounce_event_equiv(r, *self),
    {
        BounceEvent {
            reason: clone_opt_string(&self.reason),
            auth_options: match &self.auth_options {
                Option::None => None,
                Option::Some(v) => {
                    let mut out: Vec<AuthOption> = Vec::new();
                    let mut i: usize = 0;
                    while i < v.len()
                        invariant
                            i <= v@.len(),
                            out@ =~= v@.subrange(0, i as int),
                        decreases v@.len() - i,
                    {
                        out.push(v[i]);
                        proof {
                            assert(out@ =~= v@.subrange(0, i + 1));
                        }
                        i += 1;
                    }
                    proof {
                        assert(out@ =~= v@);
                    }
                    Some(out)
                },
            },
        }
    }
}

impl Clone for DisconnectEvent {
    fn clone(&self) -> (r: Self)
        ensures
            r == *self,
    {
        DisconnectEvent { reason: self.reason.clone() }
    }
}

impl Clone for EditMessageEvent {
    fn clone(&self) -> (r: Self)
        ensures
            r == *self,
    {
        EditMessageEvent { edit_id: self.edit_id, message: self.message.clone() }
    }
}

impl Clone for HelloEvent {
    fn clone(&self) -> (r: Self)
        ensures
            r == *self,
    {
        HelloEvent {
            session: self.session.clone(),
            account: match &self.account {
                Option::None => None,
                Option::Some(a) => Some(a.clone()),
            },
            room_is_private: self.room_is_private,
            version: self.version.clone(),
        }
    }
}

impl Clone for JoinEvent {
    fn clone(&self) -> (r: Self)
        ensures
            r == *self,
    {
        JoinEvent(self.0.clone())
    }
}

impl Clone for NetworkEvent {
    fn clone(&self) -> (r: Self)
        ensures
            r == *self,
    {
        NetworkEvent {
            kind: self.kind.clone(),
            server_id: self.server_id.clone(),
            server_era: self.server_era.clone(),
        }
    }
}

impl Clone for NickEvent {
    fn clone(&self) -> (r: Self)
        ensures
            r == *self,
    {
        NickEvent {
            session_id: self.session_id.clone(),
            id: self.id.clone(),
            from: self.from.clone(),
            to: self.to.clone(),
        }
    }
}

impl Clone for PartEvent {
    fn clone(&self) -> (r: Self)
        ensures
            r == *self,
    {
        PartEvent(self.0.clone())
    }
}

impl Clone for PmInitiateEvent {
    fn clone(&self) -> (r: Self)
        ensures
            r == *self,
    {
        PmInitiateEvent {
            from: self.from.clone(),
            from_nick: self.from_nick.clone(),
            from_room: self.from_room.clone(),
            pm_id: self.pm_id,
        }
    }
}

impl Clone for SendEvent {
    fn clone(&self) -> (r: Self)
        ensures
            r == *self,
    {
        SendEvent(self.0.clone())
    }
}

impl Clone for SnapshotEvent {
    fn clone(&self) -> (r: Self)
        ensures
            snapshot_event_equiv(r, *self),
    {
        SnapshotEvent {
            session_id: self.session_id.clone(),
            version: self.version.clone(),
            listing: clone_session_views(&self.listing),
            log: clone_messages(&self.log),
            nick: clone_opt_string(&self.nick),
        }
    }
}

} // verus!
