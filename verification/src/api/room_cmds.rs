//! Chat room commands, available once a session has joined a room.

use vstd::prelude::*;
use crate::api::types::{Message, MessageId, PmId, SessionId, SessionView, UserId, clone_session_views, clone_messages};

verus! {

/// Retrieve the full content of a single message in the room.
#[derive(Debug, Clone, Copy, PartialEq, Eq, Structural)]
pub struct GetMessage {
    /// The id of the message to retrieve.
    pub id: MessageId,
}

/// The message retrieved by [`GetMessage`].
#[derive(Debug, PartialEq)]
pub struct GetMessageReply(pub Message);

/// Request messages from the room's message log.
#[derive(Debug, Clone, Copy, PartialEq, Eq, Structural)]
pub struct Log {
    /// Maximum number of messages to return.
    pub n: usize,
    /// Return messages prior to this id.
    pub before: Option<MessageId>,
}

/// List of messages from the room's message log.
#[derive(Debug, PartialEq)]
pub struct LogReply {
    /// The messages returned.
    pub log: Vec<Message>,
    /// Messages prior to this id were returned.
    pub before: Option<MessageId>,
}

/// Set the name the client presents to the room.
#[derive(Debug, PartialEq)]
pub struct Nick {
    /// The requested name.
    pub name: String,
}

/// Confirms the [`Nick`] command with the session's former and new names.
#[derive(Debug, PartialEq)]
pub struct NickReply {
    /// The id of the session this name applies to.
    pub session_id: SessionId,
    /// The id of the agent or account logged into the session.
    pub id: UserId,
    /// The previous name associated with the session.
    pub from: String,
    /// The name associated with the session henceforth.
    pub to: String,
}

/// Construct a virtual room for private messaging with another user.
#[derive(Debug, PartialEq)]
pub struct PmInitiate {
    /// The id of the user to invite to chat privately.
    pub user_id: UserId,
}

/// Provides the id of the requested private messaging room.
#[derive(Debug, PartialEq)]
pub struct PmInitiateReply {
    /// The id of the private chat room.
    pub pm_id: PmId,
    /// The nickname of the recipient of the invitation.
    pub to_nick: String,
}

/// Send a message to the room.
#[derive(Debug, PartialEq)]
pub struct Send {
    /// The content of the message.
    pub content: String,
    /// The id of the parent message, if any.
    pub parent: Option<MessageId>,
}

/// The message sent by a [`Send`] command.
#[derive(Debug, PartialEq)]
pub struct SendReply(pub Message);

/// Request a list of the sessions currently joined with the room.
#[derive(Debug, Clone, Copy, PartialEq, Eq, Structural)]
pub struct Who;

/// The sessions currently joined with the room.
#[derive(Debug, PartialEq)]
pub struct WhoReply {
    /// The sessions currently joined with the room.
    pub listing: Vec<SessionView>,
}


/// Whether two log replies hold the same values.
pub open spec fn log_reply_equiv(a: LogReply, b: LogReply) -> bool {
    a.log@ == b.log@ && a.before == b.before
}

/// Whether two who replies hold the same values.
pub open spec fn who_reply_equiv(a: WhoReply, b: WhoReply) -> bool {
    a.listing@ == b.listing@
}

impl Clone for GetMessageReply {
    fn clone(&self) -> (r: Self)
        ensures
            r == *self,
    {
        GetMessageReply(self.0.clone())
    }
}

impl Clone for LogReply {
    fn clone(&self) -> (r: Self)
        ensures
            log_reply_equiv(r, *self),
    {
        LogReply { log: clone_messages(&self.log), before: self.before }
    }
}

impl Clone for Nick {
    fn clone(&self) -> (r: Self)
        ensures
            r == *self,
    {
        Nick { name: self.name.clone() }
    }
}

impl Clone for NickReply {
    fn clone(&self) -> (r: Self)
        ensures
            r == *self,
    {
        NickReply {
            session_id: self.session_id.clone(),
            id: self.id.clone(),
            from: self.from.clone(),
            to: self.to.clone(),
        }
    }
}

impl Clone for PmInitiate {
    fn clone(&self) -> (r: Self)
        ensures
            r == *self,
    {
        PmInitiate { user_id: self.user_id.clone() }
    }
}

impl Clone for PmInitiateReply {
    fn clone(&self) -> (r: Self)
        ensures
            r == *self,
    {
        PmInitiateReply { pm_id: self.pm_id, to_nick: self.to_nick.clone() }
    }
}

impl Clone for Send {
    fn clone(&self) -> (r: Self)
        ensures
            r == *self,
    {
        Send { content: self.content.clone(), parent: self.parent }
    }
}

impl Clone for SendReply {
    fn clone(&self) -> (r: Self)
        ensures
            r == *self,
    {
        SendReply(self.0.clone())
    }
}

impl Clone for WhoReply {
    fn clone(&self) -> (r: Self)
        ensures
            who_reply_equiv(r, *self),
    {
        WhoReply { listing: clone_session_views(&self.listing) }
    }
}

} // verus!
