//! The packet envelope and the typed packet payloads.

use vstd::prelude::*;
use crate::json::Json;
use crate::api::types::{PacketType, Time};
use crate::api::events::{
    BounceEvent, DisconnectEvent, EditMessageEvent, HelloEvent, JoinEvent, LoginEvent,
    LogoutEvent, NetworkEvent, NickEvent, PartEvent, PingEvent, PmInitiateEvent, SendEvent,
    SnapshotEvent,
};
use crate::api::session_cmds::{Auth, AuthReply, Ping, PingReply};
use crate::api::room_cmds::{
    GetMessage, GetMessageReply, Log, LogReply, Nick, NickReply, PmInitiate, PmInitiateReply,
    Send, SendReply, Who, WhoReply,
};

verus! {

/// A raw packet, closely matching the wire representation.
///
/// The payload is an uninterpreted JSON value; it may hold both data and an
/// error at the same time. [`ParsedPacket`] is the interpreted form.
#[derive(Debug, PartialEq)]
pub struct Packet {
    /// Client-generated id for associating replies with commands.
    pub id: Option<String>,
    /// The type of the command, reply, or event.
    pub ptype: PacketType,
    /// The payload of the command, reply, or event.
    pub data: Option<Json>,
    /// Appears in replies if a command fails.
    pub error: Option<String>,
    /// Appears in replies to warn the client that it may be flooding.
    pub throttled: bool,
    /// If `throttled` is true, describes why.
    pub throttled_reason: Option<String>,
}

/// Typed packet payloads: the events, commands and replies that the library
/// interprets, and a catch-all for the rest.
#[derive(Debug, PartialEq)]
pub enum Data {
    BounceEvent(BounceEvent),
    DisconnectEvent(DisconnectEvent),
    EditMessageEvent(EditMessageEvent),
    HelloEvent(HelloEvent),
    JoinEvent(JoinEvent),
    LoginEvent(LoginEvent),
    LogoutEvent(LogoutEvent),
    NetworkEvent(NetworkEvent),
    NickEvent(NickEvent),
    PartEvent(PartEvent),
    PingEvent(PingEvent),
    PmInitiateEvent(PmInitiateEvent),
    SendEvent(SendEvent),
    SnapshotEvent(SnapshotEvent),
    Auth(Auth),
    AuthReply(AuthReply),
    Ping(Ping),
    PingReply(PingReply),
    GetMessage(GetMessage),
    GetMessageReply(GetMessageReply),
    Log(Log),
    LogReply(LogReply),
    Nick(Nick),
    NickReply(NickReply),
    PmInitiate(PmInitiate),
    PmInitiateReply(PmInitiateReply),
    Send(Send),
    SendReply(SendReply),
    Who(Who),
    WhoReply(WhoReply),
    /// A valid type of packet data that this library does not model as a
    /// struct, kept as its JSON value.
    Unimplemented(PacketType, Json),
}

impl Data {
    /// The packet type of this payload.
    pub open spec fn spec_packet_type(&self) -> PacketType {
        match self {
            Data::BounceEvent(_) => PacketType::BounceEvent,
            Data::DisconnectEvent(_) => PacketType::DisconnectEvent,
            Data::EditMessageEvent(_) => PacketType::EditMessageEvent,
            Data::HelloEvent(_) => PacketType::HelloEvent,
            Data::JoinEvent(_) => PacketType::JoinEvent,
            Data::LoginEvent(_) => PacketType::LoginEvent,
            Data::LogoutEvent(_) => PacketType::LogoutEvent,
            Data::NetworkEvent(_) => PacketType::NetworkEvent,
            Data::NickEvent(_) => PacketType::NickEvent,
            Data::PartEvent(_) => PacketType::PartEvent,
            Data::PingEvent(_) => PacketType::PingEvent,
            Data::PmInitiateEvent(_) => PacketType::PmInitiateEvent,
            Data::SendEvent(_) => PacketType::SendEvent,
            Data::SnapshotEvent(_) => PacketType::SnapshotEvent,
            Data::Auth(_) => PacketType::Auth,
            Data::AuthReply(_) => PacketType::AuthReply,
            Data::Ping(_) => PacketType::Ping,
            Data::PingReply(_) => PacketType::PingReply,
            Data::GetMessage(_) => PacketType::GetMessage,
            Data::GetMessageReply(_) => PacketType::GetMessageReply,
            Data::Log(_) => PacketType::Log,
            Data::LogReply(_) => PacketType::LogReply,
            Data::Nick(_) => PacketType::Nick,
            Data::NickReply(_) => PacketType::NickReply,
            Data::PmInitiate(_) => PacketType::PmInitiate,
            Data::PmInitiateReply(_) => PacketType::PmInitiateReply,
            Data::Send(_) => PacketType::Send,
            Data::SendReply(_) => PacketType::SendReply,
            Data::Who(_) => PacketType::Who,
            Data::WhoReply(_) => PacketType::WhoReply,
            Data::Unimplemented(t, _) => *t,
        }
    }

    /// The packet type of this payload.
    pub fn packet_type(&self) -> (r: PacketType)
        ensures
            r == self.spec_packet_type(),
    {
        match self {
            Data::BounceEvent(_) => PacketType::BounceEvent,
            Data::DisconnectEvent(_) => PacketType::DisconnectEvent,
            Data::EditMessageEvent(_) => PacketType::EditMessageEvent,
            Data::HelloEvent(_) => PacketType::HelloEvent,
            Data::JoinEvent(_) => PacketType::JoinEvent,
            Data::LoginEvent(_) => PacketType::LoginEvent,
            Data::LogoutEvent(_) => PacketType::LogoutEvent,
            Data::NetworkEvent(_) => PacketType::NetworkEvent,
            Data::NickEvent(_) => PacketType::NickEvent,
            Data::PartEvent(_) => PacketType::PartEvent,
            Data::PingEvent(_) => PacketType::PingEvent,
            Data::PmInitiateEvent(_) => PacketType::PmInitiateEvent,
            Data::SendEvent(_) => PacketType::SendEvent,
            Data::SnapshotEvent(_) => PacketType::SnapshotEvent,
            Data::Auth(_) => PacketType::Auth,
            Data::AuthReply(_) => PacketType::AuthReply,
            Data::Ping(_) => PacketType::Ping,
            Data::PingReply(_) => PacketType::PingReply,
            Data::GetMessage(_) => PacketType::GetMessage,
            Data::GetMessageReply(_) => PacketType::GetMessageReply,
            Data::Log(_) => PacketType::Log,
            Data::LogReply(_) => PacketType::LogReply,
            Data::Nick(_) => PacketType::Nick,
            Data::NickReply(_) => PacketType::NickReply,
            Data::PmInitiate(_) => PacketType::PmInitiate,
            Data::PmInitiateReply(_) => PacketType::PmInitiateReply,
            Data::Send(_) => PacketType::Send,
            Data::SendReply(_) => PacketType::SendReply,
            Data::Who(_) => PacketType::Who,
            Data::WhoReply(_) => PacketType::WhoReply,
            Data::Unimplemented(t, _) => *t,
        }
    }

    /// The reply timestamp, if this payload is a ping reply.
    pub fn as_ping_reply(&self) -> (r: Option<PingReply>)
        ensures
            r == match self {
                Data::PingReply(p) => Some(*p),
                _ => None::<PingReply>,
            },
    {
        match self {
            Data::PingReply(p) => Some(*p),
            _ => None,
        }
    }

    /// The server timestamp, if this payload is a server-to-client ping.
    pub fn as_ping_event_time(&self) -> (r: Option<Time>)
        ensures
            r == match self {
                Data::PingEvent(p) => Some(p.time),
                _ => None::<Time>,
            },
    {
        match self {
            Data::PingEvent(p) => Some(p.time),
            _ => None,
        }
    }
}

/// A fully interpreted packet.
#[derive(Debug, PartialEq)]
pub struct ParsedPacket {
    /// Client-generated id for associating replies with commands.
    pub id: Option<String>,
    /// The type of the command, reply, or event.
    pub ptype: PacketType,
    /// The payload, or an error message if the command failed.
    pub content: Result<Data, String>,
    /// A warning to the client that it may be flooding, with its reason.
    pub throttled: Option<String>,
}

impl Clone for ParsedPacket {
    fn clone(&self) -> (r: Self)
        ensures
            parsed_packet_equiv(r, *self),
    {
        ParsedPacket {
            id: self.id.clone(),
            ptype: self.ptype,
            content: match &self.content {
                Ok(d) => Ok(d.clone()),
                Err(e) => Err(e.clone()),
            },
            throttled: self.throttled.clone(),
        }
    }
}

impl ParsedPacket {
    /// Wrap a typed payload in a packet envelope.
    pub fn from_data(id: Option<String>, data: Data) -> (r: ParsedPacket)
        ensures
            r.id == id,
            r.ptype == data.spec_packet_type(),
            r.content == Ok::<Data, String>(data),
            r.throttled is None,
    {
        let ptype = data.packet_type();
        ParsedPacket { id, ptype, content: Ok(data), throttled: None }
    }
}


/// Whether two payloads hold the same values.
///
/// Payloads that contain lists are compared by their elements; all others by
/// value.
pub open spec fn data_equiv(a: Data, b: Data) -> bool {
    match (a, b) {
        (Data::BounceEvent(x), Data::BounceEvent(y)) => crate::api::events::bounce_event_equiv(
            x,
            y,
        ),
        (Data::SnapshotEvent(x), Data::SnapshotEvent(y)) =>
            crate::api::events::snapshot_event_equiv(x, y),
        (Data::LogReply(x), Data::LogReply(y)) => crate::api::room_cmds::log_reply_equiv(x, y),
        (Data::WhoReply(x), Data::WhoReply(y)) => crate::api::room_cmds::who_reply_equiv(x, y),
        (Data::Unimplemented(t, j), Data::Unimplemented(u, k)) => t == u && crate::json::json_equiv(
            j,
            k,
        ),
        _ => a == b,
    }
}

/// Whether two interpreted packets hold the same values.
pub open spec fn parsed_packet_equiv(a: ParsedPacket, b: ParsedPacket) -> bool {
    &&& a.id == b.id
    &&& a.ptype == b.ptype
    &&& match (a.content, b.content) {
        (Ok(x), Ok(y)) => data_equiv(x, y),
        (Err(x), Err(y)) => x == y,
        _ => false,
    }
    &&& a.throttled == b.throttled
}

/// Whether two raw packets hold the same values.
pub open spec fn packet_equiv(a: Packet, b: Packet) -> bool {
    &&& a.id == b.id
    &&& a.ptype == b.ptype
    &&& match (a.data, b.data) {
        (Option::None, Option::None) => true,
        (Option::Some(x), Option::Some(y)) => crate::json::json_equiv(x, y),
        _ => false,
    }
    &&& a.error == b.error
    &&& a.throttled == b.throttled
    &&& a.throttled_reason == b.throttled_reason
}

/// Whether two optional strings hold the same characters.
pub open spec fn opt_str_view_eq(a: Option<String>, b: Option<String>) -> bool {
    match (a, b) {
        (Option::None, Option::None) => true,
        (Option::Some(x), Option::Some(y)) => x@ == y@,
        _ => false,
    }
}

/// Whether two payloads hold the same values, comparing strings by their
/// characters; only payload types the codec handles are related.
pub open spec fn data_equiv_views(a: Data, b: Data) -> bool {
    match (a, b) {
        (Data::Ping(x), Data::Ping(y)) => x == y,
        (Data::PingReply(x), Data::PingReply(y)) => x == y,
        (Data::PingEvent(x), Data::PingEvent(y)) => x == y,
        (Data::Who(_), Data::Who(_)) => true,
        (Data::Auth(x), Data::Auth(y)) => x.auth_type == y.auth_type && opt_str_view_eq(
            x.passcode,
            y.passcode,
        ),
        (Data::AuthReply(x), Data::AuthReply(y)) => x.success == y.success && opt_str_view_eq(
            x.reason,
            y.reason,
        ),
        (Data::Nick(x), Data::Nick(y)) => x.name@ == y.name@,
        (Data::NickReply(x), Data::NickReply(y)) => x.session_id.0@ == y.session_id.0@ && x.id.0@
            == y.id.0@ && x.from@ == y.from@ && x.to@ == y.to@,
        (Data::Send(x), Data::Send(y)) => x.content@ == y.content@ && x.parent == y.parent,
        (Data::BounceEvent(x), Data::BounceEvent(y)) => opt_str_view_eq(x.reason, y.reason)
            && (match (x.auth_options, y.auth_options) {
            (Option::None, Option::None) => true,
            (Option::Some(p), Option::Some(q)) => p@ == q@,
            _ => false,
        }),
        (Data::DisconnectEvent(x), Data::DisconnectEvent(y)) => x.reason@ == y.reason@,
        (Data::NetworkEvent(x), Data::NetworkEvent(y)) => x.kind@ == y.kind@ && x.server_id@
            == y.server_id@ && x.server_era@ == y.server_era@,
        (Data::NickEvent(x), Data::NickEvent(y)) => x.session_id.0@ == y.session_id.0@ && x.id.0@
            == y.id.0@ && x.from@ == y.from@ && x.to@ == y.to@,
        (Data::JoinEvent(x), Data::JoinEvent(y)) => crate::api::codec::session_view_equiv_views(
            x.0,
            y.0,
        ),
        (Data::PartEvent(x), Data::PartEvent(y)) => crate::api::codec::session_view_equiv_views(
            x.0,
            y.0,
        ),
        (Data::WhoReply(x), Data::WhoReply(y)) => x.listing@.len() == y.listing@.len() && (forall|
            i: int,
        |
            0 <= i < x.listing@.len() ==> crate::api::codec::session_view_equiv_views(
                #[trigger] x.listing@[i],
                y.listing@[i],
            )),
        (Data::SendEvent(x), Data::SendEvent(y)) => crate::api::codec::message_equiv_views(
            x.0,
            y.0,
        ),
        (Data::SendReply(x), Data::SendReply(y)) => crate::api::codec::message_equiv_views(
            x.0,
            y.0,
        ),
        (Data::HelloEvent(x), Data::HelloEvent(y)) => {
            &&& crate::api::codec::session_view_equiv_views(x.session, y.session)
            &&& match (x.account, y.account) {
                (Option::None, Option::None) => true,
                (Option::Some(a), Option::Some(b)) => a.id == b.id && a.name@ == b.name@
                    && a.email@ == b.email@,
                _ => false,
            }
            &&& x.room_is_private == y.room_is_private
            &&& x.version@ == y.version@
        },
        (Data::SnapshotEvent(x), Data::SnapshotEvent(y)) => {
            &&& x.session_id.0@ == y.session_id.0@
            &&& x.version@ == y.version@
            &&& x.listing@.len() == y.listing@.len()
            &&& (forall|i: int|
                0 <= i < x.listing@.len() ==> crate::api::codec::session_view_equiv_views(
                    #[trigger] x.listing@[i],
                    y.listing@[i],
                ))
            &&& x.log@.len() == y.log@.len()
            &&& (forall|i: int|
                0 <= i < x.log@.len() ==> crate::api::codec::message_equiv_views(
                    #[trigger] x.log@[i],
                    y.log@[i],
                ))
            &&& opt_str_view_eq(x.nick, y.nick)
        },
        (Data::Unimplemented(t, x), Data::Unimplemented(u, y)) => t == u
            && crate::json::json_equiv(x, y),
        _ => false,
    }
}

impl Clone for Data {
    fn clone(&self) -> (r: Self)
        ensures
            data_equiv(r, *self),
    {
        match self {
            Data::BounceEvent(p) => Data::BounceEvent(p.clone()),
            Data::DisconnectEvent(p) => Data::DisconnectEvent(p.clone()),
            Data::EditMessageEvent(p) => Data::EditMessageEvent(p.clone()),
            Data::HelloEvent(p) => Data::HelloEvent(p.clone()),
            Data::JoinEvent(p) => Data::JoinEvent(p.clone()),
            Data::LoginEvent(p) => Data::LoginEvent(*p),
            Data::LogoutEvent(p) => Data::LogoutEvent(LogoutEvent),
            Data::NetworkEvent(p) => Data::NetworkEvent(p.clone()),
            Data::NickEvent(p) => Data::NickEvent(p.clone()),
            Data::PartEvent(p) => Data::PartEvent(p.clone()),
            Data::PingEvent(p) => Data::PingEvent(*p),
            Data::PmInitiateEvent(p) => Data::PmInitiateEvent(p.clone()),
            Data::SendEvent(p) => Data::SendEvent(p.clone()),
            Data::SnapshotEvent(p) => Data::SnapshotEvent(p.clone()),
            Data::Auth(p) => Data::Auth(p.clone()),
            Data::AuthReply(p) => Data::AuthReply(p.clone()),
            Data::Ping(p) => Data::Ping(*p),
            Data::PingReply(p) => Data::PingReply(*p),
            Data::GetMessage(p) => Data::GetMessage(*p),
            Data::GetMessageReply(p) => Data::GetMessageReply(p.clone()),
            Data::Log(p) => Data::Log(*p),
            Data::LogReply(p) => Data::LogReply(p.clone()),
            Data::Nick(p) => Data::Nick(p.clone()),
            Data::NickReply(p) => Data::NickReply(p.clone()),
            Data::PmInitiate(p) => Data::PmInitiate(p.clone()),
            Data::PmInitiateReply(p) => Data::PmInitiateReply(p.clone()),
            Data::Send(p) => Data::Send(p.clone()),
            Data::SendReply(p) => Data::SendReply(p.clone()),
            Data::Who(p) => Data::Who(Who),
            Data::WhoReply(p) => Data::WhoReply(p.clone()),
            Data::Unimplemented(t, j) => Data::Unimplemented(*t, j.clone()),
        }
    }
}

impl Clone for Packet {
    fn clone(&self) -> (r: Self)
        ensures
            packet_equiv(r, *self),
    {
        Packet {
            id: crate::text::clone_opt_string(&self.id),
            ptype: self.ptype,
            data: match &self.data {
                Option::None => None,
                Option::Some(j) => Some(j.clone()),
            },
            error: crate::text::clone_opt_string(&self.error),
            throttled: self.throttled,
            throttled_reason: crate::text::clone_opt_string(&self.throttled_reason),
        }
    }
}

} // verus!
