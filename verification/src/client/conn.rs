//! The client-specific connection: id allocation, reply correlation and the
//! mirrored room state around the basic connection machine.

use vstd::prelude::*;
use crate::api::types::Time;
use crate::api::packets::{Data, ParsedPacket};
use crate::client::state::State;
use crate::conn::{Conn, ConnConfig, Side};
use crate::replies::Replies;
use crate::text::{
    lemma_decimal_order, parse_u64_decimal, spec_decimal_digits,
    spec_decimal_value, u64_to_decimal,
};

verus! {

/// Configuration options for a client connection.
#[derive(Debug, PartialEq)]
pub struct ClientConnConfig {
    /// The domain where the server is hosted.
    pub domain: String,
    /// Whether the client presents itself as a human to the server.
    pub human: bool,
    /// The capacity of the channel between the connection task and its
    /// handles.
    pub channel_bufsize: usize,
    /// Timeout for opening a WebSocket connection, in milliseconds.
    pub connect_timeout: u64,
    /// Timeout for server replies to commands, in milliseconds.
    pub command_timeout: u64,
    /// How long to wait in-between pings, in milliseconds.
    pub ping_interval: u64,
}

impl Clone for ClientConnConfig {
    fn clone(&self) -> (r: Self)
        ensures
            r.domain@ == self.domain@,
            r.human == self.human,
            r.channel_bufsize == self.channel_bufsize,
            r.connect_timeout == self.connect_timeout,
            r.command_timeout == self.command_timeout,
            r.ping_interval == self.ping_interval,
    {
        ClientConnConfig {
            domain: self.domain.clone(),
            human: self.human,
            channel_bufsize: self.channel_bufsize,
            connect_timeout: self.connect_timeout,
            command_timeout: self.command_timeout,
            ping_interval: self.ping_interval,
        }
    }
}

impl Default for ClientConnConfig {
    /// The public server, as a bot, with ten-second connect and
    /// thirty-second command and ping timers.
    fn default() -> (r: ClientConnConfig)
        ensures
            r.domain@ == "euphoria.leet.nu"@,
            !r.human,
            r.channel_bufsize == 10,
            r.connect_timeout == 10_000,
            r.command_timeout == 30_000,
            r.ping_interval == 30_000,
    {
        ClientConnConfig {
            domain: "euphoria.leet.nu".to_owned(),
            human: false,
            channel_bufsize: 10,
            connect_timeout: 10_000,
            command_timeout: 30_000,
            ping_interval: 30_000,
        }
    }
}

/// The WebSocket URL of a room: `wss://{domain}/room/{room}/ws`, with query
/// `?h=1` when connecting as a human.
pub open spec fn spec_room_url(domain: Seq<char>, room: Seq<char>, human: bool) -> Seq<char> {
    "wss://"@ + domain + "/room/"@ + room + "/ws"@ + (if human {
        "?h=1"@
    } else {
        Seq::<char>::empty()
    })
}

/// Build the WebSocket URL of a room.
pub fn room_url(domain: &str, room: &str, human: bool) -> (r: String)
    ensures
        r@ == spec_room_url(domain@, room@, human),
{
    let mut out: Vec<char> = Vec::new();
    crate::text::push_str_chars(&mut out, "wss://");
    crate::text::push_str_chars(&mut out, domain);
    crate::text::push_str_chars(&mut out, "/room/");
    crate::text::push_str_chars(&mut out, room);
    crate::text::push_str_chars(&mut out, "/ws");
    if human {
        crate::text::push_str_chars(&mut out, "?h=1");
    }
    proof {
        assert(out@ =~= spec_room_url(domain@, room@, human));
    }
    crate::text::chars_to_string(&out)
}

/// A client connection: the basic connection machine, the mirrored room
/// state, the monotonically allocated command id, and the in-flight reply
/// map.
#[derive(Debug)]
pub struct ClientConn {
    /// The basic connection machine.
    pub conn: Conn,
    /// The mirrored room state.
    pub state: State,
    /// The last allocated command id; ids start at one and wrap.
    pub last_id: u64,
    /// The in-flight map from command id to waiter.
    pub replies: Replies,
}

impl ClientConn {
    /// The roster holds at most one entry per session id, and no id is
    /// awaited twice.
    pub open spec fn inv(&self) -> bool {
        self.spec_state().inv() && self.replies.inv()
    }

    /// The mirrored room state.
    pub open spec fn spec_state(&self) -> State {
        self.state
    }

    /// Decide whether the connection invariant holds: the roster has one
    /// entry per session id and no command id is awaited twice.
    pub fn check_inv(&self) -> (r: bool)
        ensures
            r == self.inv(),
    {
        let state_ok = match &self.state {
            State::Joining(_) => true,
            State::Joined(j) => j.listing.check_inv(),
        };
        state_ok && self.replies.check_inv()
    }

    /// A fresh client connection around a newly opened socket; the room
    /// state starts in the joining phase stamped with `now`.
    pub fn wrap(config: &ClientConnConfig, now: Time) -> (r: ClientConn)
        ensures
            r.inv(),
            r.conn.side == Side::Client,
            r.conn.config.ping_interval == config.ping_interval,
            r.conn.last_ws_ping_payload is None,
            r.conn.last_euph_ping_payload is None,
            r.last_id == 0,
            r.replies@ == Set::<u64>::empty(),
            r.replies.spec_timeout() == config.command_timeout,
            r.spec_state() matches State::Joining(j) && j.since == now,
    {
        let conn = Conn::wrap_with_config(
            Side::Client,
            ConnConfig { ping_interval: config.ping_interval },
        );
        ClientConn {
            conn,
            state: State::new(now),
            last_id: 0,
            replies: Replies::new(config.command_timeout),
        }
    }

    /// The current room state.
    pub fn state(&self) -> (r: &State)
        ensures
            *r == self.spec_state(),
    {
        &self.state
    }

    /// Allocate the next command id and frame a payload under it.
    ///
    /// Ids are decimal strings of a counter that starts at one and wraps;
    /// of two ids allocated without a wrap in between, the later one sorts
    /// after the earlier one under decimal-numeric order.
    pub fn send(&mut self, data: Data) -> (r: (String, ParsedPacket))
        ensures
            final(self).last_id == old(self).last_id.wrapping_add(1),
            r.0@ == spec_decimal_digits(final(self).last_id as nat),
            r.1.id matches Some(s) && s@ == r.0@,
            r.1.content == Ok::<Data, String>(data),
            r.1.ptype == data.spec_packet_type(),
            final(self).conn == old(self).conn,
            final(self).spec_state() == old(self).spec_state(),
            final(self).replies == old(self).replies,
    {
        self.last_id = self.last_id.wrapping_add(1);
        let id = u64_to_decimal(self.last_id);
        let id2 = id.clone();
        let packet = ParsedPacket::from_data(Some(id2), data);
        (id, packet)
    }

    /// Allocate the next command id, frame a payload under it, and register
    /// the id so the reply resolves the caller's waiter.
    pub fn send_command(&mut self, data: Data) -> (r: (u64, ParsedPacket))
        requires
            old(self).inv(),
        ensures
            final(self).inv(),
            final(self).last_id == old(self).last_id.wrapping_add(1),
            r.0 == final(self).last_id,
            final(self).replies@ == old(self).replies@.insert(r.0),
            r.1.id matches Some(s) && s@ == spec_decimal_digits(r.0 as nat),
            r.1.content == Ok::<Data, String>(data),
            final(self).conn == old(self).conn,
            final(self).spec_state() == old(self).spec_state(),
    {
        let (_, packet) = self.send(data);
        let id = self.last_id;
        self.replies.wait_for(id);
        (id, packet)
    }

    /// Route one fully processed inbound packet: the room state absorbs its
    /// payload, and a packet that carries a pending correlation id resolves
    /// that waiter, exactly once.
    pub fn on_packet(&mut self, packet: &ParsedPacket, now: Time) -> (delivered: bool)
        requires
            old(self).inv(),
        ensures
            final(self).inv(),
            match packet.content {
                Ok(d) => crate::client::state::spec_state_step_ok(
                    old(self).spec_state(),
                    d,
                    now,
                    final(self).spec_state(),
                ),
                Err(_) => final(self).spec_state() == old(self).spec_state(),
            },
            match packet.id {
                Option::Some(s) => {
                    &&& delivered == (spec_all_digits_nonempty(s@) && old(
                        self,
                    ).replies@.contains(spec_decimal_value(s@) as u64) && spec_decimal_value(s@)
                        <= u64::MAX)
                    &&& (spec_all_digits_nonempty(s@) && spec_decimal_value(s@) <= u64::MAX) ==>
                        final(self).replies@ == old(self).replies@.remove(
                        spec_decimal_value(s@) as u64,
                    )
                },
                Option::None => final(self).replies@ == old(self).replies@,
            },
            final(self).conn == old(self).conn,
            final(self).replies.spec_timeout() == old(self).replies.spec_timeout(),
    {
        match &packet.content {
            Ok(d) => {
                self.state.on_data(d, now);
            },
            Err(_) => {},
        }
        match &packet.id {
            Option::Some(s) => {
                match parse_u64_decimal(s.as_str()) {
                    Option::Some(id) => self.replies.complete(id),
                    Option::None => false,
                }
            },
            Option::None => false,
        }
    }
}

/// Whether a string is a non-empty run of decimal digits.
pub open spec fn spec_all_digits_nonempty(s: Seq<char>) -> bool {
    s.len() > 0 && crate::text::spec_all_digits(s)
}

/// For any two ids allocated by `send` on the same connection, the later id
/// sorts after the earlier one under decimal-numeric order, modulo the wrap
/// at the end of the 64-bit range.
pub proof fn lemma_send_id_monotonic(earlier: u64, later: u64)
    requires
        earlier < later,
    ensures
        spec_decimal_value(spec_decimal_digits(earlier as nat)) < spec_decimal_value(
            spec_decimal_digits(later as nat),
        ),
{
    lemma_decimal_order(earlier as nat, later as nat);
}


/// Interpret the reply a waiter received: a server error string resolves
/// the waiter with that message, anything else hands the payload on.
pub fn reply_content(packet: ParsedPacket) -> (r: Result<Data, crate::error::Error>)
    ensures
        match packet.content {
            Ok(d) => r == Ok::<Data, crate::error::Error>(d),
            Err(m) => r == Err::<Data, crate::error::Error>(crate::error::Error::Euph(m)),
        },
{
    match packet.content {
        Ok(d) => Ok(d),
        Err(m) => Err(crate::error::Error::Euph(m)),
    }
}

/// Take the reply to a send command: any other payload type is unexpected.
pub fn expect_send_reply(data: Data) -> (r: Result<
    crate::api::room_cmds::SendReply,
    crate::error::Error,
>)
    ensures
        match data {
            Data::SendReply(reply) => r == Ok::<
                crate::api::room_cmds::SendReply,
                crate::error::Error,
            >(reply),
            _ => r == Err::<crate::api::room_cmds::SendReply, crate::error::Error>(
                crate::error::Error::ReceivedUnexpectedPacket(data.spec_packet_type()),
            ),
        },
{
    match data {
        Data::SendReply(reply) => Ok(reply),
        other => {
            let t = other.packet_type();
            Err(crate::error::Error::ReceivedUnexpectedPacket(t))
        },
    }
}

} // verus!
