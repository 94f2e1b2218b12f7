//! The basic connection machine between client and server.
//!
//! It frames packets, answers protocol pings, and keeps the dual-layer
//! liveness state: one transport-level ping and one protocol-level ping per
//! interval, each of which must be acknowledged before the next interval.
//! The socket itself lives outside the library; its frames are handed in as
//! values and the packets and frames to send are handed back.

use vstd::prelude::*;
use crate::api::types::Time;
use crate::api::packets::{Data, ParsedPacket};
use crate::api::session_cmds::{Ping, PingReply};
use crate::api::events::PingEvent;
use crate::error::Error;
use crate::text::clone_opt_string;

verus! {

/// Which side of the connection we are on.
#[derive(Debug, Clone, Copy, PartialEq, Eq, Structural)]
pub enum Side {
    /// We are the client and are talking to a server.
    Client,
    /// We are the server and are talking to a client.
    Server,
}

/// Configuration options for a connection.
#[derive(Debug, Clone, Copy, PartialEq, Eq, Structural)]
pub struct ConnConfig {
    /// How long to wait in-between pings, in milliseconds.
    pub ping_interval: u64,
}

impl Default for ConnConfig {
    /// Thirty seconds between pings.
    fn default() -> (r: ConnConfig)
        ensures
            r.ping_interval == 30000,
    {
        ConnConfig { ping_interval: 30000 }
    }
}

/// A WebSocket frame, as the connection machine sees it.
#[derive(Debug, PartialEq)]
pub enum WsMessage {
    /// A text frame holding one JSON packet.
    Text(String),
    /// A binary frame; receiving one is a protocol violation.
    Binary(Vec<u8>),
    /// A transport-level ping with its payload.
    Ping(Vec<u8>),
    /// A transport-level pong with its payload.
    Pong(Vec<u8>),
    /// A close frame.
    Close,
}

/// The big-endian bytes of a 64-bit value.
pub open spec fn spec_be_bytes(n: u64) -> Seq<u8> {
    seq![
        (n >> 56) as u8,
        (n >> 48) as u8,
        (n >> 40) as u8,
        (n >> 32) as u8,
        (n >> 24) as u8,
        (n >> 16) as u8,
        (n >> 8) as u8,
        n as u8,
    ]
}

/// The big-endian bytes of a 64-bit value.
pub fn be_bytes(n: u64) -> (r: Vec<u8>)
    ensures
        r@ == spec_be_bytes(n),
{
    let mut r: Vec<u8> = Vec::new();
    r.push((n >> 56) as u8);
    r.push((n >> 48) as u8);
    r.push((n >> 40) as u8);
    r.push((n >> 32) as u8);
    r.push((n >> 24) as u8);
    r.push((n >> 16) as u8);
    r.push((n >> 8) as u8);
    r.push(n as u8);
    proof {
        assert(r@ =~= spec_be_bytes(n));
    }
    r
}

/// Whether two byte vectors hold the same bytes.
pub fn bytes_eq(a: &Vec<u8>, b: &Vec<u8>) -> (r: bool)
    ensures
        r == (a@ == b@),
{
    if a.len() != b.len() {
        proof {
            assert(a@.len() != b@.len());
        }
        return false;
    }
    let mut i: usize = 0;
    while i < a.len()
        invariant
            a@.len() == b@.len(),
            i <= a@.len(),
            forall|j: int| 0 <= j < i ==> a@[j] == b@[j],
        decreases a@.len() - i,
    {
        if a[i] != b[i] {
            proof {
                assert(a@[i as int] != b@[i as int]);
            }
            return false;
        }
        i += 1;
    }
    proof {
        assert(a@ =~= b@);
    }
    true
}

/// What the connection asks to have sent after a ping tick: a transport
/// ping frame and a protocol ping packet.
#[derive(Debug, PartialEq)]
pub struct PingOutput {
    /// The payload of the transport-level ping to send.
    pub ws_payload: Vec<u8>,
    /// The protocol-level ping packet to send.
    pub packet: ParsedPacket,
}

/// Whether a previous ping of either layer is still waiting for its
/// acknowledgement.
pub open spec fn spec_ping_unacked(c: Conn) -> bool {
    (c.last_ws_ping_payload is Some && !c.last_ws_ping_replied_to) || (c.last_euph_ping_payload
        is Some && !c.last_euph_ping_replied_to)
}

/// The state after checking a protocol ping reply with this timestamp:
/// only the protocol acknowledgement flag may change, and it becomes set
/// exactly when the timestamp echoes the last protocol ping.
pub open spec fn spec_euph_ack_step(pre: Conn, post: Conn, t: Option<Time>) -> bool {
    &&& post.last_euph_ping_replied_to == (pre.last_euph_ping_replied_to || (t is Some
        && pre.last_euph_ping_payload == t))
    &&& post.last_euph_ping_payload == pre.last_euph_ping_payload
    &&& post.last_ws_ping_payload == pre.last_ws_ping_payload
    &&& post.last_ws_ping_replied_to == pre.last_ws_ping_replied_to
    &&& post.side == pre.side
    &&& post.config == pre.config
}

/// The liveness state of one connection.
///
/// The transport pong must echo the last transport ping payload exactly, and
/// the protocol ping reply must echo the last protocol timestamp exactly;
/// an unsolicited pong changes nothing.
#[derive(Debug, PartialEq)]
pub struct Conn {
    /// Which side of the connection we are on.
    pub side: Side,
    /// The connection's configuration.
    pub config: ConnConfig,
    /// The payload of the last transport-level ping sent, if any.
    pub last_ws_ping_payload: Option<Vec<u8>>,
    /// Whether the last transport-level ping was acknowledged.
    pub last_ws_ping_replied_to: bool,
    /// The timestamp of the last protocol-level ping sent, if any.
    pub last_euph_ping_payload: Option<Time>,
    /// Whether the last protocol-level ping was acknowledged.
    pub last_euph_ping_replied_to: bool,
}

/// How one inbound packet changes the liveness state and what reply it
/// provokes: an inbound protocol ping is echoed under its correlation id, a
/// protocol ping reply is checked against the last ping, anything else
/// changes nothing.
pub open spec fn spec_control_step(
    pre: Conn,
    post: Conn,
    packet: ParsedPacket,
    reply: Option<ParsedPacket>,
) -> bool {
    match packet.content {
        Ok(d) => match d {
            Data::PingEvent(p) => (reply matches Some(rp)) && reply->Some_0.id == packet.id
                && reply->Some_0.content == Ok::<Data, String>(
                Data::PingReply(PingReply { time: Some(p.time) }),
            ) && post == pre,
            Data::Ping(p) => (reply matches Some(rp)) && reply->Some_0.id == packet.id
                && reply->Some_0.content == Ok::<Data, String>(
                Data::PingReply(PingReply { time: Some(p.time) }),
            ) && post == pre,
            Data::PingReply(p) => reply is None && spec_euph_ack_step(pre, post, p.time),
            _ => reply is None && post == pre,
        },
        Err(_) => reply is None && post == pre,
    }
}

impl Conn {
    /// A fresh connection machine around a newly opened socket.
    pub fn wrap_with_config(side: Side, config: ConnConfig) -> (r: Conn)
        ensures
            r.side == side,
            r.config == config,
            r.last_ws_ping_payload is None,
            !r.last_ws_ping_replied_to,
            r.last_euph_ping_payload is None,
            !r.last_euph_ping_replied_to,
    {
        Conn {
            side,
            config,
            last_ws_ping_payload: None,
            last_ws_ping_replied_to: false,
            last_euph_ping_payload: None,
            last_euph_ping_replied_to: false,
        }
    }

    /// A fresh connection machine with the default configuration.
    pub fn wrap(side: Side) -> (r: Conn)
        ensures
            r.side == side,
            r.config.ping_interval == 30000,
            r.last_ws_ping_payload is None,
            r.last_euph_ping_payload is None,
    {
        Conn::wrap_with_config(side, ConnConfig::default())
    }

    /// The connection's side.
    pub fn side(&self) -> (r: Side)
        ensures
            r == self.side,
    {
        self.side
    }

    /// The connection's configuration.
    pub fn config(&self) -> (r: ConnConfig)
        ensures
            r == self.config,
    {
        self.config
    }

    /// The ping interval fired: check the previous pings and make the next
    /// pair.
    ///
    /// If a ping of either layer was not acknowledged before this tick, the
    /// connection must close and the error is `PingTimeout`. Otherwise a new
    /// transport ping carrying the wall time in milliseconds, big-endian,
    /// and a new protocol ping carrying the wall time in seconds are made,
    /// and both layers await acknowledgement again.
    pub fn on_ping_tick(&mut self, now_ms: i64, now_s: i64) -> (r: Result<PingOutput, Error>)
        requires
            -0x2000_0000_0000_0000 < now_s < 0x2000_0000_0000_0000,
        ensures
            r is Err <==> spec_ping_unacked(*old(self)),
            r matches Err(e) ==> e == Error::PingTimeout && *final(self) == *old(self),
            r matches Ok(out) ==> {
                &&& out.ws_payload@ == spec_be_bytes(now_ms as u64)
                &&& final(self).last_ws_ping_payload matches Some(p) && p@ == spec_be_bytes(
                    now_ms as u64,
                )
                &&& !final(self).last_ws_ping_replied_to
                &&& final(self).last_euph_ping_payload == Some(Time(now_s))
                &&& !final(self).last_euph_ping_replied_to
                &&& final(self).side == old(self).side
                &&& final(self).config == old(self).config
                &&& out.packet.id is None
                &&& match old(self).side {
                    Side::Client => out.packet.content == Ok::<Data, String>(
                        Data::Ping(Ping { time: Time(now_s) }),
                    ),
                    Side::Server => out.packet.content == Ok::<Data, String>(
                        Data::PingEvent(
                            PingEvent {
                                time: Time(now_s),
                                next: Time(
                                    (now_s + (old(self).config.ping_interval / 1000) as i64) as i64,
                                ),
                            },
                        ),
                    ),
                }
            },
    {
        if self.last_ws_ping_payload.is_some() && !self.last_ws_ping_replied_to {
            return Err(Error::PingTimeout);
        }
        if self.last_euph_ping_payload.is_some() && !self.last_euph_ping_replied_to {
            return Err(Error::PingTimeout);
        }
        let ws_payload = be_bytes(now_ms as u64);
        let mut kept = Vec::new();
        let mut i: usize = 0;
        while i < ws_payload.len()
            invariant
                i <= ws_payload@.len(),
                kept@ == ws_payload@.subrange(0, i as int),
            decreases ws_payload@.len() - i,
        {
            kept.push(ws_payload[i]);
            proof {
                assert(kept@ =~= ws_payload@.subrange(0, i + 1));
            }
            i += 1;
        }
        proof {
            assert(kept@ =~= ws_payload@);
        }
        self.last_ws_ping_payload = Some(kept);
        self.last_ws_ping_replied_to = false;
        let euph_time = Time(now_s);
        self.last_euph_ping_payload = Some(euph_time);
        self.last_euph_ping_replied_to = false;
        let data = match self.side {
            Side::Client => Data::Ping(Ping { time: euph_time }),
            Side::Server => {
                let step = (self.config.ping_interval / 1000) as i64;
                Data::PingEvent(PingEvent { time: euph_time, next: Time(now_s + step) })
            },
        };
        let packet = ParsedPacket::from_data(None, data);
        Ok(PingOutput { ws_payload, packet })
    }

    /// A transport-level pong arrived: it acknowledges the transport ping
    /// exactly when its payload echoes the last ping payload.
    pub fn on_pong(&mut self, payload: &Vec<u8>)
        ensures
            final(self).last_ws_ping_replied_to == (old(self).last_ws_ping_replied_to || (old(
                self,
            ).last_ws_ping_payload matches Some(p) && p@ == payload@)),
            final(self).last_ws_ping_payload == old(self).last_ws_ping_payload,
            final(self).last_euph_ping_payload == old(self).last_euph_ping_payload,
            final(self).last_euph_ping_replied_to == old(self).last_euph_ping_replied_to,
            final(self).side == old(self).side && final(self).config == old(self).config,
    {
        let matches_ping = match &self.last_ws_ping_payload {
            Option::Some(p) => bytes_eq(p, payload),
            Option::None => false,
        };
        if matches_ping {
            self.last_ws_ping_replied_to = true;
        }
    }

    /// A protocol-level ping reply arrived: it acknowledges the protocol
    /// ping exactly when its timestamp echoes the last ping timestamp.
    pub fn on_ping_reply(&mut self, reply: &PingReply)
        ensures
            final(self).last_euph_ping_replied_to == (old(self).last_euph_ping_replied_to || (
            reply.time is Some && old(self).last_euph_ping_payload == reply.time)),
            final(self).last_euph_ping_payload == old(self).last_euph_ping_payload,
            final(self).last_ws_ping_payload == old(self).last_ws_ping_payload,
            final(self).last_ws_ping_replied_to == old(self).last_ws_ping_replied_to,
            final(self).side == old(self).side && final(self).config == old(self).config,
    {
        match reply.time {
            Option::Some(t) => {
                match self.last_euph_ping_payload {
                    Option::Some(p) => {
                        if p == t {
                            self.last_euph_ping_replied_to = true;
                        }
                    },
                    Option::None => {},
                }
            },
            Option::None => {},
        }
    }

    /// Handle the control concerns of an inbound packet: an inbound
    /// protocol ping is answered with a reply that echoes its timestamp and
    /// keeps the original correlation id, and a protocol ping reply is
    /// checked against the last protocol ping.
    pub fn on_packet(&mut self, packet: &ParsedPacket) -> (r: Option<ParsedPacket>)
        ensures
            spec_control_step(*old(self), *final(self), *packet, r),
    {
        match &packet.content {
            Ok(Data::PingEvent(p)) => {
                let id = clone_opt_string(&packet.id);
                Some(ParsedPacket::from_data(id, Data::PingReply(PingReply { time: Some(p.time) })))
            },
            Ok(Data::Ping(p)) => {
                let id = clone_opt_string(&packet.id);
                Some(ParsedPacket::from_data(id, Data::PingReply(PingReply { time: Some(p.time) })))
            },
            Ok(Data::PingReply(p)) => {
                self.on_ping_reply(p);
                None
            },
            _ => None,
        }
    }

    /// Interpret one inbound WebSocket frame.
    ///
    /// A matching pong acknowledges the transport ping; a text frame is
    /// parsed as one packet and its control concerns are handled, yielding
    /// the packet and possibly a reply to send; a binary frame is a protocol
    /// violation; a close frame ends the stream; malformed text is rejected.
    pub fn on_message(&mut self, msg: WsMessage) -> (r: Result<
        Option<(ParsedPacket, Option<ParsedPacket>)>,
        Error,
    >)
        ensures
            match msg {
                WsMessage::Binary(_) => r == Result::<
                    Option<(ParsedPacket, Option<ParsedPacket>)>,
                    Error,
                >::Err(Error::ReceivedBinaryMessage) && *final(self) == *old(self),
                WsMessage::Close => r == Result::<
                    Option<(ParsedPacket, Option<ParsedPacket>)>,
                    Error,
                >::Err(Error::ConnectionClosed) && *final(self) == *old(self),
                WsMessage::Ping(_) => (r matches Ok(o)) && r->Ok_0 is None && *final(self)
                    == *old(self),
                WsMessage::Pong(payload) => (r matches Ok(o)) && r->Ok_0 is None && ({
                    &&& final(self).last_ws_ping_replied_to == (old(
                        self,
                    ).last_ws_ping_replied_to || (old(self).last_ws_ping_payload matches Some(pl)
                        && old(self).last_ws_ping_payload->Some_0@ == payload@))
                    &&& final(self).last_ws_ping_payload == old(self).last_ws_ping_payload
                    &&& final(self).last_euph_ping_payload == old(self).last_euph_ping_payload
                    &&& final(self).last_euph_ping_replied_to == old(
                        self,
                    ).last_euph_ping_replied_to
                    &&& final(self).side == old(self).side
                    &&& final(self).config == old(self).config
                }),
                WsMessage::Text(text) => ((r matches Ok(o)) && r->Ok_0 is Some
                    && spec_control_step(
                    *old(self),
                    *final(self),
                    r->Ok_0->Some_0.0,
                    r->Ok_0->Some_0.1,
                )) || ((r matches Err(e)) && (r->Err_0 matches
                    Error::ReceivedMalformedPacket(m)) && r->Err_0->ReceivedMalformedPacket_0@
                    == text@ && *final(self) == *old(self)),
            },
    {
        match msg {
            WsMessage::Pong(payload) => {
                self.on_pong(&payload);
                Ok(None)
            },
            WsMessage::Text(text) => {
                let packet = match crate::api::codec::packet_from_str(text.as_str()) {
                    Ok(p) => p,
                    Err(()) => {
                        return Err(Error::ReceivedMalformedPacket(text));
                    },
                };
                let parsed = match ParsedPacket::from_packet(packet) {
                    Ok(pp) => pp,
                    Err(()) => {
                        return Err(Error::ReceivedMalformedPacket(text));
                    },
                };
                let reply = self.on_packet(&parsed);
                Ok(Some((parsed, reply)))
            },
            WsMessage::Binary(_) => Err(Error::ReceivedBinaryMessage),
            WsMessage::Close => Err(Error::ConnectionClosed),
            WsMessage::Ping(_) => Ok(None),
        }
    }
}

} // verus!
