//! The connection machine: dual pings, reply correlation and id allocation.

use euphoxide::api::packets::{Data, ParsedPacket};
use euphoxide::api::room_cmds::{Send, SendReply};
use euphoxide::api::session_cmds::{Ping, PingReply};
use euphoxide::api::types::{MessageId, SessionId, SessionView, Snowflake, Time, UserId};
use euphoxide::client::conn::{expect_send_reply, reply_content, room_url, ClientConn, ClientConnConfig};
use euphoxide::conn::{Conn, Side, WsMessage};
use euphoxide::error::Error;
use euphoxide::replies::Replies;

#[test]
fn ping_timeout_fires_when_either_layer_is_unacknowledged() {
    // transport pong missing
    let mut conn = Conn::wrap(Side::Client);
    let out = conn.on_ping_tick(1_000, 1).unwrap();
    assert_eq!(out.ws_payload, 1_000i64.to_be_bytes().to_vec());
    conn.on_ping_reply(&PingReply { time: Some(Time(1)) });
    assert!(matches!(conn.on_ping_tick(31_000, 31), Err(Error::PingTimeout)));

    // protocol reply missing
    let mut conn = Conn::wrap(Side::Client);
    let out = conn.on_ping_tick(1_000, 1).unwrap();
    conn.on_pong(&out.ws_payload);
    assert!(matches!(conn.on_ping_tick(31_000, 31), Err(Error::PingTimeout)));

    // both acknowledged: the next tick sends fresh pings
    let mut conn = Conn::wrap(Side::Client);
    let out = conn.on_ping_tick(1_000, 1).unwrap();
    conn.on_pong(&out.ws_payload);
    conn.on_ping_reply(&PingReply { time: Some(Time(1)) });
    assert!(conn.on_ping_tick(31_000, 31).is_ok());
}

#[test]
fn unsolicited_pongs_and_stale_replies_are_ignored() {
    let mut conn = Conn::wrap(Side::Client);
    let _ = conn.on_ping_tick(1_000, 1).unwrap();
    conn.on_pong(&vec![1, 2, 3]);
    conn.on_ping_reply(&PingReply { time: Some(Time(999)) });
    conn.on_ping_reply(&PingReply { time: None });
    assert!(matches!(conn.on_ping_tick(31_000, 31), Err(Error::PingTimeout)));
}

#[test]
fn inbound_protocol_pings_are_echoed_with_their_id() {
    let mut conn = Conn::wrap(Side::Client);
    let ping = ParsedPacket::from_data(
        Some("7".to_string()),
        Data::PingEvent(euphoxide::api::events::PingEvent { time: Time(5), next: Time(35) }),
    );
    let reply = conn.on_packet(&ping).expect("a ping event gets a reply");
    assert_eq!(reply.id, Some("7".to_string()));
    assert_eq!(
        reply.content,
        Ok(Data::PingReply(PingReply { time: Some(Time(5)) }))
    );
}

#[test]
fn binary_frames_and_close_frames_end_the_stream() {
    let mut conn = Conn::wrap(Side::Client);
    assert!(matches!(
        conn.on_message(WsMessage::Binary(vec![1])),
        Err(Error::ReceivedBinaryMessage)
    ));
    assert!(matches!(
        conn.on_message(WsMessage::Close),
        Err(Error::ConnectionClosed)
    ));
    assert!(matches!(
        conn.on_message(WsMessage::Text("not json".to_string())),
        Err(Error::ReceivedMalformedPacket(_))
    ));
}

#[test]
fn send_allocates_increasing_decimal_ids() {
    let mut cc = ClientConn::wrap(&ClientConnConfig::default(), Time(0));
    let (id1, p1) = cc.send(Data::Ping(Ping { time: Time(1) }));
    let (id2, _p2) = cc.send(Data::Ping(Ping { time: Time(2) }));
    assert_eq!(id1, "1");
    assert_eq!(id2, "2");
    assert_eq!(p1.id, Some("1".to_string()));
    // the later id sorts after the earlier one under numeric order
    assert!(id1.parse::<u64>().unwrap() < id2.parse::<u64>().unwrap());
}

fn message(content: &str) -> euphoxide::api::types::Message {
    euphoxide::api::types::Message {
        id: MessageId(Snowflake(7)),
        parent: None,
        previous_edit_id: None,
        time: Time(1),
        sender: SessionView {
            id: UserId("agent:a".to_string()),
            name: "alice".to_string(),
            server_id: "s".to_string(),
            server_era: "e".to_string(),
            session_id: SessionId("s-a".to_string()),
            is_staff: false,
            is_manager: false,
            client_address: None,
            real_client_address: None,
        },
        content: content.to_string(),
        encryption_key_id: None,
        edited: None,
        deleted: None,
        truncated: false,
    }
}

#[test]
fn replies_resolve_matching_ids_exactly_once() {
    let mut cc = ClientConn::wrap(&ClientConnConfig::default(), Time(0));
    let (id, _packet) = cc.send_command(Data::Send(Send {
        content: "x".to_string(),
        parent: None,
    }));
    assert_eq!(id, 1);

    // the matching reply resolves the pending command
    let reply = ParsedPacket::from_data(
        Some("1".to_string()),
        Data::SendReply(SendReply(message("x"))),
    );
    assert!(cc.on_packet(&reply, Time(2)));
    // and it resolves at most once: the same id resolves nothing afterwards
    assert!(!cc.on_packet(&reply, Time(3)));
    // an unknown id resolves nothing
    let other = ParsedPacket::from_data(Some("9".to_string()), Data::Ping(Ping { time: Time(0) }));
    assert!(!cc.on_packet(&other, Time(4)));
}

#[test]
fn pending_map_supports_purge_of_cancelled_waiters() {
    let mut replies = Replies::new(30_000);
    replies.wait_for(1);
    replies.wait_for(2);
    replies.wait_for(3);
    replies.purge(&vec![2]);
    assert!(replies.complete(1));
    assert!(!replies.complete(2));
    assert!(replies.complete(3));
    assert_eq!(replies.timeout(), 30_000);
}

#[test]
fn reply_interpretation_matches_the_error_taxonomy() {
    // a reply carrying content:"x" resolves with that message
    let ok = ParsedPacket::from_data(
        Some("1".to_string()),
        Data::SendReply(SendReply(message("x"))),
    );
    let data = reply_content(ok).unwrap();
    let send_reply = expect_send_reply(data).unwrap();
    assert_eq!(send_reply.0.content, "x");

    // a reply carrying an error string resolves to that server message
    let failed = ParsedPacket {
        id: Some("1".to_string()),
        ptype: euphoxide::api::types::PacketType::SendReply,
        content: Err("foo".to_string()),
        throttled: None,
    };
    assert!(matches!(reply_content(failed), Err(Error::Euph(m)) if m == "foo"));

    // a reply of the wrong payload type is unexpected
    let wrong = reply_content(ParsedPacket::from_data(
        Some("1".to_string()),
        Data::Ping(Ping { time: Time(0) }),
    ))
    .unwrap();
    assert!(matches!(
        expect_send_reply(wrong),
        Err(Error::ReceivedUnexpectedPacket(_))
    ));
}

#[test]
fn room_urls_follow_the_wire_scheme() {
    assert_eq!(
        room_url("euphoria.leet.nu", "test", false),
        "wss://euphoria.leet.nu/room/test/ws"
    );
    assert_eq!(
        room_url("euphoria.leet.nu", "test", true),
        "wss://euphoria.leet.nu/room/test/ws?h=1"
    );
}
