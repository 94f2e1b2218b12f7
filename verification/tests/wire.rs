//! The JSON model, the codec and the packet envelope.

use euphoxide::api::codec::{data_from_json, data_to_json, packet_from_str, packet_to_json, packet_to_string, packet_from_json};
use euphoxide::api::packets::{Data, Packet, ParsedPacket};
use euphoxide::api::session_cmds::{Auth, AuthReply, Ping, PingReply};
use euphoxide::api::room_cmds::{Nick, NickReply, Send, Who, WhoReply};
use euphoxide::api::events::{BounceEvent, DisconnectEvent, JoinEvent, NetworkEvent, NickEvent, PartEvent, PingEvent};
use euphoxide::api::types::{AuthOption, MessageId, PacketType, SessionId, SessionView, Snowflake, Time, UserId};
use euphoxide::json::{json_from_str, json_to_string, Json};

#[test]
fn json_values_survive_a_text_round_trip() {
    let v = Json::Obj(vec![
        ("id".to_string(), Json::Null),
        ("n".to_string(), Json::Int(-42)),
        ("b".to_string(), Json::Bool(true)),
        ("s".to_string(), Json::Str("a\"b\\c\nd".to_string())),
        ("a".to_string(), Json::Arr(vec![Json::Int(1), Json::Str("x".to_string())])),
    ]);
    let text = json_to_string(&v);
    let back = json_from_str(&text).expect("written JSON parses");
    assert_eq!(back, v);
}

#[test]
fn json_parser_handles_escapes_whitespace_and_rejects_garbage() {
    assert_eq!(
        json_from_str(" { \"k\" : [ 1 , -2 ] } "),
        Some(Json::Obj(vec![(
            "k".to_string(),
            Json::Arr(vec![Json::Int(1), Json::Int(-2)])
        )]))
    );
    assert_eq!(
        json_from_str("\"\\u0041\\u00e9\\ud83d\\ude00\""),
        Some(Json::Str("A\u{e9}\u{1f600}".to_string()))
    );
    assert_eq!(json_from_str(""), None);
    assert_eq!(json_from_str("{"), None);
    assert_eq!(json_from_str("[1,]"), None);
    assert_eq!(json_from_str("\"unterminated"), None);
    assert_eq!(json_from_str("1."), None);
    assert_eq!(json_from_str("1e"), None);
}

#[test]
fn non_integer_numerals_pass_through_verbatim() {
    // fractions, exponents and over-wide integers survive as their text
    for numeral in ["1.5", "-0.25", "6.02e23", "1E-9", "99999999999999999999"] {
        let v = json_from_str(numeral).expect("a valid numeral parses");
        assert_eq!(v, Json::Num(numeral.to_string()));
        assert_eq!(json_to_string(&v), numeral);
    }
    // integers still come back as integers
    assert_eq!(json_from_str("-12"), Some(Json::Int(-12)));
    // and a frame carrying a fraction somewhere is not malformed
    let v = json_from_str("{\"rate\":0.5}").unwrap();
    assert_eq!(
        v,
        Json::Obj(vec![("rate".to_string(), Json::Num("0.5".to_string()))])
    );
}

fn payload_round_trip(data: Data) {
    let ptype = data.packet_type();
    let encoded = data_to_json(&data).expect("the codec encodes this payload");
    let back = data_from_json(ptype, &encoded).expect("the codec decodes what it wrote");
    assert_eq!(back, data);
}

#[test]
fn payloads_survive_a_codec_round_trip() {
    payload_round_trip(Data::Ping(Ping { time: Time(7) }));
    payload_round_trip(Data::PingReply(PingReply { time: Some(Time(7)) }));
    payload_round_trip(Data::PingReply(PingReply { time: None }));
    payload_round_trip(Data::PingEvent(PingEvent { time: Time(1), next: Time(31) }));
    payload_round_trip(Data::Auth(Auth {
        auth_type: AuthOption::Passcode,
        passcode: Some("hunter".to_string()),
    }));
    payload_round_trip(Data::AuthReply(AuthReply { success: false, reason: Some("no".to_string()) }));
    payload_round_trip(Data::Nick(Nick { name: "bot".to_string() }));
    payload_round_trip(Data::NickReply(NickReply {
        session_id: SessionId("s1".to_string()),
        id: UserId("bot:x".to_string()),
        from: "a".to_string(),
        to: "b".to_string(),
    }));
    payload_round_trip(Data::Send(Send {
        content: "hello".to_string(),
        parent: Some(MessageId(Snowflake(1695))),
    }));
    payload_round_trip(Data::Who(Who));
    payload_round_trip(Data::BounceEvent(BounceEvent {
        reason: Some("auth".to_string()),
        auth_options: Some(vec![AuthOption::Passcode]),
    }));
    payload_round_trip(Data::DisconnectEvent(DisconnectEvent { reason: "bye".to_string() }));
    payload_round_trip(Data::NetworkEvent(NetworkEvent {
        kind: "partition".to_string(),
        server_id: "s".to_string(),
        server_era: "e".to_string(),
    }));
    payload_round_trip(Data::NickEvent(NickEvent {
        session_id: SessionId("s1".to_string()),
        id: UserId("agent:x".to_string()),
        from: "a".to_string(),
        to: "b".to_string(),
    }));
}

#[test]
fn roster_payloads_survive_a_codec_round_trip() {
    let sv = SessionView {
        id: UserId("agent:a".to_string()),
        name: "alice".to_string(),
        server_id: "s".to_string(),
        server_era: "e".to_string(),
        session_id: SessionId("s-a".to_string()),
        is_staff: true,
        is_manager: false,
        client_address: Some("10.0.0.1".to_string()),
        real_client_address: None,
    };
    payload_round_trip(Data::JoinEvent(JoinEvent(sv.clone())));
    payload_round_trip(Data::PartEvent(PartEvent(sv.clone())));
    payload_round_trip(Data::WhoReply(WhoReply { listing: vec![sv.clone()] }));
    payload_round_trip(Data::WhoReply(WhoReply { listing: vec![] }));

    let msg = euphoxide::api::types::Message {
        id: MessageId(Snowflake(77)),
        parent: Some(MessageId(Snowflake(5))),
        previous_edit_id: None,
        time: Time(123),
        sender: sv.clone(),
        content: "hi there".to_string(),
        encryption_key_id: None,
        edited: Some(Time(124)),
        deleted: None,
        truncated: false,
    };
    payload_round_trip(Data::SendEvent(euphoxide::api::events::SendEvent(msg.clone())));
    payload_round_trip(Data::SendReply(euphoxide::api::room_cmds::SendReply(msg.clone())));
    payload_round_trip(Data::HelloEvent(euphoxide::api::events::HelloEvent {
        session: sv.clone(),
        account: Some(euphoxide::api::types::PersonalAccountView {
            id: euphoxide::api::types::AccountId(Snowflake(9)),
            name: "me".to_string(),
            email: "me@example.net".to_string(),
        }),
        room_is_private: true,
        version: "v1".to_string(),
    }));
    payload_round_trip(Data::SnapshotEvent(euphoxide::api::events::SnapshotEvent {
        session_id: SessionId("s-own".to_string()),
        version: "v1".to_string(),
        listing: vec![sv],
        log: vec![msg],
        nick: Some("bot".to_string()),
    }));
}

#[test]
fn packets_survive_a_text_round_trip() {
    let packet = Packet {
        id: Some("3".to_string()),
        ptype: PacketType::SendReply,
        data: None,
        error: Some("foo".to_string()),
        throttled: true,
        throttled_reason: Some("slow down".to_string()),
    };
    let text = packet_to_string(&packet);
    let back = packet_from_str(&text).expect("written packet parses");
    assert_eq!(back, packet);

    let parsed = ParsedPacket::from_data(Some("4".to_string()), Data::Ping(Ping { time: Time(9) }));
    let raw = parsed.clone().into_packet().expect("the codec encodes a ping");
    let text = packet_to_string(&raw);
    let raw_back = packet_from_str(&text).unwrap();
    let parsed_back = ParsedPacket::from_packet(raw_back).unwrap();
    assert_eq!(parsed_back, parsed);
}

#[test]
fn packet_decoding_ignores_field_order() {
    let a = packet_from_str(
        "{\"id\":\"1\",\"type\":\"ping\",\"data\":{\"time\":5}}",
    )
    .unwrap();
    let b = packet_from_str(
        "{\"data\":{\"time\":5},\"type\":\"ping\",\"id\":\"1\"}",
    )
    .unwrap();
    assert_eq!(a, b);
    assert_eq!(a.ptype, PacketType::Ping);
}

#[test]
fn error_packets_surface_the_server_message() {
    let raw = packet_from_str(
        "{\"id\":\"2\",\"type\":\"send-reply\",\"data\":null,\"error\":\"foo\"}",
    )
    .unwrap();
    let parsed = ParsedPacket::from_packet(raw).unwrap();
    assert_eq!(parsed.content, Err("foo".to_string()));

    // a throttled reply without a reason gets the default reason
    let raw = packet_from_str(
        "{\"id\":null,\"type\":\"ping\",\"data\":{\"time\":1},\"throttled\":true}",
    )
    .unwrap();
    let parsed = ParsedPacket::from_packet(raw).unwrap();
    assert_eq!(parsed.throttled, Some("no reason given".to_string()));
}

#[test]
fn unknown_payload_types_pass_through_as_json() {
    let raw = packet_from_str(
        "{\"id\":null,\"type\":\"log-reply\",\"data\":{\"log\":[]}}",
    )
    .unwrap();
    let parsed = ParsedPacket::from_packet(raw.clone()).unwrap();
    match &parsed.content {
        Ok(Data::Unimplemented(t, _)) => assert_eq!(*t, PacketType::LogReply),
        other => panic!("expected a pass-through payload, got {other:?}"),
    }
    // and it can be re-encoded
    let encoded = packet_to_json(&parsed.into_packet().unwrap());
    let back = packet_from_json(&encoded).unwrap();
    assert_eq!(back, raw);
}
