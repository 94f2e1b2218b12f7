//! The client supervisor: handshake, reconnect policy and event lifecycle.

use euphoxide::api::events::{BounceEvent, HelloEvent, SnapshotEvent};
use euphoxide::api::packets::{Data, ParsedPacket};
use euphoxide::api::types::{AuthOption, SessionId, SessionView, Time, UserId};
use euphoxide::client::multi::MultiClient;
use euphoxide::client::single::{
    ClientConfig, ClientEvent, RunDecision, ServerConfig, Supervisor, SupervisorError,
};
use euphoxide::client::state::State;
use euphoxide::error::{Error, TransportError};
use euphoxide::api::session_cmds::AuthReply;

fn own_session() -> SessionView {
    SessionView {
        id: UserId("bot:me".to_string()),
        name: "".to_string(),
        server_id: "s".to_string(),
        server_era: "e".to_string(),
        session_id: SessionId("s-own".to_string()),
        is_staff: false,
        is_manager: false,
        client_address: None,
        real_client_address: None,
    }
}

fn hello_packet() -> ParsedPacket {
    ParsedPacket::from_data(
        None,
        Data::HelloEvent(HelloEvent {
            session: own_session(),
            account: None,
            room_is_private: false,
            version: "v1".to_string(),
        }),
    )
}

fn snapshot_packet(nick: Option<&str>) -> ParsedPacket {
    ParsedPacket::from_data(
        None,
        Data::SnapshotEvent(SnapshotEvent {
            session_id: SessionId("s-own".to_string()),
            version: "v1".to_string(),
            listing: Vec::new(),
            log: Vec::new(),
            nick: nick.map(|n| n.to_string()),
        }),
    )
}

fn config(username: Option<&str>, password: Option<&str>) -> ClientConfig {
    let mut c = ClientConfig::new(ServerConfig::default(), "test".to_string());
    c.username = username.map(|u| u.to_string());
    c.password = password.map(|p| p.to_string());
    c
}

#[test]
fn handshake_sets_the_nick_and_joins() {
    // configure username `examplebot`; hello then snapshot with no nick
    let (mut sup, started) = Supervisor::new(0, config(Some("examplebot"), None));
    assert!(matches!(started, ClientEvent::Started { id: 0 }));
    let connecting = sup.start_attempt().unwrap();
    assert!(matches!(connecting, ClientEvent::Connecting { id: 0 }));

    let mut state = State::new(Time(0));
    let connected = sup.on_connected(state.clone());
    assert!(matches!(connected, ClientEvent::Connected { .. }));

    let hello = hello_packet();
    if let Ok(d) = &hello.content {
        state.on_data(d, Time(1));
    }
    let (events, outcome) = sup.on_packet(hello, &state);
    assert_eq!(events.len(), 1);
    assert!(outcome.unwrap().is_empty());

    let snapshot = snapshot_packet(None);
    if let Ok(d) = &snapshot.content {
        state.on_data(d, Time(2));
    }
    let (events, outcome) = sup.on_packet(snapshot, &state);
    // the supervisor asks for a nick command with the configured name
    let cmds = outcome.unwrap();
    assert_eq!(cmds.len(), 1);
    match &cmds[0] {
        Data::Nick(nick) => assert_eq!(nick.name, "examplebot"),
        other => panic!("expected a nick command, got {other:?}"),
    }
    // and the joined event fires after the packet event
    assert_eq!(events.len(), 2);
    assert!(matches!(events[0], ClientEvent::Packet { .. }));
    assert!(matches!(events[1], ClientEvent::Joined { .. }));
}

#[test]
fn preset_nick_suppresses_the_nick_command() {
    let (mut sup, _) = Supervisor::new(0, config(Some("examplebot"), None));
    let _ = sup.start_attempt().unwrap();
    let mut state = State::new(Time(0));
    let _ = sup.on_connected(state.clone());
    let hello = hello_packet();
    if let Ok(d) = &hello.content {
        state.on_data(d, Time(1));
    }
    let _ = sup.on_packet(hello, &state);
    let snapshot = snapshot_packet(Some("already"));
    if let Ok(d) = &snapshot.content {
        state.on_data(d, Time(2));
    }
    let (_, outcome) = sup.on_packet(snapshot, &state);
    assert!(outcome.unwrap().is_empty());
}

#[test]
fn bounce_without_password_terminates_with_auth_required() {
    let (mut sup, _) = Supervisor::new(0, config(None, None));
    let _ = sup.start_attempt().unwrap();
    let state = State::new(Time(0));
    let _ = sup.on_connected(state.clone());

    let bounce = ParsedPacket::from_data(
        None,
        Data::BounceEvent(BounceEvent {
            reason: None,
            auth_options: Some(vec![AuthOption::Passcode]),
        }),
    );
    let (_, outcome) = sup.on_packet(bounce, &state);
    let err = outcome.unwrap_err();
    assert!(matches!(err, SupervisorError::AuthRequired));
    assert!(err.is_fatal());

    // the event stream ends with a disconnect and then the stop
    let (disconnected, decision) = sup.on_disconnected(&Err(err));
    assert!(matches!(disconnected, ClientEvent::Disconnected { .. }));
    assert_eq!(decision, RunDecision::Terminate);
    let stopped = sup.terminate();
    assert!(matches!(stopped, ClientEvent::Stopped { .. }));
}

#[test]
fn bounce_with_password_sends_the_passcode() {
    let (mut sup, _) = Supervisor::new(0, config(None, Some("SECRET-REDACTED")));
    let _ = sup.start_attempt().unwrap();
    let state = State::new(Time(0));
    let _ = sup.on_connected(state.clone());
    let bounce = ParsedPacket::from_data(
        None,
        Data::BounceEvent(BounceEvent {
            reason: None,
            auth_options: Some(vec![AuthOption::Passcode]),
        }),
    );
    let (_, outcome) = sup.on_packet(bounce, &state);
    let cmds = outcome.unwrap();
    assert_eq!(cmds.len(), 1);
    match &cmds[0] {
        Data::Auth(auth) => {
            assert_eq!(auth.auth_type, AuthOption::Passcode);
            assert_eq!(auth.passcode.as_deref(), Some("SECRET-REDACTED"));
        },
        other => panic!("expected an auth command, got {other:?}"),
    }
}

#[test]
fn failed_auth_terminates_with_invalid_password() {
    let (mut sup, _) = Supervisor::new(0, config(None, Some("SECRET-REDACTED")));
    let _ = sup.start_attempt().unwrap();
    let state = State::new(Time(0));
    let _ = sup.on_connected(state.clone());
    let reply = ParsedPacket::from_data(
        Some("1".to_string()),
        Data::AuthReply(AuthReply { success: false, reason: None }),
    );
    let (_, outcome) = sup.on_packet(reply, &state);
    assert!(matches!(outcome.unwrap_err(), SupervisorError::InvalidPassword));
}

#[test]
fn ping_loss_before_snapshot_reconnects_after_the_delay() {
    let (mut sup, _) = Supervisor::new(0, config(None, None));
    let _ = sup.start_attempt().unwrap();
    let state = State::new(Time(0));
    let _ = sup.on_connected(state);
    // the connection ended with a ping timeout before any snapshot
    let err = SupervisorError::Connection(Error::PingTimeout);
    assert!(!err.is_fatal());
    let (_, decision) = sup.on_disconnected(&Err(err));
    assert_eq!(decision, RunDecision::Retry { delay_ms: 30_000 });
    // the next attempt starts over
    assert!(sup.start_attempt().is_ok());
}

#[test]
fn join_attempt_budget_is_enforced_and_resets_on_snapshot() {
    let mut cfg = config(None, None);
    cfg.server.join_attempts = 2;
    let (mut sup, _) = Supervisor::new(0, cfg);
    for _ in 0..2 {
        let _ = sup.start_attempt().unwrap();
        let err = SupervisorError::Connection(Error::ConnectionTimeout);
        let _ = sup.on_disconnected(&Err(err));
    }
    // the third consecutive failed attempt exceeds the budget
    assert!(matches!(
        sup.start_attempt(),
        Err(SupervisorError::OutOfJoinAttempts)
    ));
}

#[test]
fn missing_room_is_fatal() {
    let err = SupervisorError::Connection(Error::Transport(TransportError {
        http_status: Some(404),
        message: "not found".to_string(),
    }));
    assert!(err.is_fatal());
    let err = SupervisorError::Connection(Error::Transport(TransportError {
        http_status: Some(500),
        message: "boom".to_string(),
    }));
    assert!(!err.is_fatal());
}

#[test]
fn aggregator_deduplicates_identities_and_routes_events() {
    let mut multi = MultiClient::new(Time(0));
    // registering the same identity twice yields the same client
    let (id_a, created_a) = multi.add_client(7);
    let (id_b, created_b) = multi.add_client(7);
    assert!(created_a);
    assert!(!created_b);
    assert_eq!(id_a, id_b);
    let (id_c, _) = multi.add_client(8);
    assert_ne!(id_a, id_c);
    assert_eq!(multi.get_clients().len(), 2);

    // events from live children pass through unchanged; unknown ids drop
    let ev = ClientEvent::Started { id: id_a };
    let out = multi.on_event(ev).expect("live child");
    assert_eq!(out.identity, 7);
    assert_eq!(out.client_id, id_a);
    assert!(matches!(out.event, ClientEvent::Started { .. }));
    assert!(multi.on_event(ClientEvent::Started { id: 99 }).is_none());

    // purging a stopped child removes it; its events drop afterwards
    multi.purge(&vec![id_a]);
    assert_eq!(multi.get_clients().len(), 1);
    assert!(multi.on_event(ClientEvent::Started { id: id_a }).is_none());
}
