//! The mirrored room state: joining, joined, and the roster rules.

use euphoxide::api::events::{HelloEvent, JoinEvent, NetworkEvent, NickEvent, PartEvent, SnapshotEvent};
use euphoxide::api::packets::Data;
use euphoxide::api::types::{SessionId, SessionView, Time, UserId};
use euphoxide::client::state::{SessionInfo, State};
use euphoxide::api::room_cmds::WhoReply;

fn session(id: &str, name: &str, server_id: &str, server_era: &str, session_id: &str) -> SessionView {
    SessionView {
        id: UserId(id.to_string()),
        name: name.to_string(),
        server_id: server_id.to_string(),
        server_era: server_era.to_string(),
        session_id: SessionId(session_id.to_string()),
        is_staff: false,
        is_manager: false,
        client_address: None,
        real_client_address: None,
    }
}

fn hello(own: SessionView) -> Data {
    Data::HelloEvent(HelloEvent {
        session: own,
        account: None,
        room_is_private: false,
        version: "v1".to_string(),
    })
}

fn snapshot(nick: Option<&str>, listing: Vec<SessionView>) -> Data {
    Data::SnapshotEvent(SnapshotEvent {
        session_id: SessionId("s-own".to_string()),
        version: "v1".to_string(),
        listing,
        log: Vec::new(),
        nick: nick.map(|n| n.to_string()),
    })
}

fn joined_state() -> State {
    let mut state = State::new(Time(100));
    let own = session("bot:me", "", "srv", "era1", "s-own");
    state.on_data(&hello(own), Time(101));
    state.on_data(&snapshot(None, vec![]), Time(102));
    state
}

#[test]
fn joining_becomes_joined_after_hello_and_snapshot() {
    let mut state = State::new(Time(100));
    assert!(state.as_joining().is_some());
    let own = session("bot:me", "oldname", "srv", "era1", "s-own");
    state.on_data(&hello(own), Time(101));
    assert!(state.as_joining().is_some());
    // a pre-set nick from the snapshot overrides the display name
    state.on_data(&snapshot(Some("newname"), vec![]), Time(102));
    let joined = state.as_joined().expect("joined after hello and snapshot");
    assert_eq!(joined.session.name, "newname");
    assert_eq!(joined.since, Time(102));
}

#[test]
fn roster_tracks_joins_parts_and_nicks() {
    let mut state = joined_state();
    let alice = session("agent:a", "alice", "srv", "era1", "s-alice");
    state.on_data(&Data::JoinEvent(JoinEvent(alice.clone())), Time(103));
    {
        let joined = state.as_joined().unwrap();
        let got = joined.listing.get(&SessionId("s-alice".to_string())).unwrap();
        assert_eq!(got.name(), "alice");
    }
    // a nick change for a present session updates it without demoting it
    state.on_data(
        &Data::NickEvent(NickEvent {
            session_id: SessionId("s-alice".to_string()),
            id: UserId("agent:a".to_string()),
            from: "alice".to_string(),
            to: "alicia".to_string(),
        }),
        Time(104),
    );
    {
        let joined = state.as_joined().unwrap();
        let got = joined.listing.get(&SessionId("s-alice".to_string())).unwrap();
        assert_eq!(got.name(), "alicia");
        assert!(matches!(got, SessionInfo::Full(_)));
    }
    // a nick change for an absent session creates a partial entry
    state.on_data(
        &Data::NickEvent(NickEvent {
            session_id: SessionId("s-ghost".to_string()),
            id: UserId("agent:g".to_string()),
            from: "".to_string(),
            to: "ghost".to_string(),
        }),
        Time(105),
    );
    {
        let joined = state.as_joined().unwrap();
        let got = joined.listing.get(&SessionId("s-ghost".to_string())).unwrap();
        assert!(matches!(got, SessionInfo::Partial(_)));
    }
    // a part removes by session id, and it stays absent
    state.on_data(&Data::PartEvent(PartEvent(alice)), Time(106));
    {
        let joined = state.as_joined().unwrap();
        assert!(joined.listing.get(&SessionId("s-alice".to_string())).is_none());
    }
}

#[test]
fn partition_removes_matching_full_and_all_partial_entries() {
    let mut state = joined_state();
    let a = session("agent:a", "alice", "s", "e1", "s-a");
    let b = session("agent:b", "bob", "s", "e2", "s-b");
    state.on_data(&Data::JoinEvent(JoinEvent(a)), Time(103));
    state.on_data(&Data::JoinEvent(JoinEvent(b)), Time(104));
    state.on_data(
        &Data::NickEvent(NickEvent {
            session_id: SessionId("s-p".to_string()),
            id: UserId("agent:p".to_string()),
            from: "".to_string(),
            to: "partial".to_string(),
        }),
        Time(105),
    );
    // entries with (server_id=s, server_era=e1) and (s, e2) are present
    state.on_data(
        &Data::NetworkEvent(NetworkEvent {
            kind: "partition".to_string(),
            server_id: "s".to_string(),
            server_era: "e1".to_string(),
        }),
        Time(106),
    );
    let joined = state.as_joined().unwrap();
    // the matching full entry is removed, the other era remains,
    // and partial entries are removed unconditionally
    assert!(joined.listing.get(&SessionId("s-a".to_string())).is_none());
    assert!(joined.listing.get(&SessionId("s-b".to_string())).is_some());
    assert!(joined.listing.get(&SessionId("s-p".to_string())).is_none());
}

#[test]
fn who_reply_replaces_roster_and_updates_own_session() {
    let mut state = joined_state();
    let a = session("agent:a", "alice", "s", "e1", "s-a");
    state.on_data(&Data::JoinEvent(JoinEvent(a)), Time(103));
    let own2 = session("bot:me", "renamed", "s", "e1", "s-own");
    let c = session("agent:c", "carol", "s", "e1", "s-c");
    state.on_data(
        &Data::WhoReply(WhoReply { listing: vec![own2, c] }),
        Time(104),
    );
    let joined = state.as_joined().unwrap();
    // the roster was replaced: the old entry is gone, the new one is there
    assert!(joined.listing.get(&SessionId("s-a".to_string())).is_none());
    assert!(joined.listing.get(&SessionId("s-c".to_string())).is_some());
    // the entry matching the own session id updates the own view instead
    assert!(joined.listing.get(&SessionId("s-own".to_string())).is_none());
    assert_eq!(joined.session.name, "renamed");
}
