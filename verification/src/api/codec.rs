//! Encoding and decoding of typed payloads and the packet envelope to and
//! from the JSON model.
//!
//! Decoding reads object fields by name, so a re-ordered object decodes to
//! the same payload.

use vstd::prelude::*;
use crate::json::{Json, json_equiv, lemma_obj_get_absent, lemma_obj_get_at, obj_get, spec_obj_get};
use crate::api::types::{AuthOption, PacketType, Time};
use crate::api::session_cmds::{Auth, AuthReply, Ping, PingReply};
use crate::api::room_cmds::{Nick, NickReply, Send, Who, WhoReply};
use crate::api::events::{BounceEvent, DisconnectEvent, JoinEvent, NetworkEvent, NickEvent, PartEvent, PingEvent};
use crate::api::packets::{Data, Packet, ParsedPacket, opt_str_view_eq};
use crate::api::types::{MessageId, SessionId, SessionView, Snowflake, UserId};

verus! {

broadcast use vstd::string::group_string_axioms;

/// Whether a field holds this string value.
pub open spec fn field_is_str(fields: Seq<(String, Json)>, name: Seq<char>, v: Seq<char>) -> bool {
    match spec_obj_get(fields, name) {
        Option::Some(j) => j matches Json::Str(s) && s@ == v,
        Option::None => false,
    }
}

/// Whether a field holds this string value, or is absent when the value is
/// absent.
pub open spec fn field_is_opt_str(
    fields: Seq<(String, Json)>,
    name: Seq<char>,
    v: Option<String>,
) -> bool {
    match spec_obj_get(fields, name) {
        Option::Some(j) => j matches Json::Str(s) && v matches Some(x) && s@ == x@,
        Option::None => v is None,
    }
}

/// Whether a field holds this integer value.
pub open spec fn field_is_int(fields: Seq<(String, Json)>, name: Seq<char>, v: i64) -> bool {
    spec_obj_get(fields, name) == Some(Json::Int(v))
}

/// Whether a field holds this boolean, with absence meaning false.
pub open spec fn field_is_bool_or_absent(
    fields: Seq<(String, Json)>,
    name: Seq<char>,
    v: bool,
) -> bool {
    match spec_obj_get(fields, name) {
        Option::Some(j) => j == Json::Bool(v),
        Option::None => !v,
    }
}

/// Read a string field.
fn get_str(fields: &Vec<(String, Json)>, name: &str) -> (r: Option<String>)
    ensures
        match r {
            Some(s) => field_is_str(fields@, name@, s@),
            None => forall|v: Seq<char>| !field_is_str(fields@, name@, v),
        },
{
    match obj_get(fields, name) {
        Option::Some(Json::Str(s)) => Some(s.clone()),
        _ => None,
    }
}

/// Read an optional string field.
fn get_opt_str(fields: &Vec<(String, Json)>, name: &str) -> (r: Option<Option<String>>)
    ensures
        match r {
            Some(v) => field_is_opt_str(fields@, name@, v),
            None => forall|v: Option<String>| !field_is_opt_str(fields@, name@, v),
        },
{
    match obj_get(fields, name) {
        Option::Some(Json::Str(s)) => Some(Some(s.clone())),
        Option::Some(_) => None,
        Option::None => Some(None),
    }
}

/// Read an integer field.
fn get_int(fields: &Vec<(String, Json)>, name: &str) -> (r: Option<i64>)
    ensures
        match r {
            Some(v) => field_is_int(fields@, name@, v),
            None => forall|v: i64| !field_is_int(fields@, name@, v),
        },
{
    match obj_get(fields, name) {
        Option::Some(Json::Int(n)) => Some(*n),
        _ => None,
    }
}

/// Read a boolean field that defaults to false when absent.
fn get_bool_or_absent(fields: &Vec<(String, Json)>, name: &str) -> (r: Option<bool>)
    ensures
        match r {
            Some(v) => field_is_bool_or_absent(fields@, name@, v),
            None => forall|v: bool| !field_is_bool_or_absent(fields@, name@, v),
        },
{
    match obj_get(fields, name) {
        Option::Some(Json::Bool(b)) => Some(*b),
        Option::Some(_) => None,
        Option::None => Some(false),
    }
}

/// Whether the JSON value encodes this ping command.
pub open spec fn json_is_ping(j: Json, x: Ping) -> bool {
    j matches Json::Obj(f) && field_is_int(f@, "time"@, x.time.0)
}

/// Whether the JSON value encodes this ping reply.
pub open spec fn json_is_ping_reply(j: Json, x: PingReply) -> bool {
    j matches Json::Obj(f) && (match spec_obj_get(f@, "time"@) {
        Option::Some(t) => t matches Json::Int(n) && x.time == Some(Time(n)),
        Option::None => x.time is None,
    })
}

/// Whether the JSON value encodes this authentication command.
pub open spec fn json_is_auth(j: Json, x: Auth) -> bool {
    &&& j matches Json::Obj(f)
    &&& field_is_str(j->Obj_0@, "type"@, "passcode"@)
    &&& x.auth_type == AuthOption::Passcode
    &&& field_is_opt_str(j->Obj_0@, "passcode"@, x.passcode)
}

/// Whether the JSON value encodes this authentication reply.
pub open spec fn json_is_auth_reply(j: Json, x: AuthReply) -> bool {
    &&& j matches Json::Obj(f)
    &&& spec_obj_get(j->Obj_0@, "success"@) == Some(Json::Bool(x.success))
    &&& field_is_opt_str(j->Obj_0@, "reason"@, x.reason)
}

/// Whether the JSON value encodes this nick command.
pub open spec fn json_is_nick(j: Json, x: Nick) -> bool {
    j matches Json::Obj(f) && field_is_str(f@, "name"@, x.name@)
}

/// Whether the JSON value encodes this nick reply.
pub open spec fn json_is_nick_reply(j: Json, x: NickReply) -> bool {
    &&& j matches Json::Obj(f)
    &&& field_is_str(j->Obj_0@, "session_id"@, x.session_id.0@)
    &&& field_is_str(j->Obj_0@, "id"@, x.id.0@)
    &&& field_is_str(j->Obj_0@, "from"@, x.from@)
    &&& field_is_str(j->Obj_0@, "to"@, x.to@)
}

/// Whether the JSON value encodes this send command.
pub open spec fn json_is_send(j: Json, x: Send) -> bool {
    &&& j matches Json::Obj(f)
    &&& field_is_str(j->Obj_0@, "content"@, x.content@)
    &&& match spec_obj_get(j->Obj_0@, "parent"@) {
        Option::Some(p) => p matches Json::Str(s) && s@.len() == 13 && (forall|i: int|
            0 <= i < 13 ==> crate::api::types::spec_b36_digit_ok(s@[i])) && x.parent == Some(
            MessageId(Snowflake(crate::api::types::spec_b36_value(s@) as u64)),
        ) && crate::api::types::spec_b36_value(s@) <= u64::MAX,
        Option::None => x.parent is None,
    }
}

/// Whether the JSON value encodes a who command (it has no fields).
pub open spec fn json_is_who(j: Json, x: Who) -> bool {
    j matches Json::Obj(f)
}

/// Whether the JSON value encodes this bounce event.
pub open spec fn json_is_bounce(j: Json, x: BounceEvent) -> bool {
    &&& j matches Json::Obj(f)
    &&& field_is_opt_str(j->Obj_0@, "reason"@, x.reason)
    &&& match spec_obj_get(j->Obj_0@, "auth_options"@) {
        Option::Some(a) => (a matches Json::Arr(items)) && (x.auth_options matches Some(opts))
            && a->Arr_0@.len() == x.auth_options->Some_0@.len() && (forall|i: int|
            0 <= i < a->Arr_0@.len() ==> ((#[trigger] a->Arr_0@[i]) matches Json::Str(s) && s@
                == "passcode"@) && x.auth_options->Some_0@[i] == AuthOption::Passcode),
        Option::None => x.auth_options is None,
    }
}

/// Whether the JSON value encodes this disconnect event.
pub open spec fn json_is_disconnect(j: Json, x: DisconnectEvent) -> bool {
    j matches Json::Obj(f) && field_is_str(f@, "reason"@, x.reason@)
}

/// Whether the JSON value encodes this network event.
pub open spec fn json_is_network(j: Json, x: NetworkEvent) -> bool {
    &&& j matches Json::Obj(f)
    &&& field_is_str(j->Obj_0@, "type"@, x.kind@)
    &&& field_is_str(j->Obj_0@, "server_id"@, x.server_id@)
    &&& field_is_str(j->Obj_0@, "server_era"@, x.server_era@)
}

/// Whether the JSON value encodes this nick event.
pub open spec fn json_is_nick_event(j: Json, x: NickEvent) -> bool {
    &&& j matches Json::Obj(f)
    &&& field_is_str(j->Obj_0@, "session_id"@, x.session_id.0@)
    &&& field_is_str(j->Obj_0@, "id"@, x.id.0@)
    &&& field_is_str(j->Obj_0@, "from"@, x.from@)
    &&& field_is_str(j->Obj_0@, "to"@, x.to@)
}

/// Whether the JSON value encodes this ping event.
pub open spec fn json_is_ping_event(j: Json, x: PingEvent) -> bool {
    &&& j matches Json::Obj(f)
    &&& field_is_int(j->Obj_0@, "time"@, x.time.0)
    &&& field_is_int(j->Obj_0@, "next"@, x.next.0)
}

/// Whether a packet type is one the codec can decode into a typed payload.
pub open spec fn spec_codec_decodes(t: PacketType) -> bool {
    t == PacketType::Ping || t == PacketType::PingReply || t == PacketType::Auth || t
        == PacketType::AuthReply || t == PacketType::Nick || t == PacketType::NickReply || t
        == PacketType::Send || t == PacketType::Who || t == PacketType::BounceEvent || t
        == PacketType::DisconnectEvent || t == PacketType::NetworkEvent || t
        == PacketType::NickEvent || t == PacketType::PingEvent || t == PacketType::JoinEvent || t
        == PacketType::PartEvent || t == PacketType::WhoReply || t == PacketType::SendEvent || t
        == PacketType::SendReply || t == PacketType::HelloEvent || t == PacketType::SnapshotEvent
}


proof fn lemma_view_names_distinct()
    ensures
        "id"@ != "name"@,
        "id"@ != "server_id"@,
        "id"@ != "server_era"@,
        "id"@ != "session_id"@,
        "id"@ != "is_staff"@,
        "id"@ != "is_manager"@,
        "id"@ != "client_address"@,
        "id"@ != "real_client_address"@,
        "id"@ != "listing"@,
        "name"@ != "server_id"@,
        "name"@ != "server_era"@,
        "name"@ != "session_id"@,
        "name"@ != "is_staff"@,
        "name"@ != "is_manager"@,
        "name"@ != "client_address"@,
        "name"@ != "real_client_address"@,
        "name"@ != "listing"@,
        "server_id"@ != "server_era"@,
        "server_id"@ != "session_id"@,
        "server_id"@ != "is_staff"@,
        "server_id"@ != "is_manager"@,
        "server_id"@ != "client_address"@,
        "server_id"@ != "real_client_address"@,
        "server_id"@ != "listing"@,
        "server_era"@ != "session_id"@,
        "server_era"@ != "is_staff"@,
        "server_era"@ != "is_manager"@,
        "server_era"@ != "client_address"@,
        "server_era"@ != "real_client_address"@,
        "server_era"@ != "listing"@,
        "session_id"@ != "is_staff"@,
        "session_id"@ != "is_manager"@,
        "session_id"@ != "client_address"@,
        "session_id"@ != "real_client_address"@,
        "session_id"@ != "listing"@,
        "is_staff"@ != "is_manager"@,
        "is_staff"@ != "client_address"@,
        "is_staff"@ != "real_client_address"@,
        "is_staff"@ != "listing"@,
        "is_manager"@ != "client_address"@,
        "is_manager"@ != "real_client_address"@,
        "is_manager"@ != "listing"@,
        "client_address"@ != "real_client_address"@,
        "client_address"@ != "listing"@,
        "real_client_address"@ != "listing"@,
{
    reveal_strlit("id");
    reveal_strlit("name");
    reveal_strlit("server_id");
    reveal_strlit("server_era");
    reveal_strlit("session_id");
    reveal_strlit("is_staff");
    reveal_strlit("is_manager");
    reveal_strlit("client_address");
    reveal_strlit("real_client_address");
    reveal_strlit("listing");
    assert("id"@.len() == 2);
    assert("name"@.len() == 4);
    assert("server_id"@.len() == 9);
    assert("server_era"@.len() == 10);
    assert("session_id"@.len() == 10);
    assert("is_staff"@.len() == 8);
    assert("is_manager"@.len() == 10);
    assert("client_address"@.len() == 14);
    assert("real_client_address"@.len() == 19);
    assert("listing"@.len() == 7);
    assert("server_era"@[2] != "session_id"@[2]);
    assert("server_era"@[0] != "is_manager"@[0]);
    assert("session_id"@[0] != "is_manager"@[0]);
}


/// Whether a field holds this string value, with a JSON null or an absent
/// field standing for an absent value.
pub open spec fn field_is_opt_str_or_null(
    fields: Seq<(String, Json)>,
    name: Seq<char>,
    v: Option<String>,
) -> bool {
    match spec_obj_get(fields, name) {
        Option::Some(j) => match j {
            Json::Str(s) => (v matches Some(x)) && s@ == v->Some_0@,
            Json::Null => v is None,
            _ => false,
        },
        Option::None => v is None,
    }
}

/// Whether the JSON value encodes this session view.
pub open spec fn json_is_session_view(j: Json, sv: SessionView) -> bool {
    &&& j matches Json::Obj(f)
    &&& field_is_str(j->Obj_0@, "id"@, sv.id.0@)
    &&& field_is_str(j->Obj_0@, "name"@, sv.name@)
    &&& field_is_str(j->Obj_0@, "server_id"@, sv.server_id@)
    &&& field_is_str(j->Obj_0@, "server_era"@, sv.server_era@)
    &&& field_is_str(j->Obj_0@, "session_id"@, sv.session_id.0@)
    &&& field_is_bool_or_absent(j->Obj_0@, "is_staff"@, sv.is_staff)
    &&& field_is_bool_or_absent(j->Obj_0@, "is_manager"@, sv.is_manager)
    &&& field_is_opt_str_or_null(j->Obj_0@, "client_address"@, sv.client_address)
    &&& field_is_opt_str_or_null(j->Obj_0@, "real_client_address"@, sv.real_client_address)
}

/// Whether the JSON value encodes this who reply.
pub open spec fn json_is_who_reply(j: Json, x: WhoReply) -> bool {
    &&& j matches Json::Obj(f)
    &&& match spec_obj_get(j->Obj_0@, "listing"@) {
        Option::Some(l) => spec_views_match(l, x.listing@),
        Option::None => false,
    }
}

fn opt_str_to_json(v: &Option<String>) -> (r: Json)
    ensures
        match v {
            Option::Some(s) => r == Json::Str(*s) && (r matches Json::Str(t) && t@ == s@),
            Option::None => r == Json::Null,
        },
{
    match v {
        Option::Some(s) => Json::Str(s.clone()),
        Option::None => Json::Null,
    }
}

/// Encode a session view as its JSON object.
pub fn session_view_to_json(sv: &SessionView) -> (r: Json)
    ensures
        json_is_session_view(r, *sv),
{
    let mut f: Vec<(String, Json)> = Vec::new();
    f.push(("id".to_owned(), Json::Str(sv.id.0.clone())));
    f.push(("name".to_owned(), Json::Str(sv.name.clone())));
    f.push(("server_id".to_owned(), Json::Str(sv.server_id.clone())));
    f.push(("server_era".to_owned(), Json::Str(sv.server_era.clone())));
    f.push(("session_id".to_owned(), Json::Str(sv.session_id.0.clone())));
    f.push(("is_staff".to_owned(), Json::Bool(sv.is_staff)));
    f.push(("is_manager".to_owned(), Json::Bool(sv.is_manager)));
    f.push(("client_address".to_owned(), opt_str_to_json(&sv.client_address)));
    f.push(("real_client_address".to_owned(), opt_str_to_json(&sv.real_client_address)));
    proof {
        lemma_view_names_distinct();
        lemma_obj_get_at(f@, "id"@, 0);
        lemma_obj_get_at(f@, "name"@, 1);
        lemma_obj_get_at(f@, "server_id"@, 2);
        lemma_obj_get_at(f@, "server_era"@, 3);
        lemma_obj_get_at(f@, "session_id"@, 4);
        lemma_obj_get_at(f@, "is_staff"@, 5);
        lemma_obj_get_at(f@, "is_manager"@, 6);
        lemma_obj_get_at(f@, "client_address"@, 7);
        lemma_obj_get_at(f@, "real_client_address"@, 8);
    }
    Json::Obj(f)
}

fn get_opt_str_or_null(fields: &Vec<(String, Json)>, name: &str) -> (r: Option<Option<String>>)
    ensures
        match r {
            Some(v) => field_is_opt_str_or_null(fields@, name@, v),
            None => forall|v: Option<String>| !field_is_opt_str_or_null(fields@, name@, v),
        },
{
    match obj_get(fields, name) {
        Option::Some(Json::Str(s)) => Some(Some(s.clone())),
        Option::Some(Json::Null) => Some(None),
        Option::Some(_) => None,
        Option::None => Some(None),
    }
}

/// Decode a session view from its JSON object.
pub fn session_view_from_json(j: &Json) -> (r: Result<SessionView, ()>)
    ensures
        r matches Ok(sv) ==> json_is_session_view(*j, sv),
        r is Err ==> forall|sv: SessionView| !json_is_session_view(*j, sv),
{
    let fields = match j {
        Json::Obj(f) => f,
        _ => {
            return Err(());
        },
    };
    let id = match get_str(fields, "id") {
        Option::Some(v) => v,
        Option::None => {
            return Err(());
        },
    };
    let name = match get_str(fields, "name") {
        Option::Some(v) => v,
        Option::None => {
            return Err(());
        },
    };
    let server_id = match get_str(fields, "server_id") {
        Option::Some(v) => v,
        Option::None => {
            return Err(());
        },
    };
    let server_era = match get_str(fields, "server_era") {
        Option::Some(v) => v,
        Option::None => {
            return Err(());
        },
    };
    let session_id = match get_str(fields, "session_id") {
        Option::Some(v) => v,
        Option::None => {
            return Err(());
        },
    };
    let is_staff = match get_bool_or_absent(fields, "is_staff") {
        Option::Some(v) => v,
        Option::None => {
            return Err(());
        },
    };
    let is_manager = match get_bool_or_absent(fields, "is_manager") {
        Option::Some(v) => v,
        Option::None => {
            return Err(());
        },
    };
    let client_address = match get_opt_str_or_null(fields, "client_address") {
        Option::Some(v) => v,
        Option::None => {
            return Err(());
        },
    };
    let real_client_address = match get_opt_str_or_null(fields, "real_client_address") {
        Option::Some(v) => v,
        Option::None => {
            return Err(());
        },
    };
    Ok(
        SessionView {
            id: UserId(id),
            name,
            server_id,
            server_era,
            session_id: SessionId(session_id),
            is_staff,
            is_manager,
            client_address,
            real_client_address,
        },
    )
}

/// Whether two session views hold the same values, comparing strings by
/// their characters.
pub open spec fn session_view_equiv_views(a: SessionView, b: SessionView) -> bool {
    &&& a.id.0@ == b.id.0@
    &&& a.name@ == b.name@
    &&& a.server_id@ == b.server_id@
    &&& a.server_era@ == b.server_era@
    &&& a.session_id.0@ == b.session_id.0@
    &&& a.is_staff == b.is_staff
    &&& a.is_manager == b.is_manager
    &&& opt_str_view_eq(a.client_address, b.client_address)
    &&& opt_str_view_eq(a.real_client_address, b.real_client_address)
}


proof fn lemma_message_names_distinct()
    ensures
        "id"@ != "parent"@,
        "id"@ != "previous_edit_id"@,
        "id"@ != "time"@,
        "id"@ != "sender"@,
        "id"@ != "content"@,
        "id"@ != "encryption_key_id"@,
        "id"@ != "edited"@,
        "id"@ != "deleted"@,
        "id"@ != "truncated"@,
        "parent"@ != "previous_edit_id"@,
        "parent"@ != "time"@,
        "parent"@ != "sender"@,
        "parent"@ != "content"@,
        "parent"@ != "encryption_key_id"@,
        "parent"@ != "edited"@,
        "parent"@ != "deleted"@,
        "parent"@ != "truncated"@,
        "previous_edit_id"@ != "time"@,
        "previous_edit_id"@ != "sender"@,
        "previous_edit_id"@ != "content"@,
        "previous_edit_id"@ != "encryption_key_id"@,
        "previous_edit_id"@ != "edited"@,
        "previous_edit_id"@ != "deleted"@,
        "previous_edit_id"@ != "truncated"@,
        "time"@ != "sender"@,
        "time"@ != "content"@,
        "time"@ != "encryption_key_id"@,
        "time"@ != "edited"@,
        "time"@ != "deleted"@,
        "time"@ != "truncated"@,
        "sender"@ != "content"@,
        "sender"@ != "encryption_key_id"@,
        "sender"@ != "edited"@,
        "sender"@ != "deleted"@,
        "sender"@ != "truncated"@,
        "content"@ != "encryption_key_id"@,
        "content"@ != "edited"@,
        "content"@ != "deleted"@,
        "content"@ != "truncated"@,
        "encryption_key_id"@ != "edited"@,
        "encryption_key_id"@ != "deleted"@,
        "encryption_key_id"@ != "truncated"@,
        "edited"@ != "deleted"@,
        "edited"@ != "truncated"@,
        "deleted"@ != "truncated"@,
{
    reveal_strlit("id");
    reveal_strlit("parent");
    reveal_strlit("previous_edit_id");
    reveal_strlit("time");
    reveal_strlit("sender");
    reveal_strlit("content");
    reveal_strlit("encryption_key_id");
    reveal_strlit("edited");
    reveal_strlit("deleted");
    reveal_strlit("truncated");
    assert("id"@.len() == 2);
    assert("parent"@.len() == 6);
    assert("previous_edit_id"@.len() == 16);
    assert("time"@.len() == 4);
    assert("sender"@.len() == 6);
    assert("content"@.len() == 7);
    assert("encryption_key_id"@.len() == 17);
    assert("edited"@.len() == 6);
    assert("deleted"@.len() == 7);
    assert("truncated"@.len() == 9);
    assert("parent"@[0] != "sender"@[0]);
    assert("parent"@[0] != "edited"@[0]);
    assert("sender"@[0] != "edited"@[0]);
    assert("content"@[0] != "deleted"@[0]);
}

proof fn lemma_hello_names_distinct()
    ensures
        "session"@ != "account"@,
        "session"@ != "room_is_private"@,
        "session"@ != "version"@,
        "account"@ != "room_is_private"@,
        "account"@ != "version"@,
        "room_is_private"@ != "version"@,
{
    reveal_strlit("session");
    reveal_strlit("account");
    reveal_strlit("room_is_private");
    reveal_strlit("version");
    assert("session"@.len() == 7);
    assert("account"@.len() == 7);
    assert("room_is_private"@.len() == 15);
    assert("version"@.len() == 7);
    assert("session"@[0] != "account"@[0]);
    assert("session"@[0] != "version"@[0]);
    assert("account"@[0] != "version"@[0]);
}

proof fn lemma_snapshot_names_distinct()
    ensures
        "session_id"@ != "version"@,
        "session_id"@ != "listing"@,
        "session_id"@ != "log"@,
        "session_id"@ != "nick"@,
        "version"@ != "listing"@,
        "version"@ != "log"@,
        "version"@ != "nick"@,
        "listing"@ != "log"@,
        "listing"@ != "nick"@,
        "log"@ != "nick"@,
{
    reveal_strlit("session_id");
    reveal_strlit("version");
    reveal_strlit("listing");
    reveal_strlit("log");
    reveal_strlit("nick");
    assert("session_id"@.len() == 10);
    assert("version"@.len() == 7);
    assert("listing"@.len() == 7);
    assert("log"@.len() == 3);
    assert("nick"@.len() == 4);
    assert("version"@[0] != "listing"@[0]);
}

proof fn lemma_account_names_distinct()
    ensures
        "id"@ != "name"@,
        "id"@ != "email"@,
        "name"@ != "email"@,
{
    reveal_strlit("id");
    reveal_strlit("name");
    reveal_strlit("email");
    assert("id"@.len() == 2);
    assert("name"@.len() == 4);
    assert("email"@.len() == 5);

}

/// Whether a field holds this integer, with a JSON null or an absent field
/// standing for an absent value.
pub open spec fn field_is_opt_int_or_null(
    fields: Seq<(String, Json)>,
    name: Seq<char>,
    v: Option<Time>,
) -> bool {
    match spec_obj_get(fields, name) {
        Option::Some(j) => match j {
            Json::Int(n) => v == Some(Time(n)),
            Json::Null => v is None,
            _ => false,
        },
        Option::None => v is None,
    }
}

/// Whether a field holds this snowflake in canonical form, with a JSON null
/// or an absent field standing for an absent value.
pub open spec fn field_is_opt_snowflake_or_null(
    fields: Seq<(String, Json)>,
    name: Seq<char>,
    v: Option<Snowflake>,
) -> bool {
    match spec_obj_get(fields, name) {
        Option::Some(j) => match j {
            Json::Str(s) => s@.len() == 13 && (forall|i: int|
                0 <= i < 13 ==> crate::api::types::spec_b36_digit_ok(s@[i]))
                && crate::api::types::spec_b36_value(s@) <= u64::MAX && v == Some(
                Snowflake(crate::api::types::spec_b36_value(s@) as u64),
            ),
            Json::Null => v is None,
            _ => false,
        },
        Option::None => v is None,
    }
}

/// Whether the JSON value encodes this message.
pub open spec fn json_is_message(j: Json, m: crate::api::types::Message) -> bool {
    &&& j matches Json::Obj(f)
    &&& (match spec_obj_get(j->Obj_0@, "id"@) {
        Option::Some(v) => (v matches Json::Str(s)) && v->Str_0@.len() == 13 && (forall|i: int|
            0 <= i < 13 ==> crate::api::types::spec_b36_digit_ok(v->Str_0@[i]))
            && crate::api::types::spec_b36_value(v->Str_0@) <= u64::MAX && m.id == MessageId(
            Snowflake(crate::api::types::spec_b36_value(v->Str_0@) as u64),
        ),
        Option::None => false,
    })
    &&& field_is_opt_snowflake_or_null(
        j->Obj_0@,
        "parent"@,
        match m.parent {
            Option::Some(p) => Some(p.0),
            Option::None => None,
        },
    )
    &&& field_is_opt_snowflake_or_null(j->Obj_0@, "previous_edit_id"@, m.previous_edit_id)
    &&& field_is_int(j->Obj_0@, "time"@, m.time.0)
    &&& (match spec_obj_get(j->Obj_0@, "sender"@) {
        Option::Some(v) => json_is_session_view(v, m.sender),
        Option::None => false,
    })
    &&& field_is_str(j->Obj_0@, "content"@, m.content@)
    &&& field_is_opt_str_or_null(j->Obj_0@, "encryption_key_id"@, m.encryption_key_id)
    &&& field_is_opt_int_or_null(j->Obj_0@, "edited"@, m.edited)
    &&& field_is_opt_int_or_null(j->Obj_0@, "deleted"@, m.deleted)
    &&& field_is_bool_or_absent(j->Obj_0@, "truncated"@, m.truncated)
}

fn opt_snowflake_to_json(v: Option<Snowflake>) -> (r: Json)
    ensures
        match v {
            Option::Some(sf) => (r matches Json::Str(s)) && r->Str_0@
                == crate::api::types::spec_snowflake_str(sf.0) && r->Str_0@.len() == 13 && (forall|
                i: int,
            |
                0 <= i < 13 ==> crate::api::types::spec_b36_digit_ok(r->Str_0@[i]))
                && crate::api::types::spec_b36_value(r->Str_0@) == sf.0,
            Option::None => r == Json::Null,
        },
{
    match v {
        Option::Some(sf) => {
            proof {
                crate::api::types::lemma_snowflake_str_digits(sf.0);
            }
            Json::Str(sf.format())
        },
        Option::None => Json::Null,
    }
}

fn opt_time_to_json(v: Option<Time>) -> (r: Json)
    ensures
        match v {
            Option::Some(t) => r == Json::Int(t.0),
            Option::None => r == Json::Null,
        },
{
    match v {
        Option::Some(t) => Json::Int(t.0),
        Option::None => Json::Null,
    }
}

/// Encode a message as its JSON object.
pub fn message_to_json(m: &crate::api::types::Message) -> (r: Json)
    ensures
        json_is_message(r, *m),
{
    let mut f: Vec<(String, Json)> = Vec::new();
    proof {
        crate::api::types::lemma_snowflake_str_digits(m.id.0.0);
    }
    f.push(("id".to_owned(), Json::Str(m.id.0.format())));
    f.push((
        "parent".to_owned(),
        opt_snowflake_to_json(match m.parent {
            Option::Some(p) => Some(p.0),
            Option::None => None,
        }),
    ));
    f.push(("previous_edit_id".to_owned(), opt_snowflake_to_json(m.previous_edit_id)));
    f.push(("time".to_owned(), Json::Int(m.time.0)));
    f.push(("sender".to_owned(), session_view_to_json(&m.sender)));
    f.push(("content".to_owned(), Json::Str(m.content.clone())));
    f.push(("encryption_key_id".to_owned(), opt_str_to_json(&m.encryption_key_id)));
    f.push(("edited".to_owned(), opt_time_to_json(m.edited)));
    f.push(("deleted".to_owned(), opt_time_to_json(m.deleted)));
    f.push(("truncated".to_owned(), Json::Bool(m.truncated)));
    proof {
        lemma_message_names_distinct();
        lemma_obj_get_at(f@, "id"@, 0);
        lemma_obj_get_at(f@, "parent"@, 1);
        lemma_obj_get_at(f@, "previous_edit_id"@, 2);
        lemma_obj_get_at(f@, "time"@, 3);
        lemma_obj_get_at(f@, "sender"@, 4);
        lemma_obj_get_at(f@, "content"@, 5);
        lemma_obj_get_at(f@, "encryption_key_id"@, 6);
        lemma_obj_get_at(f@, "edited"@, 7);
        lemma_obj_get_at(f@, "deleted"@, 8);
        lemma_obj_get_at(f@, "truncated"@, 9);
    }
    Json::Obj(f)
}

fn get_opt_time_or_null(fields: &Vec<(String, Json)>, name: &str) -> (r: Option<Option<Time>>)
    ensures
        match r {
            Some(v) => field_is_opt_int_or_null(fields@, name@, v),
            None => forall|v: Option<Time>| !field_is_opt_int_or_null(fields@, name@, v),
        },
{
    match obj_get(fields, name) {
        Option::Some(Json::Int(n)) => Some(Some(Time(*n))),
        Option::Some(Json::Null) => Some(None),
        Option::Some(_) => None,
        Option::None => Some(None),
    }
}

fn get_opt_snowflake_or_null(fields: &Vec<(String, Json)>, name: &str) -> (r: Option<
    Option<Snowflake>,
>)
    ensures
        match r {
            Some(v) => field_is_opt_snowflake_or_null(fields@, name@, v),
            None => forall|v: Option<Snowflake>| !field_is_opt_snowflake_or_null(
                fields@,
                name@,
                v,
            ),
        },
{
    match obj_get(fields, name) {
        Option::Some(Json::Str(s)) => match Snowflake::from_str(s.as_str()) {
            Ok(sf) => Some(Some(sf)),
            Err(_) => None,
        },
        Option::Some(Json::Null) => Some(None),
        Option::Some(_) => None,
        Option::None => Some(None),
    }
}

/// Decode a message from its JSON object.
pub fn message_from_json(j: &Json) -> (r: Result<crate::api::types::Message, ()>)
    ensures
        r matches Ok(m) ==> json_is_message(*j, m),
        r is Err ==> forall|m: crate::api::types::Message| !json_is_message(*j, m),
{
    let fields = match j {
        Json::Obj(f) => f,
        _ => {
            return Err(());
        },
    };
    let id = match obj_get(fields, "id") {
        Option::Some(Json::Str(s)) => match Snowflake::from_str(s.as_str()) {
            Ok(sf) => MessageId(sf),
            Err(_) => {
                return Err(());
            },
        },
        _ => {
            return Err(());
        },
    };
    let parent = match get_opt_snowflake_or_null(fields, "parent") {
        Option::Some(Option::Some(sf)) => Some(MessageId(sf)),
        Option::Some(Option::None) => None,
        Option::None => {
            return Err(());
        },
    };
    let previous_edit_id = match get_opt_snowflake_or_null(fields, "previous_edit_id") {
        Option::Some(v) => v,
        Option::None => {
            return Err(());
        },
    };
    let time = match get_int(fields, "time") {
        Option::Some(v) => Time(v),
        Option::None => {
            return Err(());
        },
    };
    let sender = match obj_get(fields, "sender") {
        Option::Some(sv) => match session_view_from_json(sv) {
            Ok(sv) => sv,
            Err(()) => {
                return Err(());
            },
        },
        Option::None => {
            return Err(());
        },
    };
    let content = match get_str(fields, "content") {
        Option::Some(v) => v,
        Option::None => {
            return Err(());
        },
    };
    let encryption_key_id = match get_opt_str_or_null(fields, "encryption_key_id") {
        Option::Some(v) => v,
        Option::None => {
            return Err(());
        },
    };
    let edited = match get_opt_time_or_null(fields, "edited") {
        Option::Some(v) => v,
        Option::None => {
            return Err(());
        },
    };
    let deleted = match get_opt_time_or_null(fields, "deleted") {
        Option::Some(v) => v,
        Option::None => {
            return Err(());
        },
    };
    let truncated = match get_bool_or_absent(fields, "truncated") {
        Option::Some(v) => v,
        Option::None => {
            return Err(());
        },
    };
    Ok(
        crate::api::types::Message {
            id,
            parent,
            previous_edit_id,
            time,
            sender,
            content,
            encryption_key_id,
            edited,
            deleted,
            truncated,
        },
    )
}

/// Whether two messages hold the same values, comparing strings by their
/// characters.
pub open spec fn message_equiv_views(a: crate::api::types::Message, b: crate::api::types::Message)
    -> bool {
    &&& a.id == b.id
    &&& a.parent == b.parent
    &&& a.previous_edit_id == b.previous_edit_id
    &&& a.time == b.time
    &&& session_view_equiv_views(a.sender, b.sender)
    &&& a.content@ == b.content@
    &&& opt_str_view_eq(a.encryption_key_id, b.encryption_key_id)
    &&& a.edited == b.edited
    &&& a.deleted == b.deleted
    &&& a.truncated == b.truncated
}

/// Whether the JSON value encodes this personal account view.
pub open spec fn json_is_account(j: Json, a: crate::api::types::PersonalAccountView) -> bool {
    &&& j matches Json::Obj(f)
    &&& (match spec_obj_get(j->Obj_0@, "id"@) {
        Option::Some(v) => (v matches Json::Str(s)) && v->Str_0@.len() == 13 && (forall|i: int|
            0 <= i < 13 ==> crate::api::types::spec_b36_digit_ok(v->Str_0@[i]))
            && crate::api::types::spec_b36_value(v->Str_0@) <= u64::MAX && a.id
            == crate::api::types::AccountId(
            Snowflake(crate::api::types::spec_b36_value(v->Str_0@) as u64),
        ),
        Option::None => false,
    })
    &&& field_is_str(j->Obj_0@, "name"@, a.name@)
    &&& field_is_str(j->Obj_0@, "email"@, a.email@)
}

fn account_to_json(a: &crate::api::types::PersonalAccountView) -> (r: Json)
    ensures
        json_is_account(r, *a),
{
    let mut f: Vec<(String, Json)> = Vec::new();
    proof {
        crate::api::types::lemma_snowflake_str_digits(a.id.0.0);
    }
    f.push(("id".to_owned(), Json::Str(a.id.0.format())));
    f.push(("name".to_owned(), Json::Str(a.name.clone())));
    f.push(("email".to_owned(), Json::Str(a.email.clone())));
    proof {
        lemma_account_names_distinct();
        lemma_obj_get_at(f@, "id"@, 0);
        lemma_obj_get_at(f@, "name"@, 1);
        lemma_obj_get_at(f@, "email"@, 2);
    }
    Json::Obj(f)
}

fn account_from_json(j: &Json) -> (r: Result<crate::api::types::PersonalAccountView, ()>)
    ensures
        r matches Ok(a) ==> json_is_account(*j, a),
        r is Err ==> forall|a: crate::api::types::PersonalAccountView| !json_is_account(*j, a),
{
    let fields = match j {
        Json::Obj(f) => f,
        _ => {
            return Err(());
        },
    };
    let id = match obj_get(fields, "id") {
        Option::Some(Json::Str(s)) => match Snowflake::from_str(s.as_str()) {
            Ok(sf) => crate::api::types::AccountId(sf),
            Err(_) => {
                return Err(());
            },
        },
        _ => {
            return Err(());
        },
    };
    let name = match get_str(fields, "name") {
        Option::Some(v) => v,
        Option::None => {
            return Err(());
        },
    };
    let email = match get_str(fields, "email") {
        Option::Some(v) => v,
        Option::None => {
            return Err(());
        },
    };
    Ok(crate::api::types::PersonalAccountView { id, name, email })
}

/// Whether the JSON value encodes this greeting.
pub open spec fn json_is_hello(j: Json, x: crate::api::events::HelloEvent) -> bool {
    &&& j matches Json::Obj(f)
    &&& (match spec_obj_get(j->Obj_0@, "session"@) {
        Option::Some(v) => json_is_session_view(v, x.session),
        Option::None => false,
    })
    &&& (match spec_obj_get(j->Obj_0@, "account"@) {
        Option::Some(v) => if v == Json::Null {
            x.account is None
        } else {
            (x.account matches Some(a)) && json_is_account(v, x.account->Some_0)
        },
        Option::None => x.account is None,
    })
    &&& field_is_bool_or_absent(j->Obj_0@, "room_is_private"@, x.room_is_private)
    &&& field_is_str(j->Obj_0@, "version"@, x.version@)
}

/// Whether the JSON value encodes this snapshot.
pub open spec fn json_is_snapshot(j: Json, x: crate::api::events::SnapshotEvent) -> bool {
    &&& j matches Json::Obj(f)
    &&& field_is_str(j->Obj_0@, "session_id"@, x.session_id.0@)
    &&& field_is_str(j->Obj_0@, "version"@, x.version@)
    &&& (match spec_obj_get(j->Obj_0@, "listing"@) {
        Option::Some(l) => spec_views_match(l, x.listing@),
        Option::None => false,
    })
    &&& (match spec_obj_get(j->Obj_0@, "log"@) {
        Option::Some(l) => spec_msgs_match(l, x.log@),
        Option::None => false,
    })
    &&& field_is_opt_str_or_null(j->Obj_0@, "nick"@, x.nick)
}

fn session_views_to_json(vs: &Vec<SessionView>) -> (r: Json)
    ensures
        (r matches Json::Arr(items)) && r->Arr_0@.len() == vs@.len() && (forall|i: int|
            0 <= i < vs@.len() ==> json_is_session_view(#[trigger] r->Arr_0@[i], vs@[i])),
{
    let mut items: Vec<Json> = Vec::new();
    let mut i: usize = 0;
    while i < vs.len()
        invariant
            i <= vs@.len(),
            items@.len() == i,
            forall|k: int|
                0 <= k < i ==> json_is_session_view(#[trigger] items@[k], vs@[k]),
        decreases vs@.len() - i,
    {
        items.push(session_view_to_json(&vs[i]));
        i += 1;
    }
    Json::Arr(items)
}

/// Whether the JSON value is an array encoding this sequence of session
/// views, element by element.
pub open spec fn spec_views_match(j: Json, vs: Seq<SessionView>) -> bool {
    &&& j matches Json::Arr(items)
    &&& j->Arr_0@.len() == vs.len()
    &&& forall|i: int|
        0 <= i < vs.len() ==> json_is_session_view(#[trigger] j->Arr_0@[i], vs[i])
}

fn session_views_from_json(j: &Json) -> (r: Result<Vec<SessionView>, ()>)
    ensures
        r matches Ok(vs) ==> spec_views_match(*j, vs@),
        r is Err ==> forall|vs: Seq<SessionView>|
            !#[trigger] spec_views_match(*j, vs),
{
    let items = match j {
        Json::Arr(items) => items,
        _ => {
            return Err(());
        },
    };
    let mut vs: Vec<SessionView> = Vec::new();
    let mut i: usize = 0;
    while i < items.len()
        invariant
            *j == Json::Arr(*items),
            i <= items@.len(),
            vs@.len() == i,
            forall|k: int|
                0 <= k < i ==> json_is_session_view(#[trigger] items@[k], vs@[k]),
        decreases items@.len() - i,
    {
        match session_view_from_json(&items[i]) {
            Ok(sv) => {
                vs.push(sv);
            },
            Err(()) => {
                proof {
                    assert forall|bad: Seq<SessionView>| !#[trigger] spec_views_match(
                        *j,
                        bad,
                    ) by {
                        if spec_views_match(*j, bad) {
                            assert(json_is_session_view(items@[i as int], bad[i as int]));
                        }
                    }
                }
                return Err(());
            },
        }
        i += 1;
    }
    Ok(vs)
}

/// Whether the JSON value is an array encoding this sequence of messages,
/// element by element.
pub open spec fn spec_msgs_match(j: Json, ms: Seq<crate::api::types::Message>) -> bool {
    &&& j matches Json::Arr(items)
    &&& j->Arr_0@.len() == ms.len()
    &&& forall|i: int| 0 <= i < ms.len() ==> json_is_message(#[trigger] j->Arr_0@[i], ms[i])
}

fn messages_from_json(j: &Json) -> (r: Result<Vec<crate::api::types::Message>, ()>)
    ensures
        r matches Ok(ms) ==> spec_msgs_match(*j, ms@),
        r is Err ==> forall|ms: Seq<crate::api::types::Message>|
            !#[trigger] spec_msgs_match(*j, ms),
{
    let items = match j {
        Json::Arr(items) => items,
        _ => {
            return Err(());
        },
    };
    let mut ms: Vec<crate::api::types::Message> = Vec::new();
    let mut i: usize = 0;
    while i < items.len()
        invariant
            *j == Json::Arr(*items),
            i <= items@.len(),
            ms@.len() == i,
            forall|k: int| 0 <= k < i ==> json_is_message(#[trigger] items@[k], ms@[k]),
        decreases items@.len() - i,
    {
        match message_from_json(&items[i]) {
            Ok(m) => {
                ms.push(m);
            },
            Err(()) => {
                proof {
                    assert forall|bad: Seq<crate::api::types::Message>| !#[trigger] spec_msgs_match(
                        *j,
                        bad,
                    ) by {
                        if spec_msgs_match(*j, bad) {
                            assert(json_is_message(items@[i as int], bad[i as int]));
                        }
                    }
                }
                return Err(());
            },
        }
        i += 1;
    }
    Ok(ms)
}

/// The JSON payload a packet carries: its data, or null when it has none.
pub open spec fn spec_packet_payload(p: Packet) -> Json {
    match p.data {
        Option::Some(jd) => jd,
        Option::None => Json::Null,
    }
}

/// Whether the JSON value encodes this payload.
pub open spec fn data_json_rel(d: Data, j: Json) -> bool {
    match d {
        Data::Ping(x) => json_is_ping(j, x),
        Data::PingReply(x) => json_is_ping_reply(j, x),
        Data::Auth(x) => json_is_auth(j, x),
        Data::AuthReply(x) => json_is_auth_reply(j, x),
        Data::Nick(x) => json_is_nick(j, x),
        Data::NickReply(x) => json_is_nick_reply(j, x),
        Data::Send(x) => json_is_send(j, x),
        Data::Who(x) => json_is_who(j, x),
        Data::BounceEvent(x) => json_is_bounce(j, x),
        Data::DisconnectEvent(x) => json_is_disconnect(j, x),
        Data::NetworkEvent(x) => json_is_network(j, x),
        Data::NickEvent(x) => json_is_nick_event(j, x),
        Data::PingEvent(x) => json_is_ping_event(j, x),
        Data::JoinEvent(x) => json_is_session_view(j, x.0),
        Data::PartEvent(x) => json_is_session_view(j, x.0),
        Data::WhoReply(x) => json_is_who_reply(j, x),
        Data::SendEvent(x) => json_is_message(j, x.0),
        Data::SendReply(x) => json_is_message(j, x.0),
        Data::HelloEvent(x) => json_is_hello(j, x),
        Data::SnapshotEvent(x) => json_is_snapshot(j, x),
        Data::Unimplemented(t, ju) => !spec_codec_decodes(t) && json_equiv(ju, j),
        _ => false,
    }
}

/// Two payloads of the same packet type encoded by the same JSON value hold
/// the same values: decoding does not depend on the order of object fields,
/// and a payload that is serialized and parsed again comes back unchanged.
pub proof fn lemma_data_json_functional(j: Json, d1: Data, d2: Data)
    requires
        data_json_rel(d1, j),
        data_json_rel(d2, j),
        d1.spec_packet_type() == d2.spec_packet_type(),
    ensures
        crate::api::packets::data_equiv_views(d1, d2),
{
    match (d1, d2) {
        (Data::Unimplemented(_, x), Data::Unimplemented(_, y)) => {
            crate::json::lemma_json_equiv_joint(x, y, j);
        },
        (Data::WhoReply(x), Data::WhoReply(y)) => {
            let items = (spec_obj_get(j->Obj_0@, "listing"@)->Some_0)->Arr_0@;
            assert forall|i: int|
                0 <= i < x.listing@.len() implies session_view_equiv_views(
                #[trigger] x.listing@[i],
                y.listing@[i],
            ) by {
                assert(json_is_session_view(items[i], x.listing@[i]));
                assert(json_is_session_view(items[i], y.listing@[i]));
            }
        },
        (Data::SnapshotEvent(x), Data::SnapshotEvent(y)) => {
            let items = (spec_obj_get(j->Obj_0@, "listing"@)->Some_0)->Arr_0@;
            assert forall|i: int|
                0 <= i < x.listing@.len() implies session_view_equiv_views(
                #[trigger] x.listing@[i],
                y.listing@[i],
            ) by {
                assert(json_is_session_view(items[i], x.listing@[i]));
                assert(json_is_session_view(items[i], y.listing@[i]));
            }
            let logs = (spec_obj_get(j->Obj_0@, "log"@)->Some_0)->Arr_0@;
            assert forall|i: int|
                0 <= i < x.log@.len() implies message_equiv_views(
                #[trigger] x.log@[i],
                y.log@[i],
            ) by {
                assert(json_is_message(logs[i], x.log@[i]));
                assert(json_is_message(logs[i], y.log@[i]));
            }
        },
        (Data::BounceEvent(x), Data::BounceEvent(y)) => {
            match (x.auth_options, y.auth_options) {
                (Option::Some(p), Option::Some(q)) => {
                    assert(p@ =~= q@);
                },
                _ => {},
            }
        },
        _ => {},
    }
}



proof fn lemma_names_distinct()
    ensures
        "time"@ != "next"@,
        "type"@ != "passcode"@,
        "success"@ != "reason"@,
        "session_id"@ != "id"@,
        "session_id"@ != "from"@,
        "session_id"@ != "to"@,
        "id"@ != "from"@,
        "id"@ != "to"@,
        "from"@ != "to"@,
        "content"@ != "parent"@,
        "reason"@ != "auth_options"@,
        "type"@ != "server_id"@,
        "type"@ != "server_era"@,
        "server_id"@ != "server_era"@,
{
    reveal_strlit("time");
    reveal_strlit("next");
    reveal_strlit("type");
    reveal_strlit("passcode");
    reveal_strlit("success");
    reveal_strlit("reason");
    reveal_strlit("session_id");
    reveal_strlit("id");
    reveal_strlit("from");
    reveal_strlit("to");
    reveal_strlit("content");
    reveal_strlit("parent");
    reveal_strlit("auth_options");
    reveal_strlit("server_id");
    reveal_strlit("server_era");
    assert("time"@[0] != "next"@[0]);
    assert("type"@[0] != "passcode"@[0]);
    assert("success"@[0] != "reason"@[0]);
    assert("session_id"@[0] != "id"@[0]);
    assert("session_id"@[0] != "from"@[0]);
    assert("session_id"@[0] != "to"@[0]);
    assert("id"@[0] != "from"@[0]);
    assert("id"@[0] != "to"@[0]);
    assert("from"@[0] != "to"@[0]);
    assert("content"@[0] != "parent"@[0]);
    assert("reason"@[0] != "auth_options"@[0]);
    assert("type"@[0] != "server_id"@[0]);
    assert("server_id"@[7] != "server_era"@[7]);
}

/// Whether the codec can encode this payload to JSON.
pub open spec fn spec_codec_encodes(d: Data) -> bool {
    match d {
        Data::Ping(_) | Data::PingReply(_) | Data::Auth(_) | Data::AuthReply(_) | Data::Nick(_)
            | Data::NickReply(_) | Data::Send(_) | Data::Who(_) | Data::BounceEvent(_)
            | Data::DisconnectEvent(_) | Data::NetworkEvent(_) | Data::NickEvent(_)
            | Data::PingEvent(_) | Data::JoinEvent(_) | Data::PartEvent(_) | Data::WhoReply(_)
            | Data::SendEvent(_) | Data::SendReply(_) | Data::HelloEvent(_)
            | Data::SnapshotEvent(_) => true,
        Data::Unimplemented(t, _) => !spec_codec_decodes(t),
        _ => false,
    }
}

/// Encode a payload as its JSON value.
///
/// Payload types that carry nested session or message structures are not
/// encoded here and yield `None`.
pub fn data_to_json(d: &Data) -> (r: Option<Json>)
    ensures
        r is Some <==> spec_codec_encodes(*d),
        r matches Some(j) ==> data_json_rel(*d, j),
{
    match d {
        Data::Ping(x) => {
            let mut f: Vec<(String, Json)> = Vec::new();
            f.push(("time".to_owned(), Json::Int(x.time.0)));
            proof {
                lemma_obj_get_at(f@, "time"@, 0);
            }
            Some(Json::Obj(f))
        },
        Data::PingReply(x) => {
            let mut f: Vec<(String, Json)> = Vec::new();
            match x.time {
                Option::Some(t) => {
                    f.push(("time".to_owned(), Json::Int(t.0)));
                    proof {
                        lemma_obj_get_at(f@, "time"@, 0);
                    }
                },
                Option::None => {
                    proof {
                        lemma_obj_get_absent(f@, "time"@);
                    }
                },
            }
            Some(Json::Obj(f))
        },
        Data::PingEvent(x) => {
            let mut f: Vec<(String, Json)> = Vec::new();
            f.push(("time".to_owned(), Json::Int(x.time.0)));
            f.push(("next".to_owned(), Json::Int(x.next.0)));
            proof {
                lemma_names_distinct();
                lemma_obj_get_at(f@, "time"@, 0);
                lemma_obj_get_at(f@, "next"@, 1);
            }
            Some(Json::Obj(f))
        },
        Data::Auth(x) => {
            let mut f: Vec<(String, Json)> = Vec::new();
            f.push(("type".to_owned(), Json::Str("passcode".to_owned())));
            match &x.passcode {
                Option::Some(p) => {
                    f.push(("passcode".to_owned(), Json::Str(p.clone())));
                    proof {
                        lemma_names_distinct();
                        lemma_obj_get_at(f@, "type"@, 0);
                        lemma_obj_get_at(f@, "passcode"@, 1);
                    }
                },
                Option::None => {
                    proof {
                        lemma_names_distinct();
                        lemma_obj_get_at(f@, "type"@, 0);
                        lemma_obj_get_absent(f@, "passcode"@);
                    }
                },
            }
            Some(Json::Obj(f))
        },
        Data::AuthReply(x) => {
            let mut f: Vec<(String, Json)> = Vec::new();
            f.push(("success".to_owned(), Json::Bool(x.success)));
            match &x.reason {
                Option::Some(m) => {
                    f.push(("reason".to_owned(), Json::Str(m.clone())));
                    proof {
                        lemma_names_distinct();
                        lemma_obj_get_at(f@, "success"@, 0);
                        lemma_obj_get_at(f@, "reason"@, 1);
                    }
                },
                Option::None => {
                    proof {
                        lemma_names_distinct();
                        lemma_obj_get_at(f@, "success"@, 0);
                        lemma_obj_get_absent(f@, "reason"@);
                    }
                },
            }
            Some(Json::Obj(f))
        },
        Data::Nick(x) => {
            let mut f: Vec<(String, Json)> = Vec::new();
            f.push(("name".to_owned(), Json::Str(x.name.clone())));
            proof {
                lemma_obj_get_at(f@, "name"@, 0);
            }
            Some(Json::Obj(f))
        },
        Data::NickReply(x) => {
            let mut f: Vec<(String, Json)> = Vec::new();
            f.push(("session_id".to_owned(), Json::Str(x.session_id.0.clone())));
            f.push(("id".to_owned(), Json::Str(x.id.0.clone())));
            f.push(("from".to_owned(), Json::Str(x.from.clone())));
            f.push(("to".to_owned(), Json::Str(x.to.clone())));
            proof {
                lemma_names_distinct();
                lemma_obj_get_at(f@, "session_id"@, 0);
                lemma_obj_get_at(f@, "id"@, 1);
                lemma_obj_get_at(f@, "from"@, 2);
                lemma_obj_get_at(f@, "to"@, 3);
            }
            Some(Json::Obj(f))
        },
        Data::NickEvent(x) => {
            let mut f: Vec<(String, Json)> = Vec::new();
            f.push(("session_id".to_owned(), Json::Str(x.session_id.0.clone())));
            f.push(("id".to_owned(), Json::Str(x.id.0.clone())));
            f.push(("from".to_owned(), Json::Str(x.from.clone())));
            f.push(("to".to_owned(), Json::Str(x.to.clone())));
            proof {
                lemma_names_distinct();
                lemma_obj_get_at(f@, "session_id"@, 0);
                lemma_obj_get_at(f@, "id"@, 1);
                lemma_obj_get_at(f@, "from"@, 2);
                lemma_obj_get_at(f@, "to"@, 3);
            }
            Some(Json::Obj(f))
        },
        Data::Send(x) => {
            let mut f: Vec<(String, Json)> = Vec::new();
            f.push(("content".to_owned(), Json::Str(x.content.clone())));
            match x.parent {
                Option::Some(m) => {
                    proof {
                        crate::api::types::lemma_snowflake_str_digits(m.0.0);
                    }
                    f.push(("parent".to_owned(), Json::Str(m.0.format())));
                    proof {
                        lemma_names_distinct();
                        lemma_obj_get_at(f@, "content"@, 0);
                        lemma_obj_get_at(f@, "parent"@, 1);
                    }
                },
                Option::None => {
                    proof {
                        lemma_names_distinct();
                        lemma_obj_get_at(f@, "content"@, 0);
                        lemma_obj_get_absent(f@, "parent"@);
                    }
                },
            }
            Some(Json::Obj(f))
        },
        Data::Who(_) => {
            let f: Vec<(String, Json)> = Vec::new();
            Some(Json::Obj(f))
        },
        Data::BounceEvent(x) => {
            let mut f: Vec<(String, Json)> = Vec::new();
            let ghost has_reason = x.reason is Some;
            match &x.reason {
                Option::Some(m) => {
                    f.push(("reason".to_owned(), Json::Str(m.clone())));
                },
                Option::None => {},
            }
            match &x.auth_options {
                Option::Some(opts) => {
                    let mut items: Vec<Json> = Vec::new();
                    let mut i: usize = 0;
                    while i < opts.len()
                        invariant
                            i <= opts@.len(),
                            items@.len() == i,
                            forall|k: int|
                                0 <= k < i ==> ((#[trigger] items@[k]) matches Json::Str(s) && s@
                                    == "passcode"@) && opts@[k] == AuthOption::Passcode,
                        decreases opts@.len() - i,
                    {
                        let o = opts[i];
                        match o {
                            AuthOption::Passcode => {
                                items.push(Json::Str("passcode".to_owned()));
                            },
                        }
                        i += 1;
                    }
                    f.push(("auth_options".to_owned(), Json::Arr(items)));
                },
                Option::None => {},
            }
            proof {
                lemma_names_distinct();
                if has_reason {
                    lemma_obj_get_at(f@, "reason"@, 0);
                    if x.auth_options is Some {
                        lemma_obj_get_at(f@, "auth_options"@, 1);
                    } else {
                        lemma_obj_get_absent(f@, "auth_options"@);
                    }
                } else {
                    lemma_obj_get_absent(f@, "reason"@);
                    if x.auth_options is Some {
                        lemma_obj_get_at(f@, "auth_options"@, 0);
                    } else {
                        lemma_obj_get_absent(f@, "auth_options"@);
                    }
                }
            }
            Some(Json::Obj(f))
        },
        Data::DisconnectEvent(x) => {
            let mut f: Vec<(String, Json)> = Vec::new();
            f.push(("reason".to_owned(), Json::Str(x.reason.clone())));
            proof {
                lemma_obj_get_at(f@, "reason"@, 0);
            }
            Some(Json::Obj(f))
        },
        Data::NetworkEvent(x) => {
            let mut f: Vec<(String, Json)> = Vec::new();
            f.push(("type".to_owned(), Json::Str(x.kind.clone())));
            f.push(("server_id".to_owned(), Json::Str(x.server_id.clone())));
            f.push(("server_era".to_owned(), Json::Str(x.server_era.clone())));
            proof {
                lemma_names_distinct();
                lemma_obj_get_at(f@, "type"@, 0);
                lemma_obj_get_at(f@, "server_id"@, 1);
                lemma_obj_get_at(f@, "server_era"@, 2);
            }
            Some(Json::Obj(f))
        },
        Data::JoinEvent(x) => Some(session_view_to_json(&x.0)),
        Data::PartEvent(x) => Some(session_view_to_json(&x.0)),
        Data::SendEvent(x) => Some(message_to_json(&x.0)),
        Data::SendReply(x) => Some(message_to_json(&x.0)),
        Data::HelloEvent(x) => {
            let mut f: Vec<(String, Json)> = Vec::new();
            f.push(("session".to_owned(), session_view_to_json(&x.session)));
            f.push((
                "account".to_owned(),
                match &x.account {
                    Option::Some(a) => account_to_json(a),
                    Option::None => Json::Null,
                },
            ));
            f.push(("room_is_private".to_owned(), Json::Bool(x.room_is_private)));
            f.push(("version".to_owned(), Json::Str(x.version.clone())));
            proof {
                lemma_hello_names_distinct();
                lemma_obj_get_at(f@, "session"@, 0);
                lemma_obj_get_at(f@, "account"@, 1);
                lemma_obj_get_at(f@, "room_is_private"@, 2);
                lemma_obj_get_at(f@, "version"@, 3);
            }
            Some(Json::Obj(f))
        },
        Data::SnapshotEvent(x) => {
            let listing = session_views_to_json(&x.listing);
            let mut log_items: Vec<Json> = Vec::new();
            let mut i: usize = 0;
            while i < x.log.len()
                invariant
                    i <= x.log@.len(),
                    log_items@.len() == i,
                    forall|k: int|
                        0 <= k < i ==> json_is_message(#[trigger] log_items@[k], x.log@[k]),
                decreases x.log@.len() - i,
            {
                log_items.push(message_to_json(&x.log[i]));
                i += 1;
            }
            let mut f: Vec<(String, Json)> = Vec::new();
            f.push(("session_id".to_owned(), Json::Str(x.session_id.0.clone())));
            f.push(("version".to_owned(), Json::Str(x.version.clone())));
            f.push(("listing".to_owned(), listing));
            f.push(("log".to_owned(), Json::Arr(log_items)));
            f.push(("nick".to_owned(), opt_str_to_json(&x.nick)));
            proof {
                lemma_snapshot_names_distinct();
                lemma_obj_get_at(f@, "session_id"@, 0);
                lemma_obj_get_at(f@, "version"@, 1);
                lemma_obj_get_at(f@, "listing"@, 2);
                lemma_obj_get_at(f@, "log"@, 3);
                lemma_obj_get_at(f@, "nick"@, 4);
            }
            Some(Json::Obj(f))
        },
        Data::WhoReply(x) => {
            let mut items: Vec<Json> = Vec::new();
            let mut i: usize = 0;
            while i < x.listing.len()
                invariant
                    i <= x.listing@.len(),
                    items@.len() == i,
                    forall|k: int|
                        0 <= k < i ==> json_is_session_view(
                            #[trigger] items@[k],
                            x.listing@[k],
                        ),
                decreases x.listing@.len() - i,
            {
                items.push(session_view_to_json(&x.listing[i]));
                i += 1;
            }
            let mut f: Vec<(String, Json)> = Vec::new();
            f.push(("listing".to_owned(), Json::Arr(items)));
            proof {
                lemma_obj_get_at(f@, "listing"@, 0);
            }
            Some(Json::Obj(f))
        },
        Data::Unimplemented(t, j) => {
            if codec_decodes(*t) {
                None
            } else {
                let ju = j.clone();
                proof {
                    crate::json::lemma_json_equiv_symm(ju, *j);
                }
                Some(ju)
            }
        },
        _ => None,
    }
}

/// Decide whether the codec decodes this packet type into a typed payload.
pub fn codec_decodes(t: PacketType) -> (r: bool)
    ensures
        r == spec_codec_decodes(t),
{
    match t {
        PacketType::Ping | PacketType::PingReply | PacketType::Auth | PacketType::AuthReply
            | PacketType::Nick | PacketType::NickReply | PacketType::Send | PacketType::Who
            | PacketType::BounceEvent | PacketType::DisconnectEvent | PacketType::NetworkEvent
            | PacketType::NickEvent | PacketType::PingEvent | PacketType::JoinEvent
            | PacketType::PartEvent | PacketType::WhoReply | PacketType::SendEvent
            | PacketType::SendReply | PacketType::HelloEvent | PacketType::SnapshotEvent => true,
        _ => false,
    }
}

/// Decode a payload of the given packet type from its JSON value.
///
/// A packet type the codec does not decode is kept as its JSON value; a
/// malformed payload of a decoded type is rejected.
pub fn data_from_json(t: PacketType, j: &Json) -> (r: Result<Data, ()>)
    ensures
        r matches Ok(d) ==> data_json_rel(d, *j) && d.spec_packet_type() == t,
        !spec_codec_decodes(t) ==> r is Ok,
        r is Ok <==> exists|d: Data|
            #[trigger] data_json_rel(d, *j) && d.spec_packet_type() == t,
{
    proof {
        reveal_strlit("partition");
    }
    if !codec_decodes(t) {
        let ju = j.clone();
        proof {
            assert(data_json_rel(Data::Unimplemented(t, ju), *j));
        }
        return Ok(Data::Unimplemented(t, ju));
    }
    let fields = match j {
        Json::Obj(f) => f,
        _ => {
            return Err(());
        },
    };
    let result = match t {
        PacketType::Ping => {
            let time = match get_int(fields, "time") {
                Option::Some(v) => v,
                Option::None => {
                    return Err(());
                },
            };
            Ok(Data::Ping(Ping { time: Time(time) }))
        },
        PacketType::PingReply => {
            match obj_get(fields, "time") {
                Option::Some(Json::Int(n)) => Ok(
                    Data::PingReply(PingReply { time: Some(Time(*n)) }),
                ),
                Option::Some(_) => Err(()),
                Option::None => Ok(Data::PingReply(PingReply { time: None })),
            }
        },
        PacketType::PingEvent => {
            let time = match get_int(fields, "time") {
                Option::Some(v) => v,
                Option::None => {
                    return Err(());
                },
            };
            let next = match get_int(fields, "next") {
                Option::Some(v) => v,
                Option::None => {
                    return Err(());
                },
            };
            Ok(Data::PingEvent(PingEvent { time: Time(time), next: Time(next) }))
        },
        PacketType::Auth => {
            let kind = match get_str(fields, "type") {
                Option::Some(v) => v,
                Option::None => {
                    return Err(());
                },
            };
            if !crate::text::str_eq(kind.as_str(), "passcode") {
                return Err(());
            }
            let passcode = match get_opt_str(fields, "passcode") {
                Option::Some(v) => v,
                Option::None => {
                    return Err(());
                },
            };
            Ok(Data::Auth(Auth { auth_type: AuthOption::Passcode, passcode }))
        },
        PacketType::AuthReply => {
            let success = match obj_get(fields, "success") {
                Option::Some(Json::Bool(b)) => *b,
                _ => {
                    return Err(());
                },
            };
            let reason = match get_opt_str(fields, "reason") {
                Option::Some(v) => v,
                Option::None => {
                    return Err(());
                },
            };
            Ok(Data::AuthReply(AuthReply { success, reason }))
        },
        PacketType::Nick => {
            let name = match get_str(fields, "name") {
                Option::Some(v) => v,
                Option::None => {
                    return Err(());
                },
            };
            Ok(Data::Nick(Nick { name }))
        },
        PacketType::NickReply => {
            let session_id = match get_str(fields, "session_id") {
                Option::Some(v) => v,
                Option::None => {
                    return Err(());
                },
            };
            let id = match get_str(fields, "id") {
                Option::Some(v) => v,
                Option::None => {
                    return Err(());
                },
            };
            let from = match get_str(fields, "from") {
                Option::Some(v) => v,
                Option::None => {
                    return Err(());
                },
            };
            let to = match get_str(fields, "to") {
                Option::Some(v) => v,
                Option::None => {
                    return Err(());
                },
            };
            Ok(
                Data::NickReply(
                    NickReply { session_id: SessionId(session_id), id: UserId(id), from, to },
                ),
            )
        },
        PacketType::NickEvent => {
            let session_id = match get_str(fields, "session_id") {
                Option::Some(v) => v,
                Option::None => {
                    return Err(());
                },
            };
            let id = match get_str(fields, "id") {
                Option::Some(v) => v,
                Option::None => {
                    return Err(());
                },
            };
            let from = match get_str(fields, "from") {
                Option::Some(v) => v,
                Option::None => {
                    return Err(());
                },
            };
            let to = match get_str(fields, "to") {
                Option::Some(v) => v,
                Option::None => {
                    return Err(());
                },
            };
            Ok(
                Data::NickEvent(
                    NickEvent { session_id: SessionId(session_id), id: UserId(id), from, to },
                ),
            )
        },
        PacketType::Send => {
            let content = match get_str(fields, "content") {
                Option::Some(v) => v,
                Option::None => {
                    return Err(());
                },
            };
            let parent = match obj_get(fields, "parent") {
                Option::Some(Json::Str(s)) => {
                    match Snowflake::from_str(s.as_str()) {
                        Ok(sf) => Some(MessageId(sf)),
                        Err(_) => {
                            return Err(());
                        },
                    }
                },
                Option::Some(_) => {
                    return Err(());
                },
                Option::None => None,
            };
            Ok(Data::Send(Send { content, parent }))
        },
        PacketType::Who => Ok(Data::Who(Who)),
        PacketType::BounceEvent => {
            let reason = match get_opt_str(fields, "reason") {
                Option::Some(v) => v,
                Option::None => {
                    return Err(());
                },
            };
            let auth_options = match obj_get(fields, "auth_options") {
                Option::Some(Json::Arr(items)) => {
                    let mut opts: Vec<AuthOption> = Vec::new();
                    let mut i: usize = 0;
                    while i < items.len()
                        invariant
                            t == PacketType::BounceEvent,
                            *j == Json::Obj(*fields),
                            spec_obj_get(fields@, "auth_options"@) == Some(Json::Arr(*items)),
                            i <= items@.len(),
                            opts@.len() == i,
                            forall|k: int|
                                0 <= k < i ==> ((#[trigger] items@[k]) matches Json::Str(s) && s@
                                    == "passcode"@) && opts@[k] == AuthOption::Passcode,
                        decreases items@.len() - i,
                    {
                        match &items[i] {
                            Json::Str(s) => {
                                if !crate::text::str_eq(s.as_str(), "passcode") {
                                    return Err(());
                                }
                                opts.push(AuthOption::Passcode);
                            },
                            _ => {
                                return Err(());
                            },
                        }
                        i += 1;
                    }
                    Some(opts)
                },
                Option::Some(_) => {
                    return Err(());
                },
                Option::None => None,
            };
            Ok(Data::BounceEvent(BounceEvent { reason, auth_options }))
        },
        PacketType::SendEvent => {
            match message_from_json(j) {
                Ok(m) => Ok(Data::SendEvent(crate::api::events::SendEvent(m))),
                Err(()) => Err(()),
            }
        },
        PacketType::SendReply => {
            match message_from_json(j) {
                Ok(m) => Ok(Data::SendReply(crate::api::room_cmds::SendReply(m))),
                Err(()) => Err(()),
            }
        },
        PacketType::HelloEvent => {
            let session = match obj_get(fields, "session") {
                Option::Some(v) => match session_view_from_json(v) {
                    Ok(sv) => sv,
                    Err(()) => {
                        return Err(());
                    },
                },
                Option::None => {
                    return Err(());
                },
            };
            let account = match obj_get(fields, "account") {
                Option::Some(Json::Null) => None,
                Option::Some(v) => match account_from_json(v) {
                    Ok(a) => Some(a),
                    Err(()) => {
                        return Err(());
                    },
                },
                Option::None => None,
            };
            let room_is_private = match get_bool_or_absent(fields, "room_is_private") {
                Option::Some(v) => v,
                Option::None => {
                    return Err(());
                },
            };
            let version = match get_str(fields, "version") {
                Option::Some(v) => v,
                Option::None => {
                    return Err(());
                },
            };
            Ok(
                Data::HelloEvent(
                    crate::api::events::HelloEvent { session, account, room_is_private, version },
                ),
            )
        },
        PacketType::SnapshotEvent => {
            let session_id = match get_str(fields, "session_id") {
                Option::Some(v) => v,
                Option::None => {
                    return Err(());
                },
            };
            let version = match get_str(fields, "version") {
                Option::Some(v) => v,
                Option::None => {
                    return Err(());
                },
            };
            let listing = match obj_get(fields, "listing") {
                Option::Some(l) => match session_views_from_json(l) {
                    Ok(vs) => vs,
                    Err(()) => {
                        return Err(());
                    },
                },
                Option::None => {
                    return Err(());
                },
            };
            let log = match obj_get(fields, "log") {
                Option::Some(l) => match messages_from_json(l) {
                    Ok(ms) => ms,
                    Err(()) => {
                        return Err(());
                    },
                },
                Option::None => {
                    return Err(());
                },
            };
            let nick = match get_opt_str_or_null(fields, "nick") {
                Option::Some(v) => v,
                Option::None => {
                    return Err(());
                },
            };
            Ok(
                Data::SnapshotEvent(
                    crate::api::events::SnapshotEvent {
                        session_id: SessionId(session_id),
                        version,
                        listing,
                        log,
                        nick,
                    },
                ),
            )
        },
        PacketType::JoinEvent => {
            match session_view_from_json(j) {
                Ok(sv) => Ok(Data::JoinEvent(JoinEvent(sv))),
                Err(()) => Err(()),
            }
        },
        PacketType::PartEvent => {
            match session_view_from_json(j) {
                Ok(sv) => Ok(Data::PartEvent(PartEvent(sv))),
                Err(()) => Err(()),
            }
        },
        PacketType::WhoReply => {
            match obj_get(fields, "listing") {
                Option::Some(l) => match session_views_from_json(l) {
                    Ok(listing) => Ok(Data::WhoReply(WhoReply { listing })),
                    Err(()) => Err(()),
                },
                Option::None => Err(()),
            }
        },
        PacketType::DisconnectEvent => {
            let reason = match get_str(fields, "reason") {
                Option::Some(v) => v,
                Option::None => {
                    return Err(());
                },
            };
            Ok(Data::DisconnectEvent(DisconnectEvent { reason }))
        },
        PacketType::NetworkEvent => {
            let kind = match get_str(fields, "type") {
                Option::Some(v) => v,
                Option::None => {
                    return Err(());
                },
            };
            let server_id = match get_str(fields, "server_id") {
                Option::Some(v) => v,
                Option::None => {
                    return Err(());
                },
            };
            let server_era = match get_str(fields, "server_era") {
                Option::Some(v) => v,
                Option::None => {
                    return Err(());
                },
            };
            Ok(Data::NetworkEvent(NetworkEvent { kind, server_id, server_era }))
        },
        _ => Err(()),
    };
    proof {
        match &result {
            Ok(d) => {
                assert(data_json_rel(*d, *j) && d.spec_packet_type() == t);
            },
            Err(_) => {},
        }
    }
    result
}


proof fn lemma_envelope_names_distinct()
    ensures
        "id"@ != "type"@,
        "id"@ != "data"@,
        "id"@ != "error"@,
        "id"@ != "throttled"@,
        "id"@ != "throttled_reason"@,
        "type"@ != "data"@,
        "type"@ != "error"@,
        "type"@ != "throttled"@,
        "type"@ != "throttled_reason"@,
        "data"@ != "error"@,
        "data"@ != "throttled"@,
        "data"@ != "throttled_reason"@,
        "error"@ != "throttled"@,
        "error"@ != "throttled_reason"@,
        "throttled"@ != "throttled_reason"@,
{
    reveal_strlit("id");
    reveal_strlit("type");
    reveal_strlit("data");
    reveal_strlit("error");
    reveal_strlit("throttled");
    reveal_strlit("throttled_reason");
    assert("id"@[0] != "type"@[0]);
    assert("id"@[0] != "data"@[0]);
    assert("id"@[0] != "error"@[0]);
    assert("id"@[0] != "throttled"@[0]);
    assert("id"@[0] != "throttled_reason"@[0]);
    assert("type"@[0] != "data"@[0]);
    assert("type"@[0] != "error"@[0]);
    assert("type"@[1] != "throttled"@[1]);
    assert("type"@[1] != "throttled_reason"@[1]);
    assert("data"@[0] != "error"@[0]);
    assert("data"@[0] != "throttled"@[0]);
    assert("data"@[0] != "throttled_reason"@[0]);
    assert("error"@[0] != "throttled"@[0]);
    assert("error"@[0] != "throttled_reason"@[0]);
    assert("throttled"@.len() != "throttled_reason"@.len());
}

/// Whether the JSON value encodes this raw packet.
pub open spec fn packet_json_rel(p: Packet, j: Json) -> bool {
    &&& j matches Json::Obj(f)
    &&& match spec_obj_get(j->Obj_0@, "id"@) {
        Option::Some(v) => match v {
            Json::Str(s) => (p.id matches Some(x)) && s@ == p.id->Some_0@,
            Json::Null => p.id is None,
            _ => false,
        },
        Option::None => false,
    }
    &&& match spec_obj_get(j->Obj_0@, "type"@) {
        Option::Some(v) => (v matches Json::Str(s))
            && crate::api::types::spec_parse_packet_type(v->Str_0@) == Some(p.ptype),
        Option::None => false,
    }
    &&& match spec_obj_get(j->Obj_0@, "data"@) {
        Option::Some(v) => if v == Json::Null {
            p.data is None || p.data == Some(Json::Null)
        } else {
            (p.data matches Some(d)) && json_equiv(p.data->Some_0, v)
        },
        Option::None => false,
    }
    &&& field_is_opt_str(j->Obj_0@, "error"@, p.error)
    &&& match spec_obj_get(j->Obj_0@, "throttled"@) {
        Option::Some(v) => v == Json::Bool(p.throttled),
        Option::None => !p.throttled,
    }
    &&& field_is_opt_str(j->Obj_0@, "throttled_reason"@, p.throttled_reason)
}

/// Encode a raw packet as its JSON envelope: `id`, `type` and `data` always
/// appear; `error`, `throttled` and `throttled_reason` only when they carry
/// something.
pub fn packet_to_json(p: &Packet) -> (r: Json)
    ensures
        packet_json_rel(*p, r),
{
    let mut f: Vec<(String, Json)> = Vec::new();
    match &p.id {
        Option::Some(s) => {
            f.push(("id".to_owned(), Json::Str(s.clone())));
        },
        Option::None => {
            f.push(("id".to_owned(), Json::Null));
        },
    }
    f.push(("type".to_owned(), Json::Str(p.ptype.name_str())));
    match &p.data {
        Option::Some(d) => {
            let jd = d.clone();
            proof {
                crate::json::lemma_json_equiv_symm(jd, *d);
            }
            f.push(("data".to_owned(), jd));
        },
        Option::None => {
            f.push(("data".to_owned(), Json::Null));
        },
    }
    let ghost base = f@;
    match &p.error {
        Option::Some(e) => {
            f.push(("error".to_owned(), Json::Str(e.clone())));
        },
        Option::None => {},
    }
    if p.throttled {
        f.push(("throttled".to_owned(), Json::Bool(true)));
    }
    match &p.throttled_reason {
        Option::Some(m) => {
            f.push(("throttled_reason".to_owned(), Json::Str(m.clone())));
        },
        Option::None => {},
    }
    proof {
        lemma_envelope_names_distinct();
        crate::api::types::lemma_packet_type_names_parse(p.ptype);
        lemma_obj_get_at(f@, "id"@, 0);
        lemma_obj_get_at(f@, "type"@, 1);
        lemma_obj_get_at(f@, "data"@, 2);
        let e_pos: int = 3;
        let t_pos: int = e_pos + (if p.error is Some { 1int } else { 0int });
        let r_pos: int = t_pos + (if p.throttled { 1int } else { 0int });
        if p.error is Some {
            lemma_obj_get_at(f@, "error"@, e_pos);
        } else {
            lemma_obj_get_absent(f@, "error"@);
        }
        if p.throttled {
            lemma_obj_get_at(f@, "throttled"@, t_pos);
        } else {
            lemma_obj_get_absent(f@, "throttled"@);
        }
        if p.throttled_reason is Some {
            lemma_obj_get_at(f@, "throttled_reason"@, r_pos);
        } else {
            lemma_obj_get_absent(f@, "throttled_reason"@);
        }
    }
    Json::Obj(f)
}

/// Decode a raw packet from its JSON envelope.
///
/// The decoding reads fields by name, so a re-ordered envelope decodes to
/// the same packet; a missing or unknown `type` is rejected.
pub fn packet_from_json(j: &Json) -> (r: Result<Packet, ()>)
    ensures
        r matches Ok(p) ==> packet_json_rel(p, *j),
        r is Ok <==> exists|p: Packet| #[trigger] packet_json_rel(p, *j),
{
    let fields = match j {
        Json::Obj(f) => f,
        _ => {
            return Err(());
        },
    };
    let id = match obj_get(fields, "id") {
        Option::Some(Json::Str(s)) => Some(s.clone()),
        Option::Some(Json::Null) => None,
        _ => {
            return Err(());
        },
    };
    let ptype = match obj_get(fields, "type") {
        Option::Some(Json::Str(s)) => match PacketType::parse(s.as_str()) {
            Option::Some(t) => t,
            Option::None => {
                return Err(());
            },
        },
        _ => {
            return Err(());
        },
    };
    let data = match obj_get(fields, "data") {
        Option::Some(Json::Null) => None,
        Option::Some(d) => {
            let dd = d.clone();
            proof {
                assert(!(dd matches Json::Null));
            }
            Some(dd)
        },
        Option::None => {
            return Err(());
        },
    };
    let error = match obj_get(fields, "error") {
        Option::Some(Json::Str(s)) => Some(s.clone()),
        Option::Some(_) => {
            return Err(());
        },
        Option::None => None,
    };
    let throttled = match obj_get(fields, "throttled") {
        Option::Some(Json::Bool(b)) => *b,
        Option::Some(_) => {
            return Err(());
        },
        Option::None => false,
    };
    let throttled_reason = match obj_get(fields, "throttled_reason") {
        Option::Some(Json::Str(s)) => Some(s.clone()),
        Option::Some(_) => {
            return Err(());
        },
        Option::None => None,
    };
    let packet = Packet { id, ptype, data, error, throttled, throttled_reason };
    proof {
        assert(packet_json_rel(packet, *j));
    }
    Ok(packet)
}

/// Two packets encoded by the same JSON envelope hold the same values: the
/// envelope decodes the same way whatever the order of its fields, and a
/// packet that is serialized and parsed again comes back with the same
/// values.
pub proof fn lemma_packet_json_functional(j: Json, p1: Packet, p2: Packet)
    requires
        packet_json_rel(p1, j),
        packet_json_rel(p2, j),
    ensures
        opt_str_view_eq(p1.id, p2.id),
        p1.ptype == p2.ptype,
        match (p1.data, p2.data) {
            (Option::None, Option::None) => true,
            (Option::Some(a), Option::Some(b)) => json_equiv(a, b),
            (Option::None, Option::Some(b)) => b == Json::Null,
            (Option::Some(a), Option::None) => a == Json::Null,
        },
        opt_str_view_eq(p1.error, p2.error),
        p1.throttled == p2.throttled,
        opt_str_view_eq(p1.throttled_reason, p2.throttled_reason),
{
    match spec_obj_get(j->Obj_0@, "data"@) {
        Option::Some(v) => {
            if v != Json::Null {
                crate::json::lemma_json_equiv_symm(p2.data->Some_0, v);
                crate::json::lemma_json_equiv_joint(p1.data->Some_0, p2.data->Some_0, v);
            }
        },
        Option::None => {},
    }
}

/// Serialize a raw packet as one line of JSON text.
pub fn packet_to_string(p: &Packet) -> (r: String)
    ensures
        exists|j: Json|
            #[trigger] packet_json_rel(*p, j) && r@ == crate::json::spec_write_json(j),
{
    let j = packet_to_json(p);
    let r = crate::json::json_to_string(&j);
    proof {
        assert(packet_json_rel(*p, j) && r@ == crate::json::spec_write_json(j));
    }
    r
}

/// Parse a raw packet from one frame of JSON text.
pub fn packet_from_str(s: &str) -> (r: Result<Packet, ()>)
    ensures
        r matches Ok(p) ==> exists|j: Json| #[trigger] packet_json_rel(p, j),
{
    match crate::json::json_from_str(s) {
        Option::Some(j) => match packet_from_json(&j) {
            Ok(p) => {
                proof {
                    assert(packet_json_rel(p, j));
                }
                Ok(p)
            },
            Err(()) => Err(()),
        },
        Option::None => Err(()),
    }
}

impl ParsedPacket {
    /// Interpret a raw packet: an error string becomes failed content, a
    /// payload is decoded by its packet type, and a throttling advisory gets
    /// its reason.
    pub fn from_packet(packet: Packet) -> (r: Result<ParsedPacket, ()>)
        ensures
            packet.error is Some ==> r is Ok,
            packet.error is None ==> (r is Ok <==> exists|d: Data|
                #[trigger] data_json_rel(d, spec_packet_payload(packet)) && d.spec_packet_type()
                    == packet.ptype),
            r matches Ok(pp) ==> {
                &&& pp.id == packet.id
                &&& pp.ptype == packet.ptype
                &&& match packet.error {
                    Option::Some(e) => pp.content == Err::<Data, String>(e),
                    Option::None => (pp.content matches Ok(d)) && data_json_rel(
                        pp.content->Ok_0,
                        match packet.data {
                            Option::Some(jd) => jd,
                            Option::None => Json::Null,
                        },
                    ) && pp.content->Ok_0.spec_packet_type() == packet.ptype,
                }
                &&& match pp.throttled {
                    Option::Some(m) => packet.throttled && (match packet.throttled_reason {
                        Option::Some(x) => m == x,
                        Option::None => m@ == "no reason given"@,
                    }),
                    Option::None => !packet.throttled,
                }
            },
    {
        let throttled = if packet.throttled {
            match packet.throttled_reason {
                Option::Some(m) => Some(m),
                Option::None => Some("no reason given".to_owned()),
            }
        } else {
            None
        };
        let content = match packet.error {
            Option::Some(e) => Err(e),
            Option::None => {
                let jd = match packet.data {
                    Option::Some(jd) => jd,
                    Option::None => Json::Null,
                };
                match data_from_json(packet.ptype, &jd) {
                    Ok(d) => Ok(d),
                    Err(()) => {
                        return Err(());
                    },
                }
            },
        };
        Ok(ParsedPacket { id: packet.id, ptype: packet.ptype, content, throttled })
    }

    /// Convert an interpreted packet back into a raw packet.
    ///
    /// Fails only when the payload is of a kind the codec does not encode.
    pub fn into_packet(self) -> (r: Result<Packet, ()>)
        ensures
            r matches Ok(p) ==> {
                &&& p.id == self.id
                &&& p.ptype == self.ptype
                &&& match self.content {
                    Ok(d) => (p.data matches Some(jd)) && data_json_rel(d, p.data->Some_0)
                        && p.error is None,
                    Err(e) => p.data is None && p.error == Some(e),
                }
                &&& p.throttled == (self.throttled is Some)
                &&& p.throttled_reason == self.throttled
            },
            (self.content matches Ok(d) && spec_codec_encodes(d)) || self.content is Err ==> r
                is Ok,
    {
        let throttled = self.throttled.is_some();
        match self.content {
            Ok(d) => {
                match data_to_json(&d) {
                    Option::Some(jd) => Ok(
                        Packet {
                            id: self.id,
                            ptype: self.ptype,
                            data: Some(jd),
                            error: None,
                            throttled,
                            throttled_reason: self.throttled,
                        },
                    ),
                    Option::None => Err(()),
                }
            },
            Err(e) => Ok(
                Packet {
                    id: self.id,
                    ptype: self.ptype,
                    data: None,
                    error: Some(e),
                    throttled,
                    throttled_reason: self.throttled,
                },
            ),
        }
    }
}

} // verus!
