//! The command dispatcher: routing, propagation and the bundled commands.

use euphoxide::api::types::{MessageId, SessionId, SessionView, Snowflake, Time, UserId};
use euphoxide::client::state::{Joined, Listing, State};
use euphoxide::command::bang::{parse_prefix_initiated, General, Global, Specific};
use euphoxide::command::botrulez::{FullHelp, Ping, ShortHelp};
use euphoxide::command::{Action, BotCommand, Commands, Context, Info, Propagate};
use euphoxide::api::events::SendEvent;
use euphoxide::api::packets::{Data, ParsedPacket};

fn own_session(name: &str) -> SessionView {
    SessionView {
        id: UserId("bot:me".to_string()),
        name: name.to_string(),
        server_id: "s".to_string(),
        server_era: "e".to_string(),
        session_id: SessionId("s-own".to_string()),
        is_staff: false,
        is_manager: false,
        client_address: None,
        real_client_address: None,
    }
}

fn context(own_name: &str) -> Context {
    Context {
        joined: Joined {
            since: Time(50),
            session: own_session(own_name),
            account: None,
            listing: Listing::new(),
        },
        infos: Vec::new(),
        multi_start_time: Time(0),
        client_start_time: Time(10),
        now: Time(100),
    }
}

fn message(content: &str) -> euphoxide::api::types::Message {
    euphoxide::api::types::Message {
        id: MessageId(Snowflake(42)),
        parent: None,
        previous_edit_id: None,
        time: Time(60),
        sender: own_session("someone"),
        content: content.to_string(),
        encryption_key_id: None,
        edited: None,
        deleted: None,
        truncated: false,
    }
}

fn ping_named(name: &str) -> BotCommand {
    BotCommand::General(General::new(
        name.to_string(),
        Box::new(BotCommand::Ping(Ping::new("Pong!".to_string()))),
    ))
}

#[test]
fn dispatch_runs_in_order_until_the_first_halt() {
    let commands = Commands::new()
        .then(ping_named("first"))
        .then(ping_named("second"));
    let ctx = context("me");

    // the first command halts; its reply is the only action
    let (verdict, actions) = commands.handle_message(&message("!first"), &ctx);
    assert_eq!(verdict, Propagate::No);
    assert_eq!(actions.len(), 1);
    match &actions[0] {
        Action::Send { content, parent } => {
            assert_eq!(content, "Pong!");
            assert_eq!(*parent, Some(MessageId(Snowflake(42))));
        },
    }

    // the second command still reacts when the first propagates
    let (verdict, actions) = commands.handle_message(&message("!second"), &ctx);
    assert_eq!(verdict, Propagate::No);
    assert_eq!(actions.len(), 1);

    // nothing matches: every command propagates
    let (verdict, actions) = commands.handle_message(&message("hello"), &ctx);
    assert_eq!(verdict, Propagate::Yes);
    assert!(actions.is_empty());
}

#[test]
fn pyramid_style_general_command_halts_dispatch() {
    // a general bang wrapper reacts to its bare name and halts the walk
    let commands = Commands::new()
        .then(ping_named("pyramid"))
        .then(ping_named("other"));
    let ctx = context("me");
    let (verdict, actions) = commands.handle_message(&message("!pyramid"), &ctx);
    assert_eq!(verdict, Propagate::No);
    assert_eq!(actions.len(), 1);
    // a general command does not steal another bot's specific command
    let (verdict, _) = commands.handle_message(&message("!pyramid @otherbot"), &ctx);
    assert_eq!(verdict, Propagate::Yes);
}

#[test]
fn specific_commands_match_their_own_bot_by_normalized_mention() {
    let specific = BotCommand::Specific(Specific::new(
        "kill".to_string(),
        Box::new(BotCommand::Ping(Ping::new("dying".to_string()))),
    ));
    let commands = Commands::new().then(specific);
    let ctx = context("Mr Bot!");
    // the mention form of `Mr Bot!` is `MrBot`, and matching case folds
    let (verdict, _) = commands.handle_message(&message("!kill @mrbot"), &ctx);
    assert_eq!(verdict, Propagate::No);
    let (verdict, _) = commands.handle_message(&message("!kill @someoneelse"), &ctx);
    assert_eq!(verdict, Propagate::Yes);
}

#[test]
fn global_commands_match_even_with_a_mention() {
    let global = BotCommand::Global(Global::new(
        "ping".to_string(),
        Box::new(BotCommand::Ping(Ping::new("Pong!".to_string()))),
    ));
    let commands = Commands::new().then(global);
    let ctx = context("me");
    let (verdict, _) = commands.handle_message(&message("!ping @someone"), &ctx);
    // the argument `@someone` is not empty, so the ping propagates
    assert_eq!(verdict, Propagate::Yes);
    let (verdict, _) = commands.handle_message(&message("!ping"), &ctx);
    assert_eq!(verdict, Propagate::No);
}

#[test]
fn short_and_full_help_render_their_replies() {
    let short = BotCommand::ShortHelp(ShortHelp::new("a small bot".to_string()));
    let commands = Commands::new().then(BotCommand::General(General::new(
        "help".to_string(),
        Box::new(short),
    )));
    let mut ctx = context("me");
    ctx.infos = vec![
        Info::new().with_trigger("!help".to_string()).with_description("show help".to_string()),
        Info::new(),
    ];
    let (verdict, actions) = commands.handle_message(&message("!help"), &ctx);
    assert_eq!(verdict, Propagate::No);
    match &actions[0] {
        Action::Send { content, .. } => assert_eq!(content, "a small bot"),
    }

    let full = FullHelp::new().with_before("HEADER".to_string());
    let reply = full.formulate_reply(&ctx.infos);
    assert_eq!(reply, "HEADER\n!help - show help\n");
}

#[test]
fn prefix_parsing_feeds_the_wrappers() {
    assert_eq!(
        parse_prefix_initiated("!greet everyone", "!"),
        Some(("greet".to_string(), "everyone".to_string()))
    );
    assert_eq!(parse_prefix_initiated("plain text", "!"), None);
}

#[test]
fn dispatcher_only_runs_for_send_events_in_joined_state() {
    let commands = Commands::new().then(ping_named("ping"));
    let joining = State::new(Time(0));
    let packet = ParsedPacket::from_data(None, Data::SendEvent(SendEvent(message("!ping"))));
    // not joined: the dispatcher short-circuits without running commands
    let (verdict, actions) =
        commands.handle_packet(&packet, &joining, Vec::new(), Time(0), Time(0), Time(1));
    assert_eq!(verdict, Propagate::Yes);
    assert!(actions.is_empty());

    // joined: the walk happens
    let joined = State::Joined(Joined {
        since: Time(5),
        session: own_session("me"),
        account: None,
        listing: Listing::new(),
    });
    let (verdict, actions) =
        commands.handle_packet(&packet, &joined, Vec::new(), Time(0), Time(0), Time(1));
    assert_eq!(verdict, Propagate::No);
    assert_eq!(actions.len(), 1);
}
