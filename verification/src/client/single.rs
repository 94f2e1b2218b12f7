//! The client supervisor: it keeps one connection logically alive for one
//! room, drives the handshake, hides transient failures behind reconnection,
//! and publishes lifecycle events.
//!
//! The supervisor is a state machine: the task that owns the socket feeds it
//! what happened and performs what it decides. Every emitted event sequence
//! follows the lifecycle grammar: one start, bracketed connect attempts, one
//! stop at the very end.

use vstd::prelude::*;
use crate::api::packets::{Data, ParsedPacket};
use crate::api::session_cmds::Auth;
use crate::api::room_cmds::Nick;
use crate::api::types::{AuthOption, Time};
use crate::client::conn::ClientConnConfig;
use crate::client::state::State;
use crate::error::Error;
use crate::text::clone_opt_string;

verus! {

/// Configuration of the server a client connects to, and of the supervision
/// around its connections.
#[derive(Debug)]
pub struct ServerConfig {
    /// The connection configuration.
    pub client: ClientConnConfig,
    /// How many consecutive connect attempts may fail to reach a snapshot
    /// before the supervisor gives up.
    pub join_attempts: u32,
    /// How long to sleep before reconnecting after a failed connect, in
    /// milliseconds.
    pub reconnect_delay: u64,
    /// The capacity of the channel between a client and its handles.
    pub cmd_channel_bufsize: usize,
}

impl Clone for ServerConfig {
    fn clone(&self) -> (r: Self)
        ensures
            r.client.domain@ == self.client.domain@,
            r.client.human == self.client.human,
            r.client.channel_bufsize == self.client.channel_bufsize,
            r.client.connect_timeout == self.client.connect_timeout,
            r.client.command_timeout == self.client.command_timeout,
            r.client.ping_interval == self.client.ping_interval,
            r.join_attempts == self.join_attempts,
            r.reconnect_delay == self.reconnect_delay,
            r.cmd_channel_bufsize == self.cmd_channel_bufsize,
    {
        ServerConfig {
            client: self.client.clone(),
            join_attempts: self.join_attempts,
            reconnect_delay: self.reconnect_delay,
            cmd_channel_bufsize: self.cmd_channel_bufsize,
        }
    }
}

impl Default for ServerConfig {
    /// Five join attempts and a thirty-second reconnect delay.
    fn default() -> (r: ServerConfig)
        ensures
            r.join_attempts == 5,
            r.reconnect_delay == 30_000,
            r.cmd_channel_bufsize == 1,
    {
        ServerConfig {
            client: ClientConnConfig::default(),
            join_attempts: 5,
            reconnect_delay: 30_000,
            cmd_channel_bufsize: 1,
        }
    }
}

/// Configuration of one client: the server, the room, and the identity to
/// assume in it.
#[derive(Debug)]
pub struct ClientConfig {
    /// The server to connect to.
    pub server: ServerConfig,
    /// The room to join.
    pub room: String,
    /// Whether to present as a human instead of a bot.
    pub human: bool,
    /// The desired nick, if any.
    pub username: Option<String>,
    /// Whether to overwrite a pre-set nick.
    pub force_username: bool,
    /// The passcode for private rooms, if any.
    pub password: Option<String>,
}

impl Clone for ClientConfig {
    fn clone(&self) -> (r: Self)
        ensures
            r.room@ == self.room@,
            r.human == self.human,
            r.username == self.username,
            r.force_username == self.force_username,
            r.password == self.password,
            r.server.join_attempts == self.server.join_attempts,
            r.server.reconnect_delay == self.server.reconnect_delay,
    {
        ClientConfig {
            server: self.server.clone(),
            room: self.room.clone(),
            human: self.human,
            username: clone_opt_string(&self.username),
            force_username: self.force_username,
            password: clone_opt_string(&self.password),
        }
    }
}

impl ClientConfig {
    /// A configuration for one room with no identity set.
    pub fn new(server: ServerConfig, room: String) -> (r: ClientConfig)
        ensures
            r.room == room,
            !r.human,
            r.username is None,
            !r.force_username,
            r.password is None,
            r.server.join_attempts == server.join_attempts,
            r.server.reconnect_delay == server.reconnect_delay,
    {
        ClientConfig {
            server,
            room,
            human: false,
            username: None,
            force_username: false,
            password: None,
        }
    }
}

/// Fluent construction of a client configuration from server defaults.
#[derive(Debug)]
pub struct ClientBuilder {
    /// The configuration built so far.
    pub config: ClientConfig,
}

impl ClientBuilder {
    /// Start from server defaults and a room name.
    pub fn new(server: ServerConfig, room: String) -> (r: ClientBuilder)
        ensures
            r.config.room == room,
            !r.config.human,
            r.config.username is None,
            !r.config.force_username,
            r.config.password is None,
    {
        ClientBuilder { config: ClientConfig::new(server, room) }
    }

    /// Present as a human instead of a bot.
    pub fn with_human(self, human: bool) -> (r: ClientBuilder)
        ensures
            r.config.human == human,
            r.config.room == self.config.room,
            r.config.username == self.config.username,
            r.config.force_username == self.config.force_username,
            r.config.password == self.config.password,
            r.config.server == self.config.server,
    {
        let mut this = self;
        this.config.human = human;
        this
    }

    /// Ask for this nick after each snapshot.
    pub fn with_username(self, username: String) -> (r: ClientBuilder)
        ensures
            r.config.username == Some(username),
            r.config.room == self.config.room,
            r.config.human == self.config.human,
            r.config.force_username == self.config.force_username,
            r.config.password == self.config.password,
            r.config.server == self.config.server,
    {
        let mut this = self;
        this.config.username = Some(username);
        this
    }

    /// Overwrite a pre-set nick.
    pub fn with_force_username(self, force: bool) -> (r: ClientBuilder)
        ensures
            r.config.force_username == force,
            r.config.room == self.config.room,
            r.config.human == self.config.human,
            r.config.username == self.config.username,
            r.config.password == self.config.password,
            r.config.server == self.config.server,
    {
        let mut this = self;
        this.config.force_username = force;
        this
    }

    /// Use this passcode when the room asks for authentication.
    pub fn with_password(self, password: String) -> (r: ClientBuilder)
        ensures
            r.config.password == Some(password),
            r.config.room == self.config.room,
            r.config.human == self.config.human,
            r.config.username == self.config.username,
            r.config.force_username == self.config.force_username,
            r.config.server == self.config.server,
    {
        let mut this = self;
        this.config.password = Some(password);
        this
    }

    /// The finished configuration.
    pub fn build(self) -> (r: ClientConfig)
        ensures
            r == self.config,
    {
        self.config
    }
}

/// A lifecycle event published by a client.
#[derive(Debug)]
pub enum ClientEvent {
    /// The client task has started; fires exactly once.
    Started { id: usize },
    /// A connect attempt begins.
    Connecting { id: usize },
    /// The socket is open; no packet has been routed yet.
    Connected { id: usize, state: State },
    /// The connection state reached the joined phase, once per connection.
    Joined { id: usize, state: State },
    /// A packet was observed, with the state after applying it.
    Packet { id: usize, state: State, packet: ParsedPacket },
    /// The connect attempt is over, whatever the outcome.
    Disconnected { id: usize },
    /// The client task is over; fires exactly once, last.
    Stopped { id: usize },
}

impl ClientEvent {
    /// The id of the client that published this event.
    pub fn id(&self) -> (r: usize)
        ensures
            r == self.spec_id(),
    {
        match self {
            ClientEvent::Started { id } => *id,
            ClientEvent::Connecting { id } => *id,
            ClientEvent::Connected { id, .. } => *id,
            ClientEvent::Joined { id, .. } => *id,
            ClientEvent::Packet { id, .. } => *id,
            ClientEvent::Disconnected { id } => *id,
            ClientEvent::Stopped { id } => *id,
        }
    }

    /// The id of the client that published this event.
    pub open spec fn spec_id(&self) -> usize {
        match self {
            ClientEvent::Started { id } => *id,
            ClientEvent::Connecting { id } => *id,
            ClientEvent::Connected { id, .. } => *id,
            ClientEvent::Joined { id, .. } => *id,
            ClientEvent::Packet { id, .. } => *id,
            ClientEvent::Disconnected { id } => *id,
            ClientEvent::Stopped { id } => *id,
        }
    }
}

/// Why a client task ends or retries.
#[derive(Debug)]
pub enum SupervisorError {
    /// A stop was requested through a handle.
    Stopped,
    /// Every external handle was dropped.
    NoReferences,
    /// The room wants authentication and no password is configured.
    AuthRequired,
    /// The configured password was rejected.
    InvalidPassword,
    /// Too many consecutive connect attempts failed to reach a snapshot.
    OutOfJoinAttempts,
    /// A connection-level error.
    Connection(Error),
}

impl SupervisorError {
    /// Whether the supervisor terminates instead of reconnecting.
    ///
    /// Stop requests, dropped handles, failed authentication, an exhausted
    /// join budget, and a missing room (HTTP 404 on the upgrade) are fatal;
    /// everything else retries.
    pub fn is_fatal(&self) -> (r: bool)
        ensures
            r == self.spec_is_fatal(),
    {
        match self {
            SupervisorError::Stopped => true,
            SupervisorError::NoReferences => true,
            SupervisorError::AuthRequired => true,
            SupervisorError::InvalidPassword => true,
            SupervisorError::OutOfJoinAttempts => true,
            SupervisorError::Connection(Error::Transport(t)) => match t.http_status {
                Option::Some(code) => code == 404,
                Option::None => false,
            },
            SupervisorError::Connection(_) => false,
        }
    }

    /// Whether the supervisor terminates instead of reconnecting.
    pub open spec fn spec_is_fatal(&self) -> bool {
        match self {
            SupervisorError::Stopped => true,
            SupervisorError::NoReferences => true,
            SupervisorError::AuthRequired => true,
            SupervisorError::InvalidPassword => true,
            SupervisorError::OutOfJoinAttempts => true,
            SupervisorError::Connection(e) => match e {
                Error::Transport(t) => t.http_status == Some(404u16),
                _ => false,
            },
        }
    }
}

/// The grammar states of the lifecycle event stream.
#[derive(Debug, Clone, Copy, PartialEq, Eq, Structural)]
pub enum Phase {
    /// Nothing has been emitted.
    Fresh,
    /// Between attempts: a start or a disconnect was the last event.
    Idle,
    /// A connect attempt is underway.
    Connecting,
    /// The socket is open; the room is not joined yet.
    Connected,
    /// The room is joined.
    Joined,
    /// The final stop was emitted.
    Done,
}

/// One step of the lifecycle grammar.
pub open spec fn grammar_step(ph: Phase, ev: ClientEvent) -> Option<Phase> {
    match (ph, ev) {
        (Phase::Fresh, ClientEvent::Started { .. }) => Some(Phase::Idle),
        (Phase::Idle, ClientEvent::Connecting { .. }) => Some(Phase::Connecting),
        (Phase::Idle, ClientEvent::Stopped { .. }) => Some(Phase::Done),
        (Phase::Connecting, ClientEvent::Connected { .. }) => Some(Phase::Connected),
        (Phase::Connecting, ClientEvent::Disconnected { .. }) => Some(Phase::Idle),
        (Phase::Connected, ClientEvent::Packet { .. }) => Some(Phase::Connected),
        (Phase::Connected, ClientEvent::Joined { .. }) => Some(Phase::Joined),
        (Phase::Connected, ClientEvent::Disconnected { .. }) => Some(Phase::Idle),
        (Phase::Joined, ClientEvent::Packet { .. }) => Some(Phase::Joined),
        (Phase::Joined, ClientEvent::Disconnected { .. }) => Some(Phase::Idle),
        _ => None,
    }
}

/// The grammar state after a whole event sequence, if the sequence follows
/// the grammar.
pub open spec fn phase_of(evs: Seq<ClientEvent>) -> Option<Phase>
    decreases evs.len(),
{
    if evs.len() == 0 {
        Some(Phase::Fresh)
    } else {
        match phase_of(evs.drop_last()) {
            Option::Some(ph) => grammar_step(ph, evs.last()),
            Option::None => None,
        }
    }
}

/// In a sequence that follows the grammar, a stop event only ever stands at
/// the very end, so it appears at most once and nothing follows it.
pub proof fn lemma_stopped_is_last(evs: Seq<ClientEvent>)
    requires
        phase_of(evs) is Some,
    ensures
        forall|i: int|
            0 <= i < evs.len() && ((#[trigger] evs[i]) matches ClientEvent::Stopped { .. }) ==> i
                == evs.len() - 1,
    decreases evs.len(),
{
    if evs.len() > 0 {
        lemma_stopped_is_last(evs.drop_last());
        assert forall|i: int|
            0 <= i < evs.len() && ((#[trigger] evs[i]) matches ClientEvent::Stopped {
                ..
            }) implies i == evs.len() - 1 by {
            if i < evs.len() - 1 {
                assert(evs.drop_last()[i] == evs[i]);
                assert(i == evs.drop_last().len() - 1);
                assert(phase_of(evs.drop_last()) == Some(Phase::Done));
                assert(grammar_step(Phase::Done, evs.last()) is None);
            }
        }
    }
}

/// Whether a bounce event offers passcode authentication.
pub open spec fn spec_has_passcode(b: crate::api::events::BounceEvent) -> bool {
    b.auth_options is Some && exists|i: int|
        0 <= i < b.auth_options->Some_0@.len() && (#[trigger] b.auth_options->Some_0@[i])
            == AuthOption::Passcode
}

/// How many events of a sequence begin a connect attempt.
pub open spec fn count_connecting(evs: Seq<ClientEvent>) -> nat
    decreases evs.len(),
{
    if evs.len() == 0 {
        0
    } else {
        count_connecting(evs.drop_last()) + (if evs.last() matches ClientEvent::Connecting {
            ..
        } {
            1nat
        } else {
            0nat
        })
    }
}

/// How many events of a sequence end a connect attempt.
pub open spec fn count_disconnected(evs: Seq<ClientEvent>) -> nat
    decreases evs.len(),
{
    if evs.len() == 0 {
        0
    } else {
        count_disconnected(evs.drop_last()) + (if evs.last() matches ClientEvent::Disconnected {
            ..
        } {
            1nat
        } else {
            0nat
        })
    }
}

/// Whether an attempt is underway in this grammar state.
pub open spec fn in_attempt(ph: Phase) -> nat {
    match ph {
        Phase::Connecting | Phase::Connected | Phase::Joined => 1,
        _ => 0,
    }
}

/// Connect attempts are bracketed: in a sequence that follows the grammar,
/// the disconnect events match the connecting events one for one, except for
/// the attempt that is still underway.
pub proof fn lemma_attempts_bracketed(evs: Seq<ClientEvent>)
    requires
        phase_of(evs) is Some,
    ensures
        count_connecting(evs) == count_disconnected(evs) + in_attempt(phase_of(evs)->Some_0),
    decreases evs.len(),
{
    if evs.len() > 0 {
        lemma_attempts_bracketed(evs.drop_last());
    }
}

/// What the supervisor asks its task to do after an attempt ends.
#[derive(Debug, Clone, Copy, PartialEq, Eq, Structural)]
pub enum RunDecision {
    /// Begin the next attempt after sleeping this many milliseconds.
    Retry { delay_ms: u64 },
    /// Terminate: emit the final stop and end the task.
    Terminate,
}

/// The supervisor of one client: it decides, and the task that owns the
/// socket performs.
pub struct Supervisor {
    /// The id events are tagged with.
    pub id: usize,
    /// The client's configuration.
    pub config: ClientConfig,
    /// Consecutive connect attempts that did not reach a snapshot.
    pub attempts: u32,
    /// Whether the current attempt reached a snapshot.
    pub reached_snapshot: bool,
    /// Whether the joined event was emitted for the current connection.
    pub joined_emitted: bool,
    /// The grammar state of everything emitted so far.
    pub phase: Phase,
    /// Everything emitted so far.
    pub emitted: Ghost<Seq<ClientEvent>>,
}

impl Supervisor {
    /// The emitted events follow the lifecycle grammar, and the tracked
    /// phase is their grammar state.
    pub open spec fn inv(&self) -> bool {
        phase_of(self.emitted@) == Some(self.phase)
    }

    /// A fresh supervisor; the start event it returns must be published
    /// first.
    pub fn new(id: usize, config: ClientConfig) -> (r: (Supervisor, ClientEvent))
        ensures
            r.0.inv(),
            r.0.phase == Phase::Idle,
            r.0.id == id,
            r.0.config == config,
            r.0.attempts == 0,
            !r.0.joined_emitted,
            r.1 matches ClientEvent::Started { id: i } && i == id,
            r.0.emitted@ =~= seq![r.1],
    {
        let ev = ClientEvent::Started { id };
        let ghost emitted = seq![ev];
        proof {
            assert(emitted.drop_last() =~= Seq::<ClientEvent>::empty());
            assert(phase_of(emitted.drop_last()) == Some(Phase::Fresh));
            assert(emitted.last() == ev);
            assert(grammar_step(Phase::Fresh, ev) == Some(Phase::Idle));
            assert(phase_of(emitted) == Some(Phase::Idle));
        }
        (
            Supervisor {
                id,
                config,
                attempts: 0,
                reached_snapshot: false,
                joined_emitted: false,
                phase: Phase::Idle,
                emitted: Ghost(emitted),
            },
            ev,
        )
    }

    /// Begin a connect attempt: the attempt counter grows, and either the
    /// budget is exhausted and the supervisor terminates, or a connecting
    /// event is emitted.
    pub fn start_attempt(&mut self) -> (r: Result<ClientEvent, SupervisorError>)
        requires
            old(self).inv(),
            old(self).phase == Phase::Idle,
        ensures
            final(self).inv(),
            final(self).id == old(self).id,
            final(self).attempts == old(self).attempts.checked_add(1).unwrap_or(u32::MAX),
            r is Err <==> old(self).attempts.checked_add(1).unwrap_or(u32::MAX) > old(
                self,
            ).config.server.join_attempts,
            r matches Err(e) ==> e matches SupervisorError::OutOfJoinAttempts && final(self).phase
                == Phase::Idle && final(self).emitted@ == old(self).emitted@,
            r matches Ok(ev) ==> (ev matches ClientEvent::Connecting { id } && id == old(self).id)
                && final(self).phase == Phase::Connecting && final(self).emitted@ =~= old(
                self,
            ).emitted@.push(ev),
    {
        self.attempts = match self.attempts.checked_add(1) {
            Option::Some(v) => v,
            Option::None => u32::MAX,
        };
        if self.attempts > self.config.server.join_attempts {
            return Err(SupervisorError::OutOfJoinAttempts);
        }
        let ev = ClientEvent::Connecting { id: self.id };
        proof {
            assert(self.emitted@.push(ev).drop_last() =~= self.emitted@);
        }
        self.emitted = Ghost(self.emitted@.push(ev));
        self.phase = Phase::Connecting;
        self.joined_emitted = false;
        self.reached_snapshot = false;
        Ok(ev)
    }

    /// The socket opened: a connected event carrying the fresh state is
    /// emitted.
    pub fn on_connected(&mut self, state: State) -> (ev: ClientEvent)
        requires
            old(self).inv(),
            old(self).phase == Phase::Connecting,
        ensures
            final(self).inv(),
            final(self).id == old(self).id,
            final(self).phase == Phase::Connected,
            ev matches ClientEvent::Connected { id, .. } && id == old(self).id,
            final(self).emitted@ =~= old(self).emitted@.push(ev),
    {
        let ev = ClientEvent::Connected { id: self.id, state };
        proof {
            assert(self.emitted@.push(ev).drop_last() =~= self.emitted@);
        }
        self.emitted = Ghost(self.emitted@.push(ev));
        self.phase = Phase::Connected;
        ev
    }

    /// A packet was observed: a packet event is emitted, the handshake
    /// reacts, and the joined event follows the first transition into the
    /// joined phase.
    ///
    /// The handshake sends the configured passcode when bounced, gives up
    /// when bounced without one, gives up when authentication fails, and
    /// requests the configured nick at the snapshot (where the attempt
    /// counter resets) unless a nick is already set and not forced.
    pub fn on_packet(&mut self, packet: ParsedPacket, state: &State) -> (r: (
        Vec<ClientEvent>,
        Result<Vec<Data>, SupervisorError>,
    ))
        requires
            old(self).inv(),
            old(self).phase == Phase::Connected || old(self).phase == Phase::Joined,
        ensures
            final(self).inv(),
            final(self).id == old(self).id,
            final(self).phase == Phase::Connected || final(self).phase == Phase::Joined,
            final(self).emitted@ =~= old(self).emitted@ + r.0@,
            r.0@.len() >= 1,
            (match r.0@[0] {
                ClientEvent::Packet { id, state: s, packet: p } => id == old(self).id
                    && crate::client::state::state_equiv(s, *state) && p == packet,
                _ => false,
            }),
            ({
                let joins = *state is Joined && old(self).phase == Phase::Connected && !old(
                    self,
                ).joined_emitted;
                if joins {
                    &&& r.0@.len() == 2
                    &&& (match r.0@[1] {
                        ClientEvent::Joined { id, state: s } => id == old(self).id
                            && crate::client::state::state_equiv(s, *state),
                        _ => false,
                    })
                    &&& final(self).phase == Phase::Joined
                    &&& final(self).joined_emitted
                } else {
                    &&& r.0@.len() == 1
                    &&& final(self).phase == old(self).phase
                    &&& final(self).joined_emitted == old(self).joined_emitted
                }
            }),
            match packet.content {
                Ok(d) => match d {
                    Data::BounceEvent(b) => {
                        &&& (old(self).config.password is None && spec_has_passcode(b)) ==> (r.1
                            is Err && r.1->Err_0 is AuthRequired)
                        &&& (old(self).config.password is Some && spec_has_passcode(b)) ==> {
                            &&& r.1 is Ok
                            &&& r.1->Ok_0@.len() == 1
                            &&& r.1->Ok_0@[0] is Auth
                            &&& r.1->Ok_0@[0]->Auth_0.auth_type == AuthOption::Passcode
                            &&& r.1->Ok_0@[0]->Auth_0.passcode is Some
                            &&& r.1->Ok_0@[0]->Auth_0.passcode->Some_0@ == old(
                                self,
                            ).config.password->Some_0@
                        }
                        &&& !spec_has_passcode(b) ==> (r.1 is Ok && r.1->Ok_0@.len() == 0)
                    },
                    Data::AuthReply(a) => if !a.success {
                        r.1 is Err && r.1->Err_0 is InvalidPassword
                    } else {
                        r.1 is Ok && r.1->Ok_0@.len() == 0
                    },
                    Data::SnapshotEvent(sn) => {
                        &&& final(self).attempts == 0
                        &&& final(self).reached_snapshot
                        &&& r.1 is Ok
                        &&& (old(self).config.username is Some && (sn.nick is None || old(
                            self,
                        ).config.force_username)) ==> {
                            &&& r.1->Ok_0@.len() == 1
                            &&& r.1->Ok_0@[0] is Nick
                            &&& r.1->Ok_0@[0]->Nick_0.name@ == old(
                                self,
                            ).config.username->Some_0@
                        }
                        &&& (old(self).config.username is None || (sn.nick is Some && !old(
                            self,
                        ).config.force_username)) ==> r.1->Ok_0@.len() == 0
                    },
                    _ => r.1 is Ok && r.1->Ok_0@.len() == 0,
                },
                Err(_) => true,
            },
    {
        let packet_ev = ClientEvent::Packet {
            id: self.id,
            state: state.clone(),
            packet,
        };
        proof {
            assert(self.emitted@.push(packet_ev).drop_last() =~= self.emitted@);
            assert(grammar_step(self.phase, packet_ev) == Some(self.phase));
            assert(phase_of(self.emitted@.push(packet_ev)) == Some(self.phase));
        }
        self.emitted = Ghost(self.emitted@.push(packet_ev));
        let mut events: Vec<ClientEvent> = Vec::new();
        events.push(packet_ev);

        let packet_ev2 = &events[0];
        let mut cmds: Vec<Data> = Vec::new();
        let outcome: Result<Vec<Data>, SupervisorError> = match packet_ev2 {
            ClientEvent::Packet { packet: p, .. } => {
                match &p.content {
                    Ok(Data::BounceEvent(b)) => {
                        let has_passcode_option = match &b.auth_options {
                            Option::Some(opts) => {
                                let mut found = false;
                                let mut i: usize = 0;
                                while i < opts.len()
                                    invariant
                                        i <= opts@.len(),
                                        found == exists|k: int|
                                            0 <= k < i && opts@[k] == AuthOption::Passcode,
                                    decreases opts@.len() - i,
                                {
                                    match opts[i] {
                                        AuthOption::Passcode => {
                                            found = true;
                                        },
                                    }
                                    i += 1;
                                }
                                found
                            },
                            Option::None => false,
                        };
                        if has_passcode_option {
                            match &self.config.password {
                                Option::Some(pw) => {
                                    cmds.push(
                                        Data::Auth(
                                            Auth {
                                                auth_type: AuthOption::Passcode,
                                                passcode: Some(pw.clone()),
                                            },
                                        ),
                                    );
                                    Ok(cmds)
                                },
                                Option::None => Err(SupervisorError::AuthRequired),
                            }
                        } else {
                            Ok(cmds)
                        }
                    },
                    Ok(Data::AuthReply(a)) => {
                        if !a.success {
                            Err(SupervisorError::InvalidPassword)
                        } else {
                            Ok(cmds)
                        }
                    },
                    Ok(Data::SnapshotEvent(sn)) => {
                        self.attempts = 0;
                        self.reached_snapshot = true;
                        match &self.config.username {
                            Option::Some(name) => {
                                let want_nick = sn.nick.is_none() || self.config.force_username;
                                if want_nick {
                                    cmds.push(Data::Nick(Nick { name: name.clone() }));
                                }
                                Ok(cmds)
                            },
                            Option::None => Ok(cmds),
                        }
                    },
                    _ => Ok(cmds),
                }
            },
            _ => Ok(cmds),
        };

        if !self.joined_emitted {
            match state.as_joined() {
                Option::Some(_) => {
                    if self.phase == Phase::Connected {
                        let joined_ev = ClientEvent::Joined { id: self.id, state: state.clone() };
                        proof {
                            assert(self.emitted@.push(joined_ev).drop_last() =~= self.emitted@);
                            assert(grammar_step(self.phase, joined_ev) == Some(Phase::Joined));
                            assert(phase_of(self.emitted@.push(joined_ev)) == Some(Phase::Joined));
                        }
                        self.emitted = Ghost(self.emitted@.push(joined_ev));
                        self.phase = Phase::Joined;
                        self.joined_emitted = true;
                        events.push(joined_ev);
                    }
                },
                Option::None => {},
            }
        }
        proof {
            assert(final(self).emitted@ =~= old(self).emitted@ + events@);
        }
        (events, outcome)
    }

    /// The attempt is over: a disconnected event is emitted and the
    /// supervisor decides between terminating and retrying.
    ///
    /// A fatal outcome terminates. Otherwise an attempt that never reached a
    /// snapshot waits out the reconnect delay, while a failure after a
    /// snapshot retries immediately.
    pub fn on_disconnected(&mut self, outcome: &Result<(), SupervisorError>) -> (r: (
        ClientEvent,
        RunDecision,
    ))
        requires
            old(self).inv(),
            old(self).phase == Phase::Connecting || old(self).phase == Phase::Connected || old(
                self,
            ).phase == Phase::Joined,
        ensures
            final(self).inv(),
            final(self).id == old(self).id,
            final(self).phase == Phase::Idle,
            r.0 matches ClientEvent::Disconnected { id } && id == old(self).id,
            final(self).emitted@ =~= old(self).emitted@.push(r.0),
            match outcome {
                Ok(()) => r.1 == (RunDecision::Retry { delay_ms: 0u64 }),
                Err(e) => if e.spec_is_fatal() {
                    r.1 == RunDecision::Terminate
                } else if !old(self).reached_snapshot {
                    r.1 == (RunDecision::Retry {
                        delay_ms: old(self).config.server.reconnect_delay,
                    })
                } else {
                    r.1 == (RunDecision::Retry { delay_ms: 0u64 })
                },
            },
    {
        let ev = ClientEvent::Disconnected { id: self.id };
        proof {
            assert(self.emitted@.push(ev).drop_last() =~= self.emitted@);
        }
        let no_snapshot = !self.reached_snapshot;
        self.emitted = Ghost(self.emitted@.push(ev));
        self.phase = Phase::Idle;
        let decision = match outcome {
            Ok(()) => RunDecision::Retry { delay_ms: 0u64 },
            Err(e) => {
                if e.is_fatal() {
                    RunDecision::Terminate
                } else if no_snapshot {
                    RunDecision::Retry { delay_ms: self.config.server.reconnect_delay }
                } else {
                    RunDecision::Retry { delay_ms: 0u64 }
                }
            },
        };
        (ev, decision)
    }

    /// The task ends: the final stop event is emitted; nothing may follow
    /// it.
    pub fn terminate(&mut self) -> (ev: ClientEvent)
        requires
            old(self).inv(),
            old(self).phase == Phase::Idle,
        ensures
            final(self).inv(),
            final(self).phase == Phase::Done,
            ev matches ClientEvent::Stopped { id } && id == old(self).id,
            final(self).emitted@ =~= old(self).emitted@.push(ev),
    {
        let ev = ClientEvent::Stopped { id: self.id };
        proof {
            assert(self.emitted@.push(ev).drop_last() =~= self.emitted@);
        }
        self.emitted = Ghost(self.emitted@.push(ev));
        self.phase = Phase::Done;
        ev
    }
}

} // verus!
