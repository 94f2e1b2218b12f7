//! The command dispatcher: routing of `!name` and `!name @nick` chat
//! commands through an ordered pipeline.

pub mod args;
pub mod bang;
pub mod basic;
pub mod botrulez;

use vstd::prelude::*;
use crate::api::types::{Message, MessageId, Time};
use crate::api::packets::Data;
use crate::client::state::{Joined, State};
use crate::text::{clone_opt_string, is_space, is_space_char};

verus! {

/// Whether a message should propagate to subsequent commands.
#[derive(Debug, Clone, Copy, PartialEq, Eq, Structural)]
pub enum Propagate {
    No,
    Yes,
}

impl Propagate {
    /// Whether this verdict halts the walk through the pipeline.
    pub fn halts(&self) -> (r: bool)
        ensures
            r == (*self is No),
    {
        match self {
            Propagate::No => true,
            Propagate::Yes => false,
        }
    }
}

/// A command's introspection data: an optional canonical trigger string and
/// an optional description.
#[derive(Debug, PartialEq)]
pub struct Info {
    /// The canonical way to trigger the command, if it should be listed.
    pub trigger: Option<String>,
    /// What the command does, if it should be listed.
    pub description: Option<String>,
}

impl Clone for Info {
    fn clone(&self) -> (r: Self)
        ensures
            r == *self,
    {
        Info {
            trigger: clone_opt_string(&self.trigger),
            description: clone_opt_string(&self.description),
        }
    }
}

impl Info {
    /// An empty info: no trigger, no description.
    pub fn new() -> (r: Info)
        ensures
            r.trigger is None,
            r.description is None,
    {
        Info { trigger: None, description: None }
    }

    /// Set the trigger.
    pub fn with_trigger(self, trigger: String) -> (r: Info)
        ensures
            r.trigger == Some(trigger),
            r.description == self.description,
    {
        Info { trigger: Some(trigger), ..self }
    }

    /// Set the description.
    pub fn with_description(self, description: String) -> (r: Info)
        ensures
            r.description == Some(description),
            r.trigger == self.trigger,
    {
        Info { description: Some(description), ..self }
    }

    /// The trigger after prepending `trigger`, separated from the current
    /// trigger by one space if one is present and not empty.
    pub open spec fn spec_prepended(self, trigger: Seq<char>) -> Seq<char> {
        match self.trigger {
            Option::Some(cur) => if cur@.len() == 0 {
                trigger
            } else {
                trigger + seq![' '] + cur@
            },
            Option::None => trigger,
        }
    }

    /// Prepend a trigger word before the current trigger.
    pub fn prepend_trigger(&mut self, trigger: &str)
        ensures
            match final(self).trigger {
                Option::Some(t) => t@ == old(self).spec_prepended(trigger@),
                Option::None => false,
            },
            final(self).description == old(self).description,
    {
        let mut out = crate::text::str_chars(trigger);
        match &self.trigger {
            Option::Some(cur) => {
                let cur_chars = crate::text::str_chars(cur.as_str());
                if cur_chars.len() > 0 {
                    out.push(' ');
                    let mut i: usize = 0;
                    while i < cur_chars.len()
                        invariant
                            i <= cur_chars@.len(),
                            out@ == trigger@ + seq![' '] + cur_chars@.subrange(0, i as int),
                        decreases cur_chars@.len() - i,
                    {
                        out.push(cur_chars[i]);
                        proof {
                            assert(out@ =~= trigger@ + seq![' '] + cur_chars@.subrange(0, i + 1));
                        }
                        i += 1;
                    }
                    proof {
                        assert(cur_chars@.subrange(0, cur_chars@.len() as int) =~= cur_chars@);
                    }
                }
            },
            Option::None => {},
        }
        self.trigger = Some(crate::text::chars_to_string(&out));
    }

    /// Prepend a trigger word, by value.
    pub fn with_prepended_trigger(self, trigger: &str) -> (r: Info)
        ensures
            match r.trigger {
                Option::Some(t) => t@ == self.spec_prepended(trigger@),
                Option::None => false,
            },
            r.description == self.description,
    {
        let mut info = self;
        info.prepend_trigger(trigger);
        info
    }
}

/// What a command asks its surroundings to do: the messages it sends.
///
/// Commands decide; the task that owns the connection performs.
#[derive(Debug, PartialEq)]
pub enum Action {
    /// Send a message to the room, optionally as a reply to another message.
    Send {
        /// The content of the message.
        content: String,
        /// The message to reply to, if any.
        parent: Option<MessageId>,
    },
}

impl Clone for Action {
    fn clone(&self) -> (r: Self)
        ensures
            r == *self,
    {
        match self {
            Action::Send { content, parent } => Action::Send {
                content: content.clone(),
                parent: *parent,
            },
        }
    }
}

/// What a command sees when it runs: the joined room state, the sibling
/// commands' infos, and the clocks it may report.
#[derive(Debug)]
pub struct Context {
    /// The joined room state of the connection the message arrived on.
    pub joined: Joined,
    /// The infos of every command in the pipeline, in order.
    pub infos: Vec<Info>,
    /// When the aggregator started.
    pub multi_start_time: Time,
    /// When the client started.
    pub client_start_time: Time,
    /// The current time.
    pub now: Time,
}


/// The commands bundled with the library, closed under the wrappers.
///
/// The dispatcher walks a list of these; each decides whether the message
/// propagates to the next command.
#[derive(Debug)]
pub enum BotCommand {
    /// Reply with a fixed string on an empty argument.
    Ping(crate::command::botrulez::Ping),
    /// Reply with a short help string on an empty argument.
    ShortHelp(crate::command::botrulez::ShortHelp),
    /// Reply with the rendered command listing on an empty argument.
    FullHelp(crate::command::botrulez::FullHelp),
    /// Reply with the uptime on an empty argument.
    Uptime(crate::command::botrulez::Uptime),
    /// Run the inner command on `!name`.
    Global(crate::command::bang::Global<Box<BotCommand>>),
    /// Run the inner command on `!name` not followed by a mention.
    General(crate::command::bang::General<Box<BotCommand>>),
    /// Run the inner command on `!name @nick` naming this bot.
    Specific(crate::command::bang::Specific<Box<BotCommand>>),
    /// Run the inner command on text behind a fixed prefix.
    Prefixed(crate::command::basic::Prefixed<Box<BotCommand>>),
    /// Run the inner command, with rewritten info.
    Described(crate::command::basic::Described<Box<BotCommand>>),
    /// Run the inner command, hidden from listings.
    Hidden(crate::command::basic::Hidden<Box<BotCommand>>),
}

/// What the context looks like to the specification: the bot's own display
/// name, the command infos, and the three clocks.
pub struct CtxView {
    /// The bot's own display name.
    pub own_name: Seq<char>,
    /// The infos of the commands in the pipeline.
    pub infos: Seq<Info>,
    /// When the aggregator started, in seconds.
    pub multi_start: int,
    /// When the client started, in seconds.
    pub client_start: int,
    /// The current time, in seconds.
    pub now: int,
}

impl Context {
    /// The context as the specification sees it.
    pub open spec fn view(&self) -> CtxView {
        CtxView {
            own_name: self.joined.session.name@,
            infos: self.infos@,
            multi_start: self.multi_start_time.0 as int,
            client_start: self.client_start_time.0 as int,
            now: self.now.0 as int,
        }
    }

    /// The clocks are far from the ends of the representable range, so
    /// differences of timestamps cannot overflow.
    pub open spec fn wf(&self) -> bool {
        &&& -0x2000_0000_0000_0000 < self.multi_start_time.0 < 0x2000_0000_0000_0000
        &&& -0x2000_0000_0000_0000 < self.client_start_time.0 < 0x2000_0000_0000_0000
        &&& -0x2000_0000_0000_0000 < self.now.0 < 0x2000_0000_0000_0000
    }
}

/// Whether a command lets a message with this argument propagate, given the
/// bot's own display name.
pub open spec fn spec_verdict(c: BotCommand, arg: Seq<char>, ctx: CtxView) -> Propagate
    decreases c,
{
    match c {
        BotCommand::Ping(_) | BotCommand::ShortHelp(_) | BotCommand::FullHelp(_)
            | BotCommand::Uptime(_) => {
            if crate::text::spec_all_space(arg) {
                Propagate::No
            } else {
                Propagate::Yes
            }
        },
        BotCommand::Global(g) => {
            match crate::command::bang::spec_parse_prefix_initiated(arg, g.prefix@) {
                Option::Some(p) => if p.0 == g.name@ {
                    spec_verdict(*g.inner, p.1, ctx)
                } else {
                    Propagate::Yes
                },
                Option::None => Propagate::Yes,
            }
        },
        BotCommand::General(g) => {
            match crate::command::bang::spec_parse_prefix_initiated(arg, g.prefix@) {
                Option::Some(p) => if p.0 == g.name@ {
                    if crate::command::bang::spec_parse_prefix_initiated(p.1, "@"@) is Some {
                        Propagate::Yes
                    } else {
                        spec_verdict(*g.inner, p.1, ctx)
                    }
                } else {
                    Propagate::Yes
                },
                Option::None => Propagate::Yes,
            }
        },
        BotCommand::Specific(g) => {
            match crate::command::bang::spec_parse_prefix_initiated(arg, g.prefix@) {
                Option::Some(p) => if p.0 == g.name@ {
                    match crate::command::bang::spec_parse_prefix_initiated(p.1, "@"@) {
                        Option::Some(q) => if crate::nick::spec_normalize(q.0)
                            == crate::nick::spec_normalize(ctx.own_name) {
                            spec_verdict(*g.inner, q.1, ctx)
                        } else {
                            Propagate::Yes
                        },
                        Option::None => Propagate::Yes,
                    }
                } else {
                    Propagate::Yes
                },
                Option::None => Propagate::Yes,
            }
        },
        BotCommand::Prefixed(p) => {
            let ws = crate::text::spec_take_while_len(
                arg,
                crate::command::bang::space_pred(),
            );
            let t = arg.skip(ws as int);
            if t.len() >= p.prefix@.len() && t.subrange(0, p.prefix@.len() as int) == p.prefix@ {
                spec_verdict(*p.inner, t.skip(p.prefix@.len() as int), ctx)
            } else {
                Propagate::Yes
            }
        },
        BotCommand::Described(d) => spec_verdict(*d.inner, arg, ctx),
        BotCommand::Hidden(h) => spec_verdict(*h.0, arg, ctx),
    }
}

/// The content of the single reply a command sends when it halts
/// propagation.
pub open spec fn spec_reply_content(c: BotCommand, arg: Seq<char>, ctx: CtxView) -> Seq<char>
    decreases c,
{
    match c {
        BotCommand::Ping(p) => p.0@,
        BotCommand::ShortHelp(p) => p.0@,
        BotCommand::FullHelp(p) => crate::command::botrulez::spec_full_help(
            p.before@,
            p.after@,
            ctx.infos,
        ),
        BotCommand::Uptime(_) => crate::command::botrulez::spec_uptime_text(
            ctx.multi_start,
            ctx.now,
        ),
        BotCommand::Global(g) => {
            match crate::command::bang::spec_parse_prefix_initiated(arg, g.prefix@) {
                Option::Some(p) => spec_reply_content(*g.inner, p.1, ctx),
                Option::None => Seq::empty(),
            }
        },
        BotCommand::General(g) => {
            match crate::command::bang::spec_parse_prefix_initiated(arg, g.prefix@) {
                Option::Some(p) => spec_reply_content(*g.inner, p.1, ctx),
                Option::None => Seq::empty(),
            }
        },
        BotCommand::Specific(g) => {
            match crate::command::bang::spec_parse_prefix_initiated(arg, g.prefix@) {
                Option::Some(p) => match crate::command::bang::spec_parse_prefix_initiated(
                    p.1,
                    "@"@,
                ) {
                    Option::Some(q) => spec_reply_content(*g.inner, q.1, ctx),
                    Option::None => Seq::empty(),
                },
                Option::None => Seq::empty(),
            }
        },
        BotCommand::Prefixed(p) => {
            let ws = crate::text::spec_take_while_len(
                arg,
                crate::command::bang::space_pred(),
            );
            let t = arg.skip(ws as int);
            spec_reply_content(*p.inner, t.skip(p.prefix@.len() as int), ctx)
        },
        BotCommand::Described(d) => spec_reply_content(*d.inner, arg, ctx),
        BotCommand::Hidden(h) => spec_reply_content(*h.0, arg, ctx),
    }
}

/// Whether an action list is exactly one reply to `msg_id` with this
/// content, or empty, as the verdict demands.
pub open spec fn spec_actions_ok(
    actions: Seq<Action>,
    verdict: Propagate,
    content: Seq<char>,
    msg_id: MessageId,
) -> bool {
    match verdict {
        Propagate::Yes => actions.len() == 0,
        Propagate::No => actions.len() == 1 && match actions[0] {
            Action::Send { content: c, parent } => c@ == content && parent == Some(msg_id),
        },
    }
}

impl BotCommand {
    /// Run the command on one message.
    ///
    /// Returns whether the message propagates to the next command, and the
    /// replies the command asks to have sent.
    pub fn execute(&self, arg: &str, msg: &Message, ctx: &Context) -> (r: (Propagate, Vec<Action>))
        requires
            ctx.wf(),
        ensures
            r.0 == spec_verdict(*self, arg@, ctx@),
            spec_actions_ok(r.1@, r.0, spec_reply_content(*self, arg@, ctx@), msg.id),
        decreases *self,
    {
        match self {
            BotCommand::Ping(p) => {
                if crate::text::trimmed_empty(arg) {
                    let mut actions: Vec<Action> = Vec::new();
                    actions.push(Action::Send { content: p.0.clone(), parent: Some(msg.id) });
                    (Propagate::No, actions)
                } else {
                    (Propagate::Yes, Vec::new())
                }
            },
            BotCommand::ShortHelp(p) => {
                if crate::text::trimmed_empty(arg) {
                    let mut actions: Vec<Action> = Vec::new();
                    actions.push(Action::Send { content: p.0.clone(), parent: Some(msg.id) });
                    (Propagate::No, actions)
                } else {
                    (Propagate::Yes, Vec::new())
                }
            },
            BotCommand::FullHelp(p) => {
                if crate::text::trimmed_empty(arg) {
                    let content = p.formulate_reply(&ctx.infos);
                    let mut actions: Vec<Action> = Vec::new();
                    actions.push(Action::Send { content, parent: Some(msg.id) });
                    (Propagate::No, actions)
                } else {
                    (Propagate::Yes, Vec::new())
                }
            },
            BotCommand::Uptime(_) => {
                if crate::text::trimmed_empty(arg) {
                    let content = crate::command::botrulez::uptime_text(
                        ctx.multi_start_time,
                        ctx.now,
                    );
                    let mut actions: Vec<Action> = Vec::new();
                    actions.push(Action::Send { content, parent: Some(msg.id) });
                    (Propagate::No, actions)
                } else {
                    (Propagate::Yes, Vec::new())
                }
            },
            BotCommand::Global(g) => {
                match crate::command::bang::parse_prefix_initiated(arg, g.prefix.as_str()) {
                    Option::Some((name, rest)) => {
                        if crate::text::str_eq(name.as_str(), g.name.as_str()) {
                            g.inner.execute(rest.as_str(), msg, ctx)
                        } else {
                            (Propagate::Yes, Vec::new())
                        }
                    },
                    Option::None => (Propagate::Yes, Vec::new()),
                }
            },
            BotCommand::General(g) => {
                match crate::command::bang::parse_prefix_initiated(arg, g.prefix.as_str()) {
                    Option::Some((name, rest)) => {
                        if crate::text::str_eq(name.as_str(), g.name.as_str()) {
                            if crate::command::bang::parse_prefix_initiated(
                                rest.as_str(),
                                "@",
                            ).is_some() {
                                (Propagate::Yes, Vec::new())
                            } else {
                                g.inner.execute(rest.as_str(), msg, ctx)
                            }
                        } else {
                            (Propagate::Yes, Vec::new())
                        }
                    },
                    Option::None => (Propagate::Yes, Vec::new()),
                }
            },
            BotCommand::Specific(g) => {
                match crate::command::bang::parse_prefix_initiated(arg, g.prefix.as_str()) {
                    Option::Some((name, rest)) => {
                        if crate::text::str_eq(name.as_str(), g.name.as_str()) {
                            match crate::command::bang::parse_prefix_initiated(
                                rest.as_str(),
                                "@",
                            ) {
                                Option::Some((nick, rest2)) => {
                                    let n1 = crate::nick::normalize(nick.as_str());
                                    let n2 = crate::nick::normalize(
                                        ctx.joined.session.name.as_str(),
                                    );
                                    if crate::text::str_eq(n1.as_str(), n2.as_str()) {
                                        g.inner.execute(rest2.as_str(), msg, ctx)
                                    } else {
                                        (Propagate::Yes, Vec::new())
                                    }
                                },
                                Option::None => (Propagate::Yes, Vec::new()),
                            }
                        } else {
                            (Propagate::Yes, Vec::new())
                        }
                    },
                    Option::None => (Propagate::Yes, Vec::new()),
                }
            },
            BotCommand::Prefixed(p) => {
                match strip_ws_prefix(arg, p.prefix.as_str()) {
                    Option::Some(rest) => p.inner.execute(rest.as_str(), msg, ctx),
                    Option::None => (Propagate::Yes, Vec::new()),
                }
            },
            BotCommand::Described(d) => d.inner.execute(arg, msg, ctx),
            BotCommand::Hidden(h) => h.0.execute(arg, msg, ctx),
        }
    }
}

/// Strip leading whitespace and then the given prefix, or nothing.
fn strip_ws_prefix(text: &str, prefix: &str) -> (r: Option<String>)
    ensures
        ({
            let ws = crate::text::spec_take_while_len(text@, crate::command::bang::space_pred());
            let t = text@.skip(ws as int);
            match r {
                Option::Some(rest) => t.len() >= prefix@.len() && t.subrange(
                    0,
                    prefix@.len() as int,
                ) == prefix@ && rest@ == t.skip(prefix@.len() as int),
                Option::None => !(t.len() >= prefix@.len() && t.subrange(
                    0,
                    prefix@.len() as int,
                ) == prefix@),
            }
        }),
{
    let chars = crate::text::str_chars(text);
    let pre = crate::text::str_chars(prefix);
    let n = chars.len();
    let plen = pre.len();
    let mut i: usize = 0;
    loop
        invariant
            chars@ == text@,
            i <= n,
            n == text@.len(),
            forall|j: int| 0 <= j < i ==> is_space_char(text@[j]),
        ensures
            i <= n,
            forall|j: int| 0 <= j < i ==> is_space_char(text@[j]),
            i == n || !is_space_char(text@[i as int]),
        decreases n - i,
    {
        if i >= n {
            break;
        }
        if !is_space(chars[i]) {
            break;
        }
        i += 1;
    }
    proof {
        crate::text::lemma_take_while_len(text@, crate::command::bang::space_pred(), i as int);
    }
    let ghost t = text@.skip(i as int);
    if n - i < plen {
        return None;
    }
    let mut j: usize = 0;
    while j < plen
        invariant
            chars@ == text@,
            pre@ == prefix@,
            j <= plen,
            plen == prefix@.len(),
            n == text@.len(),
            i + plen <= n,
            t == text@.skip(i as int),
            crate::text::spec_take_while_len(text@, crate::command::bang::space_pred()) == i as nat,
            forall|k: int| 0 <= k < j ==> text@[i + k] == prefix@[k],
        decreases plen - j,
    {
        if chars[i + j] != pre[j] {
            proof {
                assert(t.subrange(0, prefix@.len() as int)[j as int] != prefix@[j as int]);
            }
            return None;
        }
        j += 1;
    }
    proof {
        assert(t.subrange(0, prefix@.len() as int) =~= prefix@);
    }
    let rest = crate::text::chars_segment(&chars, i + plen, n);
    proof {
        assert(rest@ =~= t.skip(prefix@.len() as int));
    }
    Some(rest)
}

/// The verdict of the whole pipeline: commands run in order until the first
/// halt.
pub open spec fn spec_dispatch_verdict(cmds: Seq<BotCommand>, arg: Seq<char>, ctx: CtxView)
    -> Propagate
    decreases cmds.len(),
{
    if cmds.len() == 0 {
        Propagate::Yes
    } else if spec_verdict(cmds[0], arg, ctx) == Propagate::No {
        Propagate::No
    } else {
        spec_dispatch_verdict(cmds.drop_first(), arg, ctx)
    }
}

/// The index of the first command that halts propagation, if any.
pub open spec fn spec_first_no(cmds: Seq<BotCommand>, arg: Seq<char>, ctx: CtxView) -> Option<int>
    decreases cmds.len(),
{
    if cmds.len() == 0 {
        None
    } else if spec_verdict(cmds[0], arg, ctx) == Propagate::No {
        Some(0)
    } else {
        match spec_first_no(cmds.drop_first(), arg, ctx) {
            Option::Some(i) => Some(i + 1),
            Option::None => None,
        }
    }
}

/// Commands run in insertion order until the first halt: the pipeline halts
/// exactly when some command halts, the first halting command is preceded
/// only by commands that propagate, and no command after it is reached.
pub proof fn lemma_dispatch_propagation(cmds: Seq<BotCommand>, arg: Seq<char>, ctx: CtxView)
    ensures
        spec_dispatch_verdict(cmds, arg, ctx) == Propagate::No <==> spec_first_no(cmds, arg, ctx)
            is Some,
        match spec_first_no(cmds, arg, ctx) {
            Option::Some(i) => 0 <= i < cmds.len() && spec_verdict(cmds[i], arg, ctx)
                == Propagate::No && forall|j: int|
                0 <= j < i ==> spec_verdict(#[trigger] cmds[j], arg, ctx) == Propagate::Yes,
            Option::None => forall|j: int|
                0 <= j < cmds.len() ==> spec_verdict(#[trigger] cmds[j], arg, ctx)
                    == Propagate::Yes,
        },
    decreases cmds.len(),
{
    if cmds.len() > 0 {
        lemma_dispatch_propagation(cmds.drop_first(), arg, ctx);
        assert(forall|j: int|
            0 <= j < cmds.drop_first().len() ==> #[trigger] cmds.drop_first()[j] == cmds[j + 1]);
        if spec_verdict(cmds[0], arg, ctx) == Propagate::No {
        } else {
            match spec_first_no(cmds.drop_first(), arg, ctx) {
                Option::Some(i) => {
                    assert(cmds[i + 1] == cmds.drop_first()[i]);
                    assert forall|j: int|
                        0 <= j < i + 1 implies spec_verdict(
                        #[trigger] cmds[j],
                        arg,
                        ctx,
                    ) == Propagate::Yes by {
                        if j > 0 {
                            assert(cmds[j] == cmds.drop_first()[j - 1]);
                        }
                    }
                },
                Option::None => {
                    assert forall|j: int|
                        0 <= j < cmds.len() implies spec_verdict(
                        #[trigger] cmds[j],
                        arg,
                        ctx,
                    ) == Propagate::Yes by {
                        if j > 0 {
                            assert(cmds[j] == cmds.drop_first()[j - 1]);
                        }
                    }
                },
            }
        }
    }
}

/// An ordered pipeline of commands.
#[derive(Debug)]
pub struct Commands {
    commands: Vec<BotCommand>,
}

impl Commands {
    /// The commands in the pipeline, in insertion order.
    pub closed spec fn view(&self) -> Seq<BotCommand> {
        self.commands@
    }

    /// An empty pipeline.
    pub fn new() -> (r: Commands)
        ensures
            r@ == Seq::<BotCommand>::empty(),
    {
        Commands { commands: Vec::new() }
    }

    /// Append a command to the pipeline.
    pub fn add(&mut self, command: BotCommand)
        ensures
            final(self)@ == old(self)@.push(command),
    {
        self.commands.push(command);
    }

    /// Append a command, by value.
    pub fn then(self, command: BotCommand) -> (r: Commands)
        ensures
            r@ == self@.push(command),
    {
        let mut this = self;
        this.commands.push(command);
        this
    }

    /// Walk the pipeline over one message, in insertion order, stopping at
    /// the first command that halts propagation.
    ///
    /// Returns the final verdict and the replies the commands asked to have
    /// sent; a command that halted guarantees that no later command ran.
    pub fn handle_message(&self, msg: &Message, ctx: &Context) -> (r: (Propagate, Vec<Action>))
        requires
            ctx.wf(),
        ensures
            r.0 == spec_dispatch_verdict(self@, msg.content@, ctx@),
            match spec_first_no(self@, msg.content@, ctx@) {
                Option::Some(i) => spec_actions_ok(
                    r.1@,
                    Propagate::No,
                    spec_reply_content(self@[i], msg.content@, ctx@),
                    msg.id,
                ),
                Option::None => r.1@.len() == 0,
            },
    {
        proof {
            lemma_dispatch_propagation(self@, msg.content@, ctx@);
            assert(self@.skip(0) =~= self@);
        }
        let mut i: usize = 0;
        while i < self.commands.len()
            invariant
                ctx.wf(),
                i <= self@.len(),
                forall|j: int|
                    0 <= j < i ==> spec_verdict(#[trigger] self@[j], msg.content@, ctx@)
                        == Propagate::Yes,
                spec_dispatch_verdict(self@, msg.content@, ctx@) == spec_dispatch_verdict(
                    self@.skip(i as int),
                    msg.content@,
                    ctx@,
                ),
                spec_first_no(self@, msg.content@, ctx@) == (match spec_first_no(
                    self@.skip(i as int),
                    msg.content@,
                    ctx@,
                ) {
                    Option::Some(k) => Some(k + i),
                    Option::None => None::<int>,
                }),
            decreases self@.len() - i,
        {
            proof {
                assert(self@.skip(i as int)[0] == self@[i as int]);
                assert(self@.skip(i as int).drop_first() =~= self@.skip(i + 1));
            }
            let (verdict, actions) = self.commands[i].execute(msg.content.as_str(), msg, ctx);
            if verdict == Propagate::No {
                return (Propagate::No, actions);
            }
            i += 1;
        }
        proof {
            assert(self@.skip(self@.len() as int).len() == 0);
        }
        (Propagate::Yes, Vec::new())
    }
}


impl Commands {
    /// Route one packet: the pipeline runs only for a message-send event
    /// observed in the joined state; everything else propagates untouched.
    pub fn handle_packet(
        &self,
        packet: &crate::api::packets::ParsedPacket,
        state: &State,
        infos: Vec<Info>,
        multi_start_time: Time,
        client_start_time: Time,
        now: Time,
    ) -> (r: (Propagate, Vec<Action>))
        requires
            state.inv(),
            -0x2000_0000_0000_0000 < multi_start_time.0 < 0x2000_0000_0000_0000,
            -0x2000_0000_0000_0000 < client_start_time.0 < 0x2000_0000_0000_0000,
            -0x2000_0000_0000_0000 < now.0 < 0x2000_0000_0000_0000,
        ensures
            match (packet.content, *state) {
                (Ok(d), State::Joined(j)) => match d {
                    Data::SendEvent(ev) => ({
                        let ctx_view = CtxView {
                            own_name: j.session.name@,
                            infos: infos@,
                            multi_start: multi_start_time.0 as int,
                            client_start: client_start_time.0 as int,
                            now: now.0 as int,
                        };
                        &&& r.0 == spec_dispatch_verdict(self@, ev.0.content@, ctx_view)
                        &&& match spec_first_no(self@, ev.0.content@, ctx_view) {
                            Option::Some(i) => spec_actions_ok(
                                r.1@,
                                Propagate::No,
                                spec_reply_content(self@[i], ev.0.content@, ctx_view),
                                ev.0.id,
                            ),
                            Option::None => r.1@.len() == 0,
                        }
                    }),
                    _ => r.0 == Propagate::Yes && r.1@.len() == 0,
                },
                _ => r.0 == Propagate::Yes && r.1@.len() == 0,
            },
    {
        let msg = match &packet.content {
            Ok(Data::SendEvent(ev)) => &ev.0,
            _ => {
                return (Propagate::Yes, Vec::new());
            },
        };
        let joined = match state.as_joined() {
            Option::Some(j) => j,
            Option::None => {
                return (Propagate::Yes, Vec::new());
            },
        };
        let ctx = Context {
            joined: joined.clone(),
            infos,
            multi_start_time,
            client_start_time,
            now,
        };
        proof {
            assert(ctx@ == (CtxView {
                own_name: state->Joined_0.session.name@,
                infos: ctx.infos@,
                multi_start: multi_start_time.0 as int,
                client_start: client_start_time.0 as int,
                now: now.0 as int,
            }));
        }
        self.handle_message(msg, &ctx)
    }

    /// Route one aggregated event through the pipeline.
    pub fn handle_event(
        &self,
        event: &crate::client::multi::MultiClientEvent,
        infos: Vec<Info>,
        multi_start_time: Time,
        client_start_time: Time,
        now: Time,
    ) -> (r: (Propagate, Vec<Action>))
        requires
            -0x2000_0000_0000_0000 < multi_start_time.0 < 0x2000_0000_0000_0000,
            -0x2000_0000_0000_0000 < client_start_time.0 < 0x2000_0000_0000_0000,
            -0x2000_0000_0000_0000 < now.0 < 0x2000_0000_0000_0000,
        ensures
            match event.event {
                crate::client::single::ClientEvent::Packet { state, packet, .. } => state.inv()
                    ==> (match (packet.content, state) {
                    (Ok(d), State::Joined(j)) => match d {
                        Data::SendEvent(ev) => ({
                            let ctx_view = CtxView {
                                own_name: j.session.name@,
                                infos: infos@,
                                multi_start: multi_start_time.0 as int,
                                client_start: client_start_time.0 as int,
                                now: now.0 as int,
                            };
                            &&& r.0 == spec_dispatch_verdict(self@, ev.0.content@, ctx_view)
                            &&& match spec_first_no(self@, ev.0.content@, ctx_view) {
                                Option::Some(i) => spec_actions_ok(
                                    r.1@,
                                    Propagate::No,
                                    spec_reply_content(self@[i], ev.0.content@, ctx_view),
                                    ev.0.id,
                                ),
                                Option::None => r.1@.len() == 0,
                            }
                        }),
                        _ => r.0 == Propagate::Yes && r.1@.len() == 0,
                    },
                    _ => r.0 == Propagate::Yes && r.1@.len() == 0,
                }),
                _ => r.0 == Propagate::Yes && r.1@.len() == 0,
            },
    {
        match &event.event {
            crate::client::single::ClientEvent::Packet { state, packet, .. } => {
                if state_inv_holds(state) {
                    self.handle_packet(
                        packet,
                        state,
                        infos,
                        multi_start_time,
                        client_start_time,
                        now,
                    )
                } else {
                    (Propagate::Yes, Vec::new())
                }
            },
            _ => (Propagate::Yes, Vec::new()),
        }
    }
}

/// Decide whether a state's roster is free of duplicate session ids.
fn state_inv_holds(state: &State) -> (r: bool)
    ensures
        r == state.inv(),
{
    match state {
        State::Joining(_) => true,
        State::Joined(j) => j.listing.check_inv(),
    }
}

} // verus!
