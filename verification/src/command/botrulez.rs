//! The standard bot-etiquette commands: ping, help and uptime.

use vstd::prelude::*;
use crate::command::Info;
use crate::api::types::Time;
use crate::text::{
    chars_to_string, spec_decimal_digits, push_decimal_u64, push_str_chars, str_chars,
};

verus! {

/// Reply with a fixed string when called with an empty argument.
#[derive(Debug)]
pub struct Ping(pub String);

impl Ping {
    /// A ping command with the given reply.
    pub fn new(reply: String) -> (r: Ping)
        ensures
            r.0 == reply,
    {
        Ping(reply)
    }
}

/// Reply with a short help string when called with an empty argument.
#[derive(Debug)]
pub struct ShortHelp(pub String);

impl ShortHelp {
    /// A short-help command with the given text.
    pub fn new(text: String) -> (r: ShortHelp)
        ensures
            r.0 == text,
    {
        ShortHelp(text)
    }
}

/// Reply with a rendered list of the sibling commands' triggers and
/// descriptions, with an optional header and footer.
#[derive(Debug)]
pub struct FullHelp {
    /// Text above the list, if not empty.
    pub before: String,
    /// Text below the list, if not empty.
    pub after: String,
}

/// One line of the full help listing: the trigger, then ` - ` and the
/// description if there is one, then a newline.
pub open spec fn spec_help_line(info: Info) -> Seq<char> {
    match info.trigger {
        Option::Some(t) => t@ + (match info.description {
            Option::Some(d) => " - "@ + d@,
            Option::None => Seq::empty(),
        }) + seq!['\n'],
        Option::None => Seq::empty(),
    }
}

/// The first `k` lines of the full help listing.
pub open spec fn spec_help_lines(infos: Seq<Info>, k: int) -> Seq<char>
    decreases k,
{
    if k <= 0 {
        Seq::empty()
    } else {
        spec_help_lines(infos, k - 1) + spec_help_line(infos[k - 1])
    }
}

/// The full help reply: header, one line per listed command, footer.
pub open spec fn spec_full_help(before: Seq<char>, after: Seq<char>, infos: Seq<Info>) -> Seq<
    char,
> {
    (if before.len() > 0 {
        before + seq!['\n']
    } else {
        Seq::empty()
    }) + spec_help_lines(infos, infos.len() as int) + (if after.len() > 0 {
        after + seq!['\n']
    } else {
        Seq::empty()
    })
}

impl FullHelp {
    /// A full-help command without header or footer.
    pub fn new() -> (r: FullHelp)
        ensures
            r.before@ == Seq::<char>::empty(),
            r.after@ == Seq::<char>::empty(),
    {
        proof {
            reveal_strlit("");
        }
        FullHelp { before: "".to_owned(), after: "".to_owned() }
    }

    /// Set the header text.
    pub fn with_before(self, before: String) -> (r: FullHelp)
        ensures
            r.before == before,
            r.after == self.after,
    {
        FullHelp { before, ..self }
    }

    /// Set the footer text.
    pub fn with_after(self, after: String) -> (r: FullHelp)
        ensures
            r.after == after,
            r.before == self.before,
    {
        FullHelp { after, ..self }
    }

    /// Render the help reply from the sibling commands' infos.
    pub fn formulate_reply(&self, infos: &Vec<Info>) -> (r: String)
        ensures
            r@ == spec_full_help(self.before@, self.after@, infos@),
    {
        let mut out: Vec<char> = Vec::new();
        let before = str_chars(self.before.as_str());
        if before.len() > 0 {
            let mut i: usize = 0;
            while i < before.len()
                invariant
                    before@ == self.before@,
                    i <= before@.len(),
                    out@ == self.before@.subrange(0, i as int),
                decreases before@.len() - i,
            {
                out.push(before[i]);
                proof {
                    assert(out@ =~= self.before@.subrange(0, i + 1));
                }
                i += 1;
            }
            out.push('\n');
            proof {
                assert(self.before@.subrange(0, self.before@.len() as int) =~= self.before@);
                assert(out@ =~= self.before@ + seq!['\n']);
            }
        }
        let ghost header = out@;
        let mut k: usize = 0;
        proof {
            assert(out@ =~= header + spec_help_lines(infos@, 0));
        }
        while k < infos.len()
            invariant
                k <= infos@.len(),
                out@ == header + spec_help_lines(infos@, k as int),
            decreases infos@.len() - k,
        {
            match &infos[k].trigger {
                Option::Some(t) => {
                    let tc = str_chars(t.as_str());
                    let mut i: usize = 0;
                    let ghost line_start = out@;
                    while i < tc.len()
                        invariant
                            tc@ == infos@[k as int].trigger->Some_0@,
                            i <= tc@.len(),
                            out@ == line_start + tc@.subrange(0, i as int),
                        decreases tc@.len() - i,
                    {
                        out.push(tc[i]);
                        proof {
                            assert(out@ =~= line_start + tc@.subrange(0, i + 1));
                        }
                        i += 1;
                    }
                    proof {
                        assert(tc@.subrange(0, tc@.len() as int) =~= tc@);
                    }
                    match &infos[k].description {
                        Option::Some(d) => {
                            out.push(' ');
                            out.push('-');
                            out.push(' ');
                            let dc = str_chars(d.as_str());
                            let mut i2: usize = 0;
                            let ghost mid = out@;
                            proof {
                                assert(mid =~= line_start + tc@ + " - "@.subrange(
                                    0,
                                    3,
                                )) by {
                                    reveal_strlit(" - ");
                                }
                                assert(" - "@.subrange(0, 3) =~= " - "@) by {
                                    reveal_strlit(" - ");
                                }
                            }
                            while i2 < dc.len()
                                invariant
                                    dc@ == infos@[k as int].description->Some_0@,
                                    i2 <= dc@.len(),
                                    out@ == mid + dc@.subrange(0, i2 as int),
                                decreases dc@.len() - i2,
                            {
                                out.push(dc[i2]);
                                proof {
                                    assert(out@ =~= mid + dc@.subrange(0, i2 + 1));
                                }
                                i2 += 1;
                            }
                            proof {
                                assert(dc@.subrange(0, dc@.len() as int) =~= dc@);
                            }
                        },
                        Option::None => {},
                    }
                    out.push('\n');
                    proof {
                        assert(out@ =~= header + spec_help_lines(infos@, k + 1));
                    }
                },
                Option::None => {
                    proof {
                        assert(out@ =~= header + spec_help_lines(infos@, k + 1));
                    }
                },
            }
            k += 1;
        }
        let after = str_chars(self.after.as_str());
        if after.len() > 0 {
            let ghost body = out@;
            let mut i: usize = 0;
            while i < after.len()
                invariant
                    after@ == self.after@,
                    i <= after@.len(),
                    out@ == body + self.after@.subrange(0, i as int),
                decreases after@.len() - i,
            {
                out.push(after[i]);
                proof {
                    assert(out@ =~= body + self.after@.subrange(0, i + 1));
                }
                i += 1;
            }
            out.push('\n');
            proof {
                assert(self.after@.subrange(0, self.after@.len() as int) =~= self.after@);
            }
        }
        proof {
            assert(out@ =~= spec_full_help(self.before@, self.after@, infos@));
        }
        chars_to_string(&out)
    }
}

/// Reply with how long the bot has been up.
#[derive(Debug, Clone, Copy, PartialEq, Eq, Structural)]
pub struct Uptime;

/// The civil UTC date and time of a unix timestamp, rendered as
/// `%Y-%m-%d %H:%M:%S UTC`; it depends on the timestamp alone.
pub uninterp spec fn utc_datetime_string_of(seconds: int) -> Seq<char>;

/// Relies on jiff's `Timestamp::from_second` and `strftime`: the rendered
/// civil UTC date and time of the timestamp, a function of it alone; a
/// timestamp outside the representable range renders as a fixed phrase.
#[verifier::external_body]
pub fn format_time(t: Time) -> (r: String)
    ensures
        r@ == utc_datetime_string_of(t.0 as int),
{
    match jiff::Timestamp::from_second(t.0) {
        Ok(ts) => ts.strftime("%Y-%m-%d %H:%M:%S UTC").to_string(),
        Err(_) => "before the representable era".to_string(),
    }
}

/// One more duration segment appended to a partial rendering, separated by
/// a space when something has been rendered already.
pub open spec fn spec_push_seg(acc: Seq<char>, n: int, unit: char) -> Seq<char> {
    acc + (if acc.len() > 0 {
        seq![' ']
    } else {
        Seq::<char>::empty()
    }) + spec_decimal_digits(n as nat).push(unit)
}

/// The rendering of a non-negative duration in seconds: `d`/`h`/`m`/`s`
/// segments joined by spaces, omitting zero segments, `0s` when all are
/// zero.
pub open spec fn spec_duration_body(t: int) -> Seq<char> {
    let days = t / 86400;
    let hours = (t / 3600) % 24;
    let mins = (t / 60) % 60;
    let secs = t % 60;
    let acc = Seq::<char>::empty();
    let acc = if days > 0 {
        spec_push_seg(acc, days, 'd')
    } else {
        acc
    };
    let acc = if hours > 0 {
        spec_push_seg(acc, hours, 'h')
    } else {
        acc
    };
    let acc = if mins > 0 {
        spec_push_seg(acc, mins, 'm')
    } else {
        acc
    };
    let acc = if secs > 0 {
        spec_push_seg(acc, secs, 's')
    } else {
        acc
    };
    if acc.len() == 0 {
        seq!['0', 's']
    } else {
        acc
    }
}

/// A human-readable rendering of a duration in seconds, with a leading `-`
/// for negative durations.
pub open spec fn spec_format_duration(d: int) -> Seq<char> {
    if d < 0 {
        seq!['-'] + spec_duration_body(-d)
    } else {
        spec_duration_body(d)
    }
}

/// A duration relative to now: `in <duration>` for the future, `<duration>
/// ago` for the past.
pub open spec fn spec_format_relative_time(d: int) -> Seq<char> {
    if d > 0 {
        "in "@ + spec_duration_body(d)
    } else {
        spec_duration_body(-d) + " ago"@
    }
}

fn push_segment(n: u64, unit: char, parts: &mut Vec<char>)
    ensures
        final(parts)@ == spec_push_seg(old(parts)@, n as int, unit),
{
    if parts.len() > 0 {
        parts.push(' ');
    }
    push_decimal_u64(n, parts);
    parts.push(unit);
    proof {
        assert(final(parts)@ =~= spec_push_seg(old(parts)@, n as int, unit));
    }
}

/// Render a duration in seconds as `d`/`h`/`m`/`s` segments.
pub fn format_duration(d: i64) -> (r: String)
    ensures
        r@ == spec_format_duration(d as int),
{
    let t: u64 = if d < 0 {
        if d == i64::MIN {
            9223372036854775808u64
        } else {
            (-d) as u64
        }
    } else {
        d as u64
    };
    proof {
        assert(t as int == if d < 0 {
            -(d as int)
        } else {
            d as int
        });
    }
    let days: u64 = t / 86400;
    let hours: u64 = (t / 3600) % 24;
    let mins: u64 = (t / 60) % 60;
    let secs: u64 = t % 60;
    let mut parts: Vec<char> = Vec::new();
    if days > 0 {
        push_segment(days, 'd', &mut parts);
    }
    if hours > 0 {
        push_segment(hours, 'h', &mut parts);
    }
    if mins > 0 {
        push_segment(mins, 'm', &mut parts);
    }
    if secs > 0 {
        push_segment(secs, 's', &mut parts);
    }
    if parts.len() == 0 {
        parts.push('0');
        parts.push('s');
        proof {
            assert(parts@ =~= seq!['0', 's']);
        }
    }
    proof {
        assert(parts@ == spec_duration_body(t as int));
    }
    let mut out: Vec<char> = Vec::new();
    if d < 0 {
        out.push('-');
    }
    out.append(&mut parts);
    proof {
        if d < 0 {
            assert(out@ =~= seq!['-'] + spec_duration_body(-(d as int)));
        } else {
            assert(out@ =~= spec_duration_body(d as int));
        }
    }
    chars_to_string(&out)
}


/// The basic uptime reply: since when the bot has been up, absolute and
/// relative.
pub open spec fn spec_uptime_text(multi_start: int, now: int) -> Seq<char> {
    "/me has been up since "@ + utc_datetime_string_of(multi_start) + " ("@
        + spec_format_relative_time(multi_start - now) + ")"@
}

/// The full uptime reply, optionally extended with since when the bot has
/// been present in the room and since when the current connection has been
/// joined.
pub open spec fn spec_uptime_reply(
    multi_start: int,
    client_start: int,
    joined_since: int,
    now: int,
    present: bool,
    connected: bool,
) -> Seq<char> {
    spec_uptime_text(multi_start, now) + (if present {
        ", present since "@ + utc_datetime_string_of(client_start) + " ("@
            + spec_format_relative_time(client_start - now) + ")"@
    } else {
        Seq::<char>::empty()
    }) + (if connected {
        ", connected since "@ + utc_datetime_string_of(joined_since) + " ("@
            + spec_format_relative_time(joined_since - now) + ")"@
    } else {
        Seq::<char>::empty()
    })
}

/// Render a relative duration: `in <duration>` or `<duration> ago`.
pub fn format_relative_time(d: i64) -> (r: String)
    requires
        -0x4000_0000_0000_0000 < d < 0x4000_0000_0000_0000,
    ensures
        r@ == spec_format_relative_time(d as int),
{
    let mut out: Vec<char> = Vec::new();
    if d > 0 {
        push_str_chars(&mut out, "in ");
        let body = format_duration(d);
        push_str_chars(&mut out, body.as_str());
        proof {
            assert(spec_format_duration(d as int) == spec_duration_body(d as int));
            assert(out@ =~= spec_format_relative_time(d as int));
        }
    } else {
        let body = format_duration(-d);
        push_str_chars(&mut out, body.as_str());
        push_str_chars(&mut out, " ago");
        proof {
            assert(spec_format_duration(-(d as int)) == spec_duration_body(-(d as int)));
            assert(out@ =~= spec_format_relative_time(d as int));
        }
    }
    chars_to_string(&out)
}

/// The basic uptime reply.
pub fn uptime_text(multi_start: Time, now: Time) -> (r: String)
    requires
        -0x2000_0000_0000_0000 < multi_start.0 < 0x2000_0000_0000_0000,
        -0x2000_0000_0000_0000 < now.0 < 0x2000_0000_0000_0000,
    ensures
        r@ == spec_uptime_text(multi_start.0 as int, now.0 as int),
{
    let mut out: Vec<char> = Vec::new();
    push_str_chars(&mut out, "/me has been up since ");
    let at = format_time(multi_start);
    push_str_chars(&mut out, at.as_str());
    push_str_chars(&mut out, " (");
    let rel = format_relative_time(multi_start.0 - now.0);
    push_str_chars(&mut out, rel.as_str());
    push_str_chars(&mut out, ")");
    proof {
        assert(out@ =~= spec_uptime_text(multi_start.0 as int, now.0 as int));
    }
    chars_to_string(&out)
}

impl Uptime {
    /// Render the uptime reply, optionally including when the bot entered
    /// the room and when the current connection was joined.
    pub fn formulate_reply(
        &self,
        multi_start: Time,
        client_start: Time,
        joined_since: Time,
        now: Time,
        present: bool,
        connected: bool,
    ) -> (r: String)
        requires
            -0x2000_0000_0000_0000 < multi_start.0 < 0x2000_0000_0000_0000,
            -0x2000_0000_0000_0000 < client_start.0 < 0x2000_0000_0000_0000,
            -0x2000_0000_0000_0000 < joined_since.0 < 0x2000_0000_0000_0000,
            -0x2000_0000_0000_0000 < now.0 < 0x2000_0000_0000_0000,
        ensures
            r@ == spec_uptime_reply(
                multi_start.0 as int,
                client_start.0 as int,
                joined_since.0 as int,
                now.0 as int,
                present,
                connected,
            ),
    {
        let mut out: Vec<char> = Vec::new();
        let head = uptime_text(multi_start, now);
        push_str_chars(&mut out, head.as_str());
        if present {
            push_str_chars(&mut out, ", present since ");
            let at = format_time(client_start);
            push_str_chars(&mut out, at.as_str());
            push_str_chars(&mut out, " (");
            let rel = format_relative_time(client_start.0 - now.0);
            push_str_chars(&mut out, rel.as_str());
            push_str_chars(&mut out, ")");
        }
        if connected {
            push_str_chars(&mut out, ", connected since ");
            let at = format_time(joined_since);
            push_str_chars(&mut out, at.as_str());
            push_str_chars(&mut out, " (");
            let rel = format_relative_time(joined_since.0 - now.0);
            push_str_chars(&mut out, rel.as_str());
            push_str_chars(&mut out, ")");
        }
        proof {
            assert(out@ =~= spec_uptime_reply(
                multi_start.0 as int,
                client_start.0 as int,
                joined_since.0 as int,
                now.0 as int,
                present,
                connected,
            ));
        }
        chars_to_string(&out)
    }
}

} // verus!
