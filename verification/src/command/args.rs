//! Parsing of bash-like quoted argument lists for command handlers.

use vstd::prelude::*;
use crate::text::{chars_to_string, is_space, is_space_char, str_chars};

verus! {

/// The parser state after some prefix of the input: the finished arguments,
/// the argument being built, and the quoting flags.
pub struct QuoteState {
    /// Arguments finished so far.
    pub args: Seq<Seq<char>>,
    /// The argument currently being built.
    pub arg: Seq<char>,
    /// Whether the current argument exists (it may be empty, from `""`).
    pub arg_exists: bool,
    /// Whether the parser is inside double quotes.
    pub quoted: bool,
    /// Whether the previous character was an unprocessed backslash.
    pub escaped: bool,
}

/// The initial parser state.
pub open spec fn q_init() -> QuoteState {
    QuoteState {
        args: Seq::empty(),
        arg: Seq::empty(),
        arg_exists: false,
        quoted: false,
        escaped: false,
    }
}

/// One step of the quoted-argument parser.
///
/// Outside quotes, a backslash escapes the next character, whitespace ends
/// the current argument and a double quote starts a quoted section. Inside
/// quotes, `\"` and `\\` escape; any other escaped character keeps its
/// backslash.
pub open spec fn q_step(st: QuoteState, c: char) -> QuoteState {
    if st.quoted {
        if st.escaped {
            if c == '\\' {
                QuoteState { arg: st.arg.push('\\'), escaped: false, ..st }
            } else if c == '"' {
                QuoteState { arg: st.arg.push('"'), escaped: false, ..st }
            } else {
                QuoteState { arg: st.arg.push('\\').push(c), escaped: false, ..st }
            }
        } else if c == '\\' {
            QuoteState { escaped: true, ..st }
        } else if c == '"' {
            QuoteState { quoted: false, ..st }
        } else {
            QuoteState { arg: st.arg.push(c), ..st }
        }
    } else {
        if st.escaped {
            QuoteState { arg: st.arg.push(c), arg_exists: true, escaped: false, ..st }
        } else if is_space_char(c) {
            if st.arg_exists {
                QuoteState { args: st.args.push(st.arg), arg: Seq::empty(), arg_exists: false, ..st }
            } else {
                st
            }
        } else if c == '\\' {
            QuoteState { escaped: true, ..st }
        } else if c == '"' {
            QuoteState { quoted: true, arg_exists: true, ..st }
        } else {
            QuoteState { arg: st.arg.push(c), arg_exists: true, ..st }
        }
    }
}

/// The parser state after a whole input.
pub open spec fn q_fold(s: Seq<char>) -> QuoteState
    decreases s.len(),
{
    if s.len() == 0 {
        q_init()
    } else {
        q_step(q_fold(s.drop_last()), s.last())
    }
}

/// The arguments a whole input parses to, if it parses.
pub open spec fn spec_parse_quoted_args(s: Seq<char>) -> Result<Seq<Seq<char>>, Seq<char>> {
    let st = q_fold(s);
    if st.quoted {
        Err("Unclosed trailing quote"@)
    } else if st.escaped {
        Err("Unfinished trailing escape"@)
    } else if st.arg_exists {
        Ok(st.args.push(st.arg))
    } else {
        Ok(st.args)
    }
}

/// The views of a vector of strings.
pub open spec fn strings_view(v: Seq<String>) -> Seq<Seq<char>> {
    v.map_values(|s: String| s@)
}

/// Parse bash-like quoted arguments separated by whitespace.
///
/// Outside of quotes, a backslash escapes the next character. Special
/// characters can also be quoted using double quotes; within double quotes,
/// `\"` escapes a double quote and `\\` escapes a backslash, and other
/// occurrences of `\` have no special meaning.
pub fn parse_quoted_args(text: &str) -> (r: Result<Vec<String>, &'static str>)
    ensures
        match r {
            Ok(v) => spec_parse_quoted_args(text@) == Ok::<Seq<Seq<char>>, Seq<char>>(
                strings_view(v@),
            ),
            Err(e) => spec_parse_quoted_args(text@) == Err::<Seq<Seq<char>>, Seq<char>>(e@),
        },
{
    let chars = str_chars(text);
    let mut args: Vec<String> = Vec::new();
    let mut arg: Vec<char> = Vec::new();
    let mut arg_exists = false;
    let mut quoted = false;
    let mut escaped = false;
    let mut i: usize = 0;
    proof {
        assert(text@.subrange(0, 0) =~= Seq::<char>::empty());
        assert(strings_view(args@) =~= q_fold(text@.subrange(0, 0)).args);
    }
    while i < chars.len()
        invariant
            chars@ == text@,
            i <= text@.len(),
            strings_view(args@) == q_fold(text@.subrange(0, i as int)).args,
            arg@ == q_fold(text@.subrange(0, i as int)).arg,
            arg_exists == q_fold(text@.subrange(0, i as int)).arg_exists,
            quoted == q_fold(text@.subrange(0, i as int)).quoted,
            escaped == q_fold(text@.subrange(0, i as int)).escaped,
        decreases text@.len() - i,
    {
        proof {
            assert(text@.subrange(0, i + 1).drop_last() =~= text@.subrange(0, i as int));
            assert(text@.subrange(0, i + 1).last() == text@[i as int]);
        }
        let ghost st = q_fold(text@.subrange(0, i as int));
        let c = chars[i];
        if quoted {
            if escaped {
                if c == '\\' {
                    arg.push('\\');
                    escaped = false;
                } else if c == '"' {
                    arg.push('"');
                    escaped = false;
                } else {
                    arg.push('\\');
                    arg.push(c);
                    escaped = false;
                }
            } else if c == '\\' {
                escaped = true;
            } else if c == '"' {
                quoted = false;
            } else {
                arg.push(c);
            }
        } else {
            if escaped {
                arg.push(c);
                arg_exists = true;
                escaped = false;
            } else if is_space(c) {
                if arg_exists {
                    let ghost args_pre = args@;
                    args.push(chars_to_string(&arg));
                    arg = Vec::new();
                    arg_exists = false;
                    proof {
                        assert(strings_view(args@) =~= strings_view(args_pre).push(st.arg));
                    }
                }
            } else if c == '\\' {
                escaped = true;
            } else if c == '"' {
                quoted = true;
                arg_exists = true;
            } else {
                arg.push(c);
                arg_exists = true;
            }
        }
        i += 1;
    }
    proof {
        assert(text@.subrange(0, text@.len() as int) =~= text@);
    }
    if quoted {
        return Err("Unclosed trailing quote");
    }
    if escaped {
        return Err("Unfinished trailing escape");
    }
    if arg_exists {
        let ghost args_pre = args@;
        args.push(chars_to_string(&arg));
        proof {
            assert(strings_view(args@) =~= strings_view(args_pre).push(q_fold(text@).arg));
        }
    }
    Ok(args)
}

} // verus!
