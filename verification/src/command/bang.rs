//! Euphoria-style `!foo` and `!foo @bar` command wrappers.

use vstd::prelude::*;
use crate::text::{
    chars_segment, is_space, is_space_char, lemma_take_while_len, spec_take_while_len, str_chars,
};

verus! {

/// The whitespace predicate, as a function value.
pub open spec fn space_pred() -> spec_fn(char) -> bool {
    |c: char| is_space_char(c)
}

/// The non-whitespace predicate, as a function value.
pub open spec fn nonspace_pred() -> spec_fn(char) -> bool {
    |c: char| !is_space_char(c)
}

/// The result of stripping leading whitespace, a prefix and a command name
/// from a message: the name and the remaining text with one leading
/// whitespace character removed.
pub open spec fn spec_parse_prefix_initiated(text: Seq<char>, prefix: Seq<char>) -> Option<
    (Seq<char>, Seq<char>),
> {
    let ws = spec_take_while_len(text, space_pred());
    let t = text.skip(ws as int);
    if t.len() < prefix.len() || t.subrange(0, prefix.len() as int) != prefix {
        None
    } else {
        let rem = t.skip(prefix.len() as int);
        let name_len = spec_take_while_len(rem, nonspace_pred());
        if name_len == 0 {
            None
        } else {
            let name = rem.subrange(0, name_len as int);
            let rest = if name_len < rem.len() {
                rem.skip(name_len as int + 1)
            } else {
                Seq::empty()
            };
            Some((name, rest))
        }
    }
}

/// Parse leading whitespace followed by a prefix-initiated command.
///
/// Returns the command name and the remaining text with one leading
/// whitespace character removed; the remaining text may be empty. Parsing
/// fails if the prefix does not follow the leading whitespace or the name is
/// empty.
pub fn parse_prefix_initiated(text: &str, prefix: &str) -> (r: Option<(String, String)>)
    ensures
        match r {
            Some(p) => spec_parse_prefix_initiated(text@, prefix@) == Some((p.0@, p.1@)),
            None => spec_parse_prefix_initiated(text@, prefix@) is None,
        },
{
    let chars = str_chars(text);
    let pre = str_chars(prefix);
    let n = chars.len();
    let plen = pre.len();

    let mut i: usize = 0;
    loop
        invariant
            chars@ == text@,
            i <= n,
            n == text@.len(),
            forall|j: int| 0 <= j < i ==> is_space_char(text@[j]),
        ensures
            i <= n,
            forall|j: int| 0 <= j < i ==> is_space_char(text@[j]),
            i == n || !is_space_char(text@[i as int]),
        decreases n - i,
    {
        if i >= n {
            break;
        }
        if !is_space(chars[i]) {
            break;
        }
        i += 1;
    }
    proof {
        lemma_take_while_len(text@, space_pred(), i as int);
    }
    let ghost t = text@.skip(i as int);

    if n - i < plen {
        return None;
    }
    let mut j: usize = 0;
    while j < plen
        invariant
            chars@ == text@,
            pre@ == prefix@,
            j <= plen,
            plen == prefix@.len(),
            n == text@.len(),
            i + plen <= n,
            t == text@.skip(i as int),
            spec_take_while_len(text@, space_pred()) == i as nat,
            forall|k: int| 0 <= k < j ==> text@[i + k] == prefix@[k],
        decreases plen - j,
    {
        if chars[i + j] != pre[j] {
            proof {
                assert(t.subrange(0, prefix@.len() as int)[j as int] != prefix@[j as int]);
            }
            return None;
        }
        j += 1;
    }
    proof {
        assert(t.subrange(0, prefix@.len() as int) =~= prefix@);
    }
    let rem_start = i + plen;
    let ghost rem = t.skip(prefix@.len() as int);
    proof {
        assert(rem =~= text@.skip(rem_start as int));
    }

    let mut k: usize = rem_start;
    loop
        invariant
            chars@ == text@,
            rem_start <= k <= n,
            n == text@.len(),
            rem == text@.skip(rem_start as int),
            forall|x: int| rem_start <= x < k ==> !is_space_char(text@[x]),
        ensures
            rem_start <= k <= n,
            forall|x: int| rem_start <= x < k ==> !is_space_char(text@[x]),
            k == n || is_space_char(text@[k as int]),
        decreases n - k,
    {
        if k >= n {
            break;
        }
        if is_space(chars[k]) {
            break;
        }
        k += 1;
    }
    proof {
        assert(forall|x: int|
            0 <= x < k - rem_start ==> #[trigger] rem[x] == text@[rem_start + x]
                && !is_space_char(rem[x]));
        lemma_take_while_len(rem, nonspace_pred(), k - rem_start);
    }
    if k == rem_start {
        return None;
    }
    let name = chars_segment(&chars, rem_start, k);
    proof {
        assert(name@ =~= rem.subrange(0, (k - rem_start) as int));
    }
    let rest = if k < n {
        let rest = chars_segment(&chars, k + 1, n);
        proof {
            assert(rest@ =~= rem.skip((k - rem_start) + 1));
        }
        rest
    } else {
        proof {
            reveal_strlit("");
        }
        let rest = "".to_owned();
        proof {
            assert(rest@ =~= Seq::<char>::empty());
        }
        rest
    };
    Some((name, rest))
}

/// A wrapper that runs its inner command on `!name`, whatever follows.
#[derive(Debug)]
pub struct Global<C> {
    /// The prefix that initiates the command, `!` by default.
    pub prefix: String,
    /// The name that triggers the command.
    pub name: String,
    /// The command that runs when the trigger matches.
    pub inner: C,
}

impl<C> Global<C> {
    /// A wrapper with the default `!` prefix.
    pub fn new(name: String, inner: C) -> (r: Global<C>)
        ensures
            r.prefix@ == "!"@,
            r.name == name,
            r.inner == inner,
    {
        Global { prefix: "!".to_owned(), name, inner }
    }

    /// Replace the prefix.
    pub fn with_prefix(self, prefix: String) -> (r: Global<C>)
        ensures
            r.prefix == prefix,
            r.name == self.name,
            r.inner == self.inner,
    {
        Global { prefix, ..self }
    }
}

/// A wrapper that runs its inner command on `!name` only when the rest is
/// not itself a mention, so another bot's specific command is not taken as a
/// general match.
#[derive(Debug)]
pub struct General<C> {
    /// The prefix that initiates the command, `!` by default.
    pub prefix: String,
    /// The name that triggers the command.
    pub name: String,
    /// The command that runs when the trigger matches.
    pub inner: C,
}

impl<C> General<C> {
    /// A wrapper with the default `!` prefix.
    pub fn new(name: String, inner: C) -> (r: General<C>)
        ensures
            r.prefix@ == "!"@,
            r.name == name,
            r.inner == inner,
    {
        General { prefix: "!".to_owned(), name, inner }
    }

    /// Replace the prefix.
    pub fn with_prefix(self, prefix: String) -> (r: General<C>)
        ensures
            r.prefix == prefix,
            r.name == self.name,
            r.inner == self.inner,
    {
        General { prefix, ..self }
    }
}

/// A wrapper that runs its inner command on `!name @nick` where the nick,
/// after normalization, is the bot's own display name.
#[derive(Debug)]
pub struct Specific<C> {
    /// The prefix that initiates the command, `!` by default.
    pub prefix: String,
    /// The name that triggers the command.
    pub name: String,
    /// The command that runs when the trigger matches.
    pub inner: C,
}

impl<C> Specific<C> {
    /// A wrapper with the default `!` prefix.
    pub fn new(name: String, inner: C) -> (r: Specific<C>)
        ensures
            r.prefix@ == "!"@,
            r.name == name,
            r.inner == inner,
    {
        Specific { prefix: "!".to_owned(), name, inner }
    }

    /// Replace the prefix.
    pub fn with_prefix(self, prefix: String) -> (r: Specific<C>)
        ensures
            r.prefix == prefix,
            r.name == self.name,
            r.inner == self.inner,
    {
        Specific { prefix, ..self }
    }
}

} // verus!
