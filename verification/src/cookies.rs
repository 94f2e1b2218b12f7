//! The cookie jar: cookies observed in responses, replayed on the next
//! connect attempt as one request header.

use vstd::prelude::*;
use crate::text::{
    chars_segment, chars_to_string, lemma_take_while_len, push_str_chars, spec_take_while_len,
    str_chars, str_eq,
};

verus! {

/// What the cookie grammar makes of a line: the name-value text with the
/// attributes stripped, or nothing when the line is not a cookie. It depends
/// on the line alone.
pub uninterp spec fn stripped_cookie_of(s: Seq<char>) -> Option<Seq<char>>;

/// Relies on the `cookie` crate's `Cookie::parse` and `Cookie::stripped`:
/// parsing a `Set-Cookie` line and rendering only its name-value pair, a
/// function of the line alone.
#[verifier::external_body]
fn parse_set_cookie(line: &str) -> (r: Option<String>)
    ensures
        match r {
            Some(c) => stripped_cookie_of(line@) == Some(c@),
            None => stripped_cookie_of(line@) is None,
        },
{
    match cookie::Cookie::parse(line) {
        Ok(c) => Some(c.stripped().to_string()),
        Err(_) => None,
    }
}

/// The not-an-equals-sign predicate, as a function value.
pub open spec fn not_eq_sign_pred() -> spec_fn(char) -> bool {
    |c: char| c != '='
}

/// Split a `name=value` pair at its first equals sign.
pub fn split_pair(s: &str) -> (r: Option<(String, String)>)
    ensures
        ({
            let k = spec_take_while_len(s@, not_eq_sign_pred()) as int;
            match r {
                Some(p) => k < s@.len() && p.0@ == s@.subrange(0, k) && p.1@ == s@.subrange(
                    k + 1,
                    s@.len() as int,
                ),
                None => k == s@.len(),
            }
        }),
{
    let chars = str_chars(s);
    let mut i: usize = 0;
    loop
        invariant
            chars@ == s@,
            i <= s@.len(),
            forall|j: int| 0 <= j < i ==> s@[j] != '=',
        ensures
            i <= s@.len(),
            forall|j: int| 0 <= j < i ==> s@[j] != '=',
            i == s@.len() || s@[i as int] == '=',
        decreases s@.len() - i,
    {
        if i >= chars.len() {
            break;
        }
        if chars[i] == '=' {
            break;
        }
        i += 1;
    }
    proof {
        lemma_take_while_len(s@, not_eq_sign_pred(), i as int);
    }
    if i == chars.len() {
        return None;
    }
    let name = chars_segment(&chars, 0, i);
    let value = chars_segment(&chars, i + 1, chars.len());
    Some((name, value))
}

/// Cookies, each a name and a value, with one value per name; the last
/// observed value for a name wins.
#[derive(Debug)]
pub struct CookieJar {
    /// The cookies, in first-observed order.
    pub entries: Vec<(String, String)>,
}

/// Whether all cookie names are distinct.
pub open spec fn spec_unique_names(es: Seq<(String, String)>) -> bool {
    forall|i: int, j: int|
        #![trigger es[i], es[j]]
        0 <= i < j < es.len() ==> es[i].0@ != es[j].0@
}

/// What storing a cookie does to the jar: the name maps to the value
/// afterwards, and every cookie under another name survives.
pub open spec fn spec_jar_add_ok(
    pre: Seq<(String, String)>,
    post: Seq<(String, String)>,
    name: Seq<char>,
    value: Seq<char>,
) -> bool {
    &&& exists|i: int|
        0 <= i < post.len() && (#[trigger] post[i]).0@ == name && post[i].1@ == value
    &&& forall|i: int|
        0 <= i < pre.len() && (#[trigger] pre[i]).0@ != name ==> exists|j: int|
            0 <= j < post.len() && #[trigger] post[j] == pre[i]
}

impl CookieJar {
    /// One value per name.
    pub open spec fn inv(&self) -> bool {
        spec_unique_names(self.entries@)
    }

    /// An empty jar.
    pub fn new() -> (r: CookieJar)
        ensures
            r.inv(),
            r.entries@.len() == 0,
    {
        CookieJar { entries: Vec::new() }
    }

    /// Store a cookie: an existing name is overwritten, a new one appended.
    pub fn add(&mut self, name: String, value: String)
        requires
            old(self).inv(),
        ensures
            final(self).inv(),
            spec_jar_add_ok(old(self).entries@, final(self).entries@, name@, value@),
    {
        let mut i: usize = 0;
        while i < self.entries.len()
            invariant
                *self == *old(self),
                self.inv(),
                i <= self.entries@.len(),
                forall|j: int| 0 <= j < i ==> (#[trigger] self.entries@[j]).0@ != name@,
            decreases self.entries@.len() - i,
        {
            if str_eq(self.entries[i].0.as_str(), name.as_str()) {
                let ghost pre = self.entries@;
                let ghost nm = name@;
                self.entries.set(i, (name, value));
                proof {
                    assert(forall|j: int|
                        0 <= j < pre.len() && j != i ==> #[trigger] self.entries@[j] == pre[j]);
                    assert(self.entries@[i as int].0@ == nm && pre[i as int].0@ == nm);
                    assert(self.entries@[i as int].1@ == value@);
                    assert forall|k: int|
                        0 <= k < pre.len() && (#[trigger] pre[k]).0@ != nm implies exists|j: int|
                        0 <= j < self.entries@.len() && #[trigger] self.entries@[j] == pre[k] by {
                        assert(k != i);
                        assert(self.entries@[k] == pre[k]);
                    }
                }
                return ;
            }
            i += 1;
        }
        let ghost pre = self.entries@;
        let ghost nm = name@;
        self.entries.push((name, value));
        proof {
            assert(forall|j: int| 0 <= j < pre.len() ==> #[trigger] self.entries@[j] == pre[j]);
            assert(self.entries@[pre.len() as int].0@ == nm);
            assert(self.entries@[pre.len() as int].1@ == value@);
            assert forall|k: int|
                0 <= k < pre.len() && (#[trigger] pre[k]).0@ != nm implies exists|j: int|
                0 <= j < self.entries@.len() && #[trigger] self.entries@[j] == pre[k] by {
                assert(self.entries@[k] == pre[k]);
            }
        }
    }

    /// Parse one `Set-Cookie` response line and store its cookie.
    ///
    /// The cookie is stored exactly when the cookie grammar accepts the line
    /// and its stripped name-value text contains an equals sign; the name is
    /// the text before the first equals sign, the value the text after it.
    /// A rejected line changes nothing.
    pub fn add_set_cookie(&mut self, line: &str) -> (stored: bool)
        requires
            old(self).inv(),
        ensures
            final(self).inv(),
            stored == (stripped_cookie_of(line@) matches Some(c) && spec_take_while_len(
                c,
                not_eq_sign_pred(),
            ) < c.len()),
            stored ==> ({
                let c = stripped_cookie_of(line@)->Some_0;
                let k = spec_take_while_len(c, not_eq_sign_pred()) as int;
                spec_jar_add_ok(
                    old(self).entries@,
                    final(self).entries@,
                    c.subrange(0, k),
                    c.subrange(k + 1, c.len() as int),
                )
            }),
            !stored ==> *final(self) == *old(self),
    {
        match parse_set_cookie(line) {
            Option::Some(pair) => {
                match split_pair(pair.as_str()) {
                    Option::Some((name, value)) => {
                        self.add(name, value);
                        true
                    },
                    Option::None => false,
                }
            },
            Option::None => false,
        }
    }

    /// The cookies joined for one `Cookie` request header: the `name=value`
    /// pairs separated by `; `.
    pub fn header(&self) -> (r: String)
        ensures
            r@ == spec_cookie_header(self.entries@, self.entries@.len() as int),
    {
        let mut out: Vec<char> = Vec::new();
        let mut i: usize = 0;
        while i < self.entries.len()
            invariant
                i <= self.entries@.len(),
                out@ == spec_cookie_header(self.entries@, i as int),
            decreases self.entries@.len() - i,
        {
            if i > 0 {
                out.push(';');
                out.push(' ');
            }
            push_str_chars(&mut out, self.entries[i].0.as_str());
            out.push('=');
            push_str_chars(&mut out, self.entries[i].1.as_str());
            proof {
                assert(out@ =~= spec_cookie_header(self.entries@, i + 1));
            }
            i += 1;
        }
        chars_to_string(&out)
    }
}

/// The header text of the first `k` cookies, `; `-separated.
pub open spec fn spec_cookie_header(es: Seq<(String, String)>, k: int) -> Seq<char>
    decreases k,
{
    if k <= 0 {
        Seq::empty()
    } else if k == 1 {
        es[0].0@ + seq!['='] + es[0].1@
    } else {
        spec_cookie_header(es, k - 1) + seq![';', ' '] + es[k - 1].0@ + seq!['='] + es[k - 1].1@
    }
}

} // verus!
