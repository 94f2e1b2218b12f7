//! Nick-related utility functions: mention forms, normalization for
//! `@`-mention comparison, and the nick hue hash.

use vstd::prelude::*;
use unicode_normalization::UnicodeNormalization;
use crate::text::{chars_to_string, is_space_char, is_space, str_chars};

verus! {

/// The punctuation characters that delimit a mention besides whitespace.
pub open spec fn is_delimiter_char(c: char) -> bool {
    c == ',' || c == '.' || c == '!' || c == '?' || c == ';' || c == '&' || c == '<' || c == '>'
        || c == '\'' || c == '"'
}

/// Decide whether a character delimits a mention without being whitespace.
pub fn is_non_whitespace_delimiter(c: char) -> (r: bool)
    ensures
        r == is_delimiter_char(c),
{
    c == ',' || c == '.' || c == '!' || c == '?' || c == ';' || c == '&' || c == '<' || c == '>'
        || c == '\'' || c == '"'
}

/// The mention-character predicate, as a function value: neither whitespace
/// nor delimiting punctuation.
pub open spec fn mention_pred() -> spec_fn(char) -> bool {
    |c: char| !is_space_char(c) && !is_delimiter_char(c)
}

/// The mention form of a nick: all whitespace and all of the delimiting
/// punctuation removed.
pub open spec fn spec_mention(s: Seq<char>) -> Seq<char> {
    s.filter(mention_pred())
}

/// Compute a mentionable version of a nick: the return value appended to an
/// `@` character highlights as a mention.
pub fn mention(nick: &str) -> (r: String)
    ensures
        r@ == spec_mention(nick@),
{
    let chars = str_chars(nick);
    let mut out: Vec<char> = Vec::new();
    let mut i: usize = 0;
    proof {
        reveal(Seq::filter);
        assert(nick@.subrange(0, 0) =~= Seq::<char>::empty());
        assert(out@ =~= nick@.subrange(0, 0).filter(mention_pred()));
    }
    while i < chars.len()
        invariant
            chars@ == nick@,
            i <= nick@.len(),
            out@ == nick@.subrange(0, i as int).filter(mention_pred()),
        decreases nick@.len() - i,
    {
        proof {
            reveal(Seq::filter);
            assert(nick@.subrange(0, i + 1).drop_last() =~= nick@.subrange(0, i as int));
            assert(nick@.subrange(0, i + 1).last() == nick@[i as int]);
            assert((mention_pred())(nick@[i as int]) == (!is_space_char(nick@[i as int])
                && !is_delimiter_char(nick@[i as int])));
        }
        let c = chars[i];
        if !is_space(c) && !is_non_whitespace_delimiter(c) {
            out.push(c);
            proof {
                reveal(Seq::filter);
                assert(out@ =~= nick@.subrange(0, i + 1).filter(mention_pred()));
            }
        } else {
            proof {
                reveal(Seq::filter);
                assert(out@ =~= nick@.subrange(0, i + 1).filter(mention_pred()));
            }
        }
        i += 1;
    }
    proof {
        assert(nick@.subrange(0, nick@.len() as int) =~= nick@);
    }
    chars_to_string(&out)
}

/// The Unicode compatibility normal form (NFKC) of a string; it depends on
/// the characters alone.
pub uninterp spec fn nfkc_of(s: Seq<char>) -> Seq<char>;

/// Relies on the `unicode_normalization` crate's NFKC iterator: the
/// compatibility normal form, a function of the characters alone.
#[verifier::external_body]
pub(crate) fn nfkc_str(s: &str) -> (r: String)
    ensures
        r@ == nfkc_of(s@),
{
    s.nfkc().collect()
}

/// The Unicode default case fold of a string; it depends on the characters
/// alone.
pub uninterp spec fn case_fold_of(s: Seq<char>) -> Seq<char>;

/// Relies on `caseless::default_case_fold_str`: the default case fold, a
/// function of the characters alone.
#[verifier::external_body]
pub(crate) fn case_fold_str(s: &str) -> (r: String)
    ensures
        r@ == case_fold_of(s@),
{
    caseless::default_case_fold_str(s)
}

/// The normal form of a nick for mention comparison: the mention form,
/// then NFKC, then case folding.
pub open spec fn spec_normalize(s: Seq<char>) -> Seq<char> {
    case_fold_of(nfkc_of(spec_mention(s)))
}

/// Normalize a nick to a form that can be compared against other nicks.
///
/// A nick and its mention form computed via [`mention`] always normalize to
/// the same form.
pub fn normalize(nick: &str) -> (r: String)
    ensures
        r@ == spec_normalize(nick@),
{
    let m = mention(nick);
    let n = nfkc_str(m.as_str());
    case_fold_str(n.as_str())
}

/// A nick and its mention form always normalize to the same form, because
/// taking the mention form twice changes nothing the second time.
pub proof fn lemma_mention_idempotent(s: Seq<char>)
    ensures
        spec_mention(spec_mention(s)) == spec_mention(s),
        spec_normalize(spec_mention(s)) == spec_normalize(s),
{
    lemma_filter_idempotent(s, mention_pred());
}

/// Filtering keeps every element when all elements satisfy the predicate.
proof fn lemma_filter_all(s: Seq<char>, p: spec_fn(char) -> bool)
    requires
        forall|i: int| 0 <= i < s.len() ==> p(s[i]),
    ensures
        s.filter(p) == s,
    decreases s.len(),
{
    reveal(Seq::filter);
    if s.len() > 0 {
        assert(forall|i: int| 0 <= i < s.drop_last().len() ==> s.drop_last()[i] == s[i]);
        lemma_filter_all(s.drop_last(), p);
        assert(s.filter(p) =~= s);
    }
}

/// Every element of a filtered sequence satisfies the predicate it was
/// filtered by.
proof fn lemma_filter_elements(s: Seq<char>, p: spec_fn(char) -> bool)
    ensures
        forall|i: int| 0 <= i < s.filter(p).len() ==> p(#[trigger] s.filter(p)[i]),
    decreases s.len(),
{
    reveal(Seq::filter);
    if s.len() > 0 {
        lemma_filter_elements(s.drop_last(), p);
    }
}

/// Filtering twice by the same predicate is the same as filtering once.
proof fn lemma_filter_idempotent(s: Seq<char>, p: spec_fn(char) -> bool)
    ensures
        s.filter(p).filter(p) == s.filter(p),
{
    lemma_filter_elements(s, p);
    lemma_filter_all(s.filter(p), p);
}



/// Whether a character survives hue normalization: ASCII alphanumerics,
/// underscore and hyphen.
pub open spec fn is_hue_char(c: char) -> bool {
    let u = c as u32;
    ('a' as u32 <= u && u <= 'z' as u32) || ('A' as u32 <= u && u <= 'Z' as u32) || ('0' as u32
        <= u && u <= '9' as u32) || c == '_' || c == '-'
}

/// The hue-normalization predicate, as a function value.
pub open spec fn hue_char_pred() -> spec_fn(char) -> bool {
    |c: char| is_hue_char(c)
}

/// The ASCII lower-case form of a character.
pub open spec fn spec_lower_ascii(c: char) -> char {
    if c == 'A' { 'a' } else if c == 'B' { 'b' } else if c == 'C' { 'c' }
    else if c == 'D' { 'd' } else if c == 'E' { 'e' } else if c == 'F' { 'f' }
    else if c == 'G' { 'g' } else if c == 'H' { 'h' } else if c == 'I' { 'i' }
    else if c == 'J' { 'j' } else if c == 'K' { 'k' } else if c == 'L' { 'l' }
    else if c == 'M' { 'm' } else if c == 'N' { 'n' } else if c == 'O' { 'o' }
    else if c == 'P' { 'p' } else if c == 'Q' { 'q' } else if c == 'R' { 'r' }
    else if c == 'S' { 's' } else if c == 'T' { 't' } else if c == 'U' { 'u' }
    else if c == 'V' { 'v' } else if c == 'W' { 'w' } else if c == 'X' { 'x' }
    else if c == 'Y' { 'y' } else if c == 'Z' { 'z' } else { c }
}

/// The ASCII-lower-case function, as a function value.
pub open spec fn lower_ascii_fn() -> spec_fn(char) -> char {
    |c: char| spec_lower_ascii(c)
}

/// Hue normalization: keep ASCII alphanumerics, `_` and `-`, lower-cased.
pub open spec fn spec_hue_normalize(s: Seq<char>) -> Seq<char> {
    s.filter(hue_char_pred()).map_values(lower_ascii_fn())
}

fn lower_ascii(c: char) -> (r: char)
    ensures
        r == spec_lower_ascii(c),
{
    if c == 'A' { 'a' } else if c == 'B' { 'b' } else if c == 'C' { 'c' }
    else if c == 'D' { 'd' } else if c == 'E' { 'e' } else if c == 'F' { 'f' }
    else if c == 'G' { 'g' } else if c == 'H' { 'h' } else if c == 'I' { 'i' }
    else if c == 'J' { 'j' } else if c == 'K' { 'k' } else if c == 'L' { 'l' }
    else if c == 'M' { 'm' } else if c == 'N' { 'n' } else if c == 'O' { 'o' }
    else if c == 'P' { 'p' } else if c == 'Q' { 'q' } else if c == 'R' { 'r' }
    else if c == 'S' { 's' } else if c == 'T' { 't' } else if c == 'U' { 'u' }
    else if c == 'V' { 'v' } else if c == 'W' { 'w' } else if c == 'X' { 'x' }
    else if c == 'Y' { 'y' } else if c == 'Z' { 'z' } else { c }
}

/// The hue-normalized characters of a nick.
pub fn hue_normalized_chars(nick: &str) -> (r: Vec<char>)
    ensures
        r@ == spec_hue_normalize(nick@),
{
    let chars = str_chars(nick);
    let mut out: Vec<char> = Vec::new();
    let mut i: usize = 0;
    proof {
        reveal(Seq::filter);
        assert(nick@.subrange(0, 0) =~= Seq::<char>::empty());
        assert(out@ =~= spec_hue_normalize(nick@.subrange(0, 0)));
    }
    while i < chars.len()
        invariant
            chars@ == nick@,
            i <= nick@.len(),
            out@ == spec_hue_normalize(nick@.subrange(0, i as int)),
        decreases nick@.len() - i,
    {
        proof {
            assert(nick@.subrange(0, i + 1).drop_last() =~= nick@.subrange(0, i as int));
            assert(nick@.subrange(0, i + 1).last() == nick@[i as int]);
        }
        let c = chars[i];
        let u = c as u32;
        proof {
            reveal(Seq::filter);
            assert((hue_char_pred())(nick@[i as int]) == is_hue_char(nick@[i as int]));
            assert((lower_ascii_fn())(nick@[i as int]) == spec_lower_ascii(nick@[i as int]));
        }
        if ('a' as u32 <= u && u <= 'z' as u32) || ('A' as u32 <= u && u <= 'Z' as u32) || ('0'
            as u32 <= u && u <= '9' as u32) || c == '_' || c == '-' {
            out.push(lower_ascii(c));
            proof {
                reveal(Seq::filter);
                let pre = nick@.subrange(0, i as int).filter(hue_char_pred());
                assert(nick@.subrange(0, i + 1).filter(hue_char_pred()) =~= pre.push(
                    nick@[i as int],
                ));
                assert(out@ =~= spec_hue_normalize(nick@.subrange(0, i + 1)));
            }
        } else {
            proof {
                reveal(Seq::filter);
                assert(nick@.subrange(0, i + 1).filter(hue_char_pred()) =~= nick@.subrange(
                    0,
                    i as int,
                ).filter(hue_char_pred()));
                assert(out@ =~= spec_hue_normalize(nick@.subrange(0, i + 1)));
            }
        }
        i += 1;
    }
    proof {
        assert(nick@.subrange(0, nick@.len() as int) =~= nick@);
    }
    out
}

/// The UTF-16 code units of one character.
pub open spec fn spec_utf16_char(c: char) -> Seq<u16> {
    let u = c as int;
    if u < 0x1_0000 {
        seq![u as u16]
    } else {
        let v = u - 0x1_0000;
        seq![(0xD800 + v / 0x400) as u16, (0xDC00 + v % 0x400) as u16]
    }
}

/// The UTF-16 code units of a string.
pub open spec fn spec_utf16(s: Seq<char>) -> Seq<u16>
    decreases s.len(),
{
    if s.len() == 0 {
        Seq::empty()
    } else {
        spec_utf16(s.drop_last()) + spec_utf16_char(s.last())
    }
}

/// A value wrapped into the range of a 32-bit signed integer.
pub open spec fn spec_wrap32(x: int) -> int {
    ((x + 0x8000_0000) % 0x1_0000_0000) - 0x8000_0000
}

/// One step of the hue hash: mix one UTF-16 code unit into the accumulator,
/// with 32-bit wrapping.
pub open spec fn spec_hue_step(val: int, b: u16) -> int {
    spec_wrap32(val * 33 + (b as int * 439) % 256)
}

/// The hue-hash accumulator over a sequence of UTF-16 code units.
pub open spec fn spec_hue_fold(units: Seq<u16>) -> int
    decreases units.len(),
{
    if units.len() == 0 {
        0
    } else {
        spec_hue_step(spec_hue_fold(units.drop_last()), units.last())
    }
}

/// The hue hash of a string with the given offset: the accumulator shifted
/// into a non-negative range, offset, and reduced modulo 255, with the
/// reduction wrapping like a cast to `u8` does for the few slightly negative
/// values the offset can produce.
pub open spec fn spec_hue_hash(s: Seq<char>, offset: int) -> int {
    let val = spec_hue_fold(spec_utf16(s)) + 0x8000_0000 + offset;
    if val >= 0 {
        val % 255
    } else {
        val + 256
    }
}

proof fn lemma_char_range(c: char)
    ensures
        c as u32 <= 0x10_FFFFu32,
        c as int == c as u32 as int,
{
}

proof fn lemma_hue_fold_bounds(units: Seq<u16>)
    ensures
        -0x8000_0000 <= spec_hue_fold(units) < 0x8000_0000,
    decreases units.len(),
{
    if units.len() > 0 {
        lemma_hue_fold_bounds(units.drop_last());
        let x = spec_hue_fold(units.drop_last()) * 33 + (units.last() as int * 439) % 256;
        vstd::arithmetic::div_mod::lemma_mod_bound(x + 0x8000_0000, 0x1_0000_0000);
    }
}

fn hue_step(val: i64, b: u16) -> (r: i64)
    requires
        -0x8000_0000 <= val < 0x8000_0000,
    ensures
        r == spec_hue_step(val as int, b),
        -0x8000_0000 <= r < 0x8000_0000,
{
    let cv: i64 = ((b as i64) * 439) % 256;
    let next: i64 = val * 33 + cv;
    let shifted: i64 = next + 0x8000_0000 + 0x100_0000_0000;
    let m: i64 = shifted % 0x1_0000_0000;
    proof {
        let x = next as int + 0x8000_0000;
        vstd::arithmetic::div_mod::lemma_mod_multiples_vanish(256, x, 0x1_0000_0000);
        vstd::arithmetic::div_mod::lemma_mod_bound(x, 0x1_0000_0000);
        assert(b as int * 439 >= 0);
        vstd::arithmetic::div_mod::lemma_mod_bound(b as int * 439, 256);
    }
    m - 0x8000_0000
}

proof fn lemma_fold_push(units: Seq<u16>, b: u16)
    ensures
        spec_hue_fold(units.push(b)) == spec_hue_step(spec_hue_fold(units), b),
{
    assert(units.push(b).drop_last() =~= units);
}

proof fn lemma_fold_push2(units: Seq<u16>, b1: u16, b2: u16)
    ensures
        spec_hue_fold(units.push(b1).push(b2)) == spec_hue_step(
            spec_hue_step(spec_hue_fold(units), b1),
            b2,
        ),
{
    assert(units.push(b1).push(b2).drop_last() =~= units.push(b1));
    lemma_fold_push(units, b1);
}

proof fn lemma_utf16_step(s: Seq<char>, i: int)
    requires
        0 <= i < s.len(),
    ensures
        spec_utf16(s.subrange(0, i + 1)) == spec_utf16(s.subrange(0, i)) + spec_utf16_char(s[i]),
{
    assert(s.subrange(0, i + 1).drop_last() =~= s.subrange(0, i));
    assert(s.subrange(0, i + 1).last() == s[i]);
}

/// The hue-hash offset that places the nick `greenie` at hue 148.
const GREENIE_OFFSET: i64 = -44;

#[verifier::rlimit(100)]
fn hue_hash_chars(chars: &Vec<char>, offset: i64) -> (r: u8)
    requires
        -100 <= offset <= 0,
    ensures
        r as int == spec_hue_hash(chars@, offset as int),
{
    let mut val: i64 = 0;
    let mut i: usize = 0;
    proof {
        assert(chars@.subrange(0, 0) =~= Seq::<char>::empty());
        assert(val == spec_hue_fold(spec_utf16(chars@.subrange(0, 0))));
    }
    while i < chars.len()
        invariant
            i <= chars@.len(),
            val == spec_hue_fold(spec_utf16(chars@.subrange(0, i as int))),
            -0x8000_0000 <= val < 0x8000_0000,
        decreases chars@.len() - i,
    {
        let c = chars[i];
        let u = c as u32;
        let ghost units = spec_utf16(chars@.subrange(0, i as int));
        proof {
            lemma_char_range(c);
            lemma_utf16_step(chars@, i as int);
        }
        if u < 0x1_0000 {
            proof {
                assert(spec_utf16_char(c) =~= seq![u as u16]);
                assert(units + spec_utf16_char(c) =~= units.push(u as u16));
                lemma_fold_push(units, u as u16);
            }
            val = hue_step(val, u as u16);
        } else {
            proof {
                assert((u - 0x1_0000) as int / 0x400 <= 0xF_FFFFint / 0x400int) by {
                    vstd::arithmetic::div_mod::lemma_div_is_ordered(
                        (u - 0x1_0000) as int,
                        0xF_FFFFint,
                        0x400int,
                    );
                }
                vstd::arithmetic::div_mod::lemma_mod_bound((u - 0x1_0000) as int, 0x400int);
            }
            let v = u - 0x1_0000;
            let hi: u16 = (0xD800 + v / 0x400) as u16;
            let lo: u16 = (0xDC00 + v % 0x400) as u16;
            proof {
                assert(spec_utf16_char(c) =~= seq![hi, lo]);
                assert(units + spec_utf16_char(c) =~= units.push(hi).push(lo));
                lemma_fold_push2(units, hi, lo);
            }
            let mid = hue_step(val, hi);
            val = hue_step(mid, lo);
        }
        i += 1;
    }
    proof {
        assert(chars@.subrange(0, chars@.len() as int) =~= chars@);
    }
    let t: i64 = val + 0x8000_0000 + offset;
    if t >= 0 {
        proof {
            vstd::arithmetic::div_mod::lemma_mod_bound(t as int, 255);
        }
        (t % 255) as u8
    } else {
        (t + 256) as u8
    }
}

/// The nick hue without emoji removal: the hue hash of the hue-normalized
/// nick, or of the raw nick when nothing survives normalization.
pub open spec fn spec_hue_without_removing_emoji(s: Seq<char>) -> int {
    let normalized = spec_hue_normalize(s);
    if normalized.len() == 0 {
        spec_hue_hash(s, -44)
    } else {
        spec_hue_hash(normalized, -44)
    }
}

/// Calculate a nick's hue without removing colon-delimited emoji first.
///
/// This is faster than removing emoji but yields a different hue when
/// colon-delimited emoji are present.
pub fn hue_without_removing_emoji(nick: &str) -> (r: u8)
    ensures
        r as int == spec_hue_without_removing_emoji(nick@),
{
    let normalized = hue_normalized_chars(nick);
    if normalized.len() == 0 {
        let chars = str_chars(nick);
        hue_hash_chars(&chars, GREENIE_OFFSET)
    } else {
        hue_hash_chars(&normalized, GREENIE_OFFSET)
    }
}

} // verus!
