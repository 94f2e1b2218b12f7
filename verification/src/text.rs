//! Character and string helpers shared by the parsers and formatters.

use vstd::prelude::*;
use vstd::string::*;

verus! {

/// The Unicode `White_Space` code points.
pub open spec fn is_space_char(c: char) -> bool {
    let u = c as u32;
    u == 0x09 || u == 0x0A || u == 0x0B || u == 0x0C || u == 0x0D || u == 0x20 || u == 0x85
        || u == 0xA0 || u == 0x1680 || (0x2000 <= u && u <= 0x200A) || u == 0x2028 || u == 0x2029
        || u == 0x202F || u == 0x205F || u == 0x3000
}

/// Decide whether a character counts as whitespace.
pub fn is_space(c: char) -> (r: bool)
    ensures
        r == is_space_char(c),
{
    let u = c as u32;
    u == 0x09 || u == 0x0A || u == 0x0B || u == 0x0C || u == 0x0D || u == 0x20 || u == 0x85
        || u == 0xA0 || u == 0x1680 || (0x2000 <= u && u <= 0x200A) || u == 0x2028 || u == 0x2029
        || u == 0x202F || u == 0x205F || u == 0x3000
}

/// The characters of a string slice as a vector, in order.
pub fn str_chars(s: &str) -> (r: Vec<char>)
    ensures
        r@ == s@,
{
    let len = s.unicode_len();
    let mut r: Vec<char> = Vec::new();
    let mut i: usize = 0;
    while i < len
        invariant
            len == s@.len(),
            i <= len,
            r@ == s@.subrange(0, i as int),
        decreases len - i,
    {
        r.push(s.get_char(i));
        i += 1;
        proof {
            assert(r@ =~= s@.subrange(0, i as int));
        }
    }
    proof {
        assert(r@ =~= s@);
    }
    r
}

/// Relies on `String: FromIterator<char>`: collecting an iterator of
/// characters yields a string of exactly those characters in order.
#[verifier::external_body]
pub(crate) fn chars_to_string(v: &Vec<char>) -> (r: String)
    ensures
        r@ == v@,
{
    v.iter().collect()
}

/// Clone an optional string.
pub fn clone_opt_string(o: &Option<String>) -> (r: Option<String>)
    ensures
        r == *o,
{
    match o {
        Option::None => None,
        Option::Some(s) => Some(s.clone()),
    }
}

/// Whether two string slices hold the same characters.
pub fn str_eq(a: &str, b: &str) -> (r: bool)
    ensures
        r == (a@ == b@),
{
    let n = a.unicode_len();
    if n != b.unicode_len() {
        proof {
            assert(a@.len() != b@.len());
        }
        return false;
    }
    let mut i: usize = 0;
    while i < n
        invariant
            n == a@.len(),
            n == b@.len(),
            i <= n,
            forall|j: int| 0 <= j < i ==> a@[j] == b@[j],
        decreases n - i,
    {
        if a.get_char(i) != b.get_char(i) {
            proof {
                assert(a@[i as int] != b@[i as int]);
            }
            return false;
        }
        i += 1;
    }
    proof {
        assert(a@ =~= b@);
    }
    true
}

/// The character for one decimal digit value.
pub open spec fn spec_digit_char(d: nat) -> char {
    if d == 0 {
        '0'
    } else if d == 1 {
        '1'
    } else if d == 2 {
        '2'
    } else if d == 3 {
        '3'
    } else if d == 4 {
        '4'
    } else if d == 5 {
        '5'
    } else if d == 6 {
        '6'
    } else if d == 7 {
        '7'
    } else if d == 8 {
        '8'
    } else {
        '9'
    }
}

/// The numeric value of one decimal digit character.
pub open spec fn spec_digit_val(c: char) -> nat {
    (c as u32 - '0' as u32) as nat
}

/// Decimal digits of `n`, most significant first, without leading zeros.
pub open spec fn spec_decimal_digits(n: nat) -> Seq<char>
    decreases n,
{
    if n < 10 {
        seq![spec_digit_char(n)]
    } else {
        spec_decimal_digits(n / 10).push(spec_digit_char(n % 10))
    }
}

/// The numeric value of a sequence of decimal digit characters.
pub open spec fn spec_decimal_value(s: Seq<char>) -> nat
    decreases s.len(),
{
    if s.len() == 0 {
        0
    } else {
        spec_decimal_value(s.drop_last()) * 10 + spec_digit_val(s.last())
    }
}

/// Reading a number's decimal digits back yields the number, so the
/// decimal forms of two numbers sort the same way under numeric order
/// as the numbers themselves.
pub proof fn lemma_decimal_round_trip(n: nat)
    ensures
        spec_decimal_value(spec_decimal_digits(n)) == n,
    decreases n,
{
    if n < 10 {
        assert(spec_decimal_digits(n) =~= seq![spec_digit_char(n)]);
        assert(spec_decimal_value(seq![spec_digit_char(n)].drop_last()) == 0);
        assert(spec_digit_val(spec_digit_char(n)) == n);
    } else {
        lemma_decimal_round_trip(n / 10);
        let s = spec_decimal_digits(n);
        assert(s.drop_last() =~= spec_decimal_digits(n / 10));
        assert(spec_digit_val(spec_digit_char(n % 10)) == n % 10);
        assert(n / 10 * 10 + n % 10 == n) by {
            vstd::arithmetic::div_mod::lemma_fundamental_div_mod(n as int, 10);
        }
    }
}

/// The exec counterpart of `spec_digit_char`.
pub fn decimal_digit_char(d: u64) -> (c: char)
    requires
        d < 10,
    ensures
        c == spec_digit_char(d as nat),
{
    if d == 0 {
        '0'
    } else if d == 1 {
        '1'
    } else if d == 2 {
        '2'
    } else if d == 3 {
        '3'
    } else if d == 4 {
        '4'
    } else if d == 5 {
        '5'
    } else if d == 6 {
        '6'
    } else if d == 7 {
        '7'
    } else if d == 8 {
        '8'
    } else {
        '9'
    }
}

/// Append the decimal digits of `n`.
pub fn push_decimal_u64(n: u64, out: &mut Vec<char>)
    ensures
        final(out)@ == old(out)@ + spec_decimal_digits(n as nat),
    decreases n,
{
    if n >= 10 {
        push_decimal_u64(n / 10, out);
    }
    out.push(decimal_digit_char(n % 10));
}

/// Format a number in decimal.
pub fn u64_to_decimal(n: u64) -> (r: String)
    ensures
        r@ == spec_decimal_digits(n as nat),
{
    let mut out: Vec<char> = Vec::new();
    push_decimal_u64(n, &mut out);
    chars_to_string(&out)
}


/// Relies on `char::from_u32` of std: it returns the character with the
/// given code point exactly when the value is a Unicode scalar value (not a
/// surrogate and at most 0x10FFFF).
pub assume_specification[ char::from_u32 ](u: u32) -> (r: Option<char>)
    ensures
        match r {
            Some(c) => c as u32 == u,
            None => u >= 0x11_0000 || (0xD800 <= u && u < 0xE000),
        },
;


/// A contiguous segment of a character vector, as a string.
pub fn chars_segment(chars: &Vec<char>, a: usize, b: usize) -> (r: String)
    requires
        a <= b <= chars@.len(),
    ensures
        r@ == chars@.subrange(a as int, b as int),
{
    let mut out: Vec<char> = Vec::new();
    let mut i = a;
    while i < b
        invariant
            a <= i <= b <= chars@.len(),
            out@ == chars@.subrange(a as int, i as int),
        decreases b - i,
    {
        out.push(chars[i]);
        proof {
            assert(out@ =~= chars@.subrange(a as int, i + 1));
        }
        i += 1;
    }
    chars_to_string(&out)
}

/// The number of leading characters of `s` that satisfy `f`.
pub open spec fn spec_take_while_len(s: Seq<char>, f: spec_fn(char) -> bool) -> nat
    decreases s.len(),
{
    if s.len() > 0 && f(s[0]) {
        1 + spec_take_while_len(s.drop_first(), f)
    } else {
        0
    }
}

/// A scan that stops at the first character that fails `f` has measured
/// exactly the leading run of characters satisfying `f`.
pub proof fn lemma_take_while_len(s: Seq<char>, f: spec_fn(char) -> bool, i: int)
    requires
        0 <= i <= s.len(),
        forall|j: int| 0 <= j < i ==> f(s[j]),
        i == s.len() || !f(s[i]),
    ensures
        spec_take_while_len(s, f) == i,
    decreases s.len(),
{
    if i == 0 {
    } else {
        assert(f(s[0]));
        let s2 = s.drop_first();
        assert(forall|j: int| 0 <= j < i - 1 ==> f(#[trigger] s2[j]));
        assert(i - 1 == s2.len() || !f(s2[i - 1]));
        lemma_take_while_len(s2, f, i - 1);
    }
}


/// Append the characters of a string slice.
pub fn push_str_chars(out: &mut Vec<char>, s: &str)
    ensures
        final(out)@ == old(out)@ + s@,
{
    let chars = str_chars(s);
    let mut i: usize = 0;
    while i < chars.len()
        invariant
            chars@ == s@,
            i <= s@.len(),
            out@ == old(out)@ + s@.subrange(0, i as int),
        decreases s@.len() - i,
    {
        out.push(chars[i]);
        proof {
            assert(out@ =~= old(out)@ + s@.subrange(0, i + 1));
        }
        i += 1;
    }
    proof {
        assert(s@.subrange(0, s@.len() as int) =~= s@);
        assert(out@ =~= old(out)@ + s@);
    }
}

/// Whether a string consists of whitespace only.
pub open spec fn spec_all_space(s: Seq<char>) -> bool {
    forall|i: int| 0 <= i < s.len() ==> is_space_char(s[i])
}

/// Decide whether a string trims to nothing.
pub fn trimmed_empty(s: &str) -> (r: bool)
    ensures
        r == spec_all_space(s@),
{
    let chars = str_chars(s);
    let mut i: usize = 0;
    while i < chars.len()
        invariant
            chars@ == s@,
            i <= s@.len(),
            forall|j: int| 0 <= j < i ==> is_space_char(s@[j]),
        decreases s@.len() - i,
    {
        if !is_space(chars[i]) {
            return false;
        }
        i += 1;
    }
    true
}


/// Whether every character is a decimal digit.
pub open spec fn spec_all_digits(s: Seq<char>) -> bool {
    forall|i: int| 0 <= i < s.len() ==> '0' as u32 <= ((#[trigger] s[i]) as u32) <= '9' as u32
}

proof fn lemma_decimal_value_mono(s: Seq<char>, k: int)
    requires
        0 <= k <= s.len(),
    ensures
        spec_decimal_value(s.subrange(0, k)) <= spec_decimal_value(s),
    decreases s.len() - k,
{
    if k == s.len() {
        assert(s.subrange(0, k) =~= s);
    } else {
        lemma_decimal_value_mono(s, k + 1);
        let a = s.subrange(0, k);
        let b = s.subrange(0, k + 1);
        assert(b.drop_last() =~= a);
        assert(spec_decimal_value(b) == spec_decimal_value(a) * 10 + spec_digit_val(b.last()));
        assert(spec_decimal_value(a) * 10 >= spec_decimal_value(a)) by (nonlinear_arith);
    }
}

/// Parse a non-empty string of decimal digits whose value fits in 64 bits.
pub fn parse_u64_decimal(s: &str) -> (r: Option<u64>)
    ensures
        r matches Some(v) ==> s@.len() > 0 && spec_all_digits(s@) && v == spec_decimal_value(s@),
        s@.len() > 0 && spec_all_digits(s@) && spec_decimal_value(s@) <= u64::MAX ==> r is Some,
{
    let chars = str_chars(s);
    if chars.len() == 0 {
        return None;
    }
    let mut v: u64 = 0;
    let mut i: usize = 0;
    while i < chars.len()
        invariant
            chars@ == s@,
            i <= s@.len(),
            forall|j: int| 0 <= j < i ==> '0' as u32 <= ((#[trigger] s@[j]) as u32) <= '9' as u32,
            v == spec_decimal_value(s@.subrange(0, i as int)),
        decreases s@.len() - i,
    {
        let c = chars[i];
        let u = c as u32;
        if !(u >= '0' as u32 && u <= '9' as u32) {
            return None;
        }
        let d = (u - '0' as u32) as u64;
        proof {
            let sp = s@.subrange(0, i + 1);
            assert(sp.drop_last() =~= s@.subrange(0, i as int));
            assert(sp.last() == s@[i as int]);
            assert(spec_digit_val(s@[i as int]) == d);
        }
        if v > (u64::MAX - d) / 10 {
            proof {
                let m = (u64::MAX - d) as int;
                let vi = v as int;
                vstd::arithmetic::div_mod::lemma_fundamental_div_mod(m, 10);
                assert(vi * 10 >= (m / 10 + 1) * 10) by (nonlinear_arith)
                    requires
                        vi >= m / 10 + 1,
                ;
                assert(spec_decimal_value(s@.subrange(0, i + 1)) == vi * 10 + d);
                lemma_decimal_value_mono(s@, i + 1);
                assert(spec_decimal_value(s@) > u64::MAX);
            }
            return None;
        }
        proof {
            let m = (u64::MAX - d) as int;
            vstd::arithmetic::div_mod::lemma_fundamental_div_mod(m, 10);
            assert(v as int * 10 <= (m / 10) * 10) by (nonlinear_arith)
                requires
                    v as int <= m / 10,
            ;
        }
        v = v * 10 + d;
        i += 1;
    }
    proof {
        assert(s@.subrange(0, s@.len() as int) =~= s@);
    }
    Some(v)
}

/// Decimal forms sort the same way under numeric order as the numbers they
/// denote.
pub proof fn lemma_decimal_order(a: nat, b: nat)
    requires
        a < b,
    ensures
        spec_decimal_value(spec_decimal_digits(a)) < spec_decimal_value(spec_decimal_digits(b)),
{
    lemma_decimal_round_trip(a);
    lemma_decimal_round_trip(b);
}

} // verus!
