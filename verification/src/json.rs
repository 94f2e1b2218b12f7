//! A small JSON value model.
//!
//! The wire protocol is JSON over WebSocket; this model carries the payloads
//! the library does not interpret, and is what the typed payload structs are
//! encoded into and decoded from. Numbers are modelled as 64-bit signed
//! integers, which covers every numeric field of the protocol.

use vstd::prelude::*;

verus! {

broadcast use vstd::std_specs::vec::axiom_vec_index_decreases;

/// A JSON value.
#[derive(Debug, PartialEq)]
pub enum Json {
    /// `null`
    Null,
    /// `true` or `false`
    Bool(bool),
    /// An integer number.
    Int(i64),
    /// A number that is not a 64-bit integer, kept verbatim as its numeral
    /// text; parsing produces only grammar-valid numerals.
    Num(String),
    /// A string.
    Str(String),
    /// An array of values.
    Arr(Vec<Json>),
    /// An object: a list of fields in order of appearance.
    Obj(Vec<(String, Json)>),
}

/// Whether two JSON values are the same value.
///
/// Arrays and objects are compared element by element, strings by their
/// characters; object fields must appear in the same order.
pub open spec fn json_equiv(a: Json, b: Json) -> bool
    decreases a,
{
    match (a, b) {
        (Json::Null, Json::Null) => true,
        (Json::Bool(x), Json::Bool(y)) => x == y,
        (Json::Int(x), Json::Int(y)) => x == y,
        (Json::Num(x), Json::Num(y)) => x@ == y@,
        (Json::Str(x), Json::Str(y)) => x@ == y@,
        (Json::Arr(x), Json::Arr(y)) => {
            &&& x@.len() == y@.len()
            &&& forall|i: int| 0 <= i < x@.len() ==> json_equiv(#[trigger] x@[i], y@[i])
        },
        (Json::Obj(x), Json::Obj(y)) => {
            &&& x@.len() == y@.len()
            &&& forall|i: int|
                0 <= i < x@.len() ==> (#[trigger] x@[i]).0@ == y@[i].0@ && json_equiv(
                    x@[i].1,
                    y@[i].1,
                )
        },
        _ => false,
    }
}

fn clone_json_vec(v: &Vec<Json>) -> (out: Vec<Json>)
    ensures
        out@.len() == v@.len(),
        forall|j: int| 0 <= j < v@.len() ==> json_equiv(#[trigger] out@[j], v@[j]),
    decreases *v, 0int,
{
    let mut out: Vec<Json> = Vec::new();
    let mut i: usize = 0;
    while i < v.len()
        invariant
            i <= v@.len(),
            out@.len() == i,
            forall|j: int| 0 <= j < i ==> json_equiv(#[trigger] out@[j], v@[j]),
        decreases v@.len() - i,
    {
        out.push(v[i].clone());
        i += 1;
    }
    out
}

fn clone_json_fields(v: &Vec<(String, Json)>) -> (out: Vec<(String, Json)>)
    ensures
        out@.len() == v@.len(),
        forall|j: int|
            0 <= j < v@.len() ==> (#[trigger] out@[j]).0@ == v@[j].0@ && json_equiv(
                out@[j].1,
                v@[j].1,
            ),
    decreases *v, 0int,
{
    let mut out: Vec<(String, Json)> = Vec::new();
    let mut i: usize = 0;
    while i < v.len()
        invariant
            i <= v@.len(),
            out@.len() == i,
            forall|j: int|
                0 <= j < i ==> (#[trigger] out@[j]).0@ == v@[j].0@ && json_equiv(
                    out@[j].1,
                    v@[j].1,
                ),
        decreases v@.len() - i,
    {
        let name = v[i].0.clone();
        let value = v[i].1.clone();
        out.push((name, value));
        i += 1;
    }
    out
}

impl Clone for Json {
    fn clone(&self) -> (r: Self)
        ensures
            json_equiv(r, *self),
        decreases *self, 1int,
    {
        match self {
            Json::Null => Json::Null,
            Json::Bool(b) => Json::Bool(*b),
            Json::Int(n) => Json::Int(*n),
            Json::Num(s) => Json::Num(s.clone()),
            Json::Str(s) => Json::Str(s.clone()),
            Json::Arr(v) => Json::Arr(clone_json_vec(v)),
            Json::Obj(fields) => Json::Obj(clone_json_fields(fields)),
        }
    }
}

/// The value of the first field named `name`, if any.
pub open spec fn spec_obj_get(fields: Seq<(String, Json)>, name: Seq<char>) -> Option<Json>
    decreases fields.len(),
{
    if fields.len() == 0 {
        None
    } else if fields[0].0@ == name {
        Some(fields[0].1)
    } else {
        spec_obj_get(fields.drop_first(), name)
    }
}

/// Look up a field of an object by name.
pub fn obj_get<'a>(fields: &'a Vec<(String, Json)>, name: &str) -> (r: Option<&'a Json>)
    ensures
        match r {
            Some(j) => spec_obj_get(fields@, name@) == Some(*j),
            None => spec_obj_get(fields@, name@) is None,
        },
{
    proof {
        assert(fields@.skip(0) =~= fields@);
    }
    let mut i: usize = 0;
    while i < fields.len()
        invariant
            i <= fields@.len(),
            spec_obj_get(fields@, name@) == spec_obj_get(fields@.skip(i as int), name@),
        decreases fields@.len() - i,
    {
        proof {
            assert(fields@.skip(i as int)[0] == fields@[i as int]);
            assert(fields@.skip(i as int).drop_first() =~= fields@.skip(i + 1));
        }
        if crate::text::str_eq(fields[i].0.as_str(), name) {
            return Some(&fields[i].1);
        }
        i += 1;
    }
    proof {
        assert(fields@.skip(fields@.len() as int).len() == 0);
    }
    None
}


/// The character for one lower-case hexadecimal digit value.
pub open spec fn spec_hex_char(d: nat) -> char {
    if d < 10 {
        crate::text::spec_digit_char(d)
    } else if d == 10 {
        'a'
    } else if d == 11 {
        'b'
    } else if d == 12 {
        'c'
    } else if d == 13 {
        'd'
    } else if d == 14 {
        'e'
    } else {
        'f'
    }
}

/// The escaped form of one character inside a JSON string literal.
pub open spec fn spec_escape_char(c: char) -> Seq<char> {
    if c == '"' {
        seq!['\\', '"']
    } else if c == '\\' {
        seq!['\\', '\\']
    } else if (c as u32) < 0x20 {
        seq![
            '\\',
            'u',
            '0',
            '0',
            spec_hex_char((c as u32 / 16) as nat),
            spec_hex_char((c as u32 % 16) as nat),
        ]
    } else {
        seq![c]
    }
}

/// The escaped form of a whole string.
pub open spec fn spec_escape(s: Seq<char>) -> Seq<char>
    decreases s.len(),
{
    if s.len() == 0 {
        Seq::empty()
    } else {
        spec_escape(s.drop_last()) + spec_escape_char(s.last())
    }
}

/// The JSON text of a string value, quotes included.
pub open spec fn spec_write_string(s: Seq<char>) -> Seq<char> {
    seq!['"'] + spec_escape(s) + seq!['"']
}

/// The JSON text of an integer.
pub open spec fn spec_write_int(n: i64) -> Seq<char> {
    if n < 0 {
        seq!['-'] + crate::text::spec_decimal_digits((-(n as int)) as nat)
    } else {
        crate::text::spec_decimal_digits(n as nat)
    }
}

/// The JSON text of a value: no whitespace, object fields in order.
pub open spec fn spec_write_json(j: Json) -> Seq<char>
    decreases j, 1int, 0int,
{
    match j {
        Json::Null => seq!['n', 'u', 'l', 'l'],
        Json::Bool(b) => if b {
            seq!['t', 'r', 'u', 'e']
        } else {
            seq!['f', 'a', 'l', 's', 'e']
        },
        Json::Int(n) => spec_write_int(n),
        Json::Num(s) => s@,
        Json::Str(s) => spec_write_string(s@),
        Json::Arr(v) => seq!['['] + spec_write_elems(v, v@.len() as int) + seq![']'],
        Json::Obj(f) => seq!['{'] + spec_write_fields(f, f@.len() as int) + seq!['}'],
    }
}

/// The JSON text of the first `k` elements of an array, comma-separated.
pub open spec fn spec_write_elems(v: Vec<Json>, k: int) -> Seq<char>
    decreases v, 0int, k,
    when 0 <= k <= v@.len()
{
    if k <= 0 {
        Seq::empty()
    } else if k == 1 {
        spec_write_json(v@[0])
    } else {
        spec_write_elems(v, k - 1) + seq![','] + spec_write_json(v@[k - 1])
    }
}

/// The JSON text of the first `k` fields of an object, comma-separated.
pub open spec fn spec_write_fields(f: Vec<(String, Json)>, k: int) -> Seq<char>
    decreases f, 0int, k,
    when 0 <= k <= f@.len()
{
    if k <= 0 {
        Seq::empty()
    } else if k == 1 {
        spec_write_string(f@[0].0@) + seq![':'] + spec_write_json(f@[0].1)
    } else {
        spec_write_fields(f, k - 1) + seq![','] + spec_write_string(f@[k - 1].0@) + seq![':']
            + spec_write_json(f@[k - 1].1)
    }
}

fn hex_char(d: u32) -> (c: char)
    requires
        d < 16,
    ensures
        c == spec_hex_char(d as nat),
{
    if d < 10 {
        crate::text::decimal_digit_char(d as u64)
    } else if d == 10 {
        'a'
    } else if d == 11 {
        'b'
    } else if d == 12 {
        'c'
    } else if d == 13 {
        'd'
    } else if d == 14 {
        'e'
    } else {
        'f'
    }
}

fn push_escaped(s: &str, out: &mut Vec<char>)
    ensures
        final(out)@ == old(out)@ + spec_escape(s@),
{
    let chars = crate::text::str_chars(s);
    let mut i: usize = 0;
    proof {
        assert(s@.subrange(0, 0) =~= Seq::<char>::empty());
        assert(out@ =~= old(out)@ + spec_escape(s@.subrange(0, 0)));
    }
    while i < chars.len()
        invariant
            chars@ == s@,
            i <= s@.len(),
            out@ == old(out)@ + spec_escape(s@.subrange(0, i as int)),
        decreases s@.len() - i,
    {
        proof {
            assert(s@.subrange(0, i + 1).drop_last() =~= s@.subrange(0, i as int));
            assert(s@.subrange(0, i + 1).last() == s@[i as int]);
        }
        let c = chars[i];
        let u = c as u32;
        if c == '"' {
            out.push('\\');
            out.push('"');
        } else if c == '\\' {
            out.push('\\');
            out.push('\\');
        } else if u < 0x20 {
            out.push('\\');
            out.push('u');
            out.push('0');
            out.push('0');
            out.push(hex_char(u / 16));
            out.push(hex_char(u % 16));
        } else {
            out.push(c);
        }
        proof {
            assert(out@ =~= old(out)@ + spec_escape(s@.subrange(0, i + 1)));
        }
        i += 1;
    }
    proof {
        assert(s@.subrange(0, s@.len() as int) =~= s@);
    }
}

fn push_string(s: &str, out: &mut Vec<char>)
    ensures
        final(out)@ == old(out)@ + spec_write_string(s@),
{
    out.push('"');
    push_escaped(s, out);
    out.push('"');
    proof {
        assert(out@ =~= old(out)@ + spec_write_string(s@));
    }
}

fn push_int(n: i64, out: &mut Vec<char>)
    ensures
        final(out)@ == old(out)@ + spec_write_int(n),
{
    if n < 0 {
        out.push('-');
        let m: u64 = if n == i64::MIN {
            9223372036854775808u64
        } else {
            (-n) as u64
        };
        proof {
            assert(m as nat == (-(n as int)) as nat);
        }
        crate::text::push_decimal_u64(m, out);
        proof {
            assert(out@ =~= old(out)@ + spec_write_int(n));
        }
    } else {
        crate::text::push_decimal_u64(n as u64, out);
    }
}

fn push_json(j: &Json, out: &mut Vec<char>)
    ensures
        final(out)@ == old(out)@ + spec_write_json(*j),
    decreases *j, 1int, 0int,
{
    match j {
        Json::Null => {
            out.push('n');
            out.push('u');
            out.push('l');
            out.push('l');
            proof {
                assert(out@ =~= old(out)@ + spec_write_json(*j));
            }
        },
        Json::Bool(b) => {
            if *b {
                out.push('t');
                out.push('r');
                out.push('u');
                out.push('e');
            } else {
                out.push('f');
                out.push('a');
                out.push('l');
                out.push('s');
                out.push('e');
            }
            proof {
                assert(out@ =~= old(out)@ + spec_write_json(*j));
            }
        },
        Json::Int(n) => {
            push_int(*n, out);
        },
        Json::Num(s) => {
            crate::text::push_str_chars(out, s.as_str());
        },
        Json::Str(s) => {
            push_string(s.as_str(), out);
        },
        Json::Arr(v) => {
            out.push('[');
            push_elems(v, out);
            out.push(']');
            proof {
                assert(out@ =~= old(out)@ + spec_write_json(*j));
            }
        },
        Json::Obj(f) => {
            out.push('{');
            push_fields(f, out);
            out.push('}');
            proof {
                assert(out@ =~= old(out)@ + spec_write_json(*j));
            }
        },
    }
}

fn push_elems(v: &Vec<Json>, out: &mut Vec<char>)
    ensures
        final(out)@ == old(out)@ + spec_write_elems(*v, v@.len() as int),
    decreases *v, 0int,
{
    let mut i: usize = 0;
    proof {
        assert(out@ =~= old(out)@ + spec_write_elems(*v, 0));
    }
    while i < v.len()
        invariant
            i <= v@.len(),
            out@ == old(out)@ + spec_write_elems(*v, i as int),
        decreases v@.len() - i,
    {
        if i > 0 {
            out.push(',');
        }
        push_json(&v[i], out);
        proof {
            assert(out@ =~= old(out)@ + spec_write_elems(*v, i + 1));
        }
        i += 1;
    }
}

fn push_fields(f: &Vec<(String, Json)>, out: &mut Vec<char>)
    ensures
        final(out)@ == old(out)@ + spec_write_fields(*f, f@.len() as int),
    decreases *f, 0int,
{
    let mut i: usize = 0;
    proof {
        assert(out@ =~= old(out)@ + spec_write_fields(*f, 0));
    }
    while i < f.len()
        invariant
            i <= f@.len(),
            out@ == old(out)@ + spec_write_fields(*f, i as int),
        decreases f@.len() - i,
    {
        if i > 0 {
            out.push(',');
        }
        push_string(f[i].0.as_str(), out);
        out.push(':');
        push_json(&f[i].1, out);
        proof {
            assert(out@ =~= old(out)@ + spec_write_fields(*f, i + 1));
        }
        i += 1;
    }
}

/// Write a JSON value as text: no whitespace, object fields in order.
pub fn json_to_string(j: &Json) -> (r: String)
    ensures
        r@ == spec_write_json(*j),
{
    let mut out: Vec<char> = Vec::new();
    push_json(j, &mut out);
    crate::text::chars_to_string(&out)
}


/// Whether a character is JSON insignificant whitespace.
pub open spec fn is_json_ws(c: char) -> bool {
    c == ' ' || c == '\t' || c == '\n' || c == '\r'
}

fn skip_ws(chars: &Vec<char>, pos: usize) -> (r: usize)
    requires
        pos <= chars@.len(),
    ensures
        pos <= r <= chars@.len(),
{
    let mut i = pos;
    while i < chars.len()
        invariant
            pos <= i <= chars@.len(),
        decreases chars@.len() - i,
    {
        let c = chars[i];
        if c == ' ' || c == '\t' || c == '\n' || c == '\r' {
            i += 1;
        } else {
            return i;
        }
    }
    i
}

fn hex_val(c: char) -> (r: Option<u32>)
    ensures
        r matches Some(v) ==> v < 16,
{
    let u = c as u32;
    if u >= '0' as u32 && u <= '9' as u32 {
        Some(u - '0' as u32)
    } else if u >= 'a' as u32 && u <= 'f' as u32 {
        Some(u - 'a' as u32 + 10)
    } else if u >= 'A' as u32 && u <= 'F' as u32 {
        Some(u - 'A' as u32 + 10)
    } else {
        None
    }
}

fn hex4(chars: &Vec<char>, pos: usize) -> (r: Option<u32>)
    requires
        pos + 4 <= chars@.len(),
    ensures
        r matches Some(v) ==> v < 0x1_0000,
{
    let n = chars.len();
    let a = match hex_val(chars[pos]) {
        Some(v) => v,
        None => {
            return None;
        },
    };
    let b = match hex_val(chars[pos + 1]) {
        Some(v) => v,
        None => {
            return None;
        },
    };
    let c = match hex_val(chars[pos + 2]) {
        Some(v) => v,
        None => {
            return None;
        },
    };
    let d = match hex_val(chars[pos + 3]) {
        Some(v) => v,
        None => {
            return None;
        },
    };
    Some(((a * 16 + b) * 16 + c) * 16 + d)
}

fn parse_string_body(chars: &Vec<char>, pos: usize) -> (r: Result<(String, usize), ()>)
    requires
        pos <= chars@.len(),
    ensures
        r matches Ok(p) ==> pos < p.1 <= chars@.len(),
{
    if pos >= chars.len() {
        return Err(());
    }
    if chars[pos] != '"' {
        return Err(());
    }
    let mut out: Vec<char> = Vec::new();
    let mut i = pos + 1;
    while i < chars.len()
        invariant
            pos < i <= chars@.len(),
        decreases chars@.len() - i,
    {
        let c = chars[i];
        if c == '"' {
            return Ok((crate::text::chars_to_string(&out), i + 1));
        } else if c == '\\' {
            if i + 1 >= chars.len() {
                return Err(());
            }
            let e = chars[i + 1];
            if e == '"' || e == '\\' || e == '/' {
                out.push(e);
                i += 2;
            } else if e == 'b' {
                out.push('\u{8}');
                i += 2;
            } else if e == 'f' {
                out.push('\u{c}');
                i += 2;
            } else if e == 'n' {
                out.push('\n');
                i += 2;
            } else if e == 'r' {
                out.push('\r');
                i += 2;
            } else if e == 't' {
                out.push('\t');
                i += 2;
            } else if e == 'u' {
                if chars.len() - i < 6 {
                    return Err(());
                }
                let u = match hex4(chars, i + 2) {
                    Some(u) => u,
                    None => {
                        return Err(());
                    },
                };
                if 0xD800 <= u && u < 0xDC00 {
                    // A high surrogate must be followed by an escaped low
                    // surrogate; the pair encodes one supplementary character.
                    if chars.len() - i < 12 {
                        return Err(());
                    }
                    if chars[i + 6] != '\\' || chars[i + 7] != 'u' {
                        return Err(());
                    }
                    let lo = match hex4(chars, i + 8) {
                        Some(lo) => lo,
                        None => {
                            return Err(());
                        },
                    };
                    if !(0xDC00 <= lo && lo < 0xE000) {
                        return Err(());
                    }
                    let v = 0x1_0000 + (u - 0xD800) * 0x400 + (lo - 0xDC00);
                    match char::from_u32(v) {
                        Some(ch) => {
                            out.push(ch);
                        },
                        None => {
                            return Err(());
                        },
                    }
                    i += 12;
                } else {
                    match char::from_u32(u) {
                        Some(ch) => {
                            out.push(ch);
                        },
                        None => {
                            return Err(());
                        },
                    }
                    i += 6;
                }
            } else {
                return Err(());
            }
        } else {
            out.push(c);
            i += 1;
        }
    }
    Err(())
}

fn parse_number(chars: &Vec<char>, pos: usize) -> (r: Result<(Json, usize), ()>)
    requires
        pos <= chars@.len(),
    ensures
        r matches Ok(p) ==> pos < p.1 <= chars@.len(),
{
    let mut i = pos;
    let mut neg = false;
    if i < chars.len() && chars[i] == '-' {
        neg = true;
        i += 1;
    }
    if i >= chars.len() {
        return Err(());
    }
    let first = chars[i] as u32;
    if !(first >= '0' as u32 && first <= '9' as u32) {
        return Err(());
    }
    // the integer digits, with the value tracked until it overflows
    let mut m: u64 = (first - '0' as u32) as u64;
    let mut overflowed = false;
    i += 1;
    loop
        invariant
            pos < i <= chars@.len(),
        decreases chars@.len() - i,
    {
        if i >= chars.len() {
            break;
        }
        let u = chars[i] as u32;
        if !(u >= '0' as u32 && u <= '9' as u32) {
            break;
        }
        let d = (u - '0' as u32) as u64;
        if m > (u64::MAX - d) / 10 {
            overflowed = true;
        } else {
            proof {
                let mi = m as int;
                let li = (u64::MAX - d) as int;
                vstd::arithmetic::div_mod::lemma_fundamental_div_mod(li, 10);
                assert(mi * 10 <= (li / 10) * 10) by (nonlinear_arith)
                    requires
                        mi <= li / 10,
                ;
            }
            m = m * 10 + d;
        }
        i += 1;
    }
    // an optional fraction and exponent make the numeral non-integer
    let mut plain = true;
    if i < chars.len() && chars[i] == '.' {
        plain = false;
        i += 1;
        if i >= chars.len() {
            return Err(());
        }
        let u = chars[i] as u32;
        if !(u >= '0' as u32 && u <= '9' as u32) {
            return Err(());
        }
        loop
            invariant
                pos < i <= chars@.len(),
            decreases chars@.len() - i,
        {
            if i >= chars.len() {
                break;
            }
            let u = chars[i] as u32;
            if !(u >= '0' as u32 && u <= '9' as u32) {
                break;
            }
            i += 1;
        }
    }
    if i < chars.len() && (chars[i] == 'e' || chars[i] == 'E') {
        plain = false;
        i += 1;
        if i < chars.len() && (chars[i] == '+' || chars[i] == '-') {
            i += 1;
        }
        if i >= chars.len() {
            return Err(());
        }
        let u = chars[i] as u32;
        if !(u >= '0' as u32 && u <= '9' as u32) {
            return Err(());
        }
        loop
            invariant
                pos < i <= chars@.len(),
            decreases chars@.len() - i,
        {
            if i >= chars.len() {
                break;
            }
            let u = chars[i] as u32;
            if !(u >= '0' as u32 && u <= '9' as u32) {
                break;
            }
            i += 1;
        }
    }
    if plain && !overflowed {
        let fits = if neg {
            m <= 9223372036854775808u64
        } else {
            m <= 9223372036854775807u64
        };
        if fits {
            let value: i64 = if neg {
                if m == 9223372036854775808u64 {
                    i64::MIN
                } else {
                    -(m as i64)
                }
            } else {
                m as i64
            };
            return Ok((Json::Int(value), i));
        }
    }
    let text = crate::text::chars_segment(chars, pos, i);
    Ok((Json::Num(text), i))
}

/// Parse one JSON value starting at `pos`; whitespace may precede it.
///
/// On success the value ends strictly after `pos`; integers must fit in an
/// `i64`, and fractions and exponents are rejected.
pub fn parse_value(chars: &Vec<char>, pos: usize) -> (r: Result<(Json, usize), ()>)
    requires
        pos <= chars@.len(),
    ensures
        r matches Ok(p) ==> pos < p.1 <= chars@.len(),
    decreases chars@.len() - pos,
{
    let i = skip_ws(chars, pos);
    if i >= chars.len() {
        return Err(());
    }
    let c = chars[i];
    if c == 'n' {
        if chars.len() - i >= 4 && chars[i + 1] == 'u' && chars[i + 2] == 'l' && chars[i + 3]
            == 'l' {
            Ok((Json::Null, i + 4))
        } else {
            Err(())
        }
    } else if c == 't' {
        if chars.len() - i >= 4 && chars[i + 1] == 'r' && chars[i + 2] == 'u' && chars[i + 3]
            == 'e' {
            Ok((Json::Bool(true), i + 4))
        } else {
            Err(())
        }
    } else if c == 'f' {
        if chars.len() - i >= 5 && chars[i + 1] == 'a' && chars[i + 2] == 'l' && chars[i + 3]
            == 's' && chars[i + 4] == 'e' {
            Ok((Json::Bool(false), i + 5))
        } else {
            Err(())
        }
    } else if c == '"' {
        match parse_string_body(chars, i) {
            Ok((s, j)) => Ok((Json::Str(s), j)),
            Err(()) => Err(()),
        }
    } else if c == '-' || (c as u32 >= '0' as u32 && c as u32 <= '9' as u32) {
        parse_number(chars, i)
    } else if c == '[' {
        let mut items: Vec<Json> = Vec::new();
        let mut j = skip_ws(chars, i + 1);
        if j < chars.len() && chars[j] == ']' {
            return Ok((Json::Arr(items), j + 1));
        }
        loop
            invariant
                pos <= i < j <= chars@.len(),
                i < chars@.len(),
            decreases chars@.len() - j,
        {
            let (v, j2) = match parse_value(chars, j) {
                Ok(p) => p,
                Err(()) => {
                    return Err(());
                },
            };
            items.push(v);
            let j3 = skip_ws(chars, j2);
            if j3 >= chars.len() {
                return Err(());
            }
            if chars[j3] == ',' {
                j = j3 + 1;
            } else if chars[j3] == ']' {
                return Ok((Json::Arr(items), j3 + 1));
            } else {
                return Err(());
            }
        }
    } else if c == '{' {
        let mut fields: Vec<(String, Json)> = Vec::new();
        let mut j = skip_ws(chars, i + 1);
        if j < chars.len() && chars[j] == '}' {
            return Ok((Json::Obj(fields), j + 1));
        }
        loop
            invariant
                pos <= i < j <= chars@.len(),
                i < chars@.len(),
            decreases chars@.len() - j,
        {
            let (key, j2) = match parse_string_body(chars, j) {
                Ok(p) => p,
                Err(()) => {
                    return Err(());
                },
            };
            let j3 = skip_ws(chars, j2);
            if j3 >= chars.len() {
                return Err(());
            }
            if chars[j3] != ':' {
                return Err(());
            }
            let (v, j4) = match parse_value(chars, j3 + 1) {
                Ok(p) => p,
                Err(()) => {
                    return Err(());
                },
            };
            fields.push((key, v));
            let j5 = skip_ws(chars, j4);
            if j5 >= chars.len() {
                return Err(());
            }
            if chars[j5] == ',' {
                let j6 = skip_ws(chars, j5 + 1);
                if j6 <= j {
                    return Err(());
                }
                j = j6;
            } else if chars[j5] == '}' {
                return Ok((Json::Obj(fields), j5 + 1));
            } else {
                return Err(());
            }
        }
    } else {
        Err(())
    }
}

/// Parse a whole string as one JSON value; only whitespace may surround it.
pub fn json_from_str(s: &str) -> (r: Option<Json>)
    ensures
        s@.len() == 0 ==> r is None,
{
    let chars = crate::text::str_chars(s);
    match parse_value(&chars, 0) {
        Ok((v, end)) => {
            let end2 = skip_ws(&chars, end);
            if end2 == chars.len() {
                Some(v)
            } else {
                None
            }
        },
        Err(()) => None,
    }
}


/// Two values that are each the same value as a third are the same value as
/// each other.
pub proof fn lemma_json_equiv_joint(x: Json, y: Json, j: Json)
    requires
        json_equiv(x, j),
        json_equiv(y, j),
    ensures
        json_equiv(x, y),
    decreases x,
{
    match (x, y, j) {
        (Json::Arr(a), Json::Arr(b), Json::Arr(c)) => {
            assert forall|i: int| 0 <= i < a@.len() implies json_equiv(
                #[trigger] a@[i],
                b@[i],
            ) by {
                assert(json_equiv(a@[i], c@[i]));
                assert(json_equiv(b@[i], c@[i]));
                lemma_json_equiv_joint(a@[i], b@[i], c@[i]);
            }
        },
        (Json::Obj(a), Json::Obj(b), Json::Obj(c)) => {
            assert forall|i: int|
                0 <= i < a@.len() implies (#[trigger] a@[i]).0@ == b@[i].0@ && json_equiv(
                a@[i].1,
                b@[i].1,
            ) by {
                assert(a@[i].0@ == c@[i].0@ && json_equiv(a@[i].1, c@[i].1));
                assert(b@[i].0@ == c@[i].0@ && json_equiv(b@[i].1, c@[i].1));
                lemma_json_equiv_joint(a@[i].1, b@[i].1, c@[i].1);
            }
        },
        _ => {},
    }
}


/// A name that no field has looks up to nothing.
pub proof fn lemma_obj_get_absent(fields: Seq<(String, Json)>, name: Seq<char>)
    requires
        forall|i: int| 0 <= i < fields.len() ==> (#[trigger] fields[i]).0@ != name,
    ensures
        spec_obj_get(fields, name) is None,
    decreases fields.len(),
{
    if fields.len() > 0 {
        assert(forall|i: int|
            0 <= i < fields.drop_first().len() ==> (#[trigger] fields.drop_first()[i])
                == fields[i + 1]);
        lemma_obj_get_absent(fields.drop_first(), name);
    }
}

/// A name looks up to the value of its first occurrence.
pub proof fn lemma_obj_get_at(fields: Seq<(String, Json)>, name: Seq<char>, k: int)
    requires
        0 <= k < fields.len(),
        fields[k].0@ == name,
        forall|i: int| 0 <= i < k ==> (#[trigger] fields[i]).0@ != name,
    ensures
        spec_obj_get(fields, name) == Some(fields[k].1),
    decreases k,
{
    if k > 0 {
        assert(forall|i: int|
            0 <= i < fields.drop_first().len() ==> (#[trigger] fields.drop_first()[i])
                == fields[i + 1]);
        lemma_obj_get_at(fields.drop_first(), name, k - 1);
    }
}


/// Being the same value is symmetric.
pub proof fn lemma_json_equiv_symm(a: Json, b: Json)
    requires
        json_equiv(a, b),
    ensures
        json_equiv(b, a),
    decreases a,
{
    match (a, b) {
        (Json::Arr(x), Json::Arr(y)) => {
            assert forall|i: int| 0 <= i < y@.len() implies json_equiv(
                #[trigger] y@[i],
                x@[i],
            ) by {
                assert(json_equiv(x@[i], y@[i]));
                lemma_json_equiv_symm(x@[i], y@[i]);
            }
        },
        (Json::Obj(x), Json::Obj(y)) => {
            assert forall|i: int|
                0 <= i < y@.len() implies (#[trigger] y@[i]).0@ == x@[i].0@ && json_equiv(
                y@[i].1,
                x@[i].1,
            ) by {
                assert(x@[i].0@ == y@[i].0@ && json_equiv(x@[i].1, y@[i].1));
                lemma_json_equiv_symm(x@[i].1, y@[i].1);
            }
        },
        _ => {},
    }
}

} // verus!
