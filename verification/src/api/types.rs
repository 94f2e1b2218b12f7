//! Field types of the wire protocol.

use vstd::prelude::*;
use vstd::string::*;
use crate::text::{chars_to_string, clone_opt_string, str_chars, str_eq, spec_digit_char};

verus! {

broadcast use vstd::string::group_string_axioms;

/// A 13-character base-36 encoding of an unsigned 64-bit integer, used as a
/// timestamped unique identifier.
#[derive(Debug, Clone, Copy, Hash, PartialEq, Eq, PartialOrd, Ord, Structural)]
pub struct Snowflake(pub u64);

/// The character for one base-36 digit value.
pub open spec fn spec_b36_char(d: nat) -> char {
    if d < 10 {
        spec_digit_char(d)
    } else if d == 10 {
        'a'
    } else if d == 11 {
        'b'
    } else if d == 12 {
        'c'
    } else if d == 13 {
        'd'
    } else if d == 14 {
        'e'
    } else if d == 15 {
        'f'
    } else if d == 16 {
        'g'
    } else if d == 17 {
        'h'
    } else if d == 18 {
        'i'
    } else if d == 19 {
        'j'
    } else if d == 20 {
        'k'
    } else if d == 21 {
        'l'
    } else if d == 22 {
        'm'
    } else if d == 23 {
        'n'
    } else if d == 24 {
        'o'
    } else if d == 25 {
        'p'
    } else if d == 26 {
        'q'
    } else if d == 27 {
        'r'
    } else if d == 28 {
        's'
    } else if d == 29 {
        't'
    } else if d == 30 {
        'u'
    } else if d == 31 {
        'v'
    } else if d == 32 {
        'w'
    } else if d == 33 {
        'x'
    } else if d == 34 {
        'y'
    } else {
        'z'
    }
}

/// Whether a character is a valid base-36 digit (either case).
pub open spec fn spec_b36_digit_ok(c: char) -> bool {
    let u = c as u32;
    ('0' as u32 <= u && u <= '9' as u32) || ('a' as u32 <= u && u <= 'z' as u32) || ('A' as u32
        <= u && u <= 'Z' as u32)
}

/// The numeric value of a base-36 digit character.
pub open spec fn spec_b36_val(c: char) -> nat {
    let u = c as u32;
    if '0' as u32 <= u && u <= '9' as u32 {
        (u - '0' as u32) as nat
    } else if 'a' as u32 <= u && u <= 'z' as u32 {
        (u - 'a' as u32 + 10) as nat
    } else {
        (u - 'A' as u32 + 10) as nat
    }
}

/// Whether a character is a canonical (lower-case) base-36 digit.
pub open spec fn spec_b36_canonical_char(c: char) -> bool {
    let u = c as u32;
    ('0' as u32 <= u && u <= '9' as u32) || ('a' as u32 <= u && u <= 'z' as u32)
}

/// The last `len` base-36 digits of `n`, most significant first.
pub open spec fn spec_b36_digits(n: nat, len: nat) -> Seq<char>
    decreases len,
{
    if len == 0 {
        Seq::empty()
    } else {
        spec_b36_digits(n / 36, (len - 1) as nat).push(spec_b36_char(n % 36))
    }
}

/// The numeric value of a sequence of base-36 digit characters.
pub open spec fn spec_b36_value(s: Seq<char>) -> nat
    decreases s.len(),
{
    if s.len() == 0 {
        0
    } else {
        spec_b36_value(s.drop_last()) * 36 + spec_b36_val(s.last())
    }
}

/// The canonical 13-character form of a snowflake value.
pub open spec fn spec_snowflake_str(n: u64) -> Seq<char> {
    spec_b36_digits(n as nat, 13)
}

proof fn lemma_b36_value_of_digits(n: nat, len: nat)
    ensures
        spec_b36_value(spec_b36_digits(n, len)) == n as int % vstd::arithmetic::power::pow(
            36,
            len,
        ),
    decreases len,
{
    vstd::arithmetic::power::lemma_pow_positive(36, len);
    let ni = n as int;
    if len == 0 {
        assert(vstd::arithmetic::power::pow(36, 0) == 1) by {
            vstd::arithmetic::power::lemma_pow0(36);
        }
        assert(ni % 1 == 0) by {
            vstd::arithmetic::div_mod::lemma_fundamental_div_mod_converse(ni, 1, ni, 0);
        }
    } else {
        let len1 = (len - 1) as nat;
        lemma_b36_value_of_digits(n / 36, len1);
        let s = spec_b36_digits(n, len);
        assert(s.drop_last() =~= spec_b36_digits(n / 36, len1));
        assert(s.last() == spec_b36_char(n % 36));
        assert(spec_b36_val(spec_b36_char(n % 36)) == n % 36);
        let p1 = vstd::arithmetic::power::pow(36, len1);
        let p = vstd::arithmetic::power::pow(36, len);
        vstd::arithmetic::power::lemma_pow_positive(36, len1);
        assert(p == 36 * p1) by {
            vstd::arithmetic::power::lemma_pow1(36);
            vstd::arithmetic::power::lemma_pow_adds(36, 1, len1);
        }
        assert(spec_b36_value(s) == ((ni / 36) % p1) * 36 + ni % 36);
        assert(ni % (36 * p1) == 36 * ((ni / 36) % p1) + ni % 36) by {
            vstd::arithmetic::div_mod::lemma_breakdown(ni, 36, p1);
        }
    }
}

proof fn lemma_b36_value_mono(s: Seq<char>, k: int)
    requires
        0 <= k <= s.len(),
    ensures
        spec_b36_value(s.subrange(0, k)) <= spec_b36_value(s),
    decreases s.len() - k,
{
    if k == s.len() {
        assert(s.subrange(0, k) =~= s);
    } else {
        lemma_b36_value_mono(s, k + 1);
        let a = s.subrange(0, k);
        let b = s.subrange(0, k + 1);
        assert(b.drop_last() =~= a);
        assert(spec_b36_value(b) == spec_b36_value(a) * 36 + spec_b36_val(b.last()));
        assert(spec_b36_value(a) * 36 >= spec_b36_value(a)) by (nonlinear_arith);
    }
}

proof fn lemma_b36_char_of_val(c: char)
    requires
        spec_b36_canonical_char(c),
    ensures
        spec_b36_char(spec_b36_val(c)) == c,
{
    let u = c as u32;
    if '0' as u32 <= u && u <= '9' as u32 {
        assert(spec_b36_char(spec_b36_val(c)) == c);
    } else {
        assert(spec_b36_char(spec_b36_val(c)) == c);
    }
}

proof fn lemma_b36_digits_of_value(s: Seq<char>)
    requires
        forall|i: int| 0 <= i < s.len() ==> spec_b36_canonical_char(s[i]),
    ensures
        spec_b36_digits(spec_b36_value(s), s.len() as nat) =~= s,
    decreases s.len(),
{
    if s.len() > 0 {
        let s0 = s.drop_last();
        let c = s.last();
        let v0 = spec_b36_value(s0);
        let d = spec_b36_val(c);
        let v = spec_b36_value(s);
        assert(forall|i: int| 0 <= i < s0.len() ==> spec_b36_canonical_char(#[trigger] s0[i]))
            by {
            assert(forall|i: int| 0 <= i < s0.len() ==> s0[i] == s[i]);
        }
        lemma_b36_digits_of_value(s0);
        assert(d < 36);
        assert(v == v0 * 36 + d);
        assert(v / 36 == v0 && v % 36 == d) by {
            vstd::arithmetic::div_mod::lemma_fundamental_div_mod_converse(
                v as int,
                36,
                v0 as int,
                d as int,
            );
        }
        assert(spec_b36_char(d) == c) by {
            lemma_b36_char_of_val(c);
        }
        assert(spec_b36_digits(v, s.len() as nat) == spec_b36_digits(v0, s0.len() as nat).push(
            spec_b36_char(d),
        ));
    }
}

/// Why a string failed to parse as a number.
#[derive(Debug, Clone, Copy, PartialEq, Eq, Structural)]
pub enum ParseIntErrorKind {
    /// A character was not a digit of the expected base.
    InvalidDigit,
    /// The value does not fit in the target integer type.
    Overflow,
}

/// Why a string failed to parse as a [`Snowflake`].
#[derive(Debug, Clone, Copy, PartialEq, Eq, Structural)]
pub enum ParseSnowflakeError {
    /// The string's length in characters was not 13.
    InvalidLength(usize),
    /// The string was 13 characters long but not a base-36 number.
    ParseIntError(ParseIntErrorKind),
}

/// The exec counterpart of `spec_b36_char`.
fn b36_char(d: u64) -> (c: char)
    requires
        d < 36,
    ensures
        c == spec_b36_char(d as nat),
{
    if d == 0 {
        '0'
    } else if d == 1 {
        '1'
    } else if d == 2 {
        '2'
    } else if d == 3 {
        '3'
    } else if d == 4 {
        '4'
    } else if d == 5 {
        '5'
    } else if d == 6 {
        '6'
    } else if d == 7 {
        '7'
    } else if d == 8 {
        '8'
    } else if d == 9 {
        '9'
    } else if d == 10 {
        'a'
    } else if d == 11 {
        'b'
    } else if d == 12 {
        'c'
    } else if d == 13 {
        'd'
    } else if d == 14 {
        'e'
    } else if d == 15 {
        'f'
    } else if d == 16 {
        'g'
    } else if d == 17 {
        'h'
    } else if d == 18 {
        'i'
    } else if d == 19 {
        'j'
    } else if d == 20 {
        'k'
    } else if d == 21 {
        'l'
    } else if d == 22 {
        'm'
    } else if d == 23 {
        'n'
    } else if d == 24 {
        'o'
    } else if d == 25 {
        'p'
    } else if d == 26 {
        'q'
    } else if d == 27 {
        'r'
    } else if d == 28 {
        's'
    } else if d == 29 {
        't'
    } else if d == 30 {
        'u'
    } else if d == 31 {
        'v'
    } else if d == 32 {
        'w'
    } else if d == 33 {
        'x'
    } else if d == 34 {
        'y'
    } else {
        'z'
    }
}

fn push_b36_digits(n: u64, len: u64, out: &mut Vec<char>)
    ensures
        final(out)@ == old(out)@ + spec_b36_digits(n as nat, len as nat),
    decreases len,
{
    if len > 0 {
        push_b36_digits(n / 36, len - 1, out);
        out.push(b36_char(n % 36));
        proof {
            assert(final(out)@ =~= old(out)@ + spec_b36_digits(n as nat, len as nat));
        }
    } else {
        proof {
            assert(final(out)@ =~= old(out)@ + spec_b36_digits(n as nat, 0));
        }
    }
}

impl Snowflake {
    /// Maximum snowflake value; the upper bit of the 64-bit range is kept
    /// clear for compatibility with storage that uses signed integers.
    pub fn max() -> (r: Snowflake)
        ensures
            r.0 == 0x7FFF_FFFF_FFFF_FFFFu64,
    {
        Snowflake(0x7FFF_FFFF_FFFF_FFFFu64)
    }

    /// Format the snowflake in its canonical 13-character base-36 form.
    pub fn format(&self) -> (r: String)
        ensures
            r@ == spec_snowflake_str(self.0),
            r@.len() == 13,
    {
        let mut out: Vec<char> = Vec::new();
        push_b36_digits(self.0, 13, &mut out);
        proof {
            lemma_b36_digits_len(self.0 as nat, 13);
        }
        chars_to_string(&out)
    }

    /// Parse a snowflake from its 13-character base-36 form.
    ///
    /// A string of any other length is rejected with `InvalidLength`; a
    /// 13-character string with a character outside base-36 is rejected as an
    /// invalid digit, one whose value exceeds the 64-bit range as an
    /// overflow; both upper- and lower-case digits are accepted.
    pub fn from_str(s: &str) -> (r: Result<Snowflake, ParseSnowflakeError>)
        ensures
            r == Result::<Snowflake, ParseSnowflakeError>::Err(
                ParseSnowflakeError::InvalidLength(s@.len() as usize),
            ) <==> s@.len() != 13,
            s@.len() == 13 ==> {
                if exists|i: int| 0 <= i < 13 && !spec_b36_digit_ok(#[trigger] s@[i]) {
                    r == Result::<Snowflake, ParseSnowflakeError>::Err(
                        ParseSnowflakeError::ParseIntError(ParseIntErrorKind::InvalidDigit),
                    )
                } else if spec_b36_value(s@) > u64::MAX {
                    r == Result::<Snowflake, ParseSnowflakeError>::Err(
                        ParseSnowflakeError::ParseIntError(ParseIntErrorKind::Overflow),
                    )
                } else {
                    r == Result::<Snowflake, ParseSnowflakeError>::Ok(
                        Snowflake(spec_b36_value(s@) as u64),
                    )
                }
            },
    {
        let chars = str_chars(s);
        if chars.len() != 13 {
            return Err(ParseSnowflakeError::InvalidLength(chars.len()));
        }
        let mut i: usize = 0;
        while i < 13
            invariant
                chars@ == s@,
                chars@.len() == 13,
                i <= 13,
                forall|j: int| 0 <= j < i ==> spec_b36_digit_ok(#[trigger] s@[j]),
            decreases 13 - i,
        {
            let u = chars[i] as u32;
            let digit_ok = (u >= '0' as u32 && u <= '9' as u32) || (u >= 'a' as u32 && u <= 'z'
                as u32) || (u >= 'A' as u32 && u <= 'Z' as u32);
            if !digit_ok {
                return Err(ParseSnowflakeError::ParseIntError(ParseIntErrorKind::InvalidDigit));
            }
            i += 1;
        }
        let mut v: u64 = 0;
        let mut k: usize = 0;
        while k < 13
            invariant
                chars@ == s@,
                chars@.len() == 13,
                k <= 13,
                forall|j: int| 0 <= j < 13 ==> spec_b36_digit_ok(#[trigger] s@[j]),
                v == spec_b36_value(s@.subrange(0, k as int)),
            decreases 13 - k,
        {
            let c = chars[k];
            let u = c as u32;
            let d: u64 = if u >= '0' as u32 && u <= '9' as u32 {
                (u - '0' as u32) as u64
            } else if u >= 'a' as u32 && u <= 'z' as u32 {
                (u - 'a' as u32) as u64 + 10
            } else {
                (u - 'A' as u32) as u64 + 10
            };
            proof {
                assert(spec_b36_digit_ok(s@[k as int]));
                assert(d == spec_b36_val(s@[k as int]));
            }
            if v > (u64::MAX - d) / 36 {
                proof {
                    let m = (u64::MAX - d) as int;
                    let vi = v as int;
                    vstd::arithmetic::div_mod::lemma_fundamental_div_mod(m, 36);
                    assert(vi * 36 >= (m / 36 + 1) * 36) by (nonlinear_arith)
                        requires
                            vi >= m / 36 + 1,
                    ;
                    let sp = s@.subrange(0, k + 1);
                    assert(sp.drop_last() =~= s@.subrange(0, k as int));
                    assert(sp.last() == s@[k as int]);
                    assert(spec_b36_value(sp) == vi * 36 + d);
                    lemma_b36_value_mono(s@, k + 1);
                    assert(spec_b36_value(s@) > u64::MAX);
                }
                return Err(ParseSnowflakeError::ParseIntError(ParseIntErrorKind::Overflow));
            }
            proof {
                let sp = s@.subrange(0, k + 1);
                assert(sp.drop_last() =~= s@.subrange(0, k as int));
                assert(sp.last() == s@[k as int]);
                assert(v * 36 + d <= u64::MAX) by (nonlinear_arith)
                    requires
                        v <= (u64::MAX - d) / 36,
                        d <= 35,
                        v >= 0,
                ;
            }
            v = v * 36 + d;
            k += 1;
        }
        proof {
            assert(s@.subrange(0, 13) =~= s@);
        }
        Ok(Snowflake(v))
    }
}

proof fn lemma_b36_digits_len(n: nat, len: nat)
    ensures
        spec_b36_digits(n, len).len() == len,
    decreases len,
{
    if len > 0 {
        lemma_b36_digits_len(n / 36, (len - 1) as nat);
    }
}

proof fn lemma_b36_digits_canonical(n: nat, len: nat)
    ensures
        forall|i: int|
            0 <= i < spec_b36_digits(n, len).len() ==> spec_b36_canonical_char(
                #[trigger] spec_b36_digits(n, len)[i],
            ),
    decreases len,
{
    if len > 0 {
        lemma_b36_digits_canonical(n / 36, (len - 1) as nat);
        assert(spec_b36_canonical_char(spec_b36_char(n % 36)));
        assert(forall|i: int|
            0 <= i < spec_b36_digits(n, len).len() - 1 ==> #[trigger] spec_b36_digits(n, len)[i]
                == spec_b36_digits(n / 36, (len - 1) as nat)[i]);
    }
}

/// The canonical form of a snowflake consists of valid base-36 digits, and
/// reading it back yields the value.
pub proof fn lemma_snowflake_str_digits(n: u64)
    ensures
        spec_snowflake_str(n).len() == 13,
        forall|i: int|
            0 <= i < 13 ==> spec_b36_canonical_char(#[trigger] spec_snowflake_str(n)[i])
                && spec_b36_digit_ok(spec_snowflake_str(n)[i]),
        spec_b36_value(spec_snowflake_str(n)) == n,
{
    lemma_b36_digits_len(n as nat, 13);
    lemma_b36_digits_canonical(n as nat, 13);
    lemma_snowflake_round_trip(n);
}

/// Parsing a snowflake's canonical 13-character base-36 form and
/// re-formatting it yields the same string, and formatting then parsing
/// yields the same value.
pub proof fn lemma_snowflake_round_trip(n: u64)
    ensures
        spec_b36_value(spec_snowflake_str(n)) == n,
        forall|s: Seq<char>|
            s.len() == 13 && (forall|i: int| 0 <= i < 13 ==> spec_b36_canonical_char(#[trigger] s[i]))
                && spec_b36_value(s) == n ==> spec_snowflake_str(n) =~= s,
{
    lemma_b36_value_of_digits(n as nat, 13);
    assert(vstd::arithmetic::power::pow(36, 13) > u64::MAX) by {
        reveal_with_fuel(vstd::arithmetic::power::pow, 14);
    }
    assert(n as int % vstd::arithmetic::power::pow(36, 13) == n as int) by {
        vstd::arithmetic::div_mod::lemma_small_mod(
            n as nat,
            vstd::arithmetic::power::pow(36, 13) as nat,
        );
    }
    assert forall|s: Seq<char>|
        s.len() == 13 && (forall|i: int| 0 <= i < 13 ==> spec_b36_canonical_char(#[trigger] s[i]))
            && spec_b36_value(s) == n implies spec_snowflake_str(n) =~= s by {
        lemma_b36_digits_of_value(s);
    }
}

/// Time, as a number of seconds since the Unix epoch.
#[derive(Debug, Clone, Copy, PartialEq, Eq, Structural)]
pub struct Time(pub i64);

/// Identifies a user.
///
/// The prefix of the value up to the colon indicates a type of session,
/// while the suffix is a unique value for that type of session.
#[derive(Debug, Hash, PartialEq, Eq)]
pub struct UserId(pub String);

/// The type of session a [`UserId`] belongs to.
#[derive(Debug, Clone, Copy, PartialEq, Eq, Structural)]
pub enum SessionType {
    Agent,
    Account,
    Bot,
}

impl UserId {
    /// The session type the id's prefix names, if any: `agent:` for an
    /// agent, else `account:` for an account, else `bot:` for a bot.
    pub open spec fn spec_session_type(&self) -> Option<SessionType> {
        if self.0@.len() >= 6 && self.0@.subrange(0, 6) == "agent:"@ {
            Some(SessionType::Agent)
        } else if self.0@.len() >= 8 && self.0@.subrange(0, 8) == "account:"@ {
            Some(SessionType::Account)
        } else if self.0@.len() >= 4 && self.0@.subrange(0, 4) == "bot:"@ {
            Some(SessionType::Bot)
        } else {
            None
        }
    }

    /// The session type announced by the id's prefix, if any.
    pub fn session_type(&self) -> (r: Option<SessionType>)
        ensures
            r == self.spec_session_type(),
    {
        proof {
            reveal_strlit("agent:");
            reveal_strlit("account:");
            reveal_strlit("bot:");
        }
        if str_starts_with(self.0.as_str(), "agent:") {
            Some(SessionType::Agent)
        } else if str_starts_with(self.0.as_str(), "account:") {
            Some(SessionType::Account)
        } else if str_starts_with(self.0.as_str(), "bot:") {
            Some(SessionType::Bot)
        } else {
            None
        }
    }
}

/// Whether `s` begins with the characters of `prefix`.
pub fn str_starts_with(s: &str, prefix: &str) -> (r: bool)
    ensures
        r <==> s@.len() >= prefix@.len() && s@.subrange(0, prefix@.len() as int) == prefix@,
{
    let n = prefix.unicode_len();
    let m = s.unicode_len();
    if m < n {
        proof {
            assert(!(s@.len() >= prefix@.len()));
        }
        return false;
    }
    let mut i: usize = 0;
    while i < n
        invariant
            n == prefix@.len(),
            m == s@.len(),
            m >= n,
            i <= n,
            forall|j: int| 0 <= j < i ==> s@[j] == prefix@[j],
        decreases n - i,
    {
        if s.get_char(i) != prefix.get_char(i) {
            proof {
                assert(s@.subrange(0, prefix@.len() as int)[i as int] != prefix@[i as int]);
            }
            return false;
        }
        i += 1;
    }
    proof {
        assert(s@.subrange(0, prefix@.len() as int) =~= prefix@);
    }
    true
}

/// Identifies an account; a typed wrapper around [`Snowflake`].
#[derive(Debug, Clone, Copy, Hash, PartialEq, Eq, Structural)]
pub struct AccountId(pub Snowflake);

/// Identifies a message; a typed wrapper around [`Snowflake`].
#[derive(Debug, Clone, Copy, Hash, PartialEq, Eq, Structural)]
pub struct MessageId(pub Snowflake);

/// Identifies a private room; a typed wrapper around [`Snowflake`].
#[derive(Debug, Clone, Copy, Hash, PartialEq, Eq, Structural)]
pub struct PmId(pub Snowflake);

/// Identifies a session; a typed wrapper around [`String`].
#[derive(Debug, Hash, PartialEq, Eq)]
pub struct SessionId(pub String);

/// Mode of authentication.
#[derive(Debug, Clone, Copy, PartialEq, Eq, Structural)]
pub enum AuthOption {
    /// Authentication with a passcode.
    Passcode,
}

/// Describes an account and its preferred name.
#[derive(Debug, PartialEq)]
pub struct AccountView {
    /// The id of the account.
    pub id: AccountId,
    /// The name that the holder of the account goes by.
    pub name: String,
}

/// Describes an account to its owner.
#[derive(Debug, PartialEq)]
pub struct PersonalAccountView {
    /// The id of the account.
    pub id: AccountId,
    /// The name that the holder of the account goes by.
    pub name: String,
    /// The account's email address.
    pub email: String,
}

/// Describes a session and its identity.
#[derive(Debug, PartialEq)]
pub struct SessionView {
    /// The id of an agent, account or bot.
    pub id: UserId,
    /// The name-in-use at the time this view was captured.
    pub name: String,
    /// The id of the server that captured this view.
    pub server_id: String,
    /// The era of the server that captured this view.
    pub server_era: String,
    /// Id of the session, unique across all sessions globally.
    pub session_id: SessionId,
    /// Whether this session belongs to a member of staff.
    pub is_staff: bool,
    /// Whether this session belongs to a manager of the room.
    pub is_manager: bool,
    /// For hosts and staff, the virtual address of the client.
    pub client_address: Option<String>,
    /// For staff, the real address of the client.
    pub real_client_address: Option<String>,
}

/// A node in a room's log: a chat message.
#[derive(Debug, PartialEq)]
pub struct Message {
    /// The id of the message, unique within a room.
    pub id: MessageId,
    /// The id of the message's parent, if it is not top-level.
    pub parent: Option<MessageId>,
    /// The edit id of the most recent edit of this message.
    pub previous_edit_id: Option<Snowflake>,
    /// When the message was posted.
    pub time: Time,
    /// The view of the sender's session.
    pub sender: SessionView,
    /// The content of the message.
    pub content: String,
    /// The id of the key that encrypts the message in storage.
    pub encryption_key_id: Option<String>,
    /// When the message was last edited.
    pub edited: Option<Time>,
    /// When the message was deleted.
    pub deleted: Option<Time>,
    /// Whether the full content of this message was elided.
    pub truncated: bool,
}


/// The type of a packet: an event, a command, or a reply.
#[derive(Debug, Clone, Copy, PartialEq, Eq, Hash, Structural)]
pub enum PacketType {
    BounceEvent,
    DisconnectEvent,
    HelloEvent,
    JoinEvent,
    LoginEvent,
    LogoutEvent,
    NetworkEvent,
    NickEvent,
    EditMessageEvent,
    PartEvent,
    PingEvent,
    PmInitiateEvent,
    SendEvent,
    SnapshotEvent,
    Auth,
    AuthReply,
    Ping,
    PingReply,
    GetMessage,
    GetMessageReply,
    Log,
    LogReply,
    Nick,
    NickReply,
    PmInitiate,
    PmInitiateReply,
    Send,
    SendReply,
    Who,
    WhoReply,
    ChangeEmail,
    ChangeEmailReply,
    ChangeName,
    ChangeNameReply,
    ChangePassword,
    ChangePasswordReply,
    Login,
    LoginReply,
    Logout,
    LogoutReply,
    RegisterAccount,
    RegisterAccountReply,
    ResendVerificationEmail,
    ResendVerificationEmailReply,
    ResetPassword,
    ResetPasswordReply,
    Ban,
    BanReply,
    EditMessage,
    EditMessageReply,
    GrantAccess,
    GrantAccessReply,
    GrantManager,
    GrantManagerReply,
    RevokeAccess,
    RevokeAccessReply,
    RevokeManager,
    RevokeManagerReply,
    Unban,
    UnbanReply,
    StaffCreateRoom,
    StaffCreateRoomReply,
    StaffEnrollOtp,
    StaffEnrollOtpReply,
    StaffGrantManager,
    StaffGrantManagerReply,
    StaffInvade,
    StaffInvadeReply,
    StaffLockRoom,
    StaffLockRoomReply,
    StaffRevokeAccess,
    StaffRevokeAccessReply,
    StaffValidateOtp,
    StaffValidateOtpReply,
    UnlockStaffCapability,
    UnlockStaffCapabilityReply,
}

/// The kebab-case wire name of a packet type.
pub open spec fn spec_packet_type_name(t: PacketType) -> Seq<char> {
    match t {
        PacketType::BounceEvent => "bounce-event"@,
        PacketType::DisconnectEvent => "disconnect-event"@,
        PacketType::HelloEvent => "hello-event"@,
        PacketType::JoinEvent => "join-event"@,
        PacketType::LoginEvent => "login-event"@,
        PacketType::LogoutEvent => "logout-event"@,
        PacketType::NetworkEvent => "network-event"@,
        PacketType::NickEvent => "nick-event"@,
        PacketType::EditMessageEvent => "edit-message-event"@,
        PacketType::PartEvent => "part-event"@,
        PacketType::PingEvent => "ping-event"@,
        PacketType::PmInitiateEvent => "pm-initiate-event"@,
        PacketType::SendEvent => "send-event"@,
        PacketType::SnapshotEvent => "snapshot-event"@,
        PacketType::Auth => "auth"@,
        PacketType::AuthReply => "auth-reply"@,
        PacketType::Ping => "ping"@,
        PacketType::PingReply => "ping-reply"@,
        PacketType::GetMessage => "get-message"@,
        PacketType::GetMessageReply => "get-message-reply"@,
        PacketType::Log => "log"@,
        PacketType::LogReply => "log-reply"@,
        PacketType::Nick => "nick"@,
        PacketType::NickReply => "nick-reply"@,
        PacketType::PmInitiate => "pm-initiate"@,
        PacketType::PmInitiateReply => "pm-initiate-reply"@,
        PacketType::Send => "send"@,
        PacketType::SendReply => "send-reply"@,
        PacketType::Who => "who"@,
        PacketType::WhoReply => "who-reply"@,
        PacketType::ChangeEmail => "change-email"@,
        PacketType::ChangeEmailReply => "change-email-reply"@,
        PacketType::ChangeName => "change-name"@,
        PacketType::ChangeNameReply => "change-name-reply"@,
        PacketType::ChangePassword => "change-password"@,
        PacketType::ChangePasswordReply => "change-password-reply"@,
        PacketType::Login => "login"@,
        PacketType::LoginReply => "login-reply"@,
        PacketType::Logout => "logout"@,
        PacketType::LogoutReply => "logout-reply"@,
        PacketType::RegisterAccount => "register-account"@,
        PacketType::RegisterAccountReply => "register-account-reply"@,
        PacketType::ResendVerificationEmail => "resend-verification-email"@,
        PacketType::ResendVerificationEmailReply => "resend-verification-email-reply"@,
        PacketType::ResetPassword => "reset-password"@,
        PacketType::ResetPasswordReply => "reset-password-reply"@,
        PacketType::Ban => "ban"@,
        PacketType::BanReply => "ban-reply"@,
        PacketType::EditMessage => "edit-message"@,
        PacketType::EditMessageReply => "edit-message-reply"@,
        PacketType::GrantAccess => "grant-access"@,
        PacketType::GrantAccessReply => "grant-access-reply"@,
        PacketType::GrantManager => "grant-manager"@,
        PacketType::GrantManagerReply => "grant-manager-reply"@,
        PacketType::RevokeAccess => "revoke-access"@,
        PacketType::RevokeAccessReply => "revoke-access-reply"@,
        PacketType::RevokeManager => "revoke-manager"@,
        PacketType::RevokeManagerReply => "revoke-manager-reply"@,
        PacketType::Unban => "unban"@,
        PacketType::UnbanReply => "unban-reply"@,
        PacketType::StaffCreateRoom => "staff-create-room"@,
        PacketType::StaffCreateRoomReply => "staff-create-room-reply"@,
        PacketType::StaffEnrollOtp => "staff-enroll-otp"@,
        PacketType::StaffEnrollOtpReply => "staff-enroll-otp-reply"@,
        PacketType::StaffGrantManager => "staff-grant-manager"@,
        PacketType::StaffGrantManagerReply => "staff-grant-manager-reply"@,
        PacketType::StaffInvade => "staff-invade"@,
        PacketType::StaffInvadeReply => "staff-invade-reply"@,
        PacketType::StaffLockRoom => "staff-lock-room"@,
        PacketType::StaffLockRoomReply => "staff-lock-room-reply"@,
        PacketType::StaffRevokeAccess => "staff-revoke-access"@,
        PacketType::StaffRevokeAccessReply => "staff-revoke-access-reply"@,
        PacketType::StaffValidateOtp => "staff-validate-otp"@,
        PacketType::StaffValidateOtpReply => "staff-validate-otp-reply"@,
        PacketType::UnlockStaffCapability => "unlock-staff-capability"@,
        PacketType::UnlockStaffCapabilityReply => "unlock-staff-capability-reply"@,
    }
}

/// The packet type with the given kebab-case wire name, if any.
pub open spec fn spec_parse_packet_type(s: Seq<char>) -> Option<PacketType> {
    if s == "bounce-event"@ {
        Some(PacketType::BounceEvent)
    } else if s == "disconnect-event"@ {
        Some(PacketType::DisconnectEvent)
    } else if s == "hello-event"@ {
        Some(PacketType::HelloEvent)
    } else if s == "join-event"@ {
        Some(PacketType::JoinEvent)
    } else if s == "login-event"@ {
        Some(PacketType::LoginEvent)
    } else if s == "logout-event"@ {
        Some(PacketType::LogoutEvent)
    } else if s == "network-event"@ {
        Some(PacketType::NetworkEvent)
    } else if s == "nick-event"@ {
        Some(PacketType::NickEvent)
    } else if s == "edit-message-event"@ {
        Some(PacketType::EditMessageEvent)
    } else if s == "part-event"@ {
        Some(PacketType::PartEvent)
    } else if s == "ping-event"@ {
        Some(PacketType::PingEvent)
    } else if s == "pm-initiate-event"@ {
        Some(PacketType::PmInitiateEvent)
    } else if s == "send-event"@ {
        Some(PacketType::SendEvent)
    } else if s == "snapshot-event"@ {
        Some(PacketType::SnapshotEvent)
    } else if s == "auth"@ {
        Some(PacketType::Auth)
    } else if s == "auth-reply"@ {
        Some(PacketType::AuthReply)
    } else if s == "ping"@ {
        Some(PacketType::Ping)
    } else if s == "ping-reply"@ {
        Some(PacketType::PingReply)
    } else if s == "get-message"@ {
        Some(PacketType::GetMessage)
    } else if s == "get-message-reply"@ {
        Some(PacketType::GetMessageReply)
    } else if s == "log"@ {
        Some(PacketType::Log)
    } else if s == "log-reply"@ {
        Some(PacketType::LogReply)
    } else if s == "nick"@ {
        Some(PacketType::Nick)
    } else if s == "nick-reply"@ {
        Some(PacketType::NickReply)
    } else if s == "pm-initiate"@ {
        Some(PacketType::PmInitiate)
    } else if s == "pm-initiate-reply"@ {
        Some(PacketType::PmInitiateReply)
    } else if s == "send"@ {
        Some(PacketType::Send)
    } else if s == "send-reply"@ {
        Some(PacketType::SendReply)
    } else if s == "who"@ {
        Some(PacketType::Who)
    } else if s == "who-reply"@ {
        Some(PacketType::WhoReply)
    } else if s == "change-email"@ {
        Some(PacketType::ChangeEmail)
    } else if s == "change-email-reply"@ {
        Some(PacketType::ChangeEmailReply)
    } else if s == "change-name"@ {
        Some(PacketType::ChangeName)
    } else if s == "change-name-reply"@ {
        Some(PacketType::ChangeNameReply)
    } else if s == "change-password"@ {
        Some(PacketType::ChangePassword)
    } else if s == "change-password-reply"@ {
        Some(PacketType::ChangePasswordReply)
    } else if s == "login"@ {
        Some(PacketType::Login)
    } else if s == "login-reply"@ {
        Some(PacketType::LoginReply)
    } else if s == "logout"@ {
        Some(PacketType::Logout)
    } else if s == "logout-reply"@ {
        Some(PacketType::LogoutReply)
    } else if s == "register-account"@ {
        Some(PacketType::RegisterAccount)
    } else if s == "register-account-reply"@ {
        Some(PacketType::RegisterAccountReply)
    } else if s == "resend-verification-email"@ {
        Some(PacketType::ResendVerificationEmail)
    } else if s == "resend-verification-email-reply"@ {
        Some(PacketType::ResendVerificationEmailReply)
    } else if s == "reset-password"@ {
        Some(PacketType::ResetPassword)
    } else if s == "reset-password-reply"@ {
        Some(PacketType::ResetPasswordReply)
    } else if s == "ban"@ {
        Some(PacketType::Ban)
    } else if s == "ban-reply"@ {
        Some(PacketType::BanReply)
    } else if s == "edit-message"@ {
        Some(PacketType::EditMessage)
    } else if s == "edit-message-reply"@ {
        Some(PacketType::EditMessageReply)
    } else if s == "grant-access"@ {
        Some(PacketType::GrantAccess)
    } else if s == "grant-access-reply"@ {
        Some(PacketType::GrantAccessReply)
    } else if s == "grant-manager"@ {
        Some(PacketType::GrantManager)
    } else if s == "grant-manager-reply"@ {
        Some(PacketType::GrantManagerReply)
    } else if s == "revoke-access"@ {
        Some(PacketType::RevokeAccess)
    } else if s == "revoke-access-reply"@ {
        Some(PacketType::RevokeAccessReply)
    } else if s == "revoke-manager"@ {
        Some(PacketType::RevokeManager)
    } else if s == "revoke-manager-reply"@ {
        Some(PacketType::RevokeManagerReply)
    } else if s == "unban"@ {
        Some(PacketType::Unban)
    } else if s == "unban-reply"@ {
        Some(PacketType::UnbanReply)
    } else if s == "staff-create-room"@ {
        Some(PacketType::StaffCreateRoom)
    } else if s == "staff-create-room-reply"@ {
        Some(PacketType::StaffCreateRoomReply)
    } else if s == "staff-enroll-otp"@ {
        Some(PacketType::StaffEnrollOtp)
    } else if s == "staff-enroll-otp-reply"@ {
        Some(PacketType::StaffEnrollOtpReply)
    } else if s == "staff-grant-manager"@ {
        Some(PacketType::StaffGrantManager)
    } else if s == "staff-grant-manager-reply"@ {
        Some(PacketType::StaffGrantManagerReply)
    } else if s == "staff-invade"@ {
        Some(PacketType::StaffInvade)
    } else if s == "staff-invade-reply"@ {
        Some(PacketType::StaffInvadeReply)
    } else if s == "staff-lock-room"@ {
        Some(PacketType::StaffLockRoom)
    } else if s == "staff-lock-room-reply"@ {
        Some(PacketType::StaffLockRoomReply)
    } else if s == "staff-revoke-access"@ {
        Some(PacketType::StaffRevokeAccess)
    } else if s == "staff-revoke-access-reply"@ {
        Some(PacketType::StaffRevokeAccessReply)
    } else if s == "staff-validate-otp"@ {
        Some(PacketType::StaffValidateOtp)
    } else if s == "staff-validate-otp-reply"@ {
        Some(PacketType::StaffValidateOtpReply)
    } else if s == "unlock-staff-capability"@ {
        Some(PacketType::UnlockStaffCapability)
    } else if s == "unlock-staff-capability-reply"@ {
        Some(PacketType::UnlockStaffCapabilityReply)
    } else {
        None
    }
}

impl PacketType {
    /// The kebab-case wire name of this packet type.
    pub fn name_str(&self) -> (r: String)
        ensures
            r@ == spec_packet_type_name(*self),
    {
        match self {
            PacketType::BounceEvent => "bounce-event".to_owned(),
            PacketType::DisconnectEvent => "disconnect-event".to_owned(),
            PacketType::HelloEvent => "hello-event".to_owned(),
            PacketType::JoinEvent => "join-event".to_owned(),
            PacketType::LoginEvent => "login-event".to_owned(),
            PacketType::LogoutEvent => "logout-event".to_owned(),
            PacketType::NetworkEvent => "network-event".to_owned(),
            PacketType::NickEvent => "nick-event".to_owned(),
            PacketType::EditMessageEvent => "edit-message-event".to_owned(),
            PacketType::PartEvent => "part-event".to_owned(),
            PacketType::PingEvent => "ping-event".to_owned(),
            PacketType::PmInitiateEvent => "pm-initiate-event".to_owned(),
            PacketType::SendEvent => "send-event".to_owned(),
            PacketType::SnapshotEvent => "snapshot-event".to_owned(),
            PacketType::Auth => "auth".to_owned(),
            PacketType::AuthReply => "auth-reply".to_owned(),
            PacketType::Ping => "ping".to_owned(),
            PacketType::PingReply => "ping-reply".to_owned(),
            PacketType::GetMessage => "get-message".to_owned(),
            PacketType::GetMessageReply => "get-message-reply".to_owned(),
            PacketType::Log => "log".to_owned(),
            PacketType::LogReply => "log-reply".to_owned(),
            PacketType::Nick => "nick".to_owned(),
            PacketType::NickReply => "nick-reply".to_owned(),
            PacketType::PmInitiate => "pm-initiate".to_owned(),
            PacketType::PmInitiateReply => "pm-initiate-reply".to_owned(),
            PacketType::Send => "send".to_owned(),
            PacketType::SendReply => "send-reply".to_owned(),
            PacketType::Who => "who".to_owned(),
            PacketType::WhoReply => "who-reply".to_owned(),
            PacketType::ChangeEmail => "change-email".to_owned(),
            PacketType::ChangeEmailReply => "change-email-reply".to_owned(),
            PacketType::ChangeName => "change-name".to_owned(),
            PacketType::ChangeNameReply => "change-name-reply".to_owned(),
            PacketType::ChangePassword => "change-password".to_owned(),
            PacketType::ChangePasswordReply => "change-password-reply".to_owned(),
            PacketType::Login => "login".to_owned(),
            PacketType::LoginReply => "login-reply".to_owned(),
            PacketType::Logout => "logout".to_owned(),
            PacketType::LogoutReply => "logout-reply".to_owned(),
            PacketType::RegisterAccount => "register-account".to_owned(),
            PacketType::RegisterAccountReply => "register-account-reply".to_owned(),
            PacketType::ResendVerificationEmail => "resend-verification-email".to_owned(),
            PacketType::ResendVerificationEmailReply => "resend-verification-email-reply".to_owned(),
            PacketType::ResetPassword => "reset-password".to_owned(),
            PacketType::ResetPasswordReply => "reset-password-reply".to_owned(),
            PacketType::Ban => "ban".to_owned(),
            PacketType::BanReply => "ban-reply".to_owned(),
            PacketType::EditMessage => "edit-message".to_owned(),
            PacketType::EditMessageReply => "edit-message-reply".to_owned(),
            PacketType::GrantAccess => "grant-access".to_owned(),
            PacketType::GrantAccessReply => "grant-access-reply".to_owned(),
            PacketType::GrantManager => "grant-manager".to_owned(),
            PacketType::GrantManagerReply => "grant-manager-reply".to_owned(),
            PacketType::RevokeAccess => "revoke-access".to_owned(),
            PacketType::RevokeAccessReply => "revoke-access-reply".to_owned(),
            PacketType::RevokeManager => "revoke-manager".to_owned(),
            PacketType::RevokeManagerReply => "revoke-manager-reply".to_owned(),
            PacketType::Unban => "unban".to_owned(),
            PacketType::UnbanReply => "unban-reply".to_owned(),
            PacketType::StaffCreateRoom => "staff-create-room".to_owned(),
            PacketType::StaffCreateRoomReply => "staff-create-room-reply".to_owned(),
            PacketType::StaffEnrollOtp => "staff-enroll-otp".to_owned(),
            PacketType::StaffEnrollOtpReply => "staff-enroll-otp-reply".to_owned(),
            PacketType::StaffGrantManager => "staff-grant-manager".to_owned(),
            PacketType::StaffGrantManagerReply => "staff-grant-manager-reply".to_owned(),
            PacketType::StaffInvade => "staff-invade".to_owned(),
            PacketType::StaffInvadeReply => "staff-invade-reply".to_owned(),
            PacketType::StaffLockRoom => "staff-lock-room".to_owned(),
            PacketType::StaffLockRoomReply => "staff-lock-room-reply".to_owned(),
            PacketType::StaffRevokeAccess => "staff-revoke-access".to_owned(),
            PacketType::StaffRevokeAccessReply => "staff-revoke-access-reply".to_owned(),
            PacketType::StaffValidateOtp => "staff-validate-otp".to_owned(),
            PacketType::StaffValidateOtpReply => "staff-validate-otp-reply".to_owned(),
            PacketType::UnlockStaffCapability => "unlock-staff-capability".to_owned(),
            PacketType::UnlockStaffCapabilityReply => "unlock-staff-capability-reply".to_owned(),
        }
    }

    /// Parse a kebab-case wire name into a packet type.
    pub fn parse(s: &str) -> (r: Option<PacketType>)
        ensures
            r == spec_parse_packet_type(s@),
    {
        if str_eq(s, "bounce-event") {
            Some(PacketType::BounceEvent)
        } else if str_eq(s, "disconnect-event") {
            Some(PacketType::DisconnectEvent)
        } else if str_eq(s, "hello-event") {
            Some(PacketType::HelloEvent)
        } else if str_eq(s, "join-event") {
            Some(PacketType::JoinEvent)
        } else if str_eq(s, "login-event") {
            Some(PacketType::LoginEvent)
        } else if str_eq(s, "logout-event") {
            Some(PacketType::LogoutEvent)
        } else if str_eq(s, "network-event") {
            Some(PacketType::NetworkEvent)
        } else if str_eq(s, "nick-event") {
            Some(PacketType::NickEvent)
        } else if str_eq(s, "edit-message-event") {
            Some(PacketType::EditMessageEvent)
        } else if str_eq(s, "part-event") {
            Some(PacketType::PartEvent)
        } else if str_eq(s, "ping-event") {
            Some(PacketType::PingEvent)
        } else if str_eq(s, "pm-initiate-event") {
            Some(PacketType::PmInitiateEvent)
        } else if str_eq(s, "send-event") {
            Some(PacketType::SendEvent)
        } else if str_eq(s, "snapshot-event") {
            Some(PacketType::SnapshotEvent)
        } else if str_eq(s, "auth") {
            Some(PacketType::Auth)
        } else if str_eq(s, "auth-reply") {
            Some(PacketType::AuthReply)
        } else if str_eq(s, "ping") {
            Some(PacketType::Ping)
        } else if str_eq(s, "ping-reply") {
            Some(PacketType::PingReply)
        } else if str_eq(s, "get-message") {
            Some(PacketType::GetMessage)
        } else if str_eq(s, "get-message-reply") {
            Some(PacketType::GetMessageReply)
        } else if str_eq(s, "log") {
            Some(PacketType::Log)
        } else if str_eq(s, "log-reply") {
            Some(PacketType::LogReply)
        } else if str_eq(s, "nick") {
            Some(PacketType::Nick)
        } else if str_eq(s, "nick-reply") {
            Some(PacketType::NickReply)
        } else if str_eq(s, "pm-initiate") {
            Some(PacketType::PmInitiate)
        } else if str_eq(s, "pm-initiate-reply") {
            Some(PacketType::PmInitiateReply)
        } else if str_eq(s, "send") {
            Some(PacketType::Send)
        } else if str_eq(s, "send-reply") {
            Some(PacketType::SendReply)
        } else if str_eq(s, "who") {
            Some(PacketType::Who)
        } else if str_eq(s, "who-reply") {
            Some(PacketType::WhoReply)
        } else if str_eq(s, "change-email") {
            Some(PacketType::ChangeEmail)
        } else if str_eq(s, "change-email-reply") {
            Some(PacketType::ChangeEmailReply)
        } else if str_eq(s, "change-name") {
            Some(PacketType::ChangeName)
        } else if str_eq(s, "change-name-reply") {
            Some(PacketType::ChangeNameReply)
        } else if str_eq(s, "change-password") {
            Some(PacketType::ChangePassword)
        } else if str_eq(s, "change-password-reply") {
            Some(PacketType::ChangePasswordReply)
        } else if str_eq(s, "login") {
            Some(PacketType::Login)
        } else if str_eq(s, "login-reply") {
            Some(PacketType::LoginReply)
        } else if str_eq(s, "logout") {
            Some(PacketType::Logout)
        } else if str_eq(s, "logout-reply") {
            Some(PacketType::LogoutReply)
        } else if str_eq(s, "register-account") {
            Some(PacketType::RegisterAccount)
        } else if str_eq(s, "register-account-reply") {
            Some(PacketType::RegisterAccountReply)
        } else if str_eq(s, "resend-verification-email") {
            Some(PacketType::ResendVerificationEmail)
        } else if str_eq(s, "resend-verification-email-reply") {
            Some(PacketType::ResendVerificationEmailReply)
        } else if str_eq(s, "reset-password") {
            Some(PacketType::ResetPassword)
        } else if str_eq(s, "reset-password-reply") {
            Some(PacketType::ResetPasswordReply)
        } else if str_eq(s, "ban") {
            Some(PacketType::Ban)
        } else if str_eq(s, "ban-reply") {
            Some(PacketType::BanReply)
        } else if str_eq(s, "edit-message") {
            Some(PacketType::EditMessage)
        } else if str_eq(s, "edit-message-reply") {
            Some(PacketType::EditMessageReply)
        } else if str_eq(s, "grant-access") {
            Some(PacketType::GrantAccess)
        } else if str_eq(s, "grant-access-reply") {
            Some(PacketType::GrantAccessReply)
        } else if str_eq(s, "grant-manager") {
            Some(PacketType::GrantManager)
        } else if str_eq(s, "grant-manager-reply") {
            Some(PacketType::GrantManagerReply)
        } else if str_eq(s, "revoke-access") {
            Some(PacketType::RevokeAccess)
        } else if str_eq(s, "revoke-access-reply") {
            Some(PacketType::RevokeAccessReply)
        } else if str_eq(s, "revoke-manager") {
            Some(PacketType::RevokeManager)
        } else if str_eq(s, "revoke-manager-reply") {
            Some(PacketType::RevokeManagerReply)
        } else if str_eq(s, "unban") {
            Some(PacketType::Unban)
        } else if str_eq(s, "unban-reply") {
            Some(PacketType::UnbanReply)
        } else if str_eq(s, "staff-create-room") {
            Some(PacketType::StaffCreateRoom)
        } else if str_eq(s, "staff-create-room-reply") {
            Some(PacketType::StaffCreateRoomReply)
        } else if str_eq(s, "staff-enroll-otp") {
            Some(PacketType::StaffEnrollOtp)
        } else if str_eq(s, "staff-enroll-otp-reply") {
            Some(PacketType::StaffEnrollOtpReply)
        } else if str_eq(s, "staff-grant-manager") {
            Some(PacketType::StaffGrantManager)
        } else if str_eq(s, "staff-grant-manager-reply") {
            Some(PacketType::StaffGrantManagerReply)
        } else if str_eq(s, "staff-invade") {
            Some(PacketType::StaffInvade)
        } else if str_eq(s, "staff-invade-reply") {
            Some(PacketType::StaffInvadeReply)
        } else if str_eq(s, "staff-lock-room") {
            Some(PacketType::StaffLockRoom)
        } else if str_eq(s, "staff-lock-room-reply") {
            Some(PacketType::StaffLockRoomReply)
        } else if str_eq(s, "staff-revoke-access") {
            Some(PacketType::StaffRevokeAccess)
        } else if str_eq(s, "staff-revoke-access-reply") {
            Some(PacketType::StaffRevokeAccessReply)
        } else if str_eq(s, "staff-validate-otp") {
            Some(PacketType::StaffValidateOtp)
        } else if str_eq(s, "staff-validate-otp-reply") {
            Some(PacketType::StaffValidateOtpReply)
        } else if str_eq(s, "unlock-staff-capability") {
            Some(PacketType::UnlockStaffCapability)
        } else if str_eq(s, "unlock-staff-capability-reply") {
            Some(PacketType::UnlockStaffCapabilityReply)
        } else {
            None
        }
    }
}


impl Clone for UserId {
    fn clone(&self) -> (r: Self)
        ensures
            r == *self,
    {
        UserId(self.0.clone())
    }
}

impl Clone for SessionId {
    fn clone(&self) -> (r: Self)
        ensures
            r == *self,
    {
        SessionId(self.0.clone())
    }
}

impl Clone for AccountView {
    fn clone(&self) -> (r: Self)
        ensures
            r == *self,
    {
        AccountView { id: self.id, name: self.name.clone() }
    }
}

impl Clone for PersonalAccountView {
    fn clone(&self) -> (r: Self)
        ensures
            r == *self,
    {
        PersonalAccountView { id: self.id, name: self.name.clone(), email: self.email.clone() }
    }
}

impl Clone for SessionView {
    fn clone(&self) -> (r: Self)
        ensures
            r == *self,
    {
        SessionView {
            id: self.id.clone(),
            name: self.name.clone(),
            server_id: self.server_id.clone(),
            server_era: self.server_era.clone(),
            session_id: self.session_id.clone(),
            is_staff: self.is_staff,
            is_manager: self.is_manager,
            client_address: clone_opt_string(&self.client_address),
            real_client_address: clone_opt_string(&self.real_client_address),
        }
    }
}

impl Clone for Message {
    fn clone(&self) -> (r: Self)
        ensures
            r == *self,
    {
        Message {
            id: self.id,
            parent: self.parent,
            previous_edit_id: self.previous_edit_id,
            time: self.time,
            sender: self.sender.clone(),
            content: self.content.clone(),
            encryption_key_id: clone_opt_string(&self.encryption_key_id),
            edited: self.edited,
            deleted: self.deleted,
            truncated: self.truncated,
        }
    }
}

/// Clone a vector of session views.
pub fn clone_session_views(v: &Vec<SessionView>) -> (r: Vec<SessionView>)
    ensures
        r@ == v@,
{
    let mut out: Vec<SessionView> = Vec::new();
    let mut i: usize = 0;
    while i < v.len()
        invariant
            i <= v@.len(),
            out@ =~= v@.subrange(0, i as int),
        decreases v@.len() - i,
    {
        out.push(v[i].clone());
        proof {
            assert(out@ =~= v@.subrange(0, i + 1));
        }
        i += 1;
    }
    proof {
        assert(out@ =~= v@);
    }
    out
}

/// Clone a vector of messages.
pub fn clone_messages(v: &Vec<Message>) -> (r: Vec<Message>)
    ensures
        r@ == v@,
{
    let mut out: Vec<Message> = Vec::new();
    let mut i: usize = 0;
    while i < v.len()
        invariant
            i <= v@.len(),
            out@ =~= v@.subrange(0, i as int),
        decreases v@.len() - i,
    {
        out.push(v[i].clone());
        proof {
            assert(out@ =~= v@.subrange(0, i + 1));
        }
        i += 1;
    }
    proof {
        assert(out@ =~= v@);
    }
    out
}


/// Parsing a packet type's own wire name yields that packet type back.
#[verifier::rlimit(100)]
pub proof fn lemma_packet_type_names_parse(t: PacketType)
    ensures
        spec_parse_packet_type(spec_packet_type_name(t)) == Some(t),
{
    reveal_strlit("bounce-event");
    reveal_strlit("disconnect-event");
    reveal_strlit("hello-event");
    reveal_strlit("join-event");
    reveal_strlit("login-event");
    reveal_strlit("logout-event");
    reveal_strlit("network-event");
    reveal_strlit("nick-event");
    reveal_strlit("edit-message-event");
    reveal_strlit("part-event");
    reveal_strlit("ping-event");
    reveal_strlit("pm-initiate-event");
    reveal_strlit("send-event");
    reveal_strlit("snapshot-event");
    reveal_strlit("auth");
    reveal_strlit("auth-reply");
    reveal_strlit("ping");
    reveal_strlit("ping-reply");
    reveal_strlit("get-message");
    reveal_strlit("get-message-reply");
    reveal_strlit("log");
    reveal_strlit("log-reply");
    reveal_strlit("nick");
    reveal_strlit("nick-reply");
    reveal_strlit("pm-initiate");
    reveal_strlit("pm-initiate-reply");
    reveal_strlit("send");
    reveal_strlit("send-reply");
    reveal_strlit("who");
    reveal_strlit("who-reply");
    reveal_strlit("change-email");
    reveal_strlit("change-email-reply");
    reveal_strlit("change-name");
    reveal_strlit("change-name-reply");
    reveal_strlit("change-password");
    reveal_strlit("change-password-reply");
    reveal_strlit("login");
    reveal_strlit("login-reply");
    reveal_strlit("logout");
    reveal_strlit("logout-reply");
    reveal_strlit("register-account");
    reveal_strlit("register-account-reply");
    reveal_strlit("resend-verification-email");
    reveal_strlit("resend-verification-email-reply");
    reveal_strlit("reset-password");
    reveal_strlit("reset-password-reply");
    reveal_strlit("ban");
    reveal_strlit("ban-reply");
    reveal_strlit("edit-message");
    reveal_strlit("edit-message-reply");
    reveal_strlit("grant-access");
    reveal_strlit("grant-access-reply");
    reveal_strlit("grant-manager");
    reveal_strlit("grant-manager-reply");
    reveal_strlit("revoke-access");
    reveal_strlit("revoke-access-reply");
    reveal_strlit("revoke-manager");
    reveal_strlit("revoke-manager-reply");
    reveal_strlit("unban");
    reveal_strlit("unban-reply");
    reveal_strlit("staff-create-room");
    reveal_strlit("staff-create-room-reply");
    reveal_strlit("staff-enroll-otp");
    reveal_strlit("staff-enroll-otp-reply");
    reveal_strlit("staff-grant-manager");
    reveal_strlit("staff-grant-manager-reply");
    reveal_strlit("staff-invade");
    reveal_strlit("staff-invade-reply");
    reveal_strlit("staff-lock-room");
    reveal_strlit("staff-lock-room-reply");
    reveal_strlit("staff-revoke-access");
    reveal_strlit("staff-revoke-access-reply");
    reveal_strlit("staff-validate-otp");
    reveal_strlit("staff-validate-otp-reply");
    reveal_strlit("unlock-staff-capability");
    reveal_strlit("unlock-staff-capability-reply");
    assert("bounce-event"@.len() == 12);
    assert("disconnect-event"@.len() == 16);
    assert("hello-event"@.len() == 11);
    assert("join-event"@.len() == 10);
    assert("login-event"@.len() == 11);
    assert("logout-event"@.len() == 12);
    assert("network-event"@.len() == 13);
    assert("nick-event"@.len() == 10);
    assert("edit-message-event"@.len() == 18);
    assert("part-event"@.len() == 10);
    assert("ping-event"@.len() == 10);
    assert("pm-initiate-event"@.len() == 17);
    assert("send-event"@.len() == 10);
    assert("snapshot-event"@.len() == 14);
    assert("auth"@.len() == 4);
    assert("auth-reply"@.len() == 10);
    assert("ping"@.len() == 4);
    assert("ping-reply"@.len() == 10);
    assert("get-message"@.len() == 11);
    assert("get-message-reply"@.len() == 17);
    assert("log"@.len() == 3);
    assert("log-reply"@.len() == 9);
    assert("nick"@.len() == 4);
    assert("nick-reply"@.len() == 10);
    assert("pm-initiate"@.len() == 11);
    assert("pm-initiate-reply"@.len() == 17);
    assert("send"@.len() == 4);
    assert("send-reply"@.len() == 10);
    assert("who"@.len() == 3);
    assert("who-reply"@.len() == 9);
    assert("change-email"@.len() == 12);
    assert("change-email-reply"@.len() == 18);
    assert("change-name"@.len() == 11);
    assert("change-name-reply"@.len() == 17);
    assert("change-password"@.len() == 15);
    assert("change-password-reply"@.len() == 21);
    assert("login"@.len() == 5);
    assert("login-reply"@.len() == 11);
    assert("logout"@.len() == 6);
    assert("logout-reply"@.len() == 12);
    assert("register-account"@.len() == 16);
    assert("register-account-reply"@.len() == 22);
    assert("resend-verification-email"@.len() == 25);
    assert("resend-verification-email-reply"@.len() == 31);
    assert("reset-password"@.len() == 14);
    assert("reset-password-reply"@.len() == 20);
    assert("ban"@.len() == 3);
    assert("ban-reply"@.len() == 9);
    assert("edit-message"@.len() == 12);
    assert("edit-message-reply"@.len() == 18);
    assert("grant-access"@.len() == 12);
    assert("grant-access-reply"@.len() == 18);
    assert("grant-manager"@.len() == 13);
    assert("grant-manager-reply"@.len() == 19);
    assert("revoke-access"@.len() == 13);
    assert("revoke-access-reply"@.len() == 19);
    assert("revoke-manager"@.len() == 14);
    assert("revoke-manager-reply"@.len() == 20);
    assert("unban"@.len() == 5);
    assert("unban-reply"@.len() == 11);
    assert("staff-create-room"@.len() == 17);
    assert("staff-create-room-reply"@.len() == 23);
    assert("staff-enroll-otp"@.len() == 16);
    assert("staff-enroll-otp-reply"@.len() == 22);
    assert("staff-grant-manager"@.len() == 19);
    assert("staff-grant-manager-reply"@.len() == 25);
    assert("staff-invade"@.len() == 12);
    assert("staff-invade-reply"@.len() == 18);
    assert("staff-lock-room"@.len() == 15);
    assert("staff-lock-room-reply"@.len() == 21);
    assert("staff-revoke-access"@.len() == 19);
    assert("staff-revoke-access-reply"@.len() == 25);
    assert("staff-validate-otp"@.len() == 18);
    assert("staff-validate-otp-reply"@.len() == 24);
    assert("unlock-staff-capability"@.len() == 23);
    assert("unlock-staff-capability-reply"@.len() == 29);
    assert("auth"@[0] == 'a');
    assert("auth-reply"@[0] == 'a');
    assert("ban"@[0] == 'b');
    assert("ban-reply"@[0] == 'b');
    assert("bounce-event"@[0] == 'b');
    assert("change-email"@[0] == 'c');
    assert("change-email-reply"@[0] == 'c');
    assert("change-name"@[0] == 'c');
    assert("change-name-reply"@[0] == 'c');
    assert("change-password"@[0] == 'c');
    assert("change-password-reply"@[0] == 'c');
    assert("disconnect-event"@[0] == 'd');
    assert("edit-message"@[0] == 'e');
    assert("edit-message-event"@[0] == 'e');
    assert("edit-message-event"@[13] == 'e');
    assert("edit-message-reply"@[0] == 'e');
    assert("edit-message-reply"@[13] == 'r');
    assert("get-message"@[0] == 'g');
    assert("get-message-reply"@[0] == 'g');
    assert("grant-access"@[0] == 'g');
    assert("grant-access-reply"@[0] == 'g');
    assert("grant-manager"@[0] == 'g');
    assert("grant-manager-reply"@[0] == 'g');
    assert("hello-event"@[0] == 'h');
    assert("join-event"@[0] == 'j');
    assert("log"@[0] == 'l');
    assert("log-reply"@[0] == 'l');
    assert("login"@[0] == 'l');
    assert("login-event"@[0] == 'l');
    assert("login-event"@[6] == 'e');
    assert("login-reply"@[0] == 'l');
    assert("login-reply"@[6] == 'r');
    assert("logout-event"@[0] == 'l');
    assert("logout-event"@[7] == 'e');
    assert("logout-reply"@[0] == 'l');
    assert("logout-reply"@[7] == 'r');
    assert("network-event"@[0] == 'n');
    assert("nick"@[0] == 'n');
    assert("nick-event"@[0] == 'n');
    assert("nick-event"@[5] == 'e');
    assert("nick-reply"@[0] == 'n');
    assert("nick-reply"@[5] == 'r');
    assert("part-event"@[0] == 'p');
    assert("part-event"@[1] == 'a');
    assert("ping"@[0] == 'p');
    assert("ping-event"@[0] == 'p');
    assert("ping-event"@[1] == 'i');
    assert("ping-event"@[5] == 'e');
    assert("ping-reply"@[0] == 'p');
    assert("ping-reply"@[1] == 'i');
    assert("ping-reply"@[5] == 'r');
    assert("pm-initiate"@[0] == 'p');
    assert("pm-initiate-event"@[0] == 'p');
    assert("pm-initiate-event"@[12] == 'e');
    assert("pm-initiate-reply"@[0] == 'p');
    assert("pm-initiate-reply"@[12] == 'r');
    assert("register-account"@[0] == 'r');
    assert("register-account-reply"@[0] == 'r');
    assert("resend-verification-email"@[0] == 'r');
    assert("reset-password"@[0] == 'r');
    assert("reset-password"@[2] == 's');
    assert("reset-password-reply"@[2] == 's');
    assert("revoke-access"@[0] == 'r');
    assert("revoke-access-reply"@[0] == 'r');
    assert("revoke-manager"@[0] == 'r');
    assert("revoke-manager"@[2] == 'v');
    assert("revoke-manager-reply"@[2] == 'v');
    assert("send"@[0] == 's');
    assert("send-event"@[0] == 's');
    assert("send-event"@[5] == 'e');
    assert("send-reply"@[0] == 's');
    assert("send-reply"@[5] == 'r');
    assert("snapshot-event"@[0] == 's');
    assert("staff-create-room"@[0] == 's');
    assert("staff-create-room-reply"@[0] == 's');
    assert("staff-enroll-otp"@[0] == 's');
    assert("staff-enroll-otp-reply"@[0] == 's');
    assert("staff-grant-manager"@[0] == 's');
    assert("staff-grant-manager"@[6] == 'g');
    assert("staff-grant-manager-reply"@[0] == 's');
    assert("staff-grant-manager-reply"@[6] == 'g');
    assert("staff-invade"@[0] == 's');
    assert("staff-invade-reply"@[0] == 's');
    assert("staff-invade-reply"@[6] == 'i');
    assert("staff-lock-room"@[0] == 's');
    assert("staff-lock-room-reply"@[0] == 's');
    assert("staff-revoke-access"@[0] == 's');
    assert("staff-revoke-access"@[6] == 'r');
    assert("staff-revoke-access-reply"@[0] == 's');
    assert("staff-revoke-access-reply"@[6] == 'r');
    assert("staff-validate-otp"@[0] == 's');
    assert("staff-validate-otp"@[6] == 'v');
    assert("unban"@[0] == 'u');
    assert("unban-reply"@[0] == 'u');
    assert("unlock-staff-capability"@[0] == 'u');
    assert("who"@[0] == 'w');
    assert("who-reply"@[0] == 'w');
    match t {
        PacketType::BounceEvent => {
            assert(spec_parse_packet_type("bounce-event"@) == Some(PacketType::BounceEvent));
        },
        PacketType::DisconnectEvent => {
            assert(spec_parse_packet_type("disconnect-event"@) == Some(PacketType::DisconnectEvent));
        },
        PacketType::HelloEvent => {
            assert(spec_parse_packet_type("hello-event"@) == Some(PacketType::HelloEvent));
        },
        PacketType::JoinEvent => {
            assert(spec_parse_packet_type("join-event"@) == Some(PacketType::JoinEvent));
        },
        PacketType::LoginEvent => {
            assert(spec_parse_packet_type("login-event"@) == Some(PacketType::LoginEvent));
        },
        PacketType::LogoutEvent => {
            assert(spec_parse_packet_type("logout-event"@) == Some(PacketType::LogoutEvent));
        },
        PacketType::NetworkEvent => {
            assert(spec_parse_packet_type("network-event"@) == Some(PacketType::NetworkEvent));
        },
        PacketType::NickEvent => {
            assert(spec_parse_packet_type("nick-event"@) == Some(PacketType::NickEvent));
        },
        PacketType::EditMessageEvent => {
            assert(spec_parse_packet_type("edit-message-event"@) == Some(PacketType::EditMessageEvent));
        },
        PacketType::PartEvent => {
            assert(spec_parse_packet_type("part-event"@) == Some(PacketType::PartEvent));
        },
        PacketType::PingEvent => {
            assert(spec_parse_packet_type("ping-event"@) == Some(PacketType::PingEvent));
        },
        PacketType::PmInitiateEvent => {
            assert(spec_parse_packet_type("pm-initiate-event"@) == Some(PacketType::PmInitiateEvent));
        },
        PacketType::SendEvent => {
            assert(spec_parse_packet_type("send-event"@) == Some(PacketType::SendEvent));
        },
        PacketType::SnapshotEvent => {
            assert(spec_parse_packet_type("snapshot-event"@) == Some(PacketType::SnapshotEvent));
        },
        PacketType::Auth => {
            assert(spec_parse_packet_type("auth"@) == Some(PacketType::Auth));
        },
        PacketType::AuthReply => {
            assert(spec_parse_packet_type("auth-reply"@) == Some(PacketType::AuthReply));
        },
        PacketType::Ping => {
            assert(spec_parse_packet_type("ping"@) == Some(PacketType::Ping));
        },
        PacketType::PingReply => {
            assert(spec_parse_packet_type("ping-reply"@) == Some(PacketType::PingReply));
        },
        PacketType::GetMessage => {
            assert(spec_parse_packet_type("get-message"@) == Some(PacketType::GetMessage));
        },
        PacketType::GetMessageReply => {
            assert(spec_parse_packet_type("get-message-reply"@) == Some(PacketType::GetMessageReply));
        },
        PacketType::Log => {
            assert(spec_parse_packet_type("log"@) == Some(PacketType::Log));
        },
        PacketType::LogReply => {
            assert(spec_parse_packet_type("log-reply"@) == Some(PacketType::LogReply));
        },
        PacketType::Nick => {
            assert(spec_parse_packet_type("nick"@) == Some(PacketType::Nick));
        },
        PacketType::NickReply => {
            assert(spec_parse_packet_type("nick-reply"@) == Some(PacketType::NickReply));
        },
        PacketType::PmInitiate => {
            assert(spec_parse_packet_type("pm-initiate"@) == Some(PacketType::PmInitiate));
        },
        PacketType::PmInitiateReply => {
            assert(spec_parse_packet_type("pm-initiate-reply"@) == Some(PacketType::PmInitiateReply));
        },
        PacketType::Send => {
            assert(spec_parse_packet_type("send"@) == Some(PacketType::Send));
        },
        PacketType::SendReply => {
            assert(spec_parse_packet_type("send-reply"@) == Some(PacketType::SendReply));
        },
        PacketType::Who => {
            assert(spec_parse_packet_type("who"@) == Some(PacketType::Who));
        },
        PacketType::WhoReply => {
            assert(spec_parse_packet_type("who-reply"@) == Some(PacketType::WhoReply));
        },
        PacketType::ChangeEmail => {
            assert(spec_parse_packet_type("change-email"@) == Some(PacketType::ChangeEmail));
        },
        PacketType::ChangeEmailReply => {
            assert(spec_parse_packet_type("change-email-reply"@) == Some(PacketType::ChangeEmailReply));
        },
        PacketType::ChangeName => {
            assert(spec_parse_packet_type("change-name"@) == Some(PacketType::ChangeName));
        },
        PacketType::ChangeNameReply => {
            assert(spec_parse_packet_type("change-name-reply"@) == Some(PacketType::ChangeNameReply));
        },
        PacketType::ChangePassword => {
            assert(spec_parse_packet_type("change-password"@) == Some(PacketType::ChangePassword));
        },
        PacketType::ChangePasswordReply => {
            assert(spec_parse_packet_type("change-password-reply"@) == Some(PacketType::ChangePasswordReply));
        },
        PacketType::Login => {
            assert(spec_parse_packet_type("login"@) == Some(PacketType::Login));
        },
        PacketType::LoginReply => {
            assert(spec_parse_packet_type("login-reply"@) == Some(PacketType::LoginReply));
        },
        PacketType::Logout => {
            assert(spec_parse_packet_type("logout"@) == Some(PacketType::Logout));
        },
        PacketType::LogoutReply => {
            assert(spec_parse_packet_type("logout-reply"@) == Some(PacketType::LogoutReply));
        },
        PacketType::RegisterAccount => {
            assert(spec_parse_packet_type("register-account"@) == Some(PacketType::RegisterAccount));
        },
        PacketType::RegisterAccountReply => {
            assert(spec_parse_packet_type("register-account-reply"@) == Some(PacketType::RegisterAccountReply));
        },
        PacketType::ResendVerificationEmail => {
            assert(spec_parse_packet_type("resend-verification-email"@) == Some(PacketType::ResendVerificationEmail));
        },
        PacketType::ResendVerificationEmailReply => {
            assert(spec_parse_packet_type("resend-verification-email-reply"@) == Some(PacketType::ResendVerificationEmailReply));
        },
        PacketType::ResetPassword => {
            assert(spec_parse_packet_type("reset-password"@) == Some(PacketType::ResetPassword));
        },
        PacketType::ResetPasswordReply => {
            assert(spec_parse_packet_type("reset-password-reply"@) == Some(PacketType::ResetPasswordReply));
        },
        PacketType::Ban => {
            assert(spec_parse_packet_type("ban"@) == Some(PacketType::Ban));
        },
        PacketType::BanReply => {
            assert(spec_parse_packet_type("ban-reply"@) == Some(PacketType::BanReply));
        },
        PacketType::EditMessage => {
            assert(spec_parse_packet_type("edit-message"@) == Some(PacketType::EditMessage));
        },
        PacketType::EditMessageReply => {
            assert(spec_parse_packet_type("edit-message-reply"@) == Some(PacketType::EditMessageReply));
        },
        PacketType::GrantAccess => {
            assert(spec_parse_packet_type("grant-access"@) == Some(PacketType::GrantAccess));
        },
        PacketType::GrantAccessReply => {
            assert(spec_parse_packet_type("grant-access-reply"@) == Some(PacketType::GrantAccessReply));
        },
        PacketType::GrantManager => {
            assert(spec_parse_packet_type("grant-manager"@) == Some(PacketType::GrantManager));
        },
        PacketType::GrantManagerReply => {
            assert(spec_parse_packet_type("grant-manager-reply"@) == Some(PacketType::GrantManagerReply));
        },
        PacketType::RevokeAccess => {
            assert(spec_parse_packet_type("revoke-access"@) == Some(PacketType::RevokeAccess));
        },
        PacketType::RevokeAccessReply => {
            assert(spec_parse_packet_type("revoke-access-reply"@) == Some(PacketType::RevokeAccessReply));
        },
        PacketType::RevokeManager => {
            assert(spec_parse_packet_type("revoke-manager"@) == Some(PacketType::RevokeManager));
        },
        PacketType::RevokeManagerReply => {
            assert(spec_parse_packet_type("revoke-manager-reply"@) == Some(PacketType::RevokeManagerReply));
        },
        PacketType::Unban => {
            assert(spec_parse_packet_type("unban"@) == Some(PacketType::Unban));
        },
        PacketType::UnbanReply => {
            assert(spec_parse_packet_type("unban-reply"@) == Some(PacketType::UnbanReply));
        },
        PacketType::StaffCreateRoom => {
            assert(spec_parse_packet_type("staff-create-room"@) == Some(PacketType::StaffCreateRoom));
        },
        PacketType::StaffCreateRoomReply => {
            assert(spec_parse_packet_type("staff-create-room-reply"@) == Some(PacketType::StaffCreateRoomReply));
        },
        PacketType::StaffEnrollOtp => {
            assert(spec_parse_packet_type("staff-enroll-otp"@) == Some(PacketType::StaffEnrollOtp));
        },
        PacketType::StaffEnrollOtpReply => {
            assert(spec_parse_packet_type("staff-enroll-otp-reply"@) == Some(PacketType::StaffEnrollOtpReply));
        },
        PacketType::StaffGrantManager => {
            assert(spec_parse_packet_type("staff-grant-manager"@) == Some(PacketType::StaffGrantManager));
        },
        PacketType::StaffGrantManagerReply => {
            assert(spec_parse_packet_type("staff-grant-manager-reply"@) == Some(PacketType::StaffGrantManagerReply));
        },
        PacketType::StaffInvade => {
            assert(spec_parse_packet_type("staff-invade"@) == Some(PacketType::StaffInvade));
        },
        PacketType::StaffInvadeReply => {
            assert(spec_parse_packet_type("staff-invade-reply"@) == Some(PacketType::StaffInvadeReply));
        },
        PacketType::StaffLockRoom => {
            assert(spec_parse_packet_type("staff-lock-room"@) == Some(PacketType::StaffLockRoom));
        },
        PacketType::StaffLockRoomReply => {
            assert(spec_parse_packet_type("staff-lock-room-reply"@) == Some(PacketType::StaffLockRoomReply));
        },
        PacketType::StaffRevokeAccess => {
            assert(spec_parse_packet_type("staff-revoke-access"@) == Some(PacketType::StaffRevokeAccess));
        },
        PacketType::StaffRevokeAccessReply => {
            assert(spec_parse_packet_type("staff-revoke-access-reply"@) == Some(PacketType::StaffRevokeAccessReply));
        },
        PacketType::StaffValidateOtp => {
            assert(spec_parse_packet_type("staff-validate-otp"@) == Some(PacketType::StaffValidateOtp));
        },
        PacketType::StaffValidateOtpReply => {
            assert(spec_parse_packet_type("staff-validate-otp-reply"@) == Some(PacketType::StaffValidateOtpReply));
        },
        PacketType::UnlockStaffCapability => {
            assert(spec_parse_packet_type("unlock-staff-capability"@) == Some(PacketType::UnlockStaffCapability));
        },
        PacketType::UnlockStaffCapabilityReply => {
            assert(spec_parse_packet_type("unlock-staff-capability-reply"@) == Some(PacketType::UnlockStaffCapabilityReply));
        },
    }
}

} // verus!
