//! Room ids as typed by the user, and their decimal text.
use vstd::prelude::*;

verus! {

/// Value of a character that is an ASCII digit.
pub open spec fn digit_value(c: char) -> nat {
    (c as int - '0' as int) as nat
}

/// Whether every character of `s` is an ASCII digit.
pub open spec fn all_digits(s: Seq<char>) -> bool {
    forall|i: int| 0 <= i < s.len() ==> '0' <= #[trigger] s[i] && s[i] <= '9'
}

/// Value of a string of decimal digits, most significant first.
pub open spec fn digits_value(s: Seq<char>) -> nat
    decreases s.len(),
{
    if s.len() == 0 {
        0
    } else {
        digits_value(s.drop_last()) * 10 + digit_value(s.last())
    }
}

/// The digits that follow an optional leading `+`.
pub open spec fn unsigned_digits(s: Seq<char>) -> Seq<char> {
    if s.len() > 0 && s[0] == '+' {
        s.skip(1)
    } else {
        s
    }
}

/// Whether `s` is the text of an unsigned 64-bit integer: an optional `+`,
/// then at least one ASCII digit, and a value that fits in a `u64`.
pub open spec fn is_u64_text(s: Seq<char>) -> bool {
    let d = unsigned_digits(s);
    &&& d.len() > 0
    &&& all_digits(d)
    &&& digits_value(d) <= u64::MAX
}

/// The integer that the text `s` denotes.
pub open spec fn text_value(s: Seq<char>) -> nat {
    digits_value(unsigned_digits(s))
}

/// The ASCII digit for a value below ten.
pub open spec fn digit_char(d: nat) -> char {
    ('0' as int + d) as char
}

/// Shortest decimal text of `n`, without sign.
pub open spec fn decimal_text(n: nat) -> Seq<char>
    decreases n,
{
    if n < 10 {
        seq![digit_char(n)]
    } else {
        decimal_text(n / 10).push(digit_char(n % 10))
    }
}

/// Whether `s` names a room: the text of an unsigned integer whose value is positive.
pub open spec fn is_room_text(s: Seq<char>) -> bool {
    is_u64_text(s) && text_value(s) > 0
}

/// A room id text that does not name a room.
#[derive(Clone, Copy, Debug, PartialEq, Eq, Structural)]
pub struct InputError;

proof fn digits_value_grows(s: Seq<char>, i: int, j: int)
    requires
        0 <= i <= j <= s.len(),
    ensures
        digits_value(s.take(i)) <= digits_value(s.take(j)),
    decreases j - i,
{
    if i < j {
        digits_value_grows(s, i, j - 1);
        assert(s.take(j).drop_last() =~= s.take(j - 1));
    }
}

proof fn u64_text_is_ascii(s: Seq<char>)
    requires
        is_u64_text(s),
    ensures
        vstd::utf8::is_ascii_chars(s),
{
    let d = unsigned_digits(s);
    assert forall|i: int| 0 <= i < s.len() implies '\0' <= #[trigger] s[i] <= '\u{7f}' by {
        if s.len() > 0 && s[0] == '+' {
            if i > 0 {
                assert(s[i] == d[i - 1]);
            }
        } else {
            assert(s[i] == d[i]);
        }
    }
}

/// ASCII codes of `+`, `0` and `9`.
const PLUS: u8 = 43;
const DIGIT_ZERO: u8 = 48;
const DIGIT_NINE: u8 = 57;

/// Reads an unsigned 64-bit integer: an optional `+`, then one or more ASCII
/// digits whose value fits in a `u64`.
fn parse_u64(s: &str) -> (r: Option<u64>)
    ensures
        r.is_some() <==> is_u64_text(s@),
        r.is_some() ==> r.unwrap() as nat == text_value(s@),
{
    broadcast use vstd::string::is_ascii_spec_bytes;

    if !s.is_ascii() {
        proof {
            if is_u64_text(s@) {
                u64_text_is_ascii(s@);
            }
        }
        return None;
    }
    let b = s.as_bytes();
    assert(b@ =~= Seq::new(s@.len(), |i| s@[i] as u8));
    let start: usize = if b.len() > 0 && b[0] == PLUS { 1 } else { 0 };
    let ghost d = unsigned_digits(s@);
    proof {
        if s@.len() > 0 {
            assert(s@[0] as u8 == b@[0]);
        }
    }
    assert(d =~= s@.skip(start as int));
    if start == b.len() {
        return None;
    }
    let mut v: u64 = 0;
    let mut i: usize = start;
    while i < b.len()
        invariant
            start <= i <= b.len(),
            b@.len() == s@.len(),
            forall|k: int| 0 <= k < b@.len() ==> b@[k] == s@[k] as u8,
            vstd::utf8::is_ascii_chars(s@),
            d == unsigned_digits(s@),
            d =~= s@.skip(start as int),
            all_digits(d.take(i - start)),
            v as nat == digits_value(d.take(i - start)),
        decreases b.len() - i,
    {
        let c = b[i];
        assert(d[i - start] == s@[i as int]);
        if c < DIGIT_ZERO || c > DIGIT_NINE {
            assert(!('0' <= d[i - start] && d[i - start] <= '9'));
            assert(!all_digits(d));
            return None;
        }
        let digit: u64 = (c - DIGIT_ZERO) as u64;
        assert(d.take(i - start + 1).drop_last() =~= d.take(i - start));
        assert(digit_value(d[i - start]) == digit);
        if v > (u64::MAX - digit) / 10 {
            proof {
                assert(v as int * 10 + digit as int > u64::MAX) by (nonlinear_arith)
                    requires
                        v as int > (u64::MAX as int - digit as int) / 10,
                        0 <= digit as int <= 9,
                ;
                assert(digits_value(d.take(i - start + 1)) == digits_value(d.take(i - start)) * 10
                    + digit_value(d.take(i - start + 1).last()));
                digits_value_grows(d, i - start + 1, d.len() as int);
                assert(d.take(d.len() as int) =~= d);
            }
            return None;
        }
        v = v * 10 + digit;
        i = i + 1;
        let ghost read = d.take(i - start);
        assert forall|k: int| 0 <= k < read.len() implies '0' <= #[trigger] read[k] && read[k] <= '9' by {
            if k < read.len() - 1 {
                assert(read[k] == d.take(i - start - 1)[k]);
            }
        }
    }
    assert(d.take(d.len() as int) =~= d);
    Some(v)
}

/// Relies on `<u64 as ToString>::to_string`: the shortest decimal text of the value.
#[verifier::external_body]
fn u64_text(n: u64) -> (r: String)
    ensures
        r@ == decimal_text(n as nat),
{
    n.to_string()
}

/// Parses the text of a room id field. Rejected, with no other effect, unless
/// it is the text of a positive `u64`.
pub fn parse_room_id(s: &str) -> (r: Result<u64, InputError>)
    ensures
        r.is_ok() <==> is_room_text(s@),
        r.is_ok() ==> r.unwrap() as nat == text_value(s@),
        r.is_err() ==> r == Err::<u64, InputError>(InputError),
{
    match parse_u64(s) {
        Some(v) => {
            if v > 0 {
                Ok(v)
            } else {
                Err(InputError)
            }
        },
        None => Err(InputError),
    }
}

/// The decimal text of a room id, as shown in the room id field.
pub fn room_text(room_id: u64) -> (r: String)
    ensures
        r@ == decimal_text(room_id as nat),
{
    u64_text(room_id)
}

} // verus!
