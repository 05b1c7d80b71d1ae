//! Reading numbers and flags from text, as the values of a query are written:
//! an integer in decimal with an optional sign, a flag as `true` or `false`.

use vstd::prelude::*;
use vstd::string::StrSliceExecFns;

verus! {

/// A decimal digit.
pub open spec fn is_digit(c: char) -> bool {
    '0' <= c && c <= '9'
}

/// Every character is a decimal digit.
pub open spec fn all_digits(s: Seq<char>) -> bool {
    forall|i: int| 0 <= i < s.len() ==> is_digit(#[trigger] s[i])
}

/// The number that a sequence of decimal digits writes.
pub open spec fn digits_value(s: Seq<char>) -> int
    decreases s.len(),
{
    if s.len() == 0 {
        0
    } else {
        digits_value(s.drop_last()) * 10 + (s.last() as int - '0' as int)
    }
}

/// Whether a text starts with the sign of a negative number. Only where
/// `signed` is a `-` read as a sign.
pub open spec fn is_negative(s: Seq<char>, signed: bool) -> bool {
    signed && s.len() > 0 && s[0] == '-'
}

/// What follows the sign of a text, or the whole text where it has no sign.
pub open spec fn after_sign(s: Seq<char>, signed: bool) -> Seq<char> {
    if s.len() > 0 && (s[0] == '+' || is_negative(s, signed)) {
        s.skip(1)
    } else {
        s
    }
}

/// The integer that a text writes in decimal: an optional sign, `+` or, where
/// `signed`, `-`, and then one digit or more and nothing else.
pub open spec fn decimal(s: Seq<char>, signed: bool) -> Option<int> {
    let digits = after_sign(s, signed);
    if digits.len() == 0 || !all_digits(digits) {
        None
    } else if is_negative(s, signed) {
        Some(-digits_value(digits))
    } else {
        Some(digits_value(digits))
    }
}

/// The 32-bit integer that a text writes in decimal, if it writes one.
pub open spec fn decimal_i32(s: Seq<char>) -> Option<i32> {
    match decimal(s, true) {
        Some(v) => if i32::MIN <= v <= i32::MAX {
            Some(v as i32)
        } else {
            None
        },
        None => None,
    }
}

/// The unsigned 16-bit integer that a text writes in decimal, if it writes one.
pub open spec fn decimal_u16(s: Seq<char>) -> Option<u16> {
    match decimal(s, false) {
        Some(v) => if v <= u16::MAX {
            Some(v as u16)
        } else {
            None
        },
        None => None,
    }
}

/// The flag that a text writes: `true` or `false`, and nothing else.
pub open spec fn written_bool(s: Seq<char>) -> Option<bool> {
    if s == "true"@ {
        Some(true)
    } else if s == "false"@ {
        Some(false)
    } else {
        None
    }
}

/// The bound at which a magnitude is no longer told from a larger one. It is
/// above every value of the types that are read.
pub const MAGNITUDE_CAP: u64 = 0x1_0000_0000;

/// A magnitude, or the cap where it reaches it.
pub open spec fn capped(v: int) -> int {
    if v >= MAGNITUDE_CAP {
        MAGNITUDE_CAP as int
    } else {
        v
    }
}

/// Digits write no negative number, and one digit more writes ten times the
/// number and the digit.
proof fn lemma_digits_step(s: Seq<char>, i: int, j: int)
    requires
        0 <= i <= j < s.len(),
        forall|k: int| i <= k <= j ==> is_digit(#[trigger] s[k]),
    ensures
        digits_value(s.subrange(i, j + 1)) == digits_value(s.subrange(i, j)) * 10 + (s[j] as int - '0' as int),
        digits_value(s.subrange(i, j)) >= 0,
    decreases j - i,
{
    assert(s.subrange(i, j + 1).drop_last() =~= s.subrange(i, j));
    if i < j {
        lemma_digits_step(s, i, j - 1);
    }
}

/// A text with a character outside ASCII writes no number.
proof fn lemma_not_ascii_is_no_number(s: Seq<char>, signed: bool)
    requires
        !vstd::utf8::is_ascii_chars(s),
    ensures
        decimal(s, signed) is None,
{
    let i = choose|i: int| 0 <= i < s.len() && !('\0' <= #[trigger] s[i] <= '\u{7f}');
    let digits = after_sign(s, signed);
    if digits.len() == s.len() {
        assert(!is_digit(digits[i]));
    } else {
        assert(i > 0);
        assert(digits[i - 1] == s[i]);
        assert(!is_digit(digits[i - 1]));
    }
}

/// Reads the sign and the magnitude of a decimal integer. Nothing is read
/// of a text that writes none. A magnitude at or above the cap is read as
/// the cap.
pub fn read_decimal(s: &str, signed: bool) -> (r: Option<(bool, u64)>)
    ensures
        decimal(s@, signed) is None ==> r is None,
        decimal(s@, signed) is Some ==> (r matches Some((negative, magnitude)) && negative == is_negative(s@, signed)
            && magnitude == capped(digits_value(after_sign(s@, signed)))),
{
    if !s.is_ascii() {
        proof {
            lemma_not_ascii_is_no_number(s@, signed);
        }
        return None;
    }
    let n: usize = s.unicode_len();
    if n == 0 {
        return None;
    }
    let first: u8 = s.get_ascii(0);
    let negative: bool = signed && first == 45;
    let start: usize = if first == 43 || negative {
        1
    } else {
        0
    };
    assert(s@[0] as u8 == s@[0] as int);
    assert(negative == is_negative(s@, signed));
    assert(after_sign(s@, signed) =~= s@.subrange(start as int, n as int));
    if start == n {
        return None;
    }
    let mut acc: u64 = 0;
    let mut i: usize = start;
    while i < n
        invariant
            s.is_ascii(),
            n == s@.len(),
            start <= i <= n,
            forall|k: int| start <= k < i ==> is_digit(#[trigger] s@[k]),
            acc == capped(digits_value(s@.subrange(start as int, i as int))),
            acc <= MAGNITUDE_CAP,
            after_sign(s@, signed) == s@.subrange(start as int, n as int),
        decreases n - i,
    {
        let b: u8 = s.get_ascii(i);
        assert(s@[i as int] as u8 == s@[i as int] as int);
        if b < 48 || b > 57 {
            assert(!is_digit(s@.subrange(start as int, n as int)[i - start]));
            return None;
        }
        proof {
            lemma_digits_step(s@, start as int, i as int);
        }
        let next: u64 = acc * 10 + (b - 48) as u64;
        acc = if next >= MAGNITUDE_CAP {
            MAGNITUDE_CAP
        } else {
            next
        };
        i += 1;
    }
    assert(s@.subrange(start as int, i as int) == after_sign(s@, signed));
    Some((negative, acc))
}

/// Reads a 32-bit integer written in decimal: an optional `+` or `-`, then
/// digits and nothing else, and a value that the type holds.
pub fn parse_i32(s: &str) -> (r: Option<i32>)
    ensures
        r == decimal_i32(s@),
{
    match read_decimal(s, true) {
        None => None,
        Some((negative, magnitude)) => {
            if negative {
                if magnitude <= 0x8000_0000 {
                    Some((0 - magnitude as i64) as i32)
                } else {
                    None
                }
            } else if magnitude <= 0x7fff_ffff {
                Some(magnitude as i32)
            } else {
                None
            }
        },
    }
}

/// Reads an unsigned 16-bit integer written in decimal: an optional `+`,
/// then digits and nothing else, and a value that the type holds.
pub fn parse_u16(s: &str) -> (r: Option<u16>)
    ensures
        r == decimal_u16(s@),
{
    match read_decimal(s, false) {
        None => None,
        Some((_, magnitude)) => {
            if magnitude <= 0xffff {
                Some(magnitude as u16)
            } else {
                None
            }
        },
    }
}

/// Reads a flag: `true` or `false` and nothing else.
pub fn parse_bool(s: &str) -> (r: Option<bool>)
    ensures
        r == written_bool(s@),
{
    let owned: String = s.to_owned();
    if owned == "true".to_owned() {
        Some(true)
    } else if owned == "false".to_owned() {
        Some(false)
    } else {
        None
    }
}

} // verus!
