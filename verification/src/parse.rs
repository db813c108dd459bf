//! Reading an amount from text written by hand.
//!
//! The text is an optional sign, an optional dollar sign, a run of digits
//! and, after a decimal point, two digits of cents. Whatever follows the
//! cents is not looked at.
//!
//! The reader is lenient in two ways that callers should know. The dollar
//! digits are added up, not weighed by their place, so `12` reads as three
//! dollars and only a single dollar digit reads as it is written. And the
//! digits may be missing: the empty text reads as zero.

use core::str::FromStr;
use vstd::prelude::*;
use vstd::string::StrSliceExecFns;
use vstd::utf8::is_ascii_chars;
use crate::error::{ParseError, ParseErrorKind};
use crate::money::Dollars;

verus! {

/// Whether `c` is one of the ten decimal digits.
pub open spec fn is_digit(c: char) -> bool {
    '0' <= c <= '9'
}

/// The number that the decimal digit `c` stands for.
pub open spec fn digit_value(c: char) -> int
    recommends
        is_digit(c),
{
    c as int - '0' as int
}

/// Whether the text begins with a minus sign.
pub open spec fn is_negative(s: Seq<char>) -> bool {
    s.len() > 0 && s[0] == '-'
}

/// How many characters the optional sign and the optional dollar sign take
/// at the head of the text.
pub open spec fn prefix_len(s: Seq<char>) -> int {
    let signed: int = if s.len() > 0 && (s[0] == '-' || s[0] == '+') { 1 } else { 0 };
    if signed < s.len() && s[signed] == '$' {
        signed + 1
    } else {
        signed
    }
}

/// The dollar digits from position `i` on, folded into `acc` from left to
/// right by adding each digit's value. The run ends at the first decimal
/// point, which is taken with it, or at the end of the text. The result is
/// the sum and the position after the run, or the first failure met: a
/// character that is no digit, or a sum that leaves 64 bits.
pub open spec fn scan_dollars(s: Seq<char>, i: int, acc: int) -> Result<(int, int), ParseErrorKind>
    decreases s.len() - i,
{
    if i < 0 || i >= s.len() {
        Ok((acc, i))
    } else if s[i] == '.' {
        Ok((acc, i + 1))
    } else if !is_digit(s[i]) {
        Err(ParseErrorKind::InvalidDigit(s[i]))
    } else if acc + digit_value(s[i]) > i64::MAX {
        Err(ParseErrorKind::Overflow)
    } else {
        scan_dollars(s, i + 1, acc + digit_value(s[i]))
    }
}

/// The cents that the text after the dollar digits gives. Only its first
/// two characters count: none is zero cents, one alone is a failure, a
/// decimal point among them is a failure, and two digits are their value.
/// Where one of the two is no digit, the failure carries that character:
/// the first of them, or the second where the first is a digit.
pub open spec fn cents_of(rest: Seq<char>) -> Result<int, ParseErrorKind> {
    if rest.len() == 0 {
        Ok(0)
    } else if rest[0] == '.' || (rest.len() >= 2 && rest[1] == '.') {
        Err(ParseErrorKind::ExtraDecimalPoint)
    } else if rest.len() == 1 {
        Err(ParseErrorKind::BadCentsLength)
    } else if !is_digit(rest[0]) {
        Err(ParseErrorKind::InvalidDigit(rest[0]))
    } else if !is_digit(rest[1]) {
        Err(ParseErrorKind::InvalidDigit(rest[1]))
    } else {
        Ok(10 * digit_value(rest[0]) + digit_value(rest[1]))
    }
}

/// Whether `v` fits in 64 signed bits.
pub open spec fn fits(v: int) -> bool {
    i64::MIN <= v <= i64::MAX
}

/// The signed total of `dollars` dollars and `cents` cents, in cents. It
/// is built in three steps, each of which must fit in 64 bits: a hundred
/// times the dollars, plus the cents, times the sign.
pub open spec fn total_of(dollars: int, cents: int, negative: bool) -> Result<int, ParseErrorKind> {
    let unsigned = 100 * dollars + cents;
    let signed = if negative { -unsigned } else { unsigned };
    if fits(100 * dollars) && fits(unsigned) && fits(signed) {
        Ok(signed)
    } else {
        Err(ParseErrorKind::Overflow)
    }
}

/// What reading the text `s` gives: the amount in cents, or the first
/// failure in the order in which the text is read.
pub open spec fn parse_spec(s: Seq<char>) -> Result<int, ParseErrorKind> {
    if !is_ascii_chars(s) {
        Err(ParseErrorKind::NonAscii)
    } else {
        match scan_dollars(s, prefix_len(s), 0) {
            Err(kind) => Err(kind),
            Ok((dollars, next)) => match cents_of(s.skip(next)) {
                Err(kind) => Err(kind),
                Ok(cents) => total_of(dollars, cents, is_negative(s)),
            },
        }
    }
}

/// The value of one decimal digit, or nothing for any other character.
fn decimal_digit(c: char) -> (r: Option<i64>)
    ensures
        r == (if is_digit(c) {
            Some(digit_value(c) as i64)
        } else {
            None
        }),
{
    if '0' <= c && c <= '9' {
        Some((c as u8 - '0' as u8) as i64)
    } else {
        None
    }
}

/// The character at position `i` of a text in ASCII.
fn char_at(s: &str, i: usize) -> (c: char)
    requires
        s.is_ascii(),
        i < s@.len(),
    ensures
        c == s@[i as int],
{
    s.get_ascii(i) as char
}

/// The number of characters of a text in ASCII, which is that of its bytes.
fn ascii_len(s: &str) -> (n: usize)
    requires
        s.is_ascii(),
    ensures
        n == s@.len(),
{
    proof {
        vstd::string::is_ascii_spec_bytes(s);
    }
    s.as_bytes().len()
}

/// Skips the optional sign and the optional dollar sign.
fn read_prefix(s: &str) -> (r: (bool, usize))
    requires
        s.is_ascii(),
    ensures
        r.0 == is_negative(s@),
        r.1 == prefix_len(s@),
{
    let n = ascii_len(s);
    let mut negative = false;
    let mut i: usize = 0;
    if n > 0 {
        let first = char_at(s, 0);
        if first == '-' {
            negative = true;
            i = 1;
        } else if first == '+' {
            i = 1;
        }
    }
    if i < n && char_at(s, i) == '$' {
        i = i + 1;
    }
    (negative, i)
}

/// Reads the dollar digits from position `start` on.
fn read_dollars(s: &str, start: usize) -> (r: Result<(i64, usize), ParseErrorKind>)
    requires
        s.is_ascii(),
        start <= s@.len(),
    ensures
        match scan_dollars(s@, start as int, 0) {
            Ok((sum, next)) => r matches Ok((dollars, position)) && dollars == sum && 0 <= sum
                && position == next && start <= next <= s@.len(),
            Err(kind) => r == Err::<(i64, usize), ParseErrorKind>(kind),
        },
{
    let n = ascii_len(s);
    let mut i: usize = start;
    let mut acc: i64 = 0;
    while i < n
        invariant
            s.is_ascii(),
            n == s@.len(),
            start <= i <= n,
            0 <= acc,
            scan_dollars(s@, start as int, 0) == scan_dollars(s@, i as int, acc as int),
        decreases n - i,
    {
        let c = char_at(s, i);
        if c == '.' {
            return Ok((acc, i + 1));
        }
        match decimal_digit(c) {
            None => {
                return Err(ParseErrorKind::InvalidDigit(c));
            },
            Some(d) => match acc.checked_add(d) {
                None => {
                    return Err(ParseErrorKind::Overflow);
                },
                Some(sum) => {
                    acc = sum;
                },
            },
        }
        i = i + 1;
    }
    Ok((acc, i))
}

/// Reads the cents from the two characters at position `from`, if any.
fn read_cents(s: &str, from: usize) -> (r: Result<i64, ParseErrorKind>)
    requires
        s.is_ascii(),
        from <= s@.len(),
    ensures
        match cents_of(s@.skip(from as int)) {
            Ok(cents) => r matches Ok(found) && found == cents && 0 <= cents <= 99,
            Err(kind) => r == Err::<i64, ParseErrorKind>(kind),
        },
{
    let n = ascii_len(s);
    if from == n {
        return Ok(0);
    }
    let first = char_at(s, from);
    if first == '.' {
        return Err(ParseErrorKind::ExtraDecimalPoint);
    }
    if n - from == 1 {
        return Err(ParseErrorKind::BadCentsLength);
    }
    let second = char_at(s, from + 1);
    if second == '.' {
        return Err(ParseErrorKind::ExtraDecimalPoint);
    }
    match decimal_digit(first) {
        None => Err(ParseErrorKind::InvalidDigit(first)),
        Some(tens) => match decimal_digit(second) {
            None => Err(ParseErrorKind::InvalidDigit(second)),
            Some(units) => Ok(tens * 10 + units),
        },
    }
}

/// Puts dollars, cents and sign together into an amount, or fails with
/// an overflow where a step of [`total_of`] leaves 64 bits.
pub fn compose_total(dollars: i64, cents: i64, negative: bool) -> (r: Result<Dollars, ParseError>)
    ensures
        match total_of(dollars as int, cents as int, negative) {
            Ok(total) => r matches Ok(amount) && amount@ == total,
            Err(kind) => r matches Err(error) && error.kind() == kind,
        },
{
    let sign: i64 = if negative { -1 } else { 1 };
    let total = match dollars.checked_mul(100) {
        None => None,
        Some(hundredfold) => match hundredfold.checked_add(cents) {
            None => None,
            Some(unsigned) => unsigned.checked_mul(sign),
        },
    };
    match total {
        Some(cent_value) => Ok(Dollars::from(cent_value)),
        None => Err(ParseError::from(ParseErrorKind::Overflow)),
    }
}

impl FromStr for Dollars {
    type Err = ParseError;

    /// Reads an amount such as `$2.34`, `-$0.01` or `+5`: the amount that
    /// [`parse_spec`] gives for the text, or an error of the kind that it
    /// gives.
    fn from_str(s: &str) -> (r: Result<Dollars, ParseError>)
        ensures
            match parse_spec(s@) {
                Ok(total) => r matches Ok(amount) && amount@ == total,
                Err(kind) => r matches Err(error) && error.kind() == kind,
            },
    {
        if !s.is_ascii() {
            return Err(ParseError::from(ParseErrorKind::NonAscii));
        }
        let (negative, start) = read_prefix(s);
        let (dollars, next) = match read_dollars(s, start) {
            Ok(found) => found,
            Err(kind) => {
                return Err(ParseError::from(kind));
            },
        };
        let cents = match read_cents(s, next) {
            Ok(cents) => cents,
            Err(kind) => {
                return Err(ParseError::from(kind));
            },
        };
        compose_total(dollars, cents, negative)
    }
}

} // verus!
