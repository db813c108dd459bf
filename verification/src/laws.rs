//! What reading and rendering have to do with each other.

use vstd::prelude::*;
use vstd::utf8::is_ascii_chars;
use crate::error::ParseErrorKind;
use crate::format::{decimal, digit_char, rendering};
use crate::money::magnitude;
use crate::parse::{cents_of, digit_value, is_digit, is_negative, parse_spec, prefix_len, scan_dollars, total_of};

verus! {

/// The sum of the values of the digits in `s`.
pub open spec fn digit_sum(s: Seq<char>) -> int
    decreases s.len(),
{
    if s.len() == 0 {
        0
    } else {
        digit_value(s[0]) + digit_sum(s.drop_first())
    }
}

/// Whether every character of `s` is a decimal digit.
pub open spec fn all_digits(s: Seq<char>) -> bool {
    forall|k: int| 0 <= k < s.len() ==> is_digit(#[trigger] s[k])
}

/// A digit sum is never negative, and nine times the length at most.
pub proof fn lemma_digit_sum_bounds(s: Seq<char>)
    requires
        all_digits(s),
    ensures
        0 <= digit_sum(s) <= 9 * s.len(),
    decreases s.len(),
{
    if s.len() > 0 {
        assert(is_digit(s[0]));
        let rest = s.drop_first();
        assert forall|k: int| 0 <= k < rest.len() implies is_digit(#[trigger] rest[k]) by {
            assert(rest[k] == s[k + 1]);
        }
        lemma_digit_sum_bounds(rest);
    }
}

/// Appending a digit adds its value to the sum.
pub proof fn lemma_digit_sum_push(s: Seq<char>, c: char)
    ensures
        digit_sum(s.push(c)) == digit_sum(s) + digit_value(c),
    decreases s.len(),
{
    if s.len() == 0 {
        assert(s.push(c).drop_first() =~= s);
        assert(s.push(c)[0] == c);
    } else {
        assert(s.push(c)[0] == s[0]);
        assert(s.push(c).drop_first() =~= s.drop_first().push(c));
        lemma_digit_sum_push(s.drop_first(), c);
    }
}

/// Reading a run of digits adds their sum to what was gathered before,
/// and fails with an overflow exactly where that total leaves 64 bits.
/// The run is `s[i..end]`; it ends the text or stands before a decimal
/// point, after which reading goes on.
pub proof fn law_digit_run(s: Seq<char>, i: int, end: int, acc: int)
    requires
        0 <= i <= end <= s.len(),
        all_digits(s.subrange(i, end)),
        end == s.len() || s[end] == '.',
        0 <= acc <= i64::MAX,
    ensures
        scan_dollars(s, i, acc) == (if acc + digit_sum(s.subrange(i, end)) > i64::MAX {
            Err::<(int, int), ParseErrorKind>(ParseErrorKind::Overflow)
        } else {
            Ok::<(int, int), ParseErrorKind>(
                (acc + digit_sum(s.subrange(i, end)), if end == s.len() { end } else { end + 1 }),
            )
        }),
    decreases end - i,
{
    let run = s.subrange(i, end);
    if i < end {
        assert(run[0] == s[i]);
        assert(is_digit(s[i]));
        let rest = s.subrange(i + 1, end);
        assert(run.drop_first() =~= rest);
        assert forall|k: int| 0 <= k < rest.len() implies is_digit(#[trigger] rest[k]) by {
            assert(rest[k] == run[k + 1]);
        }
        lemma_digit_sum_bounds(rest);
        if acc + digit_value(s[i]) <= i64::MAX {
            law_digit_run(s, i + 1, end, acc + digit_value(s[i]));
        }
    }
}

/// A text in ASCII whose dollar digits add up to more than 64 bits hold
/// is refused as an overflow, whatever follows the digits. The digits are
/// `s[prefix_len(s)..end]`.
pub proof fn law_overflowing_digits(s: Seq<char>, end: int)
    requires
        is_ascii_chars(s),
        prefix_len(s) <= end <= s.len(),
        all_digits(s.subrange(prefix_len(s), end)),
        end == s.len() || s[end] == '.',
        digit_sum(s.subrange(prefix_len(s), end)) > i64::MAX,
    ensures
        parse_spec(s) == Err::<int, ParseErrorKind>(ParseErrorKind::Overflow),
{
    law_digit_run(s, prefix_len(s), end, 0);
}

/// The character of a digit is a digit, and stands for it.
pub proof fn lemma_digit_char(d: int)
    requires
        0 <= d <= 9,
    ensures
        is_digit(digit_char(d)),
        digit_value(digit_char(d)) == d,
        digit_char(d) != '.',
{
}

/// A decimal numeral is made of digits, at least one. The sum of its
/// digits is the number itself below ten, and less than the number from
/// ten on.
pub proof fn lemma_decimal(n: nat)
    ensures
        decimal(n).len() >= 1,
        all_digits(decimal(n)),
        0 <= digit_sum(decimal(n)) <= n,
        digit_sum(decimal(n)) == n <==> n < 10,
    decreases n,
{
    lemma_digit_char((n % 10) as int);
    if n < 10 {
        let numeral = decimal(n);
        assert(numeral.drop_first() =~= Seq::<char>::empty());
        assert(digit_sum(numeral.drop_first()) == 0);
        assert(numeral[0] == digit_char(n as int));
    } else {
        let head = decimal(n / 10);
        let last = digit_char((n % 10) as int);
        lemma_decimal(n / 10);
        lemma_digit_sum_push(head, last);
        assert forall|k: int| 0 <= k < head.push(last).len() implies is_digit(
            #[trigger] head.push(last)[k],
        ) by {
            if k < head.len() {
                assert(head.push(last)[k] == head[k]);
            }
        }
    }
}

/// What an amount of cents reads as after it was rendered: the same
/// sign and cents, and for the dollars the sum of their digits.
pub open spec fn reread(v: int) -> int {
    let dollars = (magnitude(v) / 100) as nat;
    let unsigned = 100 * digit_sum(decimal(dollars)) + magnitude(v) % 100;
    if v < 0 {
        -unsigned
    } else {
        unsigned
    }
}

/// Reading the rendering of any amount succeeds, and gives the amount
/// that [`reread`] describes. That is the amount itself exactly where it
/// is below ten dollars in magnitude: the reader adds the dollar digits
/// up, so a longer numeral reads as less than it says.
pub proof fn law_read_rendering(v: int)
    requires
        i64::MIN <= v <= i64::MAX,
    ensures
        parse_spec(rendering(v)) == Ok::<int, ParseErrorKind>(reread(v)),
        reread(v) == v <==> -1000 < v < 1000,
{
    let text = rendering(v);
    let sign = if v < 0 { seq!['-'] } else { Seq::<char>::empty() };
    let dollars = (magnitude(v) / 100) as nat;
    let cents = magnitude(v) % 100;
    let numeral = decimal(dollars);
    let tail = seq!['.', digit_char(cents / 10), digit_char(cents % 10)];
    let start: int = if v < 0 { 2 } else { 1 };
    let end: int = start + numeral.len();
    lemma_decimal(dollars);
    lemma_digit_char(cents / 10);
    lemma_digit_char(cents % 10);
    assert(text =~= sign + seq!['$'] + numeral + tail);
    assert(text.len() == end + 3);
    assert(text[start - 1] == '$');
    assert forall|k: int| 0 <= k < text.len() implies '\0' <= #[trigger] text[k] <= '\u{7f}' by {
        if start <= k < end {
            assert(text[k] == numeral[k - start]);
            assert(is_digit(numeral[k - start]));
        }
    }
    assert(is_ascii_chars(text));
    assert(prefix_len(text) == start);
    assert(is_negative(text) == (v < 0));
    assert(text.subrange(start, end) =~= numeral);
    assert(text[end] == '.');
    law_digit_run(text, start, end, 0);
    assert(text.skip(end + 1) =~= seq![digit_char(cents / 10), digit_char(cents % 10)]);
    assert(cents_of(text.skip(end + 1)) == Ok::<int, ParseErrorKind>(cents));
    assert(total_of(digit_sum(numeral), cents, v < 0) == Ok::<int, ParseErrorKind>(reread(v)));
}

/// Reading the rendering of an amount below ten dollars in magnitude
/// gives the amount back.
pub proof fn law_round_trip(v: int)
    requires
        -1000 < v < 1000,
    ensures
        parse_spec(rendering(v)) == Ok::<int, ParseErrorKind>(v),
{
    law_read_rendering(v);
}

} // verus!
