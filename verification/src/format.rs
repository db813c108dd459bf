//! The canonical rendering of an amount.

use vstd::prelude::*;
use crate::money::{magnitude, Dollars};

verus! {

/// The character that stands for the digit `d`.
pub open spec fn digit_char(d: int) -> char
    recommends
        0 <= d <= 9,
{
    ('0' as int + d) as char
}

/// The decimal numeral of `n`, without leading zeros ("0" for zero).
pub open spec fn decimal(n: nat) -> Seq<char>
    decreases n,
{
    if n < 10 {
        seq![digit_char(n as int)]
    } else {
        decimal(n / 10).push(digit_char((n % 10) as int))
    }
}

/// The rendering of an amount of `v` cents: a minus sign if it is negative,
/// the dollar sign, the whole dollars, a point and the cents in two digits.
pub open spec fn rendering(v: int) -> Seq<char> {
    let sign = if v < 0 { seq!['-'] } else { Seq::<char>::empty() };
    let dollars = (magnitude(v) / 100) as nat;
    let cents = magnitude(v) % 100;
    sign + seq!['$'] + decimal(dollars) + seq!['.', digit_char(cents / 10), digit_char(cents % 10)]
}

/// The character for one digit.
fn digit_to_char(d: u8) -> (c: char)
    requires
        d <= 9,
    ensures
        c == digit_char(d as int),
{
    let code: u8 = '0' as u8 + d;
    code as char
}

/// Appends the decimal numeral of `n` to `out`.
fn push_decimal(out: &mut String, n: u64)
    ensures
        final(out)@ == old(out)@ + decimal(n as nat),
    decreases n,
{
    if n >= 10 {
        push_decimal(out, n / 10);
    }
    out.push(digit_to_char((n % 10) as u8));
    assert(final(out)@ =~= old(out)@ + decimal(n as nat));
}

impl Dollars {
    /// The canonical text of the amount, such as `$12.34`, `-$1.05` or
    /// `$0.00`.
    pub fn to_string(&self) -> (r: String)
        ensures
            r@ == rendering(self@),
    {
        let dollars = self.dollars() as u64;
        let cents = self.cents() as u8;
        let mut out = String::new();
        if self.in_cents() < 0 {
            out.push('-');
        }
        out.push('$');
        push_decimal(&mut out, dollars);
        out.push('.');
        out.push(digit_to_char(cents / 10));
        out.push(digit_to_char(cents % 10));
        assert(out@ =~= rendering(self@));
        out
    }
}

} // verus!
