//! The value type: an exact amount of money as a signed count of cents.

use core::cmp::Ordering;
use core::ops::{Add, Neg, Sub};
use vstd::prelude::*;
use vstd::std_specs::convert::FromSpec;
use vstd::std_specs::ops::{AddSpec, NegSpec, SubSpec};

verus! {

/// A dollar value, backed by a single integer value in cents.
#[derive(Clone, Copy, Eq, Hash, Ord, PartialEq, Structural)]
pub struct Dollars {
    cent_value: i64,
}

impl View for Dollars {
    type V = int;

    /// The signed amount in cents.
    closed spec fn view(&self) -> int {
        self.cent_value as int
    }
}

/// The magnitude of an amount of cents.
pub open spec fn magnitude(v: int) -> int {
    if v < 0 {
        -v
    } else {
        v
    }
}

/// The integer that a 64-bit signed register holds after it was given `v`:
/// the one value in range that differs from `v` by a multiple of 2^64.
pub open spec fn wrap(v: int) -> int {
    let r = v % 0x1_0000_0000_0000_0000;
    if r > i64::MAX {
        r - 0x1_0000_0000_0000_0000
    } else {
        r
    }
}

impl Dollars {
    /// The dollars portion of the value.
    pub fn dollars(&self) -> (r: i64)
        ensures
            r == magnitude(self@) / 100,
    {
        let q: i64 = self.cent_value / 100;
        if q < 0 { -q } else { q }
    }

    /// The cents portion of the value.
    pub fn cents(&self) -> (r: i64)
        ensures
            r == magnitude(self@) % 100,
    {
        let m: i64 = self.cent_value % 100;
        if m < 0 { -m } else { m }
    }

    /// The value in cents.
    ///
    /// Unlike [`cents`](Dollars::cents), this is the whole signed amount.
    pub fn in_cents(&self) -> (r: i64)
        ensures
            r == self@,
    {
        self.cent_value
    }

    /// Whether or not the value is positive.
    pub fn is_positive(&self) -> (r: bool)
        ensures
            r == (self@ > 0),
    {
        self.in_cents() > 0
    }
}

impl From<i64> for Dollars {
    /// The value of exactly `cent_value` cents.
    fn from(cent_value: i64) -> (r: Dollars)
        ensures
            r@ == cent_value,
    {
        Dollars { cent_value }
    }
}

impl vstd::std_specs::convert::FromSpecImpl<i64> for Dollars {
    open spec fn obeys_from_spec() -> bool {
        true
    }

    closed spec fn from_spec(cent_value: i64) -> Dollars {
        Dollars { cent_value }
    }
}

impl Default for Dollars {
    /// Zero cents.
    fn default() -> (r: Dollars)
        ensures
            r@ == 0,
    {
        Dollars { cent_value: 0 }
    }
}

impl PartialOrd for Dollars {
    /// Amounts order as their signed cent counts do.
    fn partial_cmp(&self, other: &Dollars) -> (r: Option<Ordering>) {
        if self.cent_value < other.cent_value {
            Some(Ordering::Less)
        } else if self.cent_value > other.cent_value {
            Some(Ordering::Greater)
        } else {
            Some(Ordering::Equal)
        }
    }
}

impl vstd::std_specs::cmp::PartialOrdSpecImpl for Dollars {
    open spec fn obeys_partial_cmp_spec() -> bool {
        true
    }

    open spec fn partial_cmp_spec(&self, other: &Dollars) -> Option<Ordering> {
        if self@ < other@ {
            Some(Ordering::Less)
        } else if self@ > other@ {
            Some(Ordering::Greater)
        } else {
            Some(Ordering::Equal)
        }
    }
}

impl Add for Dollars {
    type Output = Dollars;

    /// The sum of the two cent counts, wrapped into 64 bits.
    fn add(self, other: Dollars) -> (r: Dollars)
        ensures
            r@ == wrap(self@ + other@),
    {
        Dollars { cent_value: self.cent_value.wrapping_add(other.cent_value) }
    }
}

impl vstd::std_specs::ops::AddSpecImpl for Dollars {
    open spec fn obeys_add_spec() -> bool {
        true
    }

    open spec fn add_req(self, other: Dollars) -> bool {
        true
    }

    closed spec fn add_spec(self, other: Dollars) -> Dollars {
        Dollars { cent_value: self.cent_value.wrapping_add(other.cent_value) }
    }
}

impl Sub for Dollars {
    type Output = Dollars;

    /// The difference of the two cent counts, wrapped into 64 bits.
    fn sub(self, other: Dollars) -> (r: Dollars)
        ensures
            r@ == wrap(self@ - other@),
    {
        Dollars { cent_value: self.cent_value.wrapping_sub(other.cent_value) }
    }
}

impl vstd::std_specs::ops::SubSpecImpl for Dollars {
    open spec fn obeys_sub_spec() -> bool {
        true
    }

    open spec fn sub_req(self, other: Dollars) -> bool {
        true
    }

    closed spec fn sub_spec(self, other: Dollars) -> Dollars {
        Dollars { cent_value: self.cent_value.wrapping_sub(other.cent_value) }
    }
}

impl Neg for Dollars {
    type Output = Dollars;

    /// The cent count with its sign flipped, wrapped into 64 bits: the
    /// lowest value, which has no counterpart, stays as it is.
    fn neg(self) -> (r: Dollars)
        ensures
            r@ == wrap(-self@),
    {
        let zero: i64 = 0;
        Dollars { cent_value: zero.wrapping_sub(self.cent_value) }
    }
}

impl vstd::std_specs::ops::NegSpecImpl for Dollars {
    open spec fn obeys_neg_spec() -> bool {
        true
    }

    open spec fn neg_req(self) -> bool {
        true
    }

    closed spec fn neg_spec(self) -> Dollars {
        Dollars { cent_value: 0i64.wrapping_sub(self.cent_value) }
    }
}

/// Two amounts with the same cent count are the same amount.
pub proof fn law_view_determines_value(a: Dollars, b: Dollars)
    requires
        a@ == b@,
    ensures
        a == b,
{
}

/// What the operators compute, said over the cent counts.
pub proof fn law_operator_views(a: Dollars, b: Dollars)
    ensures
        a.add_spec(b)@ == wrap(a@ + b@),
        a.sub_spec(b)@ == wrap(a@ - b@),
        a.neg_spec()@ == wrap(-a@),
        Dollars::from_spec(a@ as i64) == a,
{
}

/// Wrapping changes nothing where the exact result fits in 64 bits.
pub proof fn law_wrap_in_range(v: int)
    requires
        i64::MIN <= v <= i64::MAX,
    ensures
        wrap(v) == v,
{
}

/// Subtracting what was added gives the first amount back, also where
/// the sum wrapped on the way.
pub proof fn law_add_then_sub(a: Dollars, b: Dollars)
    ensures
        wrap(wrap(a@ + b@) - b@) == a@,
        a.add_spec(b).sub_spec(b) == a,
{
}

/// Negating twice gives the amount back. This holds of the lowest amount
/// too, which negation leaves as it is.
pub proof fn law_neg_twice(a: Dollars)
    ensures
        wrap(-wrap(-a@)) == a@,
        a.neg_spec().neg_spec() == a,
{
}

/// The whole dollars and the cents of an amount make up its magnitude,
/// and the cents are fewer than a hundred.
pub proof fn law_magnitude_parts(v: int)
    ensures
        magnitude(v) == 100 * (magnitude(v) / 100) + magnitude(v) % 100,
        0 <= magnitude(v) % 100 < 100,
        0 <= magnitude(v) / 100,
{
}

} // verus!
