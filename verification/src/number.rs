//! Floating-point readings, held by their bit patterns.
//!
//! Verified code does no floating-point arithmetic. It does compare, clamp and
//! pass on numbers that were computed elsewhere (zoom factors, positions,
//! settings), and for that the 64 bits of an IEEE-754 double are enough: a
//! [`Number`] holds them unchanged, and its comparisons are those of the number.

use vstd::prelude::*;

verus! {

/// The bit pattern of a 64-bit IEEE-754 number.
#[derive(Clone, Copy, Debug, PartialEq, Eq, Structural)]
pub struct Number {
    pub bits: u64,
}

/// The sign bit.
pub const SIGN: u64 = 0x8000_0000_0000_0000;

/// The bits of positive infinity; a magnitude from here up is not finite.
pub const INFINITE: u64 = 0x7FF0_0000_0000_0000;

impl Number {
    /// The bits without the sign.
    pub open spec fn magnitude(self) -> int {
        if self.bits < SIGN {
            self.bits as int
        } else {
            self.bits - SIGN
        }
    }

    /// An integer that orders as the number does. Both zeros have rank 0.
    pub open spec fn rank(self) -> int {
        if self.bits < SIGN {
            self.magnitude()
        } else {
            -self.magnitude()
        }
    }

    /// Whether the pattern is not a number.
    pub open spec fn nan(self) -> bool {
        self.magnitude() > INFINITE
    }

    /// Whether the pattern is a number other than the infinities.
    pub open spec fn finite(self) -> bool {
        self.magnitude() < INFINITE
    }

    /// `self < other`, which no comparison with a NaN satisfies.
    pub open spec fn below(self, other: Number) -> bool {
        !self.nan() && !other.nan() && self.rank() < other.rank()
    }

    /// `self <= other`.
    pub open spec fn at_most(self, other: Number) -> bool {
        !self.nan() && !other.nan() && self.rank() <= other.rank()
    }

    /// The nearest number to `self` from `low` to `high`; a NaN stays a NaN.
    pub open spec fn clamped(self, low: Number, high: Number) -> Number {
        if self.below(low) {
            low
        } else if high.below(self) {
            high
        } else {
            self
        }
    }

    /// The number without its sign.
    pub open spec fn size(self) -> Number {
        Number { bits: self.magnitude() as u64 }
    }

    /// The number with the other sign.
    pub open spec fn opposite(self) -> Number {
        if self.bits < SIGN {
            Number { bits: (self.bits + SIGN) as u64 }
        } else {
            Number { bits: (self.bits - SIGN) as u64 }
        }
    }

    /// The smaller of two numbers; a NaN gives way to the other.
    pub open spec fn lesser(self, other: Number) -> Number {
        if self.nan() || other.below(self) {
            other
        } else {
            self
        }
    }

    /// The larger of two numbers; a NaN gives way to the other.
    pub open spec fn greater(self, other: Number) -> Number {
        if self.nan() || self.below(other) {
            other
        } else {
            self
        }
    }

    pub fn min(self, other: Number) -> (r: Number)
        ensures
            r == self.lesser(other),
    {
        if self.is_nan() || other.lt(self) {
            other
        } else {
            self
        }
    }

    pub fn max(self, other: Number) -> (r: Number)
        ensures
            r == self.greater(other),
    {
        if self.is_nan() || self.lt(other) {
            other
        } else {
            self
        }
    }

    pub fn abs(self) -> (r: Number)
        ensures
            r == self.size(),
    {
        if self.bits < SIGN {
            self
        } else {
            Number { bits: self.bits - SIGN }
        }
    }

    pub fn neg(self) -> (r: Number)
        ensures
            r == self.opposite(),
    {
        if self.bits < SIGN {
            Number { bits: self.bits + SIGN }
        } else {
            Number { bits: self.bits - SIGN }
        }
    }

    pub fn is_finite(self) -> (r: bool)
        ensures
            r == self.finite(),
    {
        if self.bits < SIGN {
            self.bits < INFINITE
        } else {
            self.bits - SIGN < INFINITE
        }
    }

    pub fn is_nan(self) -> (r: bool)
        ensures
            r == self.nan(),
    {
        if self.bits < SIGN {
            self.bits > INFINITE
        } else {
            self.bits - SIGN > INFINITE
        }
    }

    pub fn lt(self, other: Number) -> (r: bool)
        ensures
            r == self.below(other),
    {
        if self.is_nan() || other.is_nan() {
            return false;
        }
        if self.bits < SIGN {
            other.bits < SIGN && self.bits < other.bits
        } else if other.bits < SIGN {
            self.bits > SIGN || other.bits > 0
        } else {
            other.bits < self.bits
        }
    }

    pub fn le(self, other: Number) -> (r: bool)
        ensures
            r == self.at_most(other),
    {
        if self.is_nan() || other.is_nan() {
            return false;
        }
        !other.lt(self)
    }

    /// Equality as numbers: both zeros are equal, a NaN equals nothing.
    pub fn same(self, other: Number) -> (r: bool)
        ensures
            r == (self.at_most(other) && other.at_most(self)),
    {
        self.le(other) && other.le(self)
    }

    /// Restricts the number to `low..=high`.
    pub fn clamp(self, low: Number, high: Number) -> (r: Number)
        requires
            low.at_most(high),
        ensures
            r == self.clamped(low, high),
    {
        if self.lt(low) {
            low
        } else if high.lt(self) {
            high
        } else {
            self
        }
    }
}

/// The bits of 0.
pub const ZERO: u64 = 0;

/// The bits of 1.
pub const ONE: u64 = 0x3FF0_0000_0000_0000;

/// The number with the given bits.
pub open spec fn num(bits: u64) -> Number {
    Number { bits }
}

/// Restricting a number to a range puts it into the range.
pub proof fn clamping_lands_in_range(x: Number, low: Number, high: Number)
    requires
        !x.nan(),
        low.at_most(high),
    ensures
        low.at_most(x.clamped(low, high)),
        x.clamped(low, high).at_most(high),
{
}

/// Restricting a number to a range twice is the same as once.
pub proof fn clamping_is_idempotent(x: Number, low: Number, high: Number)
    requires
        low.at_most(high),
    ensures
        x.clamped(low, high).clamped(low, high) == x.clamped(low, high),
{
}

/// The order of [`Number::below`] is total on numbers.
pub proof fn order_is_total(a: Number, b: Number)
    requires
        !a.nan(),
        !b.nan(),
    ensures
        a.below(b) || b.below(a) || a.rank() == b.rank(),
        !(a.below(b) && b.below(a)),
{
}

/// Restricting leaves a number within the range as it is, and takes a number
/// outside to the end that it lies beyond.
pub proof fn clamping_moves_only_outsiders(x: Number, low: Number, high: Number)
    requires
        low.at_most(high),
    ensures
        low.at_most(x) && x.at_most(high) ==> x.clamped(low, high) == x,
        x.below(low) ==> x.clamped(low, high) == low,
        high.below(x) ==> x.clamped(low, high) == high,
        x.nan() ==> x.clamped(low, high) == x,
{
}

/// The smaller and the larger of two numbers are these two numbers, in order; a
/// NaN gives way.
pub proof fn lesser_and_greater_are_ends(a: Number, b: Number)
    ensures
        a.below(b) ==> a.lesser(b) == a && a.greater(b) == b,
        b.below(a) ==> a.lesser(b) == b && a.greater(b) == a,
        a.nan() ==> a.lesser(b) == b && a.greater(b) == b,
        b.nan() && !a.nan() ==> a.lesser(b) == a && a.greater(b) == a,
{
}

/// The order agrees with the bits: a larger pattern is a larger number, a sign
/// makes it smaller than every number without one, and 1 lies above 0 and below
/// 2.
pub proof fn order_agrees_with_the_bits(a: u64, b: u64)
    requires
        a <= 0x7FF0_0000_0000_0000,
        b <= 0x7FF0_0000_0000_0000,
    ensures
        num(a).below(num(b)) <==> a < b,
        num(a).at_most(num(b)) <==> a <= b,
        ({
            let minus_a = num((a + 0x8000_0000_0000_0000) as u64);
            let minus_b = num((b + 0x8000_0000_0000_0000) as u64);
            &&& minus_a.below(minus_b) <==> b < a
            &&& minus_a.at_most(num(b))
            &&& num(a).opposite() == minus_a
            &&& minus_a.opposite() == num(a)
            &&& minus_a.size() == num(a)
            &&& num(a).size() == num(a)
        }),
        num(0).below(num(0x3FF0_0000_0000_0000)),
        num(0x3FF0_0000_0000_0000).below(num(0x4000_0000_0000_0000)),
{
}

/// Patterns above that of infinity are no numbers, and compare with nothing.
pub proof fn patterns_beyond_infinity_are_no_numbers(a: u64, other: Number)
    requires
        0x7FF0_0000_0000_0000 < a < 0x8000_0000_0000_0000 || 0xFFF0_0000_0000_0000 < a,
    ensures
        num(a).nan(),
        !num(a).finite(),
        !num(a).below(other) && !other.below(num(a)),
        !num(a).at_most(other) && !other.at_most(num(a)),
{
}

/// Numbers are finite below infinity, with either sign.
pub proof fn numbers_are_finite_below_infinity(a: u64)
    ensures
        a < 0x7FF0_0000_0000_0000 ==> num(a).finite() && !num(a).nan(),
        a == 0x7FF0_0000_0000_0000 || a == 0xFFF0_0000_0000_0000 ==> !num(a).finite()
            && !num(a).nan(),
        0x8000_0000_0000_0000 <= a < 0xFFF0_0000_0000_0000 ==> num(a).finite()
            && !num(a).nan(),
{
}

/// Of two equal numbers, such as both zeros, the one that is asked stays.
pub proof fn equal_numbers_stay(a: Number, b: Number)
    requires
        a.at_most(b),
        b.at_most(a),
    ensures
        a.lesser(b) == a,
        a.greater(b) == a,
{
}

} // verus!
