//! Double-precision coordinates carried by bit pattern.
//!
//! The shell computes with doubles; this library compares, bounds and carries
//! them. A double's order is the order of a signed integer read off its bits,
//! so that much needs integers only.
use vstd::prelude::*;

verus! {

/// The bit that holds the sign of a double.
pub const SIGN_BIT: u64 = 0x8000_0000_0000_0000;

/// The magnitude bits of infinity. Greater magnitudes are not numbers.
pub const INFINITY_BITS: u64 = 0x7FF0_0000_0000_0000;

/// A double-precision number, held as its IEEE 754 bit pattern.
#[derive(Clone, Copy, Debug, PartialEq, Eq, Structural)]
pub struct Scalar {
    pub bits: u64,
}

impl Scalar {
    /// The bit pattern without the sign.
    pub open spec fn magnitude(self) -> int {
        if self.bits >= SIGN_BIT {
            self.bits - SIGN_BIT
        } else {
            self.bits as int
        }
    }

    /// Whether this is not a number.
    pub open spec fn nan(self) -> bool {
        self.magnitude() > INFINITY_BITS
    }

    /// The place of this number among all numbers. Both zeros have rank zero.
    pub open spec fn rank(self) -> int {
        if self.bits >= SIGN_BIT {
            -self.magnitude()
        } else {
            self.magnitude()
        }
    }

    /// IEEE `<`: false when either side is not a number.
    pub open spec fn lt(self, other: Scalar) -> bool {
        !self.nan() && !other.nan() && self.rank() < other.rank()
    }

    /// IEEE `<=`: false when either side is not a number.
    pub open spec fn le(self, other: Scalar) -> bool {
        !self.nan() && !other.nan() && self.rank() <= other.rank()
    }

    /// IEEE `==`: the two zeros are equal, and what is not a number equals nothing.
    pub open spec fn equal(self, other: Scalar) -> bool {
        !self.nan() && !other.nan() && self.rank() == other.rank()
    }

    /// `self` if it lies between `min` and `max`, and else the bound it has passed.
    pub open spec fn clamped(self, min: Scalar, max: Scalar) -> Scalar {
        if self.lt(min) {
            min
        } else if max.lt(self) {
            max
        } else {
            self
        }
    }

    /// Positive zero.
    pub fn zero() -> (r: Scalar)
        ensures
            r.bits == 0,
            r.rank() == 0,
            !r.nan(),
    {
        Scalar { bits: 0 }
    }

    /// Whether this is not a number.
    pub fn is_nan(self) -> (r: bool)
        ensures
            r == self.nan(),
    {
        if self.bits >= SIGN_BIT {
            self.bits - SIGN_BIT > INFINITY_BITS
        } else {
            self.bits > INFINITY_BITS
        }
    }

    /// The signed integer by which numbers are ordered.
    fn order_key(self) -> (r: i128)
        ensures
            r == self.rank(),
    {
        if self.bits >= SIGN_BIT {
            -((self.bits - SIGN_BIT) as i128)
        } else {
            self.bits as i128
        }
    }

    /// IEEE `<`.
    pub fn less_than(self, other: Scalar) -> (r: bool)
        ensures
            r == self.lt(other),
    {
        !self.is_nan() && !other.is_nan() && self.order_key() < other.order_key()
    }

    /// IEEE `<=`.
    pub fn at_most(self, other: Scalar) -> (r: bool)
        ensures
            r == self.le(other),
    {
        !self.is_nan() && !other.is_nan() && self.order_key() <= other.order_key()
    }

    /// IEEE `==`.
    pub fn equals(self, other: Scalar) -> (r: bool)
        ensures
            r == self.equal(other),
    {
        !self.is_nan() && !other.is_nan() && self.order_key() == other.order_key()
    }

    /// Bounds a number from both sides. What is not a number stays as it is.
    pub fn clamp(self, min: Scalar, max: Scalar) -> (r: Scalar)
        requires
            min.le(max),
        ensures
            r == self.clamped(min, max),
    {
        if self.less_than(min) {
            min
        } else if max.less_than(self) {
            max
        } else {
            self
        }
    }
}

/// Any two numbers are in exactly one of the relations less, equal, greater.
pub proof fn law_order_is_total(a: Scalar, b: Scalar)
    requires
        !a.nan(),
        !b.nan(),
    ensures
        a.lt(b) || a.equal(b) || b.lt(a),
        !(a.lt(b) && b.lt(a)),
        !(a.lt(b) && a.equal(b)),
        a.le(b) == !b.lt(a),
{
}

/// The order of numbers is transitive.
pub proof fn law_order_is_transitive(a: Scalar, b: Scalar, c: Scalar)
    requires
        a.le(b),
        b.le(c),
    ensures
        a.le(c),
        a.lt(b) || b.lt(c) ==> a.lt(c),
{
}

/// A bounded number lies within its bounds, and bounding it again changes nothing.
pub proof fn law_clamp_bounds(a: Scalar, min: Scalar, max: Scalar)
    requires
        !a.nan(),
        min.le(max),
    ensures
        min.le(a.clamped(min, max)),
        a.clamped(min, max).le(max),
        a.clamped(min, max).clamped(min, max) == a.clamped(min, max),
{
}

/// What is not a number has an all-ones exponent and a fraction: its bits lie
/// above those of one of the infinities.
pub proof fn law_nan_bits(a: Scalar)
    ensures
        a.nan() <==> (0x7FF0_0000_0000_0000 < a.bits < 0x8000_0000_0000_0000) || a.bits
            > 0xFFF0_0000_0000_0000,
{
}

/// The order of numbers by their bits: positive numbers as their bits are
/// ordered, negative ones the other way round, and a negative number before a
/// positive one unless both are zero. Nothing that is not a number has a place.
pub proof fn law_order_by_bits(a: Scalar, b: Scalar)
    ensures
        a.nan() || b.nan() ==> !a.lt(b) && !a.le(b) && !a.equal(b),
        !a.nan() && !b.nan() && a.bits < 0x8000_0000_0000_0000 && b.bits < 0x8000_0000_0000_0000 ==> (
        a.lt(b) <==> a.bits < b.bits),
        !a.nan() && !b.nan() && a.bits >= 0x8000_0000_0000_0000 && b.bits >= 0x8000_0000_0000_0000
            ==> (a.lt(b) <==> a.bits > b.bits),
        !a.nan() && !b.nan() && a.bits >= 0x8000_0000_0000_0000 && b.bits < 0x8000_0000_0000_0000
            ==> (a.lt(b) <==> !(a.bits == 0x8000_0000_0000_0000 && b.bits == 0)),
        a.bits < 0x8000_0000_0000_0000 && b.bits >= 0x8000_0000_0000_0000 ==> !a.lt(b),
        a.le(b) <==> a.lt(b) || a.equal(b),
        !a.nan() && !b.nan() ==> (a.equal(b) <==> a.bits == b.bits || (a.bits % 0x8000_0000_0000_0000
            == 0 && b.bits % 0x8000_0000_0000_0000 == 0)),
{
}

/// Bounding leaves alone what is within the bounds or is not a number, and gives
/// the bound itself for what has passed it.
pub proof fn law_clamp_cases(a: Scalar, min: Scalar, max: Scalar)
    requires
        min.le(max),
    ensures
        a.nan() ==> a.clamped(min, max) == a,
        min.le(a) && a.le(max) ==> a.clamped(min, max) == a,
        a.lt(min) ==> a.clamped(min, max) == min,
        max.lt(a) ==> a.clamped(min, max) == max,
{
}

} // verus!
