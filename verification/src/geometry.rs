//! Points and sizes in logical pixels, and positions on the canvas or the screen.
use vstd::prelude::*;

use crate::scalar::Scalar;

verus! {

/// The value of type `i32` nearest to `v`.
pub open spec fn saturated(v: int) -> int {
    if v < i32::MIN {
        i32::MIN as int
    } else if v > i32::MAX {
        i32::MAX as int
    } else {
        v
    }
}

fn saturate(v: i64) -> (r: i32)
    ensures
        r == saturated(v as int),
{
    if v < i32::MIN as i64 {
        i32::MIN
    } else if v > i32::MAX as i64 {
        i32::MAX
    } else {
        v as i32
    }
}

/// A point in whole logical pixels. Arithmetic on points saturates.
#[derive(Clone, Copy, Debug, PartialEq, Eq, Structural)]
pub struct IntPoint {
    pub x: i32,
    pub y: i32,
}

impl IntPoint {
    /// The sum of two points, each coordinate saturated.
    pub open spec fn sum(self, other: IntPoint) -> IntPoint {
        IntPoint {
            x: saturated(self.x + other.x) as i32,
            y: saturated(self.y + other.y) as i32,
        }
    }

    /// The difference of two points, each coordinate saturated.
    pub open spec fn difference(self, other: IntPoint) -> IntPoint {
        IntPoint {
            x: saturated(self.x - other.x) as i32,
            y: saturated(self.y - other.y) as i32,
        }
    }

    /// Adds two points.
    pub fn plus(self, other: IntPoint) -> (r: IntPoint)
        ensures
            r == self.sum(other),
    {
        IntPoint {
            x: saturate(self.x as i64 + other.x as i64),
            y: saturate(self.y as i64 + other.y as i64),
        }
    }

    /// Subtracts `other` from this point.
    pub fn minus(self, other: IntPoint) -> (r: IntPoint)
        ensures
            r == self.difference(other),
    {
        IntPoint {
            x: saturate(self.x as i64 - other.x as i64),
            y: saturate(self.y as i64 - other.y as i64),
        }
    }
}

/// A size in whole logical pixels.
#[derive(Clone, Copy, Debug, PartialEq, Eq, Structural)]
pub struct IntSize {
    pub w: i32,
    pub h: i32,
}

/// A position, distance or velocity with fractional coordinates.
#[derive(Clone, Copy, Debug, PartialEq, Eq, Structural)]
pub struct Position {
    pub x: Scalar,
    pub y: Scalar,
}

/// Taking away what was added leaves the point, as long as nothing saturates.
pub proof fn law_difference_undoes_sum(p: IntPoint, q: IntPoint)
    requires
        i32::MIN <= p.x + q.x <= i32::MAX,
        i32::MIN <= p.y + q.y <= i32::MAX,
    ensures
        p.sum(q).difference(q) == p,
{
}

/// Saturation keeps what fits, and stops at the bound that the rest has passed.
pub proof fn law_saturation(v: int)
    ensures
        -0x8000_0000 <= v <= 0x7FFF_FFFF ==> saturated(v) == v,
        v > 0x7FFF_FFFF ==> saturated(v) == 0x7FFF_FFFF,
        v < -0x8000_0000 ==> saturated(v) == -0x8000_0000,
{
}

/// Points add and subtract coordinate by coordinate.
pub proof fn law_points_add_by_coordinate(p: IntPoint, q: IntPoint)
    ensures
        p.sum(q).x == saturated(p.x + q.x),
        p.sum(q).y == saturated(p.y + q.y),
        p.difference(q).x == saturated(p.x - q.x),
        p.difference(q).y == saturated(p.y - q.y),
        p.sum(q) == q.sum(p),
{
}

} // verus!
