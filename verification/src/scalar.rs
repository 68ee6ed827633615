//! Single-precision numbers carried by their bit pattern.
//!
//! The simulation exchanges positions, velocities and angles as IEEE-754
//! binary32 values. This module never computes with them; it only holds
//! them, and compares them the way the number format defines comparison:
//! a NaN equals nothing and is ordered against nothing, and the two zeros
//! are one number.

use vstd::prelude::*;

verus! {

/// Bits of a binary32 value other than its sign.
pub const MAGNITUDE_MASK: u32 = 0x7fff_ffff;

/// The sign bit of a binary32 value.
pub const SIGN_MASK: u32 = 0x8000_0000;

/// Magnitude bits of an infinity; every larger magnitude is a NaN.
pub const INFINITY_BITS: u32 = 0x7f80_0000;

/// A binary32 number, held as the 32 bits that encode it.
#[derive(Clone, Copy, Debug, PartialEq, Eq, Structural)]
pub struct Scalar {
    pub bits: u32,
}

impl Scalar {
    /// The encoding with its sign bit cleared.
    pub open spec fn magnitude(self) -> u32 {
        self.bits & MAGNITUDE_MASK
    }

    /// Whether the encoding is one of the NaNs.
    pub open spec fn is_nan(self) -> bool {
        self.magnitude() > INFINITY_BITS
    }

    /// Whether the sign bit is set.
    pub open spec fn is_negative(self) -> bool {
        self.bits & SIGN_MASK != 0
    }

    /// Where the number stands on the number line, for numbers that are
    /// not NaN: binary32 encodings of one sign are ordered as their
    /// magnitudes are, and both zeros have rank 0.
    pub open spec fn rank(self) -> int {
        if self.is_negative() {
            -(self.magnitude() as int)
        } else {
            self.magnitude() as int
        }
    }

    /// Numeric equality: false as soon as either side is a NaN.
    pub open spec fn num_eq(self, other: Scalar) -> bool {
        !self.is_nan() && !other.is_nan() && self.rank() == other.rank()
    }

    /// Numeric strict order: false as soon as either side is a NaN.
    pub open spec fn num_lt(self, other: Scalar) -> bool {
        !self.is_nan() && !other.is_nan() && self.rank() < other.rank()
    }

    /// Wraps a bit pattern.
    pub fn from_bits(bits: u32) -> (s: Scalar)
        ensures
            s.bits == bits,
    {
        Scalar { bits }
    }

    /// Positive zero.
    pub fn zero() -> (s: Scalar)
        ensures
            s.bits == 0,
    {
        Scalar { bits: 0 }
    }

    /// Whether the number is a NaN.
    pub fn nan(&self) -> (r: bool)
        ensures
            r == self.is_nan(),
    {
        (self.bits & MAGNITUDE_MASK) > INFINITY_BITS
    }

    fn signed_rank(&self) -> (r: i64)
        ensures
            r == self.rank(),
    {
        let magnitude: u32 = self.bits & MAGNITUDE_MASK;
        if self.bits & SIGN_MASK != 0 {
            -(magnitude as i64)
        } else {
            magnitude as i64
        }
    }

    /// Numeric equality of two numbers.
    pub fn same(&self, other: &Scalar) -> (r: bool)
        ensures
            r == self.num_eq(*other),
    {
        !self.nan() && !other.nan() && self.signed_rank() == other.signed_rank()
    }

    /// Whether `self` is numerically below `other`.
    pub fn less(&self, other: &Scalar) -> (r: bool)
        ensures
            r == self.num_lt(*other),
    {
        !self.nan() && !other.nan() && self.signed_rank() < other.signed_rank()
    }
}

/// A point or direction in the horizontal input plane.
#[derive(Clone, Copy, Debug, PartialEq, Eq, Structural)]
pub struct Vector2 {
    pub x: Scalar,
    pub y: Scalar,
}

impl Vector2 {
    /// The vector whose components are both positive zero.
    pub fn zero() -> (v: Vector2)
        ensures
            v.x.bits == 0,
            v.y.bits == 0,
    {
        Vector2 { x: Scalar::zero(), y: Scalar::zero() }
    }
}

/// A point, displacement or velocity in space.
#[derive(Clone, Copy, Debug, PartialEq, Eq, Structural)]
pub struct Vector3 {
    pub x: Scalar,
    pub y: Scalar,
    pub z: Scalar,
}

impl Vector3 {
    /// Numeric equality, component by component.
    pub open spec fn num_eq(self, other: Vector3) -> bool {
        self.x.num_eq(other.x) && self.y.num_eq(other.y) && self.z.num_eq(other.z)
    }

    /// The vector whose components are all positive zero.
    pub fn zero() -> (v: Vector3)
        ensures
            v.x.bits == 0,
            v.y.bits == 0,
            v.z.bits == 0,
    {
        Vector3 { x: Scalar::zero(), y: Scalar::zero(), z: Scalar::zero() }
    }

    /// Numeric equality of two vectors.
    pub fn same(&self, other: &Vector3) -> (r: bool)
        ensures
            r == self.num_eq(*other),
    {
        self.x.same(&other.x) && self.y.same(&other.y) && self.z.same(&other.z)
    }
}

/// An orientation, as the four components of a unit quaternion.
#[derive(Clone, Copy, Debug, PartialEq, Eq, Structural)]
pub struct Rotation {
    pub x: Scalar,
    pub y: Scalar,
    pub z: Scalar,
    pub w: Scalar,
}

impl Rotation {
    /// The orientation that turns nothing: `(0, 0, 0, 1)`.
    pub fn identity() -> (r: Rotation)
        ensures
            r.x.bits == 0,
            r.y.bits == 0,
            r.z.bits == 0,
            r.w.bits == 0x3f80_0000,
    {
        Rotation {
            x: Scalar::zero(),
            y: Scalar::zero(),
            z: Scalar::zero(),
            w: Scalar { bits: 0x3f80_0000 },
        }
    }
}

/// Numeric equality is symmetric.
pub proof fn law_num_eq_symmetric(a: Scalar, b: Scalar)
    ensures
        a.num_eq(b) == b.num_eq(a),
{
}

/// A number that is not a NaN equals itself; a NaN does not.
pub proof fn law_num_eq_reflexive(a: Scalar)
    ensures
        a.num_eq(a) == !a.is_nan(),
{
}

/// Of two numbers, neither a NaN, exactly one of below, equal and above
/// holds.
pub proof fn law_num_order_total(a: Scalar, b: Scalar)
    requires
        !a.is_nan(),
        !b.is_nan(),
    ensures
        a.num_lt(b) || a.num_eq(b) || b.num_lt(a),
        !(a.num_lt(b) && a.num_eq(b)),
        !(a.num_lt(b) && b.num_lt(a)),
        !(a.num_eq(b) && b.num_lt(a)),
{
}

} // verus!
