//! Scalars, vectors and rotations as the engine stores them.
//!
//! The engine computes in IEEE-754 single precision. This crate never
//! computes with such a scalar: it carries it, compares it for identity and
//! tests its class. A scalar is therefore held as its 32-bit pattern, which
//! keeps every value exactly as the engine produced it.

use vstd::prelude::*;

verus! {

/// Pattern of positive zero.
pub const ZERO: u32 = 0;

/// Pattern of one half.
pub const HALF: u32 = 0x3F00_0000;

/// Pattern of one.
pub const ONE: u32 = 0x3F80_0000;

/// Pattern of positive infinity. With the sign cleared, every finite scalar
/// lies below it and every NaN above it.
pub const INFINITY: u32 = 0x7F80_0000;

/// The sign bit; the remainder modulo this value is a pattern's magnitude.
pub const SIGN: u32 = 0x8000_0000;

/// The scalar is a finite number, neither an infinity nor a NaN: its
/// magnitude lies below that of infinity.
pub open spec fn finite(bits: u32) -> bool {
    bits % SIGN < INFINITY
}

/// The scalar is finite and greater than zero: its pattern lies between
/// those of positive zero and positive infinity.
pub open spec fn positive(bits: u32) -> bool {
    0 < bits < INFINITY
}

/// The scalar is finite and no farther from zero than `limit`, itself the
/// pattern of a finite scalar that is not negative.
pub open spec fn within(bits: u32, limit: u32) -> bool {
    bits % SIGN <= limit
}

/// Tests whether a scalar is no farther from zero than `limit`.
pub fn is_within(bits: u32, limit: u32) -> (result: bool)
    ensures
        result == within(bits, limit),
{
    bits % SIGN <= limit
}

/// Tests whether a scalar is a finite number.
pub fn is_finite(bits: u32) -> (result: bool)
    ensures
        result == finite(bits),
{
    bits % SIGN < INFINITY
}

/// Tests whether a scalar is finite and greater than zero.
pub fn is_positive(bits: u32) -> (result: bool)
    ensures
        result == positive(bits),
{
    0 < bits && bits < INFINITY
}

/// Three scalars: a translation, a scale or a set of half-extents.
#[derive(Clone, Copy, Debug, PartialEq, Eq, Structural)]
pub struct Vector {
    pub x: u32,
    pub y: u32,
    pub z: u32,
}

impl Vector {
    /// All three components are finite.
    pub open spec fn finite(self) -> bool {
        finite(self.x) && finite(self.y) && finite(self.z)
    }

    /// All three components are finite and greater than zero.
    pub open spec fn positive(self) -> bool {
        positive(self.x) && positive(self.y) && positive(self.z)
    }

    /// No component is farther from zero than `limit`.
    pub open spec fn within(self, limit: u32) -> bool {
        within(self.x, limit) && within(self.y, limit) && within(self.z, limit)
    }

    /// Tests whether no component is farther from zero than `limit`.
    pub fn is_within(&self, limit: u32) -> (result: bool)
        ensures
            result == self.within(limit),
    {
        is_within(self.x, limit) && is_within(self.y, limit) && is_within(self.z, limit)
    }

    /// The vector of the three scalars.
    pub fn new(x: u32, y: u32, z: u32) -> (vector: Vector)
        ensures
            vector == (Vector { x, y, z }),
    {
        Vector { x, y, z }
    }

    /// The vector of three positive zeros.
    pub fn zero() -> (vector: Vector)
        ensures
            vector == (Vector { x: ZERO, y: ZERO, z: ZERO }),
    {
        Vector { x: ZERO, y: ZERO, z: ZERO }
    }

    /// Tests whether all three components are finite.
    pub fn is_finite(&self) -> (result: bool)
        ensures
            result == self.finite(),
    {
        is_finite(self.x) && is_finite(self.y) && is_finite(self.z)
    }

    /// Tests whether all three components are finite and greater than zero.
    pub fn is_positive(&self) -> (result: bool)
        ensures
            result == self.positive(),
    {
        is_positive(self.x) && is_positive(self.y) && is_positive(self.z)
    }
}

/// A rotation as a unit quaternion: imaginary parts `i`, `j`, `k` and real
/// part `w`.
#[derive(Clone, Copy, Debug, PartialEq, Eq, Structural)]
pub struct Quaternion {
    pub i: u32,
    pub j: u32,
    pub k: u32,
    pub w: u32,
}

impl Quaternion {
    /// No part is farther from zero than `limit`.
    pub open spec fn within(self, limit: u32) -> bool {
        within(self.i, limit) && within(self.j, limit) && within(self.k, limit) && within(
            self.w,
            limit,
        )
    }

    /// Tests whether no part is farther from zero than `limit`.
    pub fn is_within(&self, limit: u32) -> (result: bool)
        ensures
            result == self.within(limit),
    {
        is_within(self.i, limit) && is_within(self.j, limit) && is_within(self.k, limit)
            && is_within(self.w, limit)
    }

    /// The rotation that turns nothing.
    pub open spec fn spec_identity() -> Quaternion {
        Quaternion { i: ZERO, j: ZERO, k: ZERO, w: ONE }
    }

    /// The rotation that turns nothing.
    #[verifier::when_used_as_spec(spec_identity)]
    pub fn identity() -> (rotation: Quaternion)
        ensures
            rotation == Quaternion::spec_identity(),
    {
        Quaternion { i: ZERO, j: ZERO, k: ZERO, w: ONE }
    }
}

} // verus!
