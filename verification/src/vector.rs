//! Pairs and triples of scalars: texture coordinates, points, directions and
//! colours.

use vstd::prelude::*;
use crate::ieee::{Scalar, ONE_BITS};

verus! {

/// Two scalars: a texture coordinate, or the local coordinates of a hit.
#[derive(Clone, Copy, Debug, PartialEq, Eq, Structural)]
pub struct Vec2 {
    pub x: Scalar,
    pub y: Scalar,
}

/// Three scalars: a point, a direction or an RGB colour.
#[derive(Clone, Copy, Debug, PartialEq, Eq, Structural)]
pub struct Vec3 {
    pub x: Scalar,
    pub y: Scalar,
    pub z: Scalar,
}

impl Vec2 {
    /// The pair with both components positive zero.
    pub open spec fn zero_spec() -> Vec2 {
        Vec2 { x: Scalar { bits: 0 }, y: Scalar { bits: 0 } }
    }

    /// The pair `(x, y)`.
    pub fn new(x: Scalar, y: Scalar) -> (r: Vec2)
        ensures
            r == (Vec2 { x, y }),
    {
        Vec2 { x, y }
    }

    /// The pair with both components positive zero.
    pub fn zero() -> (r: Vec2)
        ensures
            r == Vec2::zero_spec(),
    {
        Vec2 { x: Scalar::zero(), y: Scalar::zero() }
    }
}

impl Vec3 {
    /// The triple with all components positive zero.
    pub open spec fn zero_spec() -> Vec3 {
        Vec3 { x: Scalar { bits: 0 }, y: Scalar { bits: 0 }, z: Scalar { bits: 0 } }
    }

    /// The triple with every component negated.
    pub open spec fn negated(self) -> Vec3 {
        Vec3 { x: self.x.negated(), y: self.y.negated(), z: self.z.negated() }
    }

    /// The triple with every component held to `[0, 1]`.
    pub open spec fn saturated(self) -> Vec3 {
        let zero = Scalar { bits: 0 };
        let one = Scalar { bits: ONE_BITS };
        Vec3 {
            x: self.x.clamped(zero, one),
            y: self.y.clamped(zero, one),
            z: self.z.clamped(zero, one),
        }
    }

    /// The triple `(x, y, z)`.
    pub fn new(x: Scalar, y: Scalar, z: Scalar) -> (r: Vec3)
        ensures
            r == (Vec3 { x, y, z }),
    {
        Vec3 { x, y, z }
    }

    /// The triple with all components positive zero.
    pub fn zero() -> (r: Vec3)
        ensures
            r == Vec3::zero_spec(),
    {
        Vec3 { x: Scalar::zero(), y: Scalar::zero(), z: Scalar::zero() }
    }

    /// The triple with all three components `v`.
    pub fn splat(v: Scalar) -> (r: Vec3)
        ensures
            r == (Vec3 { x: v, y: v, z: v }),
    {
        Vec3 { x: v, y: v, z: v }
    }

    /// The colour with every channel held to `[0, 1]`, as the image file
    /// wants it; a channel that is a NaN stays one.
    pub fn saturate(self) -> (r: Vec3)
        ensures
            r == self.saturated(),
    {
        let zero = Scalar::zero();
        let one = Scalar::one();
        Vec3 { x: self.x.clamp(zero, one), y: self.y.clamp(zero, one), z: self.z.clamp(zero, one) }
    }

    /// `-self`, component by component.
    pub fn neg(self) -> (r: Vec3)
        ensures
            r == self.negated(),
    {
        Vec3 { x: self.x.neg(), y: self.y.neg(), z: self.z.neg() }
    }
}

} // verus!
