//! Vectors and quaternions as tuples of scalars.

use vstd::prelude::*;
use crate::math::scalar::Scalar;

verus! {

/// A vector of two scalars.
#[derive(Clone, Copy, Debug, PartialEq, Eq, Structural)]
pub struct Vec2 {
    pub x: Scalar,
    pub y: Scalar,
}

/// A vector of three scalars.
#[derive(Clone, Copy, Debug, PartialEq, Eq, Structural)]
pub struct Vec3 {
    pub x: Scalar,
    pub y: Scalar,
    pub z: Scalar,
}

/// A vector of four scalars.
#[derive(Clone, Copy, Debug, PartialEq, Eq, Structural)]
pub struct Vec4 {
    pub x: Scalar,
    pub y: Scalar,
    pub z: Scalar,
    pub w: Scalar,
}

/// A rotation as a quaternion `x i + y j + z k + w`.
#[derive(Clone, Copy, Debug, PartialEq, Eq, Structural)]
pub struct Quat {
    pub x: Scalar,
    pub y: Scalar,
    pub z: Scalar,
    pub w: Scalar,
}

impl Vec2 {
    pub open spec fn origin() -> Vec2 {
        Vec2 { x: Scalar { bits: 0 }, y: Scalar { bits: 0 } }
    }

    pub fn new(x: Scalar, y: Scalar) -> (v: Vec2)
        ensures
            v == (Vec2 { x, y }),
    {
        Vec2 { x, y }
    }

    /// The vector `(0, 0)`.
    pub fn zero() -> (v: Vec2)
        ensures
            v == Vec2::origin(),
    {
        Vec2 { x: Scalar::zero(), y: Scalar::zero() }
    }
}

impl Vec3 {
    pub open spec fn origin() -> Vec3 {
        Vec3 { x: Scalar { bits: 0 }, y: Scalar { bits: 0 }, z: Scalar { bits: 0 } }
    }

    pub open spec fn ones() -> Vec3 {
        Vec3 {
            x: Scalar { bits: 0x3f80_0000 },
            y: Scalar { bits: 0x3f80_0000 },
            z: Scalar { bits: 0x3f80_0000 },
        }
    }

    /// Each component with its sign flipped.
    pub open spec fn negated(self) -> Vec3 {
        Vec3 { x: self.x.negated(), y: self.y.negated(), z: self.z.negated() }
    }

    pub fn new(x: Scalar, y: Scalar, z: Scalar) -> (v: Vec3)
        ensures
            v == (Vec3 { x, y, z }),
    {
        Vec3 { x, y, z }
    }

    /// The vector `(0, 0, 0)`.
    pub fn zero() -> (v: Vec3)
        ensures
            v == Vec3::origin(),
    {
        Vec3 { x: Scalar::zero(), y: Scalar::zero(), z: Scalar::zero() }
    }

    /// The vector `(1, 1, 1)`.
    pub fn one() -> (v: Vec3)
        ensures
            v == Vec3::ones(),
    {
        Vec3 { x: Scalar::one(), y: Scalar::one(), z: Scalar::one() }
    }

    /// `-self`, exact for every value.
    pub fn neg(self) -> (v: Vec3)
        ensures
            v == self.negated(),
    {
        Vec3 { x: self.x.neg(), y: self.y.neg(), z: self.z.neg() }
    }

    /// The component on axis 0, 1 or 2; `z` for any other index.
    pub fn component(self, axis: usize) -> (c: Scalar)
        ensures
            axis == 0 ==> c == self.x,
            axis == 1 ==> c == self.y,
            axis != 0 && axis != 1 ==> c == self.z,
    {
        if axis == 0 {
            self.x
        } else if axis == 1 {
            self.y
        } else {
            self.z
        }
    }
}

impl Vec4 {
    pub fn new(x: Scalar, y: Scalar, z: Scalar, w: Scalar) -> (v: Vec4)
        ensures
            v == (Vec4 { x, y, z, w }),
    {
        Vec4 { x, y, z, w }
    }
}

impl Quat {
    /// The rotation that turns nothing: `(0, 0, 0, 1)`.
    pub open spec fn unit() -> Quat {
        Quat {
            x: Scalar { bits: 0 },
            y: Scalar { bits: 0 },
            z: Scalar { bits: 0 },
            w: Scalar { bits: 0x3f80_0000 },
        }
    }

    pub fn new(x: Scalar, y: Scalar, z: Scalar, w: Scalar) -> (q: Quat)
        ensures
            q == (Quat { x, y, z, w }),
    {
        Quat { x, y, z, w }
    }

    pub fn identity() -> (q: Quat)
        ensures
            q == Quat::unit(),
    {
        Quat { x: Scalar::zero(), y: Scalar::zero(), z: Scalar::zero(), w: Scalar::one() }
    }
}

} // verus!
