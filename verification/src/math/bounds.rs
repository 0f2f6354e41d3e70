//! Axis-aligned bounding boxes.

use vstd::prelude::*;
use crate::math::scalar::Scalar;
use crate::math::vector::Vec3;

verus! {

/// The box of the points between `min` and `max` on every axis.
#[derive(Clone, Copy, Debug, PartialEq, Eq, Structural)]
pub struct AABB {
    pub min: Vec3,
    pub max: Vec3,
}

/// `low <= x <= high`.
pub open spec fn between(x: Scalar, low: Scalar, high: Scalar) -> bool {
    low.less_eq(x) && x.less_eq(high)
}

impl AABB {
    /// Whether `point` lies in the box, borders included.
    pub open spec fn holds(self, point: Vec3) -> bool {
        &&& between(point.x, self.min.x, self.max.x)
        &&& between(point.y, self.min.y, self.max.y)
        &&& between(point.z, self.min.z, self.max.z)
    }

    /// Whether the two boxes share a point: their spans meet on every axis.
    pub open spec fn meets(self, other: AABB) -> bool {
        &&& self.min.x.less_eq(other.max.x) && other.min.x.less_eq(self.max.x)
        &&& self.min.y.less_eq(other.max.y) && other.min.y.less_eq(self.max.y)
        &&& self.min.z.less_eq(other.max.z) && other.min.z.less_eq(self.max.z)
    }

    pub fn new(min: Vec3, max: Vec3) -> (b: AABB)
        ensures
            b == (AABB { min, max }),
    {
        AABB { min, max }
    }

    pub fn contains_point(&self, point: Vec3) -> (r: bool)
        ensures
            r == self.holds(point),
    {
        point.x.ge(self.min.x) && point.x.le(self.max.x) && point.y.ge(self.min.y) && point.y.le(
            self.max.y,
        ) && point.z.ge(self.min.z) && point.z.le(self.max.z)
    }

    pub fn intersects(&self, other: &AABB) -> (r: bool)
        ensures
            r == self.meets(*other),
    {
        self.min.x.le(other.max.x) && self.max.x.ge(other.min.x) && self.min.y.le(other.max.y)
            && self.max.y.ge(other.min.y) && self.min.z.le(other.max.z) && self.max.z.ge(
            other.min.z,
        )
    }
}

/// Two boxes that hold a common point meet.
pub proof fn lemma_shared_point_means_meeting(a: AABB, b: AABB, p: Vec3)
    requires
        a.holds(p),
        b.holds(p),
    ensures
        a.meets(b),
        b.meets(a),
{
}

} // verus!
