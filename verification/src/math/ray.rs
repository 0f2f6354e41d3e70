//! Rays and the record of where a ray meets a surface.

use vstd::prelude::*;
use crate::math::scalar::Scalar;
use crate::math::vector::Vec3;

verus! {

/// A half-line: an origin and a direction of unit length.
#[derive(Clone, Copy, Debug, PartialEq, Eq, Structural)]
pub struct Ray {
    pub origin: Vec3,
    pub direction: Vec3,
}

impl Ray {
    /// A ray from `origin` along `direction`, which the caller has
    /// normalised. The ray holds both as given.
    pub fn from_unit(origin: Vec3, direction: Vec3) -> (ray: Ray)
        ensures
            ray == (Ray { origin, direction }),
    {
        Ray { origin, direction }
    }
}

/// Where a ray meets a surface.
///
/// `normal` is the surface normal turned against the incoming ray, and
/// `front_face` tells whether the surface's own outward normal already
/// pointed that way.
#[derive(Clone, Copy, Debug, PartialEq, Eq, Structural)]
pub struct HitInfo {
    pub t: Scalar,
    pub point: Vec3,
    pub normal: Vec3,
    pub front_face: bool,
    pub material_id: Option<u32>,
}

impl HitInfo {
    /// The hit with the normal turned against the ray. `facing` is the dot
    /// product of the ray's direction with `outward_normal`.
    pub open spec fn oriented(t: Scalar, point: Vec3, outward_normal: Vec3, facing: Scalar)
        -> HitInfo {
        let front = facing.less(Scalar { bits: 0 });
        HitInfo {
            t,
            point,
            normal: if front {
                outward_normal
            } else {
                outward_normal.negated()
            },
            front_face: front,
            material_id: None,
        }
    }

    /// Records a hit at distance `t` and turns the normal against the ray.
    ///
    /// `facing` is the dot product of the ray's direction with
    /// `outward_normal`. The hit is on the front face exactly when that is
    /// negative; on the back face the stored normal is `-outward_normal`.
    pub fn new(t: Scalar, point: Vec3, outward_normal: Vec3, facing: Scalar) -> (hit: HitInfo)
        ensures
            hit == HitInfo::oriented(t, point, outward_normal, facing),
            hit.front_face <==> facing.less(Scalar { bits: 0 }),
            hit.front_face ==> hit.normal == outward_normal,
            !hit.front_face ==> hit.normal == outward_normal.negated(),
    {
        let front_face = facing.lt(Scalar::zero());
        let normal = if front_face {
            outward_normal
        } else {
            outward_normal.neg()
        };
        HitInfo { t, point, normal, front_face, material_id: None }
    }

    /// The same hit with its material set.
    pub fn with_material(self, material_id: u32) -> (hit: HitInfo)
        ensures
            hit == (HitInfo { material_id: Some(material_id), ..self }),
    {
        HitInfo {
            t: self.t,
            point: self.point,
            normal: self.normal,
            front_face: self.front_face,
            material_id: Some(material_id),
        }
    }
}

/// The dot product of the ray's direction with the normal that a hit
/// stores, given its dot product `facing` with the outward normal: the
/// same on the front face and the negative on the back face, as negating
/// a vector negates each product and with them the sum.
pub open spec fn stored_facing(facing: Scalar) -> Scalar {
    if facing.less(Scalar { bits: 0 }) {
        facing
    } else {
        facing.negated()
    }
}

/// The normal that a hit stores never points along the ray: the dot
/// product of the ray's direction with it is not positive. On the front
/// face it is negative.
pub proof fn lemma_normal_faces_ray(t: Scalar, point: Vec3, outward_normal: Vec3, facing: Scalar)
    ensures
        !(Scalar { bits: 0 }).less(stored_facing(facing)),
        HitInfo::oriented(t, point, outward_normal, facing).front_face ==> stored_facing(
            facing,
        ).less(Scalar { bits: 0 }),
        !facing.nan() ==> stored_facing(facing).less_eq(Scalar { bits: 0 }),
{
}

/// Turning the normal keeps it on the line of the outward normal: the
/// stored normal is the outward normal or its negative, and turning twice
/// gives the outward normal back.
pub proof fn lemma_normal_is_outward_or_opposite(
    t: Scalar,
    point: Vec3,
    outward_normal: Vec3,
    facing: Scalar,
)
    ensures
        HitInfo::oriented(t, point, outward_normal, facing).normal == outward_normal
            || HitInfo::oriented(t, point, outward_normal, facing).normal
            == outward_normal.negated(),
        outward_normal.negated().negated() == outward_normal,
{
}

} // verus!
