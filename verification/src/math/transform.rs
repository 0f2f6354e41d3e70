//! Position, rotation and scale of an object.

use vstd::prelude::*;
use crate::math::vector::{Quat, Vec3};

verus! {

/// A placement in space: scale first, then rotation, then translation.
#[derive(Clone, Copy, Debug, PartialEq, Eq, Structural)]
pub struct Transform {
    pub position: Vec3,
    pub rotation: Quat,
    pub scale: Vec3,
}

impl Transform {
    /// The placement that moves nothing.
    pub open spec fn neutral() -> Transform {
        Transform { position: Vec3::origin(), rotation: Quat::unit(), scale: Vec3::ones() }
    }

    pub fn identity() -> (t: Transform)
        ensures
            t == Transform::neutral(),
    {
        Transform { position: Vec3::zero(), rotation: Quat::identity(), scale: Vec3::one() }
    }

    pub fn from_position(position: Vec3) -> (t: Transform)
        ensures
            t == (Transform { position, ..Transform::neutral() }),
    {
        Transform { position, rotation: Quat::identity(), scale: Vec3::one() }
    }

    pub fn from_rotation(rotation: Quat) -> (t: Transform)
        ensures
            t == (Transform { rotation, ..Transform::neutral() }),
    {
        Transform { position: Vec3::zero(), rotation, scale: Vec3::one() }
    }

    pub fn from_scale(scale: Vec3) -> (t: Transform)
        ensures
            t == (Transform { scale, ..Transform::neutral() }),
    {
        Transform { position: Vec3::zero(), rotation: Quat::identity(), scale }
    }
}

} // verus!
