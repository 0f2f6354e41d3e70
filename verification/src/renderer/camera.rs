//! The camera: where it stands and how it projects.

use vstd::prelude::*;
use crate::math::scalar::Scalar;
use crate::math::transform::Transform;

verus! {

/// How the camera projects the scene onto the image.
#[derive(Clone, Copy, Debug, PartialEq, Eq, Structural)]
pub enum ProjectionType {
    /// Rays fan out from the camera's position. `fov` is the vertical
    /// field of view in radians.
    Perspective { fov: Scalar, aspect_ratio: Scalar, near: Scalar, far: Scalar },
    /// Rays run side by side from a rectangle in the camera's plane.
    Orthographic {
        left: Scalar,
        right: Scalar,
        bottom: Scalar,
        top: Scalar,
        near: Scalar,
        far: Scalar,
    },
}

/// A camera in the world.
#[derive(Clone, Copy, Debug, PartialEq, Eq, Structural)]
pub struct Camera {
    pub transform: Transform,
    pub projection: ProjectionType,
    pub is_active: bool,
}

impl Camera {
    /// An active perspective camera at the origin, looking down the
    /// negative z axis.
    pub open spec fn perspective(fov: Scalar, aspect_ratio: Scalar, near: Scalar, far: Scalar)
        -> Camera {
        Camera {
            transform: Transform::neutral(),
            projection: ProjectionType::Perspective { fov, aspect_ratio, near, far },
            is_active: true,
        }
    }

    /// An active perspective camera at the origin, looking down the
    /// negative z axis.
    pub fn new_perspective(fov: Scalar, aspect_ratio: Scalar, near: Scalar, far: Scalar) -> (c:
        Camera)
        ensures
            c == Camera::perspective(fov, aspect_ratio, near, far),
    {
        Camera {
            transform: Transform::identity(),
            projection: ProjectionType::Perspective { fov, aspect_ratio, near, far },
            is_active: true,
        }
    }

    /// An active orthographic camera at the origin, looking down the
    /// negative z axis.
    pub fn new_orthographic(
        left: Scalar,
        right: Scalar,
        bottom: Scalar,
        top: Scalar,
        near: Scalar,
        far: Scalar,
    ) -> (c: Camera)
        ensures
            c == (Camera {
                transform: Transform::neutral(),
                projection: ProjectionType::Orthographic { left, right, bottom, top, near, far },
                is_active: true,
            }),
    {
        Camera {
            transform: Transform::identity(),
            projection: ProjectionType::Orthographic { left, right, bottom, top, near, far },
            is_active: true,
        }
    }

    /// The camera with the aspect ratio of a perspective projection set to
    /// `aspect_ratio`; an orthographic camera stays as it is.
    pub open spec fn reshaped(self, aspect_ratio: Scalar) -> Camera {
        match self.projection {
            ProjectionType::Perspective { fov, aspect_ratio: _, near, far } => Camera {
                projection: ProjectionType::Perspective { fov, aspect_ratio, near, far },
                ..self
            },
            ProjectionType::Orthographic { .. } => self,
        }
    }

    /// Fits a perspective camera to an image of the given aspect ratio.
    pub fn set_aspect_ratio(&mut self, aspect_ratio: Scalar)
        ensures
            *final(self) == old(self).reshaped(aspect_ratio),
    {
        match self.projection {
            ProjectionType::Perspective { fov, aspect_ratio: _, near, far } => {
                self.projection = ProjectionType::Perspective { fov, aspect_ratio, near, far };
            },
            ProjectionType::Orthographic { .. } => {},
        }
    }

    pub fn is_perspective(&self) -> (r: bool)
        ensures
            r == (self.projection is Perspective),
    {
        match self.projection {
            ProjectionType::Perspective { .. } => true,
            ProjectionType::Orthographic { .. } => false,
        }
    }
}

} // verus!
