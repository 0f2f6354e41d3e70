//! Four-by-four matrices, by columns.

use vstd::prelude::*;
use crate::math::scalar::Scalar;
use crate::math::vector::Vec4;

verus! {

/// A matrix of four columns.
#[derive(Clone, Copy, Debug, PartialEq, Eq, Structural)]
pub struct Mat4 {
    pub x_axis: Vec4,
    pub y_axis: Vec4,
    pub z_axis: Vec4,
    pub w_axis: Vec4,
}

impl Mat4 {
    /// The matrix with ones on the diagonal and zeros elsewhere.
    pub open spec fn unit() -> Mat4 {
        let o = Scalar { bits: 0 };
        let i = Scalar { bits: 0x3f80_0000 };
        Mat4 {
            x_axis: Vec4 { x: i, y: o, z: o, w: o },
            y_axis: Vec4 { x: o, y: i, z: o, w: o },
            z_axis: Vec4 { x: o, y: o, z: i, w: o },
            w_axis: Vec4 { x: o, y: o, z: o, w: i },
        }
    }

    pub fn from_cols(x_axis: Vec4, y_axis: Vec4, z_axis: Vec4, w_axis: Vec4) -> (m: Mat4)
        ensures
            m == (Mat4 { x_axis, y_axis, z_axis, w_axis }),
    {
        Mat4 { x_axis, y_axis, z_axis, w_axis }
    }

    pub fn identity() -> (m: Mat4)
        ensures
            m == Mat4::unit(),
    {
        let o = Scalar::zero();
        let i = Scalar::one();
        Mat4 {
            x_axis: Vec4::new(i, o, o, o),
            y_axis: Vec4::new(o, i, o, o),
            z_axis: Vec4::new(o, o, i, o),
            w_axis: Vec4::new(o, o, o, i),
        }
    }
}

} // verus!
