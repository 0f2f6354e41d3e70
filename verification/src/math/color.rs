//! RGBA colours as four scalars.

use vstd::prelude::*;
use crate::math::scalar::Scalar;
use crate::math::vector::{Vec3, Vec4};

verus! {

/// An RGBA colour; each channel is a scalar, nominally in `[0, 1]`.
#[derive(Clone, Copy, Debug, PartialEq, Eq, Structural)]
pub struct Color {
    pub r: Scalar,
    pub g: Scalar,
    pub b: Scalar,
    pub a: Scalar,
}

impl Color {
    /// The colour with the channels `r`, `g`, `b`, `a` given as bits.
    pub open spec fn of_bits(r: u32, g: u32, b: u32, a: u32) -> Color {
        Color {
            r: Scalar { bits: r },
            g: Scalar { bits: g },
            b: Scalar { bits: b },
            a: Scalar { bits: a },
        }
    }

    /// Opaque black, `(0, 0, 0, 1)`.
    pub open spec fn black() -> Color {
        Color::of_bits(0, 0, 0, 0x3f80_0000)
    }

    /// Opaque white, `(1, 1, 1, 1)`.
    pub open spec fn white() -> Color {
        Color::of_bits(0x3f80_0000, 0x3f80_0000, 0x3f80_0000, 0x3f80_0000)
    }

    /// Each channel limited to `[0, 1]`.
    pub open spec fn clamped(self) -> Color {
        let zero = Scalar { bits: 0 };
        let one = Scalar { bits: 0x3f80_0000 };
        Color {
            r: self.r.limited(zero, one),
            g: self.g.limited(zero, one),
            b: self.b.limited(zero, one),
            a: self.a.limited(zero, one),
        }
    }

    pub fn new(r: Scalar, g: Scalar, b: Scalar, a: Scalar) -> (c: Color)
        ensures
            c == (Color { r, g, b, a }),
    {
        Color { r, g, b, a }
    }

    /// An opaque colour: alpha is 1.
    pub fn rgb(r: Scalar, g: Scalar, b: Scalar) -> (c: Color)
        ensures
            c == (Color { r, g, b, a: Scalar { bits: 0x3f80_0000 } }),
    {
        Color { r, g, b, a: Scalar::one() }
    }

    /// An opaque grey with all three channels at `value`.
    pub fn gray(value: Scalar) -> (c: Color)
        ensures
            c == (Color { r: value, g: value, b: value, a: Scalar { bits: 0x3f80_0000 } }),
    {
        Color::rgb(value, value, value)
    }

    pub fn from_bits(r: u32, g: u32, b: u32, a: u32) -> (c: Color)
        ensures
            c == Color::of_bits(r, g, b, a),
    {
        Color {
            r: Scalar::from_bits(r),
            g: Scalar::from_bits(g),
            b: Scalar::from_bits(b),
            a: Scalar::from_bits(a),
        }
    }

    pub fn opaque_black() -> (c: Color)
        ensures
            c == Color::black(),
    {
        Color::from_bits(0, 0, 0, 0x3f80_0000)
    }

    pub fn opaque_white() -> (c: Color)
        ensures
            c == Color::white(),
    {
        Color::from_bits(0x3f80_0000, 0x3f80_0000, 0x3f80_0000, 0x3f80_0000)
    }

    /// `(1, 0, 0, 1)`.
    pub fn red() -> (c: Color)
        ensures
            c == Color::of_bits(0x3f80_0000, 0, 0, 0x3f80_0000),
    {
        Color::from_bits(0x3f80_0000, 0, 0, 0x3f80_0000)
    }

    /// `(0, 1, 0, 1)`.
    pub fn green() -> (c: Color)
        ensures
            c == Color::of_bits(0, 0x3f80_0000, 0, 0x3f80_0000),
    {
        Color::from_bits(0, 0x3f80_0000, 0, 0x3f80_0000)
    }

    /// `(0, 0, 1, 1)`.
    pub fn blue() -> (c: Color)
        ensures
            c == Color::of_bits(0, 0, 0x3f80_0000, 0x3f80_0000),
    {
        Color::from_bits(0, 0, 0x3f80_0000, 0x3f80_0000)
    }

    /// `(0, 0, 0, 0)`.
    pub fn transparent() -> (c: Color)
        ensures
            c == Color::of_bits(0, 0, 0, 0),
    {
        Color::from_bits(0, 0, 0, 0)
    }

    /// The three colour channels, without alpha.
    pub fn to_vec3(&self) -> (v: Vec3)
        ensures
            v == (Vec3 { x: self.r, y: self.g, z: self.b }),
    {
        Vec3 { x: self.r, y: self.g, z: self.b }
    }

    pub fn to_vec4(&self) -> (v: Vec4)
        ensures
            v == (Vec4 { x: self.r, y: self.g, z: self.b, w: self.a }),
    {
        Vec4 { x: self.r, y: self.g, z: self.b, w: self.a }
    }

    /// The opaque colour with the channels of `v`.
    pub fn from_vec3(v: Vec3) -> (c: Color)
        ensures
            c == (Color { r: v.x, g: v.y, b: v.z, a: Scalar { bits: 0x3f80_0000 } }),
    {
        Color::rgb(v.x, v.y, v.z)
    }

    pub fn from_vec4(v: Vec4) -> (c: Color)
        ensures
            c == (Color { r: v.x, g: v.y, b: v.z, a: v.w }),
    {
        Color::new(v.x, v.y, v.z, v.w)
    }

    /// Every channel limited to `[0, 1]`; a NaN channel stays a NaN.
    pub fn clamp(&self) -> (c: Color)
        ensures
            c == self.clamped(),
    {
        let zero = Scalar::zero();
        let one = Scalar::one();
        Color {
            r: self.r.clamp(zero, one),
            g: self.g.clamp(zero, one),
            b: self.b.clamp(zero, one),
            a: self.a.clamp(zero, one),
        }
    }
}

/// Clamping twice changes nothing more.
pub proof fn lemma_clamp_is_idempotent(c: Color)
    ensures
        c.clamped().clamped() == c.clamped(),
{
}

/// The channels of a clamped colour lie in `[0, 1]`, unless they are NaN.
pub proof fn lemma_clamped_in_unit_range(c: Color)
    ensures
        !c.r.nan() ==> 0 <= c.clamped().r.key() <= 0x3f80_0000,
        !c.g.nan() ==> 0 <= c.clamped().g.key() <= 0x3f80_0000,
        !c.b.nan() ==> 0 <= c.clamped().b.key() <= 0x3f80_0000,
        !c.a.nan() ==> 0 <= c.clamped().a.key() <= 0x3f80_0000,
{
}

} // verus!
