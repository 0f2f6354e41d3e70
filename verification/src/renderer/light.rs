//! Light sources and what they give to a point of a surface.
//!
//! The products and quotients of the lighting model are the caller's. What
//! is decided here is when a light reaches a point at all, and which of the
//! values that the caller computed counts.

use vstd::prelude::*;
use crate::math::color::Color;
use crate::math::scalar::{Scalar, INFINITY_BITS};
use crate::math::transform::Transform;
use crate::math::vector::Vec3;

verus! {

/// Bits of `100.0`, the range of a light made without one.
pub const DEFAULT_RANGE_BITS: u32 = 0x42c8_0000;

/// Bits of `0.09`, the linear attenuation of a light made without one.
pub const DEFAULT_LINEAR_BITS: u32 = 0x3db8_51ec;

/// Bits of `0.032`, the quadratic attenuation of a light made without one.
pub const DEFAULT_QUADRATIC_BITS: u32 = 0x3d03_126f;

/// What one light gives to one point.
#[derive(Clone, Copy, Debug, PartialEq, Eq, Structural)]
pub struct LightContribution {
    pub color: Color,
    pub direction: Vec3,
    pub distance: Scalar,
    pub attenuation: Scalar,
}

impl LightContribution {
    pub fn new(color: Color, direction: Vec3, distance: Scalar, attenuation: Scalar) -> (c:
        LightContribution)
        ensures
            c == (LightContribution { color, direction, distance, attenuation }),
    {
        LightContribution { color, direction, distance, attenuation }
    }

    /// No light at all: black, no direction, attenuation 0.
    pub fn none() -> (c: LightContribution)
        ensures
            c == (LightContribution {
                color: Color::black(),
                direction: Vec3::origin(),
                distance: Scalar { bits: 0 },
                attenuation: Scalar { bits: 0 },
            }),
    {
        LightContribution {
            color: Color::opaque_black(),
            direction: Vec3::zero(),
            distance: Scalar::zero(),
            attenuation: Scalar::zero(),
        }
    }
}

/// The attenuation of a light with a range, at `distance`: nothing beyond
/// the range; within it the `falloff` that the caller computed, but never
/// below zero.
pub open spec fn ranged_attenuation(range: Scalar, distance: Scalar, falloff: Scalar) -> Scalar {
    if range.less(distance) {
        Scalar { bits: 0 }
    } else if falloff.nan() || falloff.less(Scalar { bits: 0 }) {
        Scalar { bits: 0 }
    } else {
        falloff
    }
}

fn attenuate(range: Scalar, distance: Scalar, falloff: Scalar) -> (a: Scalar)
    ensures
        a == ranged_attenuation(range, distance, falloff),
{
    if distance.gt(range) {
        Scalar::zero()
    } else if falloff.is_nan() || falloff.lt(Scalar::zero()) {
        Scalar::zero()
    } else {
        falloff
    }
}

/// Light from one direction everywhere, like the sun's.
#[derive(Clone, Copy, Debug, PartialEq, Eq, Structural)]
pub struct DirectionalLight {
    pub direction: Vec3,
    pub color: Color,
    pub intensity: Scalar,
    pub transform: Transform,
}

impl DirectionalLight {
    /// A light along `direction`, which the caller has normalised.
    pub fn new(direction: Vec3, color: Color, intensity: Scalar) -> (l: DirectionalLight)
        ensures
            l == (DirectionalLight { direction, color, intensity, transform: Transform::neutral() }),
    {
        DirectionalLight { direction, color, intensity, transform: Transform::identity() }
    }

    /// What the light gives to any point. `radiance` is its colour times
    /// its intensity. The light comes from against its direction, from
    /// infinitely far, and is not attenuated.
    pub fn illuminate(&self, radiance: Color) -> (c: LightContribution)
        ensures
            c == (LightContribution {
                color: radiance,
                direction: self.direction.negated(),
                distance: Scalar { bits: INFINITY_BITS },
                attenuation: Scalar { bits: 0x3f80_0000 },
            }),
    {
        LightContribution::new(radiance, self.direction.neg(), Scalar::infinity(), Scalar::one())
    }

    /// A directional light has no position: the origin stands for it.
    pub fn position(&self) -> (p: Vec3)
        ensures
            p == Vec3::origin(),
    {
        Vec3::zero()
    }

    pub fn affects_point(&self) -> (r: bool)
        ensures
            r,
    {
        true
    }
}

/// Light from a point in all directions.
#[derive(Clone, Copy, Debug, PartialEq, Eq, Structural)]
pub struct PointLight {
    pub position: Vec3,
    pub color: Color,
    pub intensity: Scalar,
    pub range: Scalar,
    pub linear_attenuation: Scalar,
    pub quadratic_attenuation: Scalar,
    pub transform: Transform,
}

impl PointLight {
    /// A light of range 100 with attenuation `1 / (1 + 0.09 d + 0.032 d²)`.
    pub fn new(position: Vec3, color: Color, intensity: Scalar) -> (l: PointLight)
        ensures
            l == (PointLight {
                position,
                color,
                intensity,
                range: Scalar { bits: DEFAULT_RANGE_BITS },
                linear_attenuation: Scalar { bits: DEFAULT_LINEAR_BITS },
                quadratic_attenuation: Scalar { bits: DEFAULT_QUADRATIC_BITS },
                transform: Transform::neutral(),
            }),
    {
        PointLight {
            position,
            color,
            intensity,
            range: Scalar::from_bits(DEFAULT_RANGE_BITS),
            linear_attenuation: Scalar::from_bits(DEFAULT_LINEAR_BITS),
            quadratic_attenuation: Scalar::from_bits(DEFAULT_QUADRATIC_BITS),
            transform: Transform::identity(),
        }
    }

    pub fn with_attenuation(
        position: Vec3,
        color: Color,
        intensity: Scalar,
        range: Scalar,
        linear: Scalar,
        quadratic: Scalar,
    ) -> (l: PointLight)
        ensures
            l == (PointLight {
                position,
                color,
                intensity,
                range,
                linear_attenuation: linear,
                quadratic_attenuation: quadratic,
                transform: Transform::neutral(),
            }),
    {
        PointLight {
            position,
            color,
            intensity,
            range,
            linear_attenuation: linear,
            quadratic_attenuation: quadratic,
            transform: Transform::identity(),
        }
    }

    /// The attenuation at `distance`. `falloff` is
    /// `1 / (1 + linear * d + quadratic * d²)` at that distance.
    pub fn calculate_attenuation(&self, distance: Scalar, falloff: Scalar) -> (a: Scalar)
        ensures
            a == ranged_attenuation(self.range, distance, falloff),
            self.range.less(distance) ==> a.bits == 0,
    {
        attenuate(self.range, distance, falloff)
    }

    /// What the light gives to a point at `distance` in `direction`.
    /// `radiance` is the light's colour times its intensity and `falloff`
    /// as in [`PointLight::calculate_attenuation`].
    pub fn illuminate(&self, radiance: Color, direction: Vec3, distance: Scalar, falloff: Scalar)
        -> (c: LightContribution)
        ensures
            c == (LightContribution {
                color: radiance,
                direction,
                distance,
                attenuation: ranged_attenuation(self.range, distance, falloff),
            }),
    {
        let attenuation = self.calculate_attenuation(distance, falloff);
        LightContribution::new(radiance, direction, distance, attenuation)
    }

    /// Whether a point at `distance` is within the light's range.
    pub fn affects_point(&self, distance: Scalar) -> (r: bool)
        ensures
            r == distance.less_eq(self.range),
    {
        distance.le(self.range)
    }
}

/// Light from a point into a cone.
#[derive(Clone, Copy, Debug, PartialEq, Eq, Structural)]
pub struct SpotLight {
    pub position: Vec3,
    pub direction: Vec3,
    pub color: Color,
    pub intensity: Scalar,
    pub range: Scalar,
    pub inner_angle: Scalar,
    pub outer_angle: Scalar,
    pub linear_attenuation: Scalar,
    pub quadratic_attenuation: Scalar,
    pub transform: Transform,
}

impl SpotLight {
    /// The share of the light that reaches a direction at `angle` from the
    /// cone's axis: none outside the outer angle, all of it inside the
    /// inner one, and between them the `blend` that the caller computed.
    pub open spec fn cone_share(self, angle: Scalar, blend: Scalar) -> Scalar {
        if self.outer_angle.less(angle) {
            Scalar { bits: 0 }
        } else if angle.less(self.inner_angle) {
            Scalar { bits: 0x3f80_0000 }
        } else {
            blend
        }
    }

    /// A spot along `direction`, which the caller has normalised, with the
    /// range and attenuation of [`PointLight::new`]. Angles are in radians.
    pub fn new(
        position: Vec3,
        direction: Vec3,
        color: Color,
        intensity: Scalar,
        inner_angle: Scalar,
        outer_angle: Scalar,
    ) -> (l: SpotLight)
        ensures
            l == (SpotLight {
                position,
                direction,
                color,
                intensity,
                range: Scalar { bits: DEFAULT_RANGE_BITS },
                inner_angle,
                outer_angle,
                linear_attenuation: Scalar { bits: DEFAULT_LINEAR_BITS },
                quadratic_attenuation: Scalar { bits: DEFAULT_QUADRATIC_BITS },
                transform: Transform::neutral(),
            }),
    {
        SpotLight {
            position,
            direction,
            color,
            intensity,
            range: Scalar::from_bits(DEFAULT_RANGE_BITS),
            inner_angle,
            outer_angle,
            linear_attenuation: Scalar::from_bits(DEFAULT_LINEAR_BITS),
            quadratic_attenuation: Scalar::from_bits(DEFAULT_QUADRATIC_BITS),
            transform: Transform::identity(),
        }
    }

    /// As [`PointLight::calculate_attenuation`].
    pub fn calculate_distance_attenuation(&self, distance: Scalar, falloff: Scalar) -> (a: Scalar)
        ensures
            a == ranged_attenuation(self.range, distance, falloff),
            self.range.less(distance) ==> a.bits == 0,
    {
        attenuate(self.range, distance, falloff)
    }

    /// The share of the light at `angle` from the axis. `blend` is the
    /// square of `(outer - angle) / (outer - inner)`.
    pub fn calculate_angular_attenuation(&self, angle: Scalar, blend: Scalar) -> (a: Scalar)
        ensures
            a == self.cone_share(angle, blend),
    {
        if angle.gt(self.outer_angle) {
            Scalar::zero()
        } else if angle.lt(self.inner_angle) {
            Scalar::one()
        } else {
            blend
        }
    }

    /// What the light gives to a point at `distance` in `direction`.
    /// `attenuation` is the product of the distance attenuation and the
    /// angular one.
    pub fn illuminate(
        &self,
        radiance: Color,
        direction: Vec3,
        distance: Scalar,
        attenuation: Scalar,
    ) -> (c: LightContribution)
        ensures
            c == (LightContribution { color: radiance, direction, distance, attenuation }),
    {
        LightContribution::new(radiance, direction, distance, attenuation)
    }

    /// Whether the light reaches a point at `distance`, seen at `angle`
    /// from the axis: within the range and within the outer cone.
    pub fn affects_point(&self, distance: Scalar, angle: Scalar) -> (r: bool)
        ensures
            r == (!self.range.less(distance) && angle.less_eq(self.outer_angle)),
    {
        if distance.gt(self.range) {
            false
        } else {
            angle.le(self.outer_angle)
        }
    }
}

/// The same light everywhere.
#[derive(Clone, Copy, Debug, PartialEq, Eq, Structural)]
pub struct AmbientLight {
    pub color: Color,
    pub intensity: Scalar,
    pub transform: Transform,
}

impl AmbientLight {
    pub fn new(color: Color, intensity: Scalar) -> (l: AmbientLight)
        ensures
            l == (AmbientLight { color, intensity, transform: Transform::neutral() }),
    {
        AmbientLight { color, intensity, transform: Transform::identity() }
    }

    /// A dim bluish light: colour `(0.2, 0.2, 0.3)`, intensity `0.3`.
    pub fn default_ambient() -> (l: AmbientLight)
        ensures
            l == (AmbientLight {
                color: Color::of_bits(0x3e4c_cccd, 0x3e4c_cccd, 0x3e99_999a, 0x3f80_0000),
                intensity: Scalar { bits: 0x3e99_999a },
                transform: Transform::neutral(),
            }),
    {
        AmbientLight::new(
            Color::from_bits(0x3e4c_cccd, 0x3e4c_cccd, 0x3e99_999a, 0x3f80_0000),
            Scalar::from_bits(0x3e99_999a),
        )
    }

    /// What the light gives to any point. `radiance` is its colour times
    /// its intensity. It has no direction and is not attenuated.
    pub fn illuminate(&self, radiance: Color) -> (c: LightContribution)
        ensures
            c == (LightContribution {
                color: radiance,
                direction: Vec3::origin(),
                distance: Scalar { bits: 0 },
                attenuation: Scalar { bits: 0x3f80_0000 },
            }),
    {
        LightContribution::new(radiance, Vec3::zero(), Scalar::zero(), Scalar::one())
    }

    pub fn affects_point(&self) -> (r: bool)
        ensures
            r,
    {
        true
    }
}

/// Any of the four lights.
#[derive(Clone, Copy, Debug, PartialEq, Eq, Structural)]
pub enum Light {
    Directional(DirectionalLight),
    Point(PointLight),
    Spot(SpotLight),
    Ambient(AmbientLight),
}

impl Light {
    pub open spec fn base_color(self) -> Color {
        match self {
            Light::Directional(l) => l.color,
            Light::Point(l) => l.color,
            Light::Spot(l) => l.color,
            Light::Ambient(l) => l.color,
        }
    }

    pub open spec fn strength(self) -> Scalar {
        match self {
            Light::Directional(l) => l.intensity,
            Light::Point(l) => l.intensity,
            Light::Spot(l) => l.intensity,
            Light::Ambient(l) => l.intensity,
        }
    }

    /// Where the light stands; the origin for a light that stands nowhere.
    pub open spec fn place(self) -> Vec3 {
        match self {
            Light::Directional(_) => Vec3::origin(),
            Light::Point(l) => l.position,
            Light::Spot(l) => l.position,
            Light::Ambient(_) => Vec3::origin(),
        }
    }

    pub fn color(&self) -> (c: Color)
        ensures
            c == self.base_color(),
    {
        match self {
            Light::Directional(l) => l.color,
            Light::Point(l) => l.color,
            Light::Spot(l) => l.color,
            Light::Ambient(l) => l.color,
        }
    }

    pub fn intensity(&self) -> (i: Scalar)
        ensures
            i == self.strength(),
    {
        match self {
            Light::Directional(l) => l.intensity,
            Light::Point(l) => l.intensity,
            Light::Spot(l) => l.intensity,
            Light::Ambient(l) => l.intensity,
        }
    }

    pub fn position(&self) -> (p: Vec3)
        ensures
            p == self.place(),
    {
        match self {
            Light::Directional(_) => Vec3::zero(),
            Light::Point(l) => l.position,
            Light::Spot(l) => l.position,
            Light::Ambient(_) => Vec3::zero(),
        }
    }
}

/// Beyond its range a light gives exactly nothing, and within it exactly
/// the falloff, where that is positive.
pub proof fn lemma_attenuation_by_range(range: Scalar, distance: Scalar, falloff: Scalar)
    ensures
        range.less(distance) ==> ranged_attenuation(range, distance, falloff).bits == 0,
        !range.less(distance) && (Scalar { bits: 0 }).less(falloff) ==> {
            &&& ranged_attenuation(range, distance, falloff) == falloff
            &&& (Scalar { bits: 0 }).less(ranged_attenuation(range, distance, falloff))
        },
        !ranged_attenuation(range, distance, falloff).less(Scalar { bits: 0 }),
{
}

/// In exact arithmetic the falloff `1 / (1 + linear d + quadratic d²)` of a
/// light is positive and at most 1 at every distance, where neither
/// coefficient is negative: its denominator is at least 1.
pub proof fn lemma_falloff_denominator(linear: int, quadratic: int, distance: int)
    requires
        linear >= 0,
        quadratic >= 0,
        distance >= 0,
    ensures
        1 + linear * distance + quadratic * distance * distance >= 1,
{
    assert(linear * distance >= 0) by (nonlinear_arith)
        requires
            linear >= 0,
            distance >= 0,
    ;
    assert(quadratic * distance * distance >= 0) by (nonlinear_arith)
        requires
            quadratic >= 0,
            distance >= 0,
    ;
}

} // verus!
