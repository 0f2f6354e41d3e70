//! Surface materials: their colour and how they send a ray on.
//!
//! A material decides what becomes of a ray from a handful of numbers that
//! the caller has worked out around the hit: dot products, a reflectance, a
//! random sample. The decisions are here; the numbers are the caller's.

use vstd::prelude::*;
use crate::math::color::Color;
use crate::math::scalar::Scalar;
use crate::math::vector::Vec3;

verus! {

/// Bits of `0.5`.
pub const HALF_BITS: u32 = 0x3f00_0000;

/// Bits of `1.0`.
pub const ONE_BITS: u32 = 0x3f80_0000;

/// Bits of `1e-8`, the squared length under which a direction is no
/// direction.
pub const DEGENERATE_BITS: u32 = 0x322b_cc77;

/// What lighting needs to know of a material.
#[derive(Clone, Copy, Debug, PartialEq, Eq, Structural)]
pub struct MaterialProperties {
    pub metallic: Scalar,
    pub roughness: Scalar,
    pub specular: Scalar,
    pub emission: Color,
    pub ior: Scalar,
}

impl MaterialProperties {
    /// Not metallic, half rough, half specular, no emission, refractive
    /// index 1.
    pub open spec fn plain() -> MaterialProperties {
        MaterialProperties {
            metallic: Scalar { bits: 0 },
            roughness: Scalar { bits: HALF_BITS },
            specular: Scalar { bits: HALF_BITS },
            emission: Color::black(),
            ior: Scalar { bits: ONE_BITS },
        }
    }

    pub fn standard() -> (p: MaterialProperties)
        ensures
            p == MaterialProperties::plain(),
    {
        MaterialProperties {
            metallic: Scalar::zero(),
            roughness: Scalar::from_bits(HALF_BITS),
            specular: Scalar::from_bits(HALF_BITS),
            emission: Color::opaque_black(),
            ior: Scalar::one(),
        }
    }
}

/// A diffuse surface.
#[derive(Clone, Copy, Debug, PartialEq, Eq, Structural)]
pub struct LambertianMaterial {
    pub albedo: Color,
}

/// A mirror, blurred by `roughness` in `[0, 1]`.
#[derive(Clone, Copy, Debug, PartialEq, Eq, Structural)]
pub struct MetalMaterial {
    pub albedo: Color,
    pub roughness: Scalar,
}

/// Glass: it reflects or refracts, by its index of refraction.
#[derive(Clone, Copy, Debug, PartialEq, Eq, Structural)]
pub struct DielectricMaterial {
    pub ior: Scalar,
    pub color: Color,
}

/// A surface that gives off light and sends no ray on.
#[derive(Clone, Copy, Debug, PartialEq, Eq, Structural)]
pub struct EmissiveMaterial {
    pub color: Color,
    pub intensity: Scalar,
}

impl LambertianMaterial {
    pub fn new(albedo: Color) -> (m: LambertianMaterial)
        ensures
            m.albedo == albedo,
    {
        LambertianMaterial { albedo }
    }

    pub fn albedo(&self) -> (c: Color)
        ensures
            c == self.albedo,
    {
        self.albedo
    }

    /// The direction of the scattered ray. `candidate` is the hit normal
    /// plus a random unit vector and `length_squared` its squared length:
    /// where that is under `1e-8` the two have cancelled and the normal
    /// itself is the direction. A diffuse surface always scatters.
    pub fn scatter(&self, normal: Vec3, candidate: Vec3, length_squared: Scalar) -> (direction:
        Option<Vec3>)
        ensures
            direction == Some(
                if length_squared.less(Scalar { bits: DEGENERATE_BITS }) {
                    normal
                } else {
                    candidate
                },
            ),
    {
        if length_squared.lt(Scalar::from_bits(DEGENERATE_BITS)) {
            Some(normal)
        } else {
            Some(candidate)
        }
    }

    pub fn get_properties(&self) -> (p: MaterialProperties)
        ensures
            p == (MaterialProperties {
                roughness: Scalar { bits: ONE_BITS },
                ..MaterialProperties::plain()
            }),
    {
        let base = MaterialProperties::standard();
        MaterialProperties {
            metallic: Scalar::zero(),
            roughness: Scalar::one(),
            specular: base.specular,
            emission: base.emission,
            ior: base.ior,
        }
    }
}

impl MetalMaterial {
    /// A metal whose roughness is `roughness` limited to `[0, 1]`.
    pub fn new(albedo: Color, roughness: Scalar) -> (m: MetalMaterial)
        ensures
            m.albedo == albedo,
            m.roughness == roughness.limited(Scalar { bits: 0 }, Scalar { bits: ONE_BITS }),
    {
        MetalMaterial { albedo, roughness: roughness.clamp(Scalar::zero(), Scalar::one()) }
    }

    pub fn albedo(&self) -> (c: Color)
        ensures
            c == self.albedo,
    {
        self.albedo
    }

    /// The metal is a perfect mirror: its roughness is zero.
    pub open spec fn smooth(self) -> bool {
        !self.roughness.nan() && self.roughness.key() == 0
    }

    /// The direction in which the metal sends a ray on, or `None` where
    /// it swallows the ray.
    ///
    /// `reflected` is the mirrored direction. `blurred` is the mirrored
    /// direction plus the roughness times a random vector of the unit
    /// sphere. Each comes with its dot product with the hit normal. A
    /// perfect mirror sends the ray along `reflected` and nothing random
    /// enters; any other metal sends it along `blurred`. The ray leaves
    /// only where the dot product of its direction is positive.
    pub open spec fn scattered(
        self,
        reflected: Vec3,
        reflected_facing: Scalar,
        blurred: Vec3,
        blurred_facing: Scalar,
    ) -> Option<Vec3> {
        let direction = if self.smooth() {
            reflected
        } else {
            blurred
        };
        let facing = if self.smooth() {
            reflected_facing
        } else {
            blurred_facing
        };
        if (Scalar { bits: 0 }).less(facing) {
            Some(direction)
        } else {
            None
        }
    }

    pub fn is_smooth(&self) -> (r: bool)
        ensures
            r == self.smooth(),
    {
        !self.roughness.is_nan() && !self.roughness.lt(Scalar::zero()) && !self.roughness.gt(
            Scalar::zero(),
        )
    }

    /// The direction of the scattered ray, if the ray is scattered.
    pub fn scatter(
        &self,
        reflected: Vec3,
        reflected_facing: Scalar,
        blurred: Vec3,
        blurred_facing: Scalar,
    ) -> (direction: Option<Vec3>)
        ensures
            direction == self.scattered(reflected, reflected_facing, blurred, blurred_facing),
            self.smooth() ==> direction == Some(reflected) || direction.is_none(),
    {
        let smooth = self.is_smooth();
        let facing = if smooth {
            reflected_facing
        } else {
            blurred_facing
        };
        if facing.gt(Scalar::zero()) {
            if smooth {
                Some(reflected)
            } else {
                Some(blurred)
            }
        } else {
            None
        }
    }

    pub fn get_properties(&self) -> (p: MaterialProperties)
        ensures
            p == (MaterialProperties {
                metallic: Scalar { bits: ONE_BITS },
                roughness: self.roughness,
                ..MaterialProperties::plain()
            }),
    {
        let base = MaterialProperties::standard();
        MaterialProperties {
            metallic: Scalar::one(),
            roughness: self.roughness,
            specular: base.specular,
            emission: base.emission,
            ior: base.ior,
        }
    }
}

/// What glass does with a ray.
#[derive(Clone, Copy, Debug, PartialEq, Eq, Structural)]
pub enum Bend {
    Reflect,
    Refract,
}

impl DielectricMaterial {
    /// Clear glass.
    pub fn new(ior: Scalar) -> (m: DielectricMaterial)
        ensures
            m.ior == ior,
            m.color == Color::white(),
    {
        DielectricMaterial { ior, color: Color::opaque_white() }
    }

    pub fn with_color(ior: Scalar, color: Color) -> (m: DielectricMaterial)
        ensures
            m.ior == ior,
            m.color == color,
    {
        DielectricMaterial { ior, color }
    }

    pub fn albedo(&self) -> (c: Color)
        ensures
            c == self.color,
    {
        self.color
    }

    /// The ratio of refractive indices that the ray meets: `reciprocal`,
    /// which is `1 / ior`, on the way in through the front face, and `ior`
    /// on the way out.
    pub fn refraction_ratio(&self, front_face: bool, reciprocal: Scalar) -> (ratio: Scalar)
        ensures
            ratio == (if front_face {
                reciprocal
            } else {
                self.ior
            }),
    {
        if front_face {
            reciprocal
        } else {
            self.ior
        }
    }

    /// Whether the ray is reflected or refracted.
    ///
    /// `sine_ratio` is the refraction ratio times the sine of the angle of
    /// incidence. Above 1 no refracted ray exists and the glass reflects.
    /// Otherwise it reflects when the Schlick `reflectance` is above the
    /// random `sample`, and refracts when not.
    pub open spec fn bends(sine_ratio: Scalar, reflectance: Scalar, sample: Scalar) -> Bend {
        if (Scalar { bits: ONE_BITS }).less(sine_ratio) || sample.less(reflectance) {
            Bend::Reflect
        } else {
            Bend::Refract
        }
    }

    pub fn bend(sine_ratio: Scalar, reflectance: Scalar, sample: Scalar) -> (b: Bend)
        ensures
            b == DielectricMaterial::bends(sine_ratio, reflectance, sample),
            (Scalar { bits: ONE_BITS }).less(sine_ratio) ==> b == Bend::Reflect,
    {
        if sine_ratio.gt(Scalar::one()) || reflectance.gt(sample) {
            Bend::Reflect
        } else {
            Bend::Refract
        }
    }

    /// The direction of the scattered ray: glass always scatters.
    ///
    /// `reflected` is the mirrored direction and `refracted` the bent one,
    /// where it exists. The ray takes the reflected direction when
    /// [`DielectricMaterial::bends`] says so or no refracted direction
    /// exists, and the refracted one otherwise.
    pub fn scatter(
        &self,
        sine_ratio: Scalar,
        reflectance: Scalar,
        sample: Scalar,
        reflected: Vec3,
        refracted: Option<Vec3>,
    ) -> (direction: Option<Vec3>)
        ensures
            direction == Some(
                match (DielectricMaterial::bends(sine_ratio, reflectance, sample), refracted) {
                    (Bend::Refract, Some(through)) => through,
                    _ => reflected,
                },
            ),
            (Scalar { bits: ONE_BITS }).less(sine_ratio) ==> direction == Some(reflected),
    {
        match DielectricMaterial::bend(sine_ratio, reflectance, sample) {
            Bend::Reflect => Some(reflected),
            Bend::Refract => match refracted {
                Some(through) => Some(through),
                None => Some(reflected),
            },
        }
    }

    pub fn get_properties(&self) -> (p: MaterialProperties)
        ensures
            p == (MaterialProperties {
                roughness: Scalar { bits: 0 },
                ior: self.ior,
                ..MaterialProperties::plain()
            }),
    {
        let base = MaterialProperties::standard();
        MaterialProperties {
            metallic: Scalar::zero(),
            roughness: Scalar::zero(),
            specular: base.specular,
            emission: base.emission,
            ior: self.ior,
        }
    }
}

impl EmissiveMaterial {
    pub fn new(color: Color, intensity: Scalar) -> (m: EmissiveMaterial)
        ensures
            m.color == color,
            m.intensity == intensity,
    {
        EmissiveMaterial { color, intensity }
    }

    pub fn albedo(&self) -> (c: Color)
        ensures
            c == self.color,
    {
        self.color
    }

    /// A light source sends no ray on.
    pub fn scatter(&self) -> (direction: Option<Vec3>)
        ensures
            direction.is_none(),
    {
        None
    }

    /// The properties of the source. `emitted` is its colour times its
    /// intensity.
    pub fn get_properties(&self, emitted: Color) -> (p: MaterialProperties)
        ensures
            p == (MaterialProperties { emission: emitted, ..MaterialProperties::plain() }),
    {
        let base = MaterialProperties::standard();
        MaterialProperties {
            metallic: base.metallic,
            roughness: base.roughness,
            specular: base.specular,
            emission: emitted,
            ior: base.ior,
        }
    }
}

/// Any of the four materials.
#[derive(Clone, Copy, Debug, PartialEq, Eq, Structural)]
pub enum Material {
    Lambertian(LambertianMaterial),
    Metal(MetalMaterial),
    Dielectric(DielectricMaterial),
    Emissive(EmissiveMaterial),
}

impl Material {
    /// The base colour.
    pub open spec fn base_color(self) -> Color {
        match self {
            Material::Lambertian(m) => m.albedo,
            Material::Metal(m) => m.albedo,
            Material::Dielectric(m) => m.color,
            Material::Emissive(m) => m.color,
        }
    }

    /// The roughness that lighting sees: 1 for a diffuse surface, the
    /// metal's own, 0 for glass, one half for a light source.
    pub open spec fn surface_roughness(self) -> Scalar {
        match self {
            Material::Lambertian(_) => Scalar { bits: ONE_BITS },
            Material::Metal(m) => m.roughness,
            Material::Dielectric(_) => Scalar { bits: 0 },
            Material::Emissive(_) => Scalar { bits: HALF_BITS },
        }
    }

    pub fn albedo(&self) -> (c: Color)
        ensures
            c == self.base_color(),
    {
        match self {
            Material::Lambertian(m) => m.albedo,
            Material::Metal(m) => m.albedo,
            Material::Dielectric(m) => m.color,
            Material::Emissive(m) => m.color,
        }
    }

    pub fn roughness(&self) -> (r: Scalar)
        ensures
            r == self.surface_roughness(),
    {
        match self {
            Material::Lambertian(_) => Scalar::one(),
            Material::Metal(m) => m.roughness,
            Material::Dielectric(_) => Scalar::zero(),
            Material::Emissive(_) => Scalar::from_bits(HALF_BITS),
        }
    }

    /// Whether this material can ever send a ray on: all but a light
    /// source.
    pub fn scatters(&self) -> (r: bool)
        ensures
            r == !(self is Emissive),
    {
        match self {
            Material::Emissive(_) => false,
            _ => true,
        }
    }
}

/// A material together with the handle that tells it from every other.
///
/// Several objects may hold the same material: they then hold equal
/// handles. Handles, not values, say which materials are the same.
#[derive(Clone, Copy, Debug, PartialEq, Eq, Structural)]
pub struct SharedMaterial {
    pub handle: u64,
    pub material: Material,
}

impl SharedMaterial {
    pub fn new(handle: u64, material: Material) -> (m: SharedMaterial)
        ensures
            m.handle == handle,
            m.material == material,
    {
        SharedMaterial { handle, material }
    }
}

/// A metal of roughness zero scatters along the mirrored direction and no
/// other: whatever the random vector, the ray that leaves is the reflected
/// one.
pub proof fn lemma_smooth_metal_mirrors(
    metal: MetalMaterial,
    reflected: Vec3,
    reflected_facing: Scalar,
    blurred: Vec3,
    other: Vec3,
    blurred_facing: Scalar,
    other_facing: Scalar,
)
    requires
        metal.roughness.bits == 0,
    ensures
        metal.scattered(reflected, reflected_facing, blurred, blurred_facing) == metal.scattered(
            reflected,
            reflected_facing,
            other,
            other_facing,
        ),
        metal.scattered(reflected, reflected_facing, blurred, blurred_facing) matches Some(d)
            ==> d == reflected,
{
}

/// Glass reflects whenever the refraction ratio times the sine of the angle
/// of incidence is above 1, whatever the reflectance and the sample.
pub proof fn lemma_total_internal_reflection(
    sine_ratio: Scalar,
    reflectance: Scalar,
    sample: Scalar,
)
    requires
        (Scalar { bits: ONE_BITS }).less(sine_ratio),
    ensures
        DielectricMaterial::bends(sine_ratio, reflectance, sample) == Bend::Reflect,
{
}

} // verus!
