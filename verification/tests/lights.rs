use rrte_engine::math::{Color, Scalar, Vec3};
use rrte_engine::renderer::light::{
    AmbientLight, DirectionalLight, Light, LightContribution, PointLight, SpotLight,
};

fn s(x: f32) -> Scalar {
    Scalar::from_bits(x.to_bits())
}

fn f(x: Scalar) -> f32 {
    f32::from_bits(x.to_bits())
}

fn v(x: f32, y: f32, z: f32) -> Vec3 {
    Vec3::new(s(x), s(y), s(z))
}

fn white() -> Color {
    Color::opaque_white()
}

fn falloff(light: &PointLight, d: f32) -> f32 {
    1.0 / (1.0 + f(light.linear_attenuation) * d + f(light.quadratic_attenuation) * d * d)
}

#[test]
fn point_light_defaults() {
    let light = PointLight::new(v(0.0, 5.0, 5.0), white(), s(50.0));
    assert_eq!(f(light.range), 100.0);
    assert_eq!(f(light.linear_attenuation), 0.09);
    assert_eq!(f(light.quadratic_attenuation), 0.032);
    assert_eq!(f(light.intensity), 50.0);
    assert_eq!(light.transform.position, v(0.0, 0.0, 0.0));
}

#[test]
fn point_light_gives_nothing_beyond_its_range() {
    let light = PointLight::with_attenuation(v(0.0, 0.0, 0.0), white(), s(1.0), s(10.0), s(0.1), s(0.01));
    for d in [10.000001f32, 11.0, 100.0, 1.0e20, f32::INFINITY] {
        let a = light.calculate_attenuation(s(d), s(falloff(&light, d)));
        assert_eq!(a.to_bits(), 0, "distance {}", d);
        assert!(!light.affects_point(s(d)));
    }
}

#[test]
fn point_light_attenuates_within_its_range() {
    let light = PointLight::with_attenuation(v(0.0, 0.0, 0.0), white(), s(1.0), s(10.0), s(0.1), s(0.01));
    for d in [0.0f32, 0.5, 1.0, 5.0, 9.999, 10.0] {
        let expected = falloff(&light, d);
        let a = f(light.calculate_attenuation(s(d), s(expected)));
        assert_eq!(a, expected);
        assert!(a > 0.0);
        assert!(light.affects_point(s(d)));
    }
    assert_eq!(falloff(&light, 0.0), 1.0);
    assert_eq!(f(light.calculate_attenuation(s(5.0), s(1.0 / 1.75))), 1.0 / 1.75);
}

#[test]
fn point_light_never_attenuates_below_zero() {
    let light = PointLight::with_attenuation(v(0.0, 0.0, 0.0), white(), s(1.0), s(10.0), s(-1.0), s(0.0));
    let d = 2.0f32;
    let raw = falloff(&light, d);
    assert!(raw < 0.0);
    assert_eq!(f(light.calculate_attenuation(s(d), s(raw))), 0.0);
    assert_eq!(f(light.calculate_attenuation(s(d), s(f32::NAN))), 0.0);
}

#[test]
fn point_light_with_a_huge_coefficient_fades_to_nothing_within_range() {
    let light =
        PointLight::with_attenuation(v(0.0, 0.0, 0.0), white(), s(1.0), s(100.0), s(f32::MAX), s(0.0));
    let d = 2.0f32;
    let raw = falloff(&light, d);
    assert_eq!(raw, 0.0);
    assert_eq!(f(light.calculate_attenuation(s(d), s(raw))), 0.0);
}

#[test]
fn point_light_contribution() {
    let light = PointLight::new(v(0.0, 5.0, 5.0), white(), s(50.0));
    let radiance = Color::new(s(50.0), s(50.0), s(50.0), s(50.0));
    let d = 41.0f32.sqrt();
    let c = light.illuminate(radiance, v(0.0, 0.78, 0.62), s(d), s(falloff(&light, d)));
    assert_eq!(c.color, radiance);
    assert_eq!(f(c.distance), d);
    assert_eq!(f(c.attenuation), falloff(&light, d));
    assert!((f(c.attenuation) - 0.34623).abs() < 1e-4);
}

#[test]
fn directional_light_comes_from_against_its_direction() {
    let light = DirectionalLight::new(v(0.0, -1.0, 0.0), white(), s(5.0));
    let radiance = Color::new(s(5.0), s(5.0), s(5.0), s(5.0));
    let c = light.illuminate(radiance);
    assert_eq!(c.color, radiance);
    assert_eq!(c.direction, v(-0.0, 1.0, -0.0));
    assert_eq!(f(c.distance), f32::INFINITY);
    assert_eq!(f(c.attenuation), 1.0);
    assert!(light.affects_point());
    assert_eq!(light.position(), v(0.0, 0.0, 0.0));
}

#[test]
fn ambient_light_is_the_same_everywhere() {
    let light = AmbientLight::default_ambient();
    assert_eq!(f(light.color.r), 0.2);
    assert_eq!(f(light.color.b), 0.3);
    assert_eq!(f(light.intensity), 0.3);
    let radiance = Color::new(s(0.06), s(0.06), s(0.09), s(0.3));
    let c = light.illuminate(radiance);
    assert_eq!(c.color, radiance);
    assert_eq!(c.direction, v(0.0, 0.0, 0.0));
    assert_eq!(f(c.distance), 0.0);
    assert_eq!(f(c.attenuation), 1.0);
    assert!(light.affects_point());
}

#[test]
fn spot_light_cone() {
    let light = SpotLight::new(v(0.0, 5.0, 0.0), v(0.0, -1.0, 0.0), white(), s(10.0), s(0.3), s(0.6));
    assert_eq!(f(light.range), 100.0);
    assert_eq!(f(light.calculate_angular_attenuation(s(0.1), s(0.5))), 1.0);
    assert_eq!(f(light.calculate_angular_attenuation(s(0.7), s(0.5))), 0.0);
    let angle = 0.45f32;
    let blend = ((0.6 - angle) / (0.6 - 0.3)) * ((0.6 - angle) / (0.6 - 0.3));
    assert_eq!(f(light.calculate_angular_attenuation(s(angle), s(blend))), blend);
    assert_eq!(f(light.calculate_angular_attenuation(s(0.3), s(1.0))), 1.0);
    assert_eq!(f(light.calculate_angular_attenuation(s(0.6), s(0.0))), 0.0);
    assert!(light.affects_point(s(50.0), s(0.6)));
    assert!(!light.affects_point(s(50.0), s(0.61)));
    assert!(!light.affects_point(s(101.0), s(0.1)));
    assert_eq!(light.calculate_distance_attenuation(s(101.0), s(0.5)).to_bits(), 0);
    assert_eq!(f(light.calculate_distance_attenuation(s(10.0), s(0.5))), 0.5);
    let c = light.illuminate(white(), v(0.0, 1.0, 0.0), s(5.0), s(0.25));
    assert_eq!(f(c.attenuation), 0.25);
}

#[test]
fn no_light_is_black() {
    let c = LightContribution::none();
    assert_eq!(c.color, Color::opaque_black());
    assert_eq!(c.direction, v(0.0, 0.0, 0.0));
    assert_eq!(f(c.attenuation), 0.0);
    let made = LightContribution::new(white(), v(1.0, 0.0, 0.0), s(2.0), s(0.5));
    assert_eq!(f(made.distance), 2.0);
}

#[test]
fn lights_tell_colour_strength_and_place() {
    let point = Light::Point(PointLight::new(v(1.0, 2.0, 3.0), white(), s(7.0)));
    let sun = Light::Directional(DirectionalLight::new(v(0.0, -1.0, 0.0), white(), s(5.0)));
    assert_eq!(point.position(), v(1.0, 2.0, 3.0));
    assert_eq!(sun.position(), v(0.0, 0.0, 0.0));
    assert_eq!(f(point.intensity()), 7.0);
    assert_eq!(f(sun.intensity()), 5.0);
    assert_eq!(point.color(), white());
}
