use rrte_engine::math::{Color, HitInfo, Mat4, Quat, Ray, Scalar, Transform, Vec2, Vec3, Vec4, AABB};

fn s(x: f32) -> Scalar {
    Scalar::from_bits(x.to_bits())
}

fn f(x: Scalar) -> f32 {
    f32::from_bits(x.to_bits())
}

fn v(x: f32, y: f32, z: f32) -> Vec3 {
    Vec3::new(s(x), s(y), s(z))
}

#[test]
fn colour_constants() {
    let c = |c: Color| [f(c.r), f(c.g), f(c.b), f(c.a)];
    assert_eq!(c(Color::opaque_black()), [0.0, 0.0, 0.0, 1.0]);
    assert_eq!(c(Color::opaque_white()), [1.0, 1.0, 1.0, 1.0]);
    assert_eq!(c(Color::red()), [1.0, 0.0, 0.0, 1.0]);
    assert_eq!(c(Color::green()), [0.0, 1.0, 0.0, 1.0]);
    assert_eq!(c(Color::blue()), [0.0, 0.0, 1.0, 1.0]);
    assert_eq!(c(Color::transparent()), [0.0, 0.0, 0.0, 0.0]);
    assert_eq!(c(Color::rgb(s(0.1), s(0.2), s(0.3))), [0.1, 0.2, 0.3, 1.0]);
    assert_eq!(c(Color::gray(s(0.4))), [0.4, 0.4, 0.4, 1.0]);
    assert_eq!(c(Color::new(s(0.1), s(0.2), s(0.3), s(0.4))), [0.1, 0.2, 0.3, 0.4]);
}

#[test]
fn colour_and_vectors() {
    let c = Color::new(s(0.1), s(0.2), s(0.3), s(0.4));
    assert_eq!(c.to_vec3(), v(0.1, 0.2, 0.3));
    assert_eq!(c.to_vec4(), Vec4::new(s(0.1), s(0.2), s(0.3), s(0.4)));
    assert_eq!(Color::from_vec4(c.to_vec4()), c);
    assert_eq!(Color::from_vec3(c.to_vec3()), Color::rgb(s(0.1), s(0.2), s(0.3)));
}

#[test]
fn colour_clamp() {
    let c = Color::new(s(-0.5), s(0.25), s(17.0), s(1.0)).clamp();
    assert_eq!([f(c.r), f(c.g), f(c.b), f(c.a)], [0.0, 0.25, 1.0, 1.0]);
    let again = c.clamp();
    assert_eq!(again, c);
    let odd = Color::new(s(f32::NAN), s(f32::INFINITY), s(f32::NEG_INFINITY), s(-0.0)).clamp();
    assert!(f(odd.r).is_nan());
    assert_eq!(f(odd.g), 1.0);
    assert_eq!(f(odd.b), 0.0);
    assert_eq!(odd.a.to_bits(), (-0.0f32).to_bits());
}

#[test]
fn vectors() {
    assert_eq!(Vec3::zero(), v(0.0, 0.0, 0.0));
    assert_eq!(Vec3::one(), v(1.0, 1.0, 1.0));
    assert_eq!(v(1.0, -2.0, 0.0).neg(), v(-1.0, 2.0, -0.0));
    assert_eq!(v(1.0, -2.0, 0.0).neg().neg(), v(1.0, -2.0, 0.0));
    let a = v(1.0, 2.0, 3.0);
    assert_eq!((f(a.component(0)), f(a.component(1)), f(a.component(2))), (1.0, 2.0, 3.0));
    assert_eq!(Vec2::zero(), Vec2::new(s(0.0), s(0.0)));
    let q = Quat::identity();
    assert_eq!([f(q.x), f(q.y), f(q.z), f(q.w)], [0.0, 0.0, 0.0, 1.0]);
    assert_eq!(Quat::new(s(0.0), s(0.0), s(0.0), s(1.0)), q);
    let m = Mat4::identity();
    assert_eq!(m.x_axis, Vec4::new(s(1.0), s(0.0), s(0.0), s(0.0)));
    assert_eq!(m.w_axis, Vec4::new(s(0.0), s(0.0), s(0.0), s(1.0)));
}

#[test]
fn transforms() {
    let t = Transform::identity();
    assert_eq!(t.position, v(0.0, 0.0, 0.0));
    assert_eq!(t.rotation, Quat::identity());
    assert_eq!(t.scale, v(1.0, 1.0, 1.0));
    assert_eq!(Transform::from_position(v(1.0, 2.0, 3.0)).position, v(1.0, 2.0, 3.0));
    assert_eq!(Transform::from_position(v(1.0, 2.0, 3.0)).scale, v(1.0, 1.0, 1.0));
    assert_eq!(Transform::from_scale(v(2.0, 2.0, 2.0)).scale, v(2.0, 2.0, 2.0));
    let q = Quat::new(s(0.0), s(0.7071068), s(0.0), s(0.7071068));
    assert_eq!(Transform::from_rotation(q).rotation, q);
    assert_eq!(Transform::from_rotation(q).position, v(0.0, 0.0, 0.0));
}

#[test]
fn hits_turn_their_normal_against_the_ray() {
    let outward = v(0.0, 1.0, 0.0);
    let front = HitInfo::new(s(2.0), v(0.0, 0.0, 0.0), outward, s(-0.5));
    assert!(front.front_face);
    assert_eq!(front.normal, outward);
    assert_eq!(front.material_id, None);
    let back = HitInfo::new(s(2.0), v(0.0, 0.0, 0.0), outward, s(0.5));
    assert!(!back.front_face);
    assert_eq!(back.normal, v(-0.0, -1.0, -0.0));
    let grazing = HitInfo::new(s(2.0), v(0.0, 0.0, 0.0), outward, s(0.0));
    assert!(!grazing.front_face);
    assert_eq!(f(grazing.normal.y), -1.0);
    let with = front.with_material(3);
    assert_eq!(with.material_id, Some(3));
    assert_eq!(with.t, front.t);
    assert_eq!(with.normal, front.normal);
    let ray = Ray::from_unit(v(0.0, 0.0, 5.0), v(0.0, 0.0, -1.0));
    assert_eq!(ray.direction, v(0.0, 0.0, -1.0));
}

#[test]
fn boxes() {
    let b = AABB::new(v(-1.0, -1.0, -1.0), v(1.0, 2.0, 3.0));
    assert!(b.contains_point(v(0.0, 0.0, 0.0)));
    assert!(b.contains_point(v(1.0, 2.0, 3.0)));
    assert!(b.contains_point(v(-1.0, -1.0, -1.0)));
    assert!(!b.contains_point(v(1.1, 0.0, 0.0)));
    assert!(!b.contains_point(v(0.0, 0.0, -1.5)));
    assert!(!b.contains_point(v(f32::NAN, 0.0, 0.0)));
    let near = AABB::new(v(1.0, 2.0, 3.0), v(4.0, 4.0, 4.0));
    let far = AABB::new(v(1.5, 0.0, 0.0), v(4.0, 4.0, 4.0));
    assert!(b.intersects(&near) && near.intersects(&b));
    assert!(!b.intersects(&far) && !far.intersects(&b));
    assert!(b.intersects(&b));
}
