use rrte_engine::ecs::Entity;
use rrte_engine::math::{Color, Scalar, Transform, Vec3};
use rrte_engine::renderer::light::{AmbientLight, Light, PointLight};
use rrte_engine::renderer::material::{LambertianMaterial, Material, SharedMaterial};
use rrte_engine::renderer::primitives::{Cube, Plane, SceneObject, Sphere};
use rrte_engine::runtime::{Scene, SceneComponent, SceneConfig};

fn s(x: f32) -> Scalar {
    Scalar::from_bits(x.to_bits())
}

fn v(x: f32, y: f32, z: f32) -> Vec3 {
    Vec3::new(s(x), s(y), s(z))
}

fn sphere(x: f32) -> SceneObject {
    SceneObject::Sphere(Sphere::new(v(x, 0.0, 0.0), s(1.0)))
}

fn point_light(x: f32) -> Light {
    Light::Point(PointLight::new(v(x, 5.0, 5.0), Color::opaque_white(), s(50.0)))
}

fn center_x(o: &SceneObject) -> f32 {
    match o {
        SceneObject::Sphere(sp) => f32::from_bits(sp.center.x.to_bits()),
        _ => f32::NAN,
    }
}

#[test]
fn a_new_scene_is_empty_and_dirty() {
    let scene = Scene::new();
    assert_eq!((scene.object_count(), scene.light_count(), scene.material_count()), (0, 0, 0));
    assert_eq!(scene.entity_count(), 0);
    assert!(scene.is_dirty());
    assert_eq!(scene.config().name, "Default Scene");
    assert_eq!(f32::from_bits(scene.config().gravity.y.to_bits()), -9.81);
    assert_eq!(f32::from_bits(scene.config().ambient_light.r.to_bits()), 0.1);
    assert_eq!(f32::from_bits(scene.config().fog_density.to_bits()), 0.0);
}

#[test]
fn objects_come_and_go_by_index() {
    let mut scene = Scene::default();
    scene.mark_clean();
    scene.add_object(sphere(0.0));
    assert!(scene.is_dirty());
    scene.add_object(sphere(1.0));
    scene.add_object(sphere(2.0));
    scene.mark_clean();
    assert!(scene.remove_object(5).is_none());
    assert!(!scene.is_dirty());
    let removed = scene.remove_object(1).unwrap();
    assert_eq!(center_x(&removed), 1.0);
    assert!(scene.is_dirty());
    let left: Vec<f32> = scene.get_objects().iter().map(center_x).collect();
    assert_eq!(left, vec![0.0, 2.0]);
    assert_eq!(scene.object_count(), 2);
}

#[test]
fn lights_and_materials() {
    let mut scene = Scene::new();
    scene.add_light(point_light(0.0));
    scene.add_light(Light::Ambient(AmbientLight::default_ambient()));
    scene.add_light(point_light(1.0));
    let m = SharedMaterial::new(1, Material::Lambertian(LambertianMaterial::new(Color::red())));
    scene.add_material(m);
    assert_eq!((scene.light_count(), scene.material_count()), (3, 1));
    assert_eq!(scene.get_materials(), &vec![m]);
    assert_eq!(scene.point_lights().len(), 2);
    scene.mark_clean();
    assert!(scene.remove_light(3).is_none());
    assert!(!scene.is_dirty());
    assert!(matches!(scene.remove_light(1), Some(Light::Ambient(_))));
    assert!(scene.is_dirty());
    assert_eq!(scene.get_lights().len(), 2);
    scene.clear_lights();
    scene.clear_materials();
    assert_eq!((scene.light_count(), scene.material_count()), (0, 0));
}

#[test]
fn the_device_draws_the_spheres_of_the_scene() {
    let mut scene = Scene::new();
    scene.add_object(sphere(0.0));
    scene.add_object(SceneObject::Cube(Cube::unit()));
    scene.add_object(sphere(1.0));
    scene.add_object(SceneObject::Plane(Plane::new(v(0.0, 0.0, 0.0), v(0.0, 1.0, 0.0))));
    let xs: Vec<f32> =
        scene.spheres().iter().map(|sp| f32::from_bits(sp.center.x.to_bits())).collect();
    assert_eq!(xs, vec![0.0, 1.0]);
    scene.get_objects_mut().pop();
    scene.get_objects_mut().remove(0);
    assert!(scene.is_dirty());
    assert_eq!(scene.object_count(), 2);
    assert_eq!(scene.spheres().len(), 1);
    scene.get_lights_mut().push(point_light(3.0));
    assert_eq!(scene.light_count(), 1);
    scene.clear_objects();
    assert_eq!(scene.object_count(), 0);
}

#[test]
fn entities_come_with_a_plain_component() {
    let mut scene = Scene::new();
    let a = scene.create_entity();
    let b = scene.create_entity();
    assert_eq!((a.id(), b.id()), (0, 1));
    assert_eq!(scene.entity_count(), 2);
    let plain = SceneComponent::default();
    assert!(plain.visible && plain.layer == 0);
    assert_eq!(plain.transform, Transform::identity());
    assert_eq!(scene.get_component(a), Some(&plain));
    assert!(scene.has_component(b));
    assert!(!scene.has_component(Entity::new(5)));
    let mut ids: Vec<u64> = scene.get_entities_with_component().iter().map(|e| e.id()).collect();
    ids.sort();
    assert_eq!(ids, vec![0, 1]);
}

#[test]
fn components_of_entities() {
    let mut scene = Scene::new();
    let a = scene.create_entity();
    let hidden = SceneComponent { transform: Transform::from_position(v(1.0, 2.0, 3.0)), visible: false, layer: 4 };
    scene.add_component(a, hidden);
    assert_eq!(scene.get_component(a), Some(&hidden));
    scene.get_component_mut(a).unwrap().layer = 9;
    assert_eq!(scene.get_component(a).unwrap().layer, 9);
    scene.mark_clean();
    assert!(!scene.remove_component(Entity::new(7)));
    assert!(!scene.is_dirty());
    assert!(scene.remove_component(a));
    assert!(scene.is_dirty());
    assert!(!scene.has_component(a));
    assert_eq!(scene.entity_count(), 1);
    scene.remove_entity(a);
    assert_eq!(scene.entity_count(), 0);
    assert_eq!(scene.entity_manager().get_entities().len(), 0);
}

#[test]
fn clearing_and_settings() {
    let mut scene = Scene::with_config(SceneConfig { name: "Mine".to_string(), ..SceneConfig::default() });
    scene.add_object(sphere(0.0));
    scene.add_light(point_light(0.0));
    scene.create_entity();
    scene.update(s(0.016));
    assert!(!scene.is_dirty());
    scene.clear();
    assert!(scene.is_dirty());
    assert_eq!((scene.object_count(), scene.light_count(), scene.entity_count()), (0, 0, 0));
    assert_eq!(scene.config().name, "Mine");
    assert_eq!(scene.create_entity().id(), 0);
    scene.mark_clean();
    scene.config_mut().name = "Other".to_string();
    assert!(scene.is_dirty());
    assert_eq!(scene.config().name, "Other");
    scene.mark_clean();
    scene.set_config(SceneConfig::default());
    assert!(scene.is_dirty());
    scene.mark_clean();
    scene.mark_dirty();
    assert!(scene.is_dirty());
}
