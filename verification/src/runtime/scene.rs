//! The scene: objects, materials and lights, and the entities around them.

use vstd::prelude::*;
use crate::ecs::entity::Entity;
use crate::ecs::world::{without, World};
use crate::math::color::Color;
use crate::math::scalar::Scalar;
use crate::math::transform::Transform;
use crate::math::vector::Vec3;
use crate::renderer::light::{Light, PointLight};
use crate::renderer::material::SharedMaterial;
use crate::renderer::primitives::{SceneObject, Sphere};

verus! {

/// The kind under which the scene keeps the components of its entities.
pub const SCENE_COMPONENT: u64 = 0;

/// Settings of a scene.
pub struct SceneConfig {
    pub name: String,
    pub ambient_light: Color,
    pub fog_color: Color,
    pub fog_density: Scalar,
    pub gravity: Vec3,
}

impl Default for SceneConfig {
    /// "Default Scene": dim grey ambient light `(0.1, 0.1, 0.1)`, grey fog
    /// of density 0, gravity `(0, -9.81, 0)`.
    fn default() -> (c: SceneConfig)
        ensures
            c.name@ == "Default Scene"@,
            c.ambient_light == Color::of_bits(0x3dcc_cccd, 0x3dcc_cccd, 0x3dcc_cccd, 0x3f80_0000),
            c.fog_color == Color::of_bits(0x3f00_0000, 0x3f00_0000, 0x3f00_0000, 0x3f80_0000),
            c.fog_density.bits == 0,
            c.gravity == (Vec3 {
                x: Scalar { bits: 0 },
                y: Scalar { bits: 0xc11c_f5c3 },
                z: Scalar { bits: 0 },
            }),
    {
        SceneConfig {
            name: "Default Scene".to_owned(),
            ambient_light: Color::from_bits(0x3dcc_cccd, 0x3dcc_cccd, 0x3dcc_cccd, 0x3f80_0000),
            fog_color: Color::from_bits(0x3f00_0000, 0x3f00_0000, 0x3f00_0000, 0x3f80_0000),
            fog_density: Scalar::zero(),
            gravity: Vec3::new(Scalar::zero(), Scalar::from_bits(0xc11c_f5c3), Scalar::zero()),
        }
    }
}

/// What every entity of a scene has: a place, and whether and on which
/// layer it is seen.
#[derive(Clone, Copy, Debug, PartialEq, Eq, Structural)]
pub struct SceneComponent {
    pub transform: Transform,
    pub visible: bool,
    pub layer: u32,
}

impl SceneComponent {
    /// At the origin, visible, on layer 0.
    pub open spec fn plain() -> SceneComponent {
        SceneComponent { transform: Transform::neutral(), visible: true, layer: 0 }
    }
}

impl Default for SceneComponent {
    fn default() -> (c: SceneComponent)
        ensures
            c == SceneComponent::plain(),
    {
        SceneComponent { transform: Transform::identity(), visible: true, layer: 0 }
    }
}

/// The spheres among `objects`, in order.
pub open spec fn spheres_of(objects: Seq<SceneObject>) -> Seq<Sphere>
    decreases objects.len(),
{
    if objects.len() == 0 {
        Seq::empty()
    } else {
        let before = spheres_of(objects.drop_last());
        match objects.last() {
            SceneObject::Sphere(s) => before.push(s),
            _ => before,
        }
    }
}

/// The point lights among `lights`, in order.
pub open spec fn point_lights_of(lights: Seq<Light>) -> Seq<PointLight>
    decreases lights.len(),
{
    if lights.len() == 0 {
        Seq::empty()
    } else {
        let before = point_lights_of(lights.drop_last());
        match lights.last() {
            Light::Point(l) => before.push(l),
            _ => before,
        }
    }
}

/// There are no more spheres than objects.
pub proof fn lemma_spheres_are_objects(objects: Seq<SceneObject>)
    ensures
        spheres_of(objects).len() <= objects.len(),
    decreases objects.len(),
{
    if objects.len() > 0 {
        lemma_spheres_are_objects(objects.drop_last());
    }
}

/// A scene.
pub struct Scene {
    config: SceneConfig,
    world: World<SceneComponent>,
    objects: Vec<SceneObject>,
    materials: Vec<SharedMaterial>,
    lights: Vec<Light>,
    dirty: bool,
}

impl Scene {
    pub closed spec fn objects(&self) -> Seq<SceneObject> {
        self.objects@
    }

    pub closed spec fn materials(&self) -> Seq<SharedMaterial> {
        self.materials@
    }

    pub closed spec fn lights(&self) -> Seq<Light> {
        self.lights@
    }

    pub closed spec fn settings(&self) -> SceneConfig {
        self.config
    }

    /// Whether the scene has changed since it was last marked clean.
    pub closed spec fn dirty(&self) -> bool {
        self.dirty
    }

    /// The entities of the scene, in the order of their creation.
    pub closed spec fn entities(&self) -> Seq<Entity> {
        self.world.entities()
    }

    /// The components of the scene's entities, by entity.
    pub closed spec fn components(&self) -> Map<u64, SceneComponent> {
        self.world.of_kind(SCENE_COMPONENT)
    }

    /// The number that the next entity gets.
    pub closed spec fn next_entity(&self) -> u64 {
        self.world.next_id()
    }

    pub closed spec fn wf(&self) -> bool {
        self.world.wf()
    }

    /// What of the scene is drawn: objects, materials and lights.
    pub open spec fn same_contents(&self, other: &Scene) -> bool {
        &&& self.objects() == other.objects()
        &&& self.materials() == other.materials()
        &&& self.lights() == other.lights()
    }

    /// The entities and their components.
    pub open spec fn same_entities(&self, other: &Scene) -> bool {
        &&& self.entities() == other.entities()
        &&& self.components() == other.components()
        &&& self.next_entity() == other.next_entity()
    }

    /// An empty scene with default settings. A new scene is dirty.
    pub fn new() -> (s: Scene)
        ensures
            s.wf(),
            s.objects().len() == 0,
            s.materials().len() == 0,
            s.lights().len() == 0,
            s.entities().len() == 0,
            s.components() == Map::<u64, SceneComponent>::empty(),
            s.next_entity() == 0,
            s.settings().name@ == "Default Scene"@,
            s.dirty(),
    {
        Scene::with_config(SceneConfig::default())
    }

    /// An empty scene with the given settings.
    pub fn with_config(config: SceneConfig) -> (s: Scene)
        ensures
            s.wf(),
            s.settings() == config,
            s.objects().len() == 0,
            s.materials().len() == 0,
            s.lights().len() == 0,
            s.entities().len() == 0,
            s.components() == Map::<u64, SceneComponent>::empty(),
            s.next_entity() == 0,
            s.dirty(),
    {
        Scene {
            config,
            world: World::new(),
            objects: Vec::new(),
            materials: Vec::new(),
            lights: Vec::new(),
            dirty: true,
        }
    }

    /// One frame of the scene: it is clean afterwards.
    pub fn update(&mut self, delta_time: Scalar)
        ensures
            !final(self).dirty(),
            final(self).same_contents(old(self)),
            final(self).same_entities(old(self)),
            final(self).settings() == old(self).settings(),
            final(self).wf() == old(self).wf(),
    {
        self.dirty = false;
    }

    pub fn add_object(&mut self, object: SceneObject)
        ensures
            final(self).objects() == old(self).objects().push(object),
            final(self).materials() == old(self).materials(),
            final(self).lights() == old(self).lights(),
            final(self).same_entities(old(self)),
            final(self).settings() == old(self).settings(),
            final(self).wf() == old(self).wf(),
            final(self).dirty(),
    {
        self.objects.push(object);
        self.dirty = true;
    }

    /// Takes the object at `index` out of the scene. Where there is none,
    /// nothing changes, not even whether the scene is dirty.
    pub fn remove_object(&mut self, index: usize) -> (removed: Option<SceneObject>)
        ensures
            final(self).settings() == old(self).settings(),
            final(self).materials() == old(self).materials(),
            final(self).lights() == old(self).lights(),
            final(self).same_entities(old(self)),
            final(self).wf() == old(self).wf(),
            index < old(self).objects().len() ==> {
                &&& removed == Some(old(self).objects()[index as int])
                &&& final(self).objects() == old(self).objects().remove(index as int)
                &&& final(self).dirty()
            },
            index >= old(self).objects().len() ==> {
                &&& removed.is_none()
                &&& final(self).objects() == old(self).objects()
                &&& final(self).dirty() == old(self).dirty()
            },
    {
        if index < self.objects.len() {
            self.dirty = true;
            Some(self.objects.remove(index))
        } else {
            None
        }
    }

    pub fn add_material(&mut self, material: SharedMaterial)
        ensures
            final(self).settings() == old(self).settings(),
            final(self).materials() == old(self).materials().push(material),
            final(self).objects() == old(self).objects(),
            final(self).lights() == old(self).lights(),
            final(self).same_entities(old(self)),
            final(self).wf() == old(self).wf(),
            final(self).dirty(),
    {
        self.materials.push(material);
        self.dirty = true;
    }

    pub fn add_light(&mut self, light: Light)
        ensures
            final(self).settings() == old(self).settings(),
            final(self).lights() == old(self).lights().push(light),
            final(self).objects() == old(self).objects(),
            final(self).materials() == old(self).materials(),
            final(self).same_entities(old(self)),
            final(self).wf() == old(self).wf(),
            final(self).dirty(),
    {
        self.lights.push(light);
        self.dirty = true;
    }

    /// Takes the light at `index` out of the scene. Where there is none,
    /// nothing changes.
    pub fn remove_light(&mut self, index: usize) -> (removed: Option<Light>)
        ensures
            final(self).settings() == old(self).settings(),
            final(self).objects() == old(self).objects(),
            final(self).materials() == old(self).materials(),
            final(self).same_entities(old(self)),
            final(self).wf() == old(self).wf(),
            index < old(self).lights().len() ==> {
                &&& removed == Some(old(self).lights()[index as int])
                &&& final(self).lights() == old(self).lights().remove(index as int)
                &&& final(self).dirty()
            },
            index >= old(self).lights().len() ==> {
                &&& removed.is_none()
                &&& final(self).lights() == old(self).lights()
                &&& final(self).dirty() == old(self).dirty()
            },
    {
        if index < self.lights.len() {
            self.dirty = true;
            Some(self.lights.remove(index))
        } else {
            None
        }
    }

    pub fn get_objects(&self) -> (all: &Vec<SceneObject>)
        ensures
            all@ == self.objects(),
    {
        &self.objects
    }

    pub fn get_materials(&self) -> (all: &Vec<SharedMaterial>)
        ensures
            all@ == self.materials(),
    {
        &self.materials
    }

    pub fn get_lights(&self) -> (all: &Vec<Light>)
        ensures
            all@ == self.lights(),
    {
        &self.lights
    }

    /// The objects, to be changed in place. The scene is dirty from now
    /// on.
    pub fn get_objects_mut(&mut self) -> (all: &mut Vec<SceneObject>)
        ensures
            final(self).settings() == old(self).settings(),
            all@ == old(self).objects(),
            final(self).objects() == final(all)@,
            final(self).materials() == old(self).materials(),
            final(self).lights() == old(self).lights(),
            final(self).same_entities(old(self)),
            final(self).wf() == old(self).wf(),
            final(self).dirty(),
    {
        self.dirty = true;
        &mut self.objects
    }

    /// The lights, to be changed in place. The scene is dirty from now on.
    pub fn get_lights_mut(&mut self) -> (all: &mut Vec<Light>)
        ensures
            final(self).settings() == old(self).settings(),
            all@ == old(self).lights(),
            final(self).lights() == final(all)@,
            final(self).objects() == old(self).objects(),
            final(self).materials() == old(self).materials(),
            final(self).same_entities(old(self)),
            final(self).wf() == old(self).wf(),
            final(self).dirty(),
    {
        self.dirty = true;
        &mut self.lights
    }

    pub fn clear_objects(&mut self)
        ensures
            final(self).settings() == old(self).settings(),
            final(self).objects().len() == 0,
            final(self).materials() == old(self).materials(),
            final(self).lights() == old(self).lights(),
            final(self).same_entities(old(self)),
            final(self).wf() == old(self).wf(),
            final(self).dirty(),
    {
        self.objects.clear();
        self.dirty = true;
    }

    pub fn clear_lights(&mut self)
        ensures
            final(self).settings() == old(self).settings(),
            final(self).lights().len() == 0,
            final(self).objects() == old(self).objects(),
            final(self).materials() == old(self).materials(),
            final(self).same_entities(old(self)),
            final(self).wf() == old(self).wf(),
            final(self).dirty(),
    {
        self.lights.clear();
        self.dirty = true;
    }

    pub fn clear_materials(&mut self)
        ensures
            final(self).settings() == old(self).settings(),
            final(self).materials().len() == 0,
            final(self).objects() == old(self).objects(),
            final(self).lights() == old(self).lights(),
            final(self).same_entities(old(self)),
            final(self).wf() == old(self).wf(),
            final(self).dirty(),
    {
        self.materials.clear();
        self.dirty = true;
    }

    /// Empties the scene: no objects, lights or materials, and a new world
    /// without entities. The settings stay.
    pub fn clear(&mut self)
        ensures
            final(self).wf(),
            final(self).objects().len() == 0,
            final(self).materials().len() == 0,
            final(self).lights().len() == 0,
            final(self).entities().len() == 0,
            final(self).components() == Map::<u64, SceneComponent>::empty(),
            final(self).next_entity() == 0,
            final(self).settings() == old(self).settings(),
            final(self).dirty(),
    {
        self.clear_objects();
        self.clear_lights();
        self.clear_materials();
        self.world = World::new();
        self.dirty = true;
    }

    /// A new entity with the default component.
    pub fn create_entity(&mut self) -> (e: Entity)
        requires
            old(self).wf(),
            old(self).next_entity() < u64::MAX,
        ensures
            final(self).settings() == old(self).settings(),
            final(self).wf(),
            e == Entity(old(self).next_entity()),
            final(self).entities() == old(self).entities().push(e),
            final(self).components() == old(self).components().insert(e.0, SceneComponent::plain()),
            final(self).next_entity() == old(self).next_entity() + 1,
            final(self).same_contents(old(self)),
            final(self).dirty(),
    {
        let entity = self.world.create_entity();
        self.world.add_component(SCENE_COMPONENT, entity, SceneComponent::default());
        self.dirty = true;
        entity
    }

    /// Takes `entity` off the scene's list. Its component stays.
    pub fn remove_entity(&mut self, entity: Entity)
        requires
            old(self).wf(),
        ensures
            final(self).settings() == old(self).settings(),
            final(self).wf(),
            final(self).entities() == without(old(self).entities(), entity),
            final(self).components() == old(self).components(),
            final(self).next_entity() == old(self).next_entity(),
            final(self).same_contents(old(self)),
            final(self).dirty(),
    {
        self.world.destroy_entity(entity);
        self.dirty = true;
    }

    /// Gives `entity` the component, in place of the one that it had.
    pub fn add_component(&mut self, entity: Entity, component: SceneComponent)
        requires
            old(self).wf(),
        ensures
            final(self).settings() == old(self).settings(),
            final(self).wf(),
            final(self).entities() == old(self).entities(),
            final(self).components() == old(self).components().insert(entity.0, component),
            final(self).next_entity() == old(self).next_entity(),
            final(self).same_contents(old(self)),
            final(self).dirty(),
    {
        self.world.add_component(SCENE_COMPONENT, entity, component);
        self.dirty = true;
    }

    pub fn get_component(&self, entity: Entity) -> (found: Option<&SceneComponent>)
        requires
            self.wf(),
        ensures
            found == (if self.components().contains_key(entity.0) {
                Some(&self.components()[entity.0])
            } else {
                None
            }),
    {
        self.world.get_component(SCENE_COMPONENT, entity)
    }

    /// The component of `entity`, to be changed in place. The scene is
    /// dirty from now on.
    pub fn get_component_mut(&mut self, entity: Entity) -> (found: Option<&mut SceneComponent>)
        requires
            old(self).wf(),
        ensures
            final(self).settings() == old(self).settings(),
            final(self).wf(),
            final(self).entities() == old(self).entities(),
            final(self).next_entity() == old(self).next_entity(),
            final(self).same_contents(old(self)),
            final(self).dirty(),
            match found {
                Some(component) => {
                    &&& old(self).components().contains_key(entity.0)
                    &&& *component == old(self).components()[entity.0]
                    &&& final(self).components() == old(self).components().insert(
                        entity.0,
                        *final(component),
                    )
                },
                None => {
                    &&& !old(self).components().contains_key(entity.0)
                    &&& final(self).components() == old(self).components()
                },
            },
    {
        self.dirty = true;
        self.world.get_component_mut(SCENE_COMPONENT, entity)
    }

    pub fn has_component(&self, entity: Entity) -> (r: bool)
        requires
            self.wf(),
        ensures
            r == self.components().contains_key(entity.0),
    {
        self.world.get_component(SCENE_COMPONENT, entity).is_some()
    }

    /// Takes the component off `entity`. Tells whether it had one; the
    /// scene is dirty if it had.
    pub fn remove_component(&mut self, entity: Entity) -> (removed: bool)
        requires
            old(self).wf(),
        ensures
            final(self).settings() == old(self).settings(),
            final(self).wf(),
            removed == old(self).components().contains_key(entity.0),
            final(self).entities() == old(self).entities(),
            final(self).components() == old(self).components().remove(entity.0),
            final(self).next_entity() == old(self).next_entity(),
            final(self).same_contents(old(self)),
            final(self).dirty() == (removed || old(self).dirty()),
    {
        let removed = self.world.remove_component(SCENE_COMPONENT, entity);
        if removed {
            self.dirty = true;
        }
        removed
    }

    /// The entities that have a component, each once, in no particular
    /// order.
    pub fn get_entities_with_component(&self) -> (all: Vec<Entity>)
        requires
            self.wf(),
        ensures
            all@.no_duplicates(),
            forall|id: u64| self.components().contains_key(id) <==> all@.contains(Entity(id)),
    {
        self.world.get_entities_with_component(SCENE_COMPONENT)
    }

    pub fn config(&self) -> (c: &SceneConfig)
        ensures
            *c == self.settings(),
    {
        &self.config
    }

    /// The settings, to be changed in place. The scene is dirty from now
    /// on.
    pub fn config_mut(&mut self) -> (c: &mut SceneConfig)
        ensures
            *c == old(self).settings(),
            final(self).settings() == *final(c),
            final(self).same_contents(old(self)),
            final(self).same_entities(old(self)),
            final(self).wf() == old(self).wf(),
            final(self).dirty(),
    {
        self.dirty = true;
        &mut self.config
    }

    pub fn set_config(&mut self, config: SceneConfig)
        ensures
            final(self).settings() == config,
            final(self).same_contents(old(self)),
            final(self).same_entities(old(self)),
            final(self).wf() == old(self).wf(),
            final(self).dirty(),
    {
        self.config = config;
        self.dirty = true;
    }

    pub fn is_dirty(&self) -> (r: bool)
        ensures
            r == self.dirty(),
    {
        self.dirty
    }

    pub fn mark_clean(&mut self)
        ensures
            !final(self).dirty(),
            final(self).same_contents(old(self)),
            final(self).same_entities(old(self)),
            final(self).settings() == old(self).settings(),
            final(self).wf() == old(self).wf(),
    {
        self.dirty = false;
    }

    pub fn mark_dirty(&mut self)
        ensures
            final(self).dirty(),
            final(self).same_contents(old(self)),
            final(self).same_entities(old(self)),
            final(self).settings() == old(self).settings(),
            final(self).wf() == old(self).wf(),
    {
        self.dirty = true;
    }

    pub fn object_count(&self) -> (n: usize)
        ensures
            n == self.objects().len(),
    {
        self.objects.len()
    }

    pub fn light_count(&self) -> (n: usize)
        ensures
            n == self.lights().len(),
    {
        self.lights.len()
    }

    pub fn material_count(&self) -> (n: usize)
        ensures
            n == self.materials().len(),
    {
        self.materials.len()
    }

    pub fn entity_count(&self) -> (n: usize)
        ensures
            n == self.entities().len(),
    {
        self.world.get_entities().len()
    }

    /// The world that keeps the scene's entities.
    pub fn entity_manager(&self) -> (w: &World<SceneComponent>)
        ensures
            w.entities() == self.entities(),
            w.of_kind(SCENE_COMPONENT) == self.components(),
            w.next_id() == self.next_entity(),
            w.wf() == self.wf(),
    {
        &self.world
    }

    /// The spheres of the scene, in order: what the device renderer draws.
    pub fn spheres(&self) -> (all: Vec<Sphere>)
        ensures
            all@ == spheres_of(self.objects()),
    {
        let mut all: Vec<Sphere> = Vec::new();
        let mut i: usize = 0;
        while i < self.objects.len()
            invariant
                i <= self.objects@.len(),
                all@ == spheres_of(self.objects@.take(i as int)),
            decreases self.objects@.len() - i,
        {
            proof {
                let grown = self.objects@.take(i + 1);
                assert(grown.drop_last() =~= self.objects@.take(i as int));
                assert(grown.last() == self.objects@[i as int]);
            }
            match self.objects[i] {
                SceneObject::Sphere(s) => {
                    all.push(s);
                },
                _ => {},
            }
            i = i + 1;
        }
        assert(self.objects@.take(self.objects@.len() as int) =~= self.objects@);
        all
    }

    /// The point lights of the scene, in order: what the device renderer
    /// lights with.
    pub fn point_lights(&self) -> (all: Vec<PointLight>)
        ensures
            all@ == point_lights_of(self.lights()),
    {
        let mut all: Vec<PointLight> = Vec::new();
        let mut i: usize = 0;
        while i < self.lights.len()
            invariant
                i <= self.lights@.len(),
                all@ == point_lights_of(self.lights@.take(i as int)),
            decreases self.lights@.len() - i,
        {
            proof {
                let grown = self.lights@.take(i + 1);
                assert(grown.drop_last() =~= self.lights@.take(i as int));
                assert(grown.last() == self.lights@[i as int]);
            }
            match self.lights[i] {
                Light::Point(l) => {
                    all.push(l);
                },
                _ => {},
            }
            i = i + 1;
        }
        assert(self.lights@.take(self.lights@.len() as int) =~= self.lights@);
        all
    }
}

impl Default for Scene {
    fn default() -> (s: Scene)
        ensures
            s.wf(),
            s.objects().len() == 0,
            s.dirty(),
    {
        Scene::new()
    }
}

} // verus!
