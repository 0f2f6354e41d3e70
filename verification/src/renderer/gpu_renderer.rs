//! The renderer that runs on the device: what it uploads each frame, how
//! many workgroups it dispatches, and what a resize rebuilds.
//!
//! Talking to the device is the caller's. This module says, exactly, what
//! is to be said to it.

use vstd::prelude::*;
use std::collections::HashMap;
use crate::renderer::gpu_layout::{
    encode, le_bytes, stream, CameraGpu, GpuRecord, MaterialGpu, PointLightGpu, SphereGpu,
};
use crate::renderer::light::PointLight;
use crate::renderer::material::SharedMaterial;
use crate::renderer::primitives::Sphere;

verus! {

/// The side of a workgroup of the compute shader, in pixels.
pub const WORKGROUP_SIZE: u32 = 8;

/// Pixel formats of a surface.
#[derive(Clone, Copy, Debug, PartialEq, Eq, Structural)]
pub enum TextureFormat {
    Rgba8Unorm,
    Rgba8UnormSrgb,
    Bgra8Unorm,
    Bgra8UnormSrgb,
    /// Any other format, by a number that the caller assigns.
    Other(u32),
}

/// How finished frames reach the screen.
#[derive(Clone, Copy, Debug, PartialEq, Eq, Structural)]
pub enum PresentMode {
    AutoVsync,
    AutoNoVsync,
    Fifo,
    FifoRelaxed,
    Immediate,
    Mailbox,
}

/// Configuration of the device renderer.
#[derive(Clone, Copy, Debug, PartialEq, Eq, Structural)]
pub struct GpuRendererConfig {
    pub width: u32,
    pub height: u32,
    pub format: TextureFormat,
    pub present_mode: PresentMode,
    pub samples: u32,
}

impl Default for GpuRendererConfig {
    /// 800 by 600, sRGB RGBA, first in first out, one sample.
    fn default() -> (c: GpuRendererConfig)
        ensures
            c == (GpuRendererConfig {
                width: 800,
                height: 600,
                format: TextureFormat::Rgba8UnormSrgb,
                present_mode: PresentMode::Fifo,
                samples: 1,
            }),
    {
        GpuRendererConfig {
            width: 800,
            height: 600,
            format: TextureFormat::Rgba8UnormSrgb,
            present_mode: PresentMode::Fifo,
            samples: 1,
        }
    }
}

/// What a binding of the compute pass holds.
#[derive(Clone, Copy, Debug, PartialEq, Eq, Structural)]
pub enum BindingKind {
    Uniform,
    ReadOnlyStorage,
    StorageTexture,
}

/// One binding of the compute pass: its number, what it holds, and the
/// least size in bytes of the buffer bound there (0 for the texture).
#[derive(Clone, Copy, Debug, PartialEq, Eq, Structural)]
pub struct BindingSlot {
    pub binding: u32,
    pub kind: BindingKind,
    pub min_size: u64,
}

/// The bindings of the compute pass: the camera, the spheres, the
/// materials, the lights, and the texture that the shader writes. Each
/// buffer holds at least one record.
pub open spec fn compute_layout() -> Seq<BindingSlot> {
    seq![
        BindingSlot { binding: 0, kind: BindingKind::Uniform, min_size: 208 },
        BindingSlot { binding: 1, kind: BindingKind::ReadOnlyStorage, min_size: 32 },
        BindingSlot { binding: 2, kind: BindingKind::ReadOnlyStorage, min_size: 32 },
        BindingSlot { binding: 3, kind: BindingKind::ReadOnlyStorage, min_size: 48 },
        BindingSlot { binding: 4, kind: BindingKind::StorageTexture, min_size: 0 },
    ]
}

/// The least number of workgroups of side 8 that cover `extent` pixels.
pub open spec fn groups_for(extent: u32) -> int {
    (extent + 7) / 8
}

/// Whether `slots` holds a material with this handle.
pub open spec fn has_handle(slots: Seq<SharedMaterial>, handle: u64) -> bool {
    exists|k: int| 0 <= k < slots.len() && (#[trigger] slots[k]).handle == handle
}

/// The materials that the spheres use, each handle once, in the order in
/// which the spheres first name them.
pub open spec fn material_slots(spheres: Seq<Sphere>) -> Seq<SharedMaterial>
    decreases spheres.len(),
{
    if spheres.len() == 0 {
        Seq::empty()
    } else {
        let before = material_slots(spheres.drop_last());
        match spheres.last().material {
            Some(m) => if has_handle(before, m.handle) {
                before
            } else {
                before.push(m)
            },
            None => before,
        }
    }
}

/// The record of a material: its colour, and its roughness as smoothness.
pub open spec fn material_record(m: SharedMaterial) -> MaterialGpu {
    MaterialGpu::of(m.material.base_color(), m.material.surface_roughness())
}

/// The material buffer for these slots: the record for a missing material
/// at index 0, then one record for each slot.
pub open spec fn material_table(slots: Seq<SharedMaterial>) -> Seq<MaterialGpu> {
    seq![MaterialGpu::missing()] + slots.map_values(|m: SharedMaterial| material_record(m))
}

/// Whether `index` is where the material of `sphere` stands in the
/// material buffer: 0 for a sphere without a material, else one more than
/// the place of its handle in `slots`.
pub open spec fn indexes(slots: Seq<SharedMaterial>, sphere: Sphere, index: u32) -> bool {
    match sphere.material {
        None => index == 0,
        Some(m) => 1 <= index <= slots.len() && slots[index - 1].handle == m.handle,
    }
}

/// Whether `records` are the sphere buffer for `spheres`: one record for
/// each sphere, in order, with the index of its material; a single inert
/// sphere where there is none.
pub open spec fn sphere_table(spheres: Seq<Sphere>, records: Seq<SphereGpu>) -> bool {
    if spheres.len() == 0 {
        records == seq![SphereGpu::inert()]
    } else {
        &&& records.len() == spheres.len()
        &&& forall|i: int|
            0 <= i < spheres.len() ==> {
                &&& (#[trigger] records[i]) == SphereGpu::of(
                    spheres[i].center,
                    spheres[i].radius,
                    records[i].material_index,
                )
                &&& indexes(material_slots(spheres), spheres[i], records[i].material_index)
            }
    }
}

/// The light buffer for `lights`: one record for each, in order; a single
/// inert light where there is none.
pub open spec fn light_table(lights: Seq<PointLight>) -> Seq<PointLightGpu> {
    if lights.len() == 0 {
        seq![PointLightGpu::inert()]
    } else {
        lights.map_values(
            |l: PointLight| PointLightGpu::of(l.position, l.color, l.intensity, l.range),
        )
    }
}

/// No handle stands twice among the slots.
pub open spec fn distinct_handles(slots: Seq<SharedMaterial>) -> bool {
    forall|a: int, b: int|
        0 <= a < slots.len() && 0 <= b < slots.len() && (#[trigger] slots[a]).handle == (
        #[trigger] slots[b]).handle ==> a == b
}

/// The slots of a longer list of spheres start with the slots of the
/// shorter one.
pub proof fn lemma_slots_grow(spheres: Seq<Sphere>, n: int)
    requires
        0 <= n <= spheres.len(),
    ensures
        material_slots(spheres.take(n)).len() <= material_slots(spheres).len(),
        forall|k: int|
            0 <= k < material_slots(spheres.take(n)).len() ==> material_slots(spheres)[k]
                == #[trigger] material_slots(spheres.take(n))[k],
    decreases spheres.len(),
{
    if n == spheres.len() {
        assert(spheres.take(n) =~= spheres);
    } else {
        assert(spheres.drop_last().take(n) =~= spheres.take(n));
        lemma_slots_grow(spheres.drop_last(), n);
    }
}

/// Every handle stands once among the slots, every material that a sphere
/// names stands there, and the slots are no more than the spheres.
pub proof fn lemma_slots_are_distinct(spheres: Seq<Sphere>)
    ensures
        distinct_handles(material_slots(spheres)),
        material_slots(spheres).len() <= spheres.len(),
        forall|i: int|
            0 <= i < spheres.len() && (#[trigger] spheres[i]).material.is_some() ==> has_handle(
                material_slots(spheres),
                spheres[i].material.unwrap().handle,
            ),
    decreases spheres.len(),
{
    if spheres.len() > 0 {
        let shorter = spheres.drop_last();
        let before = material_slots(shorter);
        let all = material_slots(spheres);
        lemma_slots_are_distinct(shorter);
        assert forall|i: int| 0 <= i < spheres.len() && (#[trigger] spheres[i]).material.is_some()
            implies has_handle(all, spheres[i].material.unwrap().handle) by {
            let h = spheres[i].material.unwrap().handle;
            if i < shorter.len() {
                assert(shorter[i] == spheres[i]);
                let k = choose|k: int| 0 <= k < before.len() && (#[trigger] before[k]).handle == h;
                assert(all[k].handle == h);
            } else {
                if has_handle(before, h) {
                } else {
                    assert(all[before.len() as int].handle == h);
                }
            }
        }
    }
}

/// Two spheres that hold the same material are given the same index, and
/// two that hold different materials are given different ones.
pub proof fn lemma_same_material_same_index(
    spheres: Seq<Sphere>,
    records: Seq<SphereGpu>,
    i: int,
    j: int,
)
    requires
        sphere_table(spheres, records),
        0 <= i < spheres.len(),
        0 <= j < spheres.len(),
        spheres[i].material.is_some(),
        spheres[j].material.is_some(),
    ensures
        (spheres[i].material.unwrap().handle == spheres[j].material.unwrap().handle) <==> (
        records[i].material_index == records[j].material_index),
        records[i].material_index != 0,
{
    lemma_slots_are_distinct(spheres);
    let slots = material_slots(spheres);
    let a = records[i].material_index - 1;
    let b = records[j].material_index - 1;
    assert(slots[a].handle == spheres[i].material.unwrap().handle);
    assert(slots[b].handle == spheres[j].material.unwrap().handle);
}

/// The buffers of one frame, as records.
pub struct SceneBuffers {
    pub materials: Vec<MaterialGpu>,
    pub spheres: Vec<SphereGpu>,
    pub lights: Vec<PointLightGpu>,
}

/// What one frame uploads and dispatches.
pub struct FramePlan {
    pub camera: Vec<u8>,
    pub spheres: Vec<u8>,
    pub materials: Vec<u8>,
    pub lights: Vec<u8>,
    pub workgroups_x: u32,
    pub workgroups_y: u32,
}

/// What a resize asks of the caller.
#[derive(Clone, Copy, Debug, PartialEq, Eq, Structural)]
pub enum ResizeAction {
    /// A size of zero was asked for: nothing is to be done.
    Skip,
    /// The surface is to be configured anew, the output texture made anew
    /// at this size, and both bind groups rebuilt on its view.
    Rebuild { width: u32, height: u32 },
}

/// The sizes that the device renderer works at.
#[derive(Clone, Copy, Debug, PartialEq, Eq, Structural)]
pub struct GpuRenderer {
    pub config: GpuRendererConfig,
    pub surface_width: u32,
    pub surface_height: u32,
    pub texture_width: u32,
    pub texture_height: u32,
}

/// The least number of workgroups that cover `extent` pixels.
pub fn workgroup_count(extent: u32) -> (groups: u32)
    ensures
        groups == groups_for(extent),
        groups * 8 >= extent,
        extent > 0 ==> (groups - 1) * 8 < extent,
{
    let whole: u32 = extent / WORKGROUP_SIZE;
    if extent % WORKGROUP_SIZE == 0 {
        whole
    } else {
        whole + 1
    }
}

/// The format to configure the surface with: `preferred` where the surface
/// supports it, else the first that it supports.
pub fn choose_surface_format(preferred: TextureFormat, supported: &Vec<TextureFormat>) -> (chosen:
    TextureFormat)
    requires
        supported@.len() > 0,
    ensures
        supported@.contains(preferred) ==> chosen == preferred,
        !supported@.contains(preferred) ==> chosen == supported@[0],
{
    let mut i: usize = 0;
    while i < supported.len()
        invariant
            i <= supported@.len(),
            forall|k: int| 0 <= k < i ==> supported@[k] != preferred,
        decreases supported@.len() - i,
    {
        if supported[i] == preferred {
            return preferred;
        }
        i = i + 1;
    }
    supported[0]
}

/// The bindings of the compute pass.
pub fn compute_bindings() -> (slots: Vec<BindingSlot>)
    ensures
        slots@ == compute_layout(),
        slots@[0].min_size == 4 * CameraGpu::word_count(),
        slots@[1].min_size == 4 * SphereGpu::word_count(),
        slots@[2].min_size == 4 * MaterialGpu::word_count(),
        slots@[3].min_size == 4 * PointLightGpu::word_count(),
{
    let mut slots: Vec<BindingSlot> = Vec::new();
    slots.push(BindingSlot { binding: 0, kind: BindingKind::Uniform, min_size: 208 });
    slots.push(BindingSlot { binding: 1, kind: BindingKind::ReadOnlyStorage, min_size: 32 });
    slots.push(BindingSlot { binding: 2, kind: BindingKind::ReadOnlyStorage, min_size: 32 });
    slots.push(BindingSlot { binding: 3, kind: BindingKind::ReadOnlyStorage, min_size: 48 });
    slots.push(BindingSlot { binding: 4, kind: BindingKind::StorageTexture, min_size: 0 });
    assert(slots@ =~= compute_layout());
    slots
}

/// The material and sphere buffers for `spheres`.
///
/// Index 0 of the materials is the record for a missing material. Each
/// material that a sphere holds follows once, however many spheres hold
/// it, in the order of first use. Which materials are the same is told by
/// their handles.
pub fn marshal_spheres(spheres: &Vec<Sphere>) -> (out: (Vec<MaterialGpu>, Vec<SphereGpu>))
    requires
        spheres@.len() < u32::MAX,
    ensures
        out.0@ == material_table(material_slots(spheres@)),
        sphere_table(spheres@, out.1@),
{
    let mut known: HashMap<u64, u32> = HashMap::new();
    let mut materials: Vec<MaterialGpu> = Vec::new();
    let mut records: Vec<SphereGpu> = Vec::new();
    materials.push(MaterialGpu::fallback());
    let ghost mut slots: Seq<SharedMaterial> = Seq::empty();
    assert(spheres@.take(0) =~= Seq::<Sphere>::empty());
    assert(materials@ =~= material_table(slots));
    let mut i: usize = 0;
    while i < spheres.len()
        invariant
            i <= spheres@.len(),
            spheres@.len() < u32::MAX,
            slots == material_slots(spheres@.take(i as int)),
            slots.len() <= i,
            materials@ == material_table(slots),
            forall|h: u64| known@.contains_key(h) <==> has_handle(slots, h),
            forall|h: u64| #[trigger]
                known@.contains_key(h) ==> 1 <= known@[h] <= slots.len() && slots[known@[h]
                    - 1].handle == h,
            records@.len() == i,
            forall|j: int|
                0 <= j < i ==> {
                    &&& (#[trigger] records@[j]) == SphereGpu::of(
                        spheres@[j].center,
                        spheres@[j].radius,
                        records@[j].material_index,
                    )
                    &&& indexes(slots, spheres@[j], records@[j].material_index)
                },
        decreases spheres@.len() - i,
    {
        let sphere = spheres[i];
        let ghost grown = spheres@.take(i + 1);
        proof {
            assert(grown.drop_last() =~= spheres@.take(i as int));
            assert(grown.last() == sphere);
        }
        let index: u32 = match sphere.material {
            None => 0,
            Some(m) => {
                let found = known.get(&m.handle);
                match found {
                    Some(at) => *at,
                    None => {
                        let fresh: u32 = materials.len() as u32;
                        materials.push(MaterialGpu::new(m.material.albedo(), m.material.roughness()));
                        known.insert(m.handle, fresh);
                        proof {
                            let ghost old_slots = slots;
                            slots = slots.push(m);
                            assert(materials@ =~= material_table(slots));
                            assert forall|h: u64| known@.contains_key(h) <==> has_handle(
                                slots,
                                h,
                            ) by {
                                if has_handle(old_slots, h) {
                                    let k = choose|k: int|
                                        0 <= k < old_slots.len() && (#[trigger] old_slots[k]).handle
                                            == h;
                                    assert(slots[k].handle == h);
                                }
                                if h == m.handle {
                                    assert(slots[old_slots.len() as int].handle == h);
                                }
                                if has_handle(slots, h) && h != m.handle {
                                    let k = choose|k: int|
                                        0 <= k < slots.len() && (#[trigger] slots[k]).handle == h;
                                    assert(old_slots[k].handle == h);
                                }
                            }
                        }
                        fresh
                    },
                }
            },
        };
        records.push(SphereGpu::new(sphere.center, sphere.radius, index));
        proof {
            assert(slots == material_slots(grown));
        }
        i = i + 1;
    }
    proof {
        assert(spheres@.take(spheres@.len() as int) =~= spheres@);
    }
    if records.len() == 0 {
        records.push(SphereGpu::placeholder());
        assert(records@ =~= seq![SphereGpu::inert()]);
    }
    (materials, records)
}

/// The light buffer for `lights`.
pub fn marshal_lights(lights: &Vec<PointLight>) -> (records: Vec<PointLightGpu>)
    ensures
        records@ == light_table(lights@),
        records@.len() >= 1,
{
    let mut records: Vec<PointLightGpu> = Vec::new();
    let mut i: usize = 0;
    while i < lights.len()
        invariant
            i <= lights@.len(),
            records@.len() == i,
            forall|j: int|
                0 <= j < i ==> #[trigger] records@[j] == PointLightGpu::of(
                    lights@[j].position,
                    lights@[j].color,
                    lights@[j].intensity,
                    lights@[j].range,
                ),
        decreases lights@.len() - i,
    {
        let light = lights[i];
        records.push(PointLightGpu::new(light.position, light.color, light.intensity, light.range));
        i = i + 1;
    }
    if records.len() == 0 {
        records.push(PointLightGpu::placeholder());
    }
    assert(records@ =~= light_table(lights@));
    records
}

impl SceneBuffers {
    /// The buffers that a renderer starts with: one sphere, one material,
    /// one light.
    pub fn initial() -> (b: SceneBuffers)
        ensures
            b.materials@.len() == 1,
            b.spheres@.len() == 1,
            b.lights@.len() == 1,
            b.spheres@[0].material_index == 0,
    {
        let mut materials: Vec<MaterialGpu> = Vec::new();
        materials.push(MaterialGpu::initial());
        let mut spheres: Vec<SphereGpu> = Vec::new();
        spheres.push(SphereGpu::initial());
        let mut lights: Vec<PointLightGpu> = Vec::new();
        lights.push(PointLightGpu::initial());
        SceneBuffers { materials, spheres, lights }
    }

    /// The buffers for a scene of spheres and point lights. No buffer is
    /// empty.
    pub fn build(spheres: &Vec<Sphere>, lights: &Vec<PointLight>) -> (b: SceneBuffers)
        requires
            spheres@.len() < u32::MAX,
        ensures
            b.materials@ == material_table(material_slots(spheres@)),
            sphere_table(spheres@, b.spheres@),
            b.lights@ == light_table(lights@),
            b.materials@.len() >= 1,
            b.spheres@.len() >= 1,
            b.lights@.len() >= 1,
    {
        let (materials, records) = marshal_spheres(spheres);
        let lights = marshal_lights(lights);
        SceneBuffers { materials, spheres: records, lights }
    }
}

impl GpuRenderer {
    /// The renderer after a resize to `width` by `height`: unchanged where
    /// either is 0, else working at that size throughout.
    pub open spec fn resized(self, width: u32, height: u32) -> GpuRenderer {
        if width == 0 || height == 0 {
            self
        } else {
            GpuRenderer {
                config: GpuRendererConfig { width, height, ..self.config },
                surface_width: width,
                surface_height: height,
                texture_width: width,
                texture_height: height,
            }
        }
    }

    /// A renderer on a surface of the given size. The output texture has
    /// the size of the surface.
    pub fn new(config: &GpuRendererConfig, surface_width: u32, surface_height: u32) -> (r:
        GpuRenderer)
        ensures
            r == (GpuRenderer {
                config: *config,
                surface_width,
                surface_height,
                texture_width: surface_width,
                texture_height: surface_height,
            }),
    {
        GpuRenderer {
            config: *config,
            surface_width,
            surface_height,
            texture_width: surface_width,
            texture_height: surface_height,
        }
    }

    /// Takes up the surface that initialisation made: it has the size of
    /// the configuration and the format that [`choose_surface_format`]
    /// picks.
    pub fn initialize(&mut self, supported: &Vec<TextureFormat>) -> (format: TextureFormat)
        requires
            supported@.len() > 0,
        ensures
            supported@.contains(old(self).config.format) ==> format == old(self).config.format,
            !supported@.contains(old(self).config.format) ==> format == supported@[0],
            *final(self) == (GpuRenderer {
                surface_width: old(self).config.width,
                surface_height: old(self).config.height,
                ..*old(self)
            }),
    {
        let format = choose_surface_format(self.config.format, supported);
        self.surface_width = self.config.width;
        self.surface_height = self.config.height;
        format
    }

    /// What one frame uploads and dispatches: the camera record, the
    /// buffers for the spheres, their materials and the lights, and one
    /// workgroup of 8 by 8 for each tile of the output texture.
    pub fn render(&self, spheres: &Vec<Sphere>, lights: &Vec<PointLight>, camera: &CameraGpu) -> (plan:
        FramePlan)
        requires
            spheres@.len() < u32::MAX,
        ensures
            plan.camera@ == le_bytes(camera.words()),
            plan.camera@.len() == 208,
            plan.materials@ == le_bytes(stream(material_table(material_slots(spheres@)))),
            plan.materials@.len() == 32 * (material_slots(spheres@).len() + 1),
            exists|records: Seq<SphereGpu>|
                sphere_table(spheres@, records) && plan.spheres@ == le_bytes(stream(records)),
            spheres@.len() > 0 ==> plan.spheres@.len() == 32 * spheres@.len(),
            spheres@.len() == 0 ==> plan.spheres@.len() == 32,
            plan.lights@ == le_bytes(stream(light_table(lights@))),
            lights@.len() > 0 ==> plan.lights@.len() == 48 * lights@.len(),
            lights@.len() == 0 ==> plan.lights@.len() == 48,
            plan.workgroups_x == groups_for(self.texture_width),
            plan.workgroups_y == groups_for(self.texture_height),
    {
        let buffers = SceneBuffers::build(spheres, lights);
        let mut cameras: Vec<CameraGpu> = Vec::new();
        cameras.push(*camera);
        proof {
            assert(cameras@ =~= seq![*camera]);
            assert(cameras@.drop_last() =~= Seq::<CameraGpu>::empty());
            assert(stream(cameras@) =~= camera.words()) by {
                reveal_with_fuel(stream, 2);
            }
        }
        FramePlan {
            camera: encode(&cameras),
            spheres: encode(&buffers.spheres),
            materials: encode(&buffers.materials),
            lights: encode(&buffers.lights),
            workgroups_x: workgroup_count(self.texture_width),
            workgroups_y: workgroup_count(self.texture_height),
        }
    }

    /// Takes up a new size. A size with a zero in it is passed over and
    /// nothing changes; any other becomes the size of the configuration,
    /// of the surface and of the output texture, and the caller is told to
    /// rebuild what depends on it.
    pub fn resize(&mut self, width: u32, height: u32) -> (action: ResizeAction)
        ensures
            *final(self) == old(self).resized(width, height),
            action == (if width == 0 || height == 0 {
                ResizeAction::Skip
            } else {
                ResizeAction::Rebuild { width, height }
            }),
    {
        if width == 0 || height == 0 {
            return ResizeAction::Skip;
        }
        self.config.width = width;
        self.config.height = height;
        self.surface_width = width;
        self.surface_height = height;
        self.texture_width = width;
        self.texture_height = height;
        ResizeAction::Rebuild { width, height }
    }

    pub fn config(&self) -> (c: &GpuRendererConfig)
        ensures
            *c == self.config,
    {
        &self.config
    }

    /// A renderer that exists is initialised.
    pub fn is_initialized(&self) -> (r: bool)
        ensures
            r,
    {
        true
    }

    /// The size of the surface, or `None` where its height is 0 and it has
    /// no aspect ratio of its own.
    pub fn aspect(&self) -> (size: Option<(u32, u32)>)
        ensures
            size == (if self.surface_height == 0 {
                None
            } else {
                Some((self.surface_width, self.surface_height))
            }),
    {
        if self.surface_height == 0 {
            None
        } else {
            Some((self.surface_width, self.surface_height))
        }
    }
}

/// Resizing twice to the same size leaves the renderer as resizing once
/// does, and resizing a renderer to the size that it works at changes
/// nothing.
pub proof fn lemma_resize_is_idempotent(r: GpuRenderer, width: u32, height: u32)
    ensures
        r.resized(width, height).resized(width, height) == r.resized(width, height),
        r.config.width == width && r.config.height == height && r.surface_width == width
            && r.surface_height == height && r.texture_width == width && r.texture_height
            == height ==> r.resized(width, height) == r,
{
}

/// The workgroups cover the texture and no row or column of them is idle:
/// `groups_for` is the ceiling of `extent / 8`.
pub proof fn lemma_groups_cover(extent: u32)
    ensures
        groups_for(extent) * 8 >= extent,
        groups_for(extent) * 8 < extent + 8,
        extent == 0 ==> groups_for(extent) == 0,
{
}

} // verus!
