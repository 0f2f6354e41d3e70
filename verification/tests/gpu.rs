use rrte_engine::math::{Color, Mat4, Scalar, Vec3, Vec4};
use rrte_engine::renderer::gpu_layout::{
    encode, to_words, words_to_bytes, CameraGpu, GpuRecord, MaterialGpu, PointLightGpu, SphereGpu,
};
use rrte_engine::renderer::gpu_renderer::{
    choose_surface_format, compute_bindings, marshal_lights, marshal_spheres, workgroup_count,
    BindingKind, GpuRenderer, GpuRendererConfig, PresentMode, ResizeAction, SceneBuffers,
    TextureFormat,
};
use rrte_engine::renderer::light::PointLight;
use rrte_engine::renderer::material::{
    LambertianMaterial, Material, MetalMaterial, SharedMaterial,
};
use rrte_engine::renderer::primitives::Sphere;

fn s(x: f32) -> Scalar {
    Scalar::from_bits(x.to_bits())
}

fn v(x: f32, y: f32, z: f32) -> Vec3 {
    Vec3::new(s(x), s(y), s(z))
}

fn words_of<R: GpuRecord>(r: &R) -> Vec<u32> {
    let mut out = Vec::new();
    r.append_words(&mut out);
    out
}

fn floats(words: &[u32]) -> Vec<f32> {
    words.iter().map(|w| f32::from_bits(*w)).collect()
}

fn diffuse(handle: u64, r: f32, g: f32, b: f32) -> SharedMaterial {
    SharedMaterial::new(
        handle,
        Material::Lambertian(LambertianMaterial::new(Color::rgb(s(r), s(g), s(b)))),
    )
}

#[test]
fn records_have_the_sizes_of_the_shader() {
    assert_eq!(words_of(&CameraGpu::initial()).len() * 4, 208);
    assert_eq!(words_of(&SphereGpu::initial()).len() * 4, 32);
    assert_eq!(words_of(&MaterialGpu::initial()).len() * 4, 32);
    assert_eq!(words_of(&PointLightGpu::initial()).len() * 4, 48);
    for size in [208usize, 32, 48] {
        assert_eq!(size % 16, 0);
    }
}

#[test]
fn sphere_record_layout() {
    let record = SphereGpu::new(v(1.0, 2.0, 3.0), s(4.0), 7);
    let words = words_of(&record);
    assert_eq!(floats(&words[0..5]), vec![1.0, 2.0, 3.0, 0.0, 4.0]);
    assert_eq!(&words[5..8], &[7, 0, 0]);
}

#[test]
fn material_record_layout() {
    let record = MaterialGpu::new(Color::new(s(0.1), s(0.2), s(0.3), s(1.0)), s(0.25));
    let words = words_of(&record);
    assert_eq!(floats(&words[0..4]), vec![0.1, 0.2, 0.3, 1.0]);
    assert_eq!(words[4], 0);
    assert_eq!(f32::from_bits(words[5]), 0.25);
    assert_eq!(&words[6..8], &[0, 0]);
}

#[test]
fn light_record_layout() {
    let record =
        PointLightGpu::new(v(1.0, 2.0, 3.0), Color::new(s(0.5), s(0.6), s(0.7), s(1.0)), s(50.0), s(100.0));
    let words = words_of(&record);
    assert_eq!(
        floats(&words[0..10]),
        vec![1.0, 2.0, 3.0, 0.0, 0.5, 0.6, 0.7, 1.0, 50.0, 100.0]
    );
    assert_eq!(&words[10..12], &[0, 0]);
}

#[test]
fn camera_record_layout() {
    let col = |a: f32| Vec4::new(s(a), s(a + 1.0), s(a + 2.0), s(a + 3.0));
    let m = |a: f32| Mat4::from_cols(col(a), col(a + 4.0), col(a + 8.0), col(a + 12.0));
    let record = CameraGpu::new(v(9.0, 8.0, 7.0), m(100.0), m(200.0), m(300.0));
    let words = floats(&words_of(&record));
    assert_eq!(&words[0..4], &[9.0, 8.0, 7.0, 1.0]);
    for k in 0..16 {
        assert_eq!(words[4 + k], 100.0 + k as f32);
        assert_eq!(words[20 + k], 200.0 + k as f32);
        assert_eq!(words[36 + k], 300.0 + k as f32);
    }
    let initial = floats(&words_of(&CameraGpu::initial()));
    assert_eq!(&initial[0..4], &[0.0, 0.0, 0.0, 1.0]);
    let identity =
        [1.0, 0.0, 0.0, 0.0, 0.0, 1.0, 0.0, 0.0, 0.0, 0.0, 1.0, 0.0, 0.0, 0.0, 0.0, 1.0];
    assert_eq!(&initial[4..20], &identity);
    assert_eq!(&initial[36..52], &identity);
}

#[test]
fn the_records_a_renderer_starts_with() {
    let sphere = floats(&words_of(&SphereGpu::initial()));
    assert_eq!(&sphere[0..5], &[0.0, 0.0, 0.0, 0.0, 1.0]);
    let material = floats(&words_of(&MaterialGpu::initial())[0..4]);
    assert_eq!(material, vec![0.8, 0.8, 0.8, 1.0]);
    assert_eq!(f32::from_bits(words_of(&MaterialGpu::initial())[5]), 0.5);
    let light = floats(&words_of(&PointLightGpu::initial())[0..10]);
    assert_eq!(light, vec![0.0, 10.0, 0.0, 0.0, 1.0, 1.0, 1.0, 1.0, 100.0, 50.0]);
    let start = SceneBuffers::initial();
    assert_eq!((start.materials.len(), start.spheres.len(), start.lights.len()), (1, 1, 1));
    let fallback = floats(&words_of(&MaterialGpu::fallback())[0..4]);
    assert_eq!(fallback, vec![1.0, 0.0, 1.0, 1.0]);
}

#[test]
fn words_become_bytes_lowest_first() {
    assert_eq!(words_to_bytes(&vec![]), Vec::<u8>::new());
    assert_eq!(
        words_to_bytes(&vec![0x0403_0201, 0xffee_ddcc, 1]),
        vec![1, 2, 3, 4, 0xcc, 0xdd, 0xee, 0xff, 1, 0, 0, 0]
    );
    let words = vec![0u32, 1, 255, 256, 65535, 65536, 0x7f80_0000, u32::MAX];
    let expected: Vec<u8> = words.iter().flat_map(|w| w.to_le_bytes()).collect();
    assert_eq!(words_to_bytes(&words), expected);
    assert_eq!(words_to_bytes(&vec![1.0f32.to_bits()]), 1.0f32.to_le_bytes().to_vec());
}

#[test]
fn a_buffer_is_its_records_one_after_the_other() {
    let records = vec![SphereGpu::new(v(1.0, 0.0, 0.0), s(1.0), 1), SphereGpu::new(v(2.0, 0.0, 0.0), s(2.0), 2)];
    let words = to_words(&records);
    assert_eq!(words.len(), 16);
    assert_eq!(&words[0..8], &words_of(&records[0])[..]);
    assert_eq!(&words[8..16], &words_of(&records[1])[..]);
    let bytes = encode(&records);
    assert_eq!(bytes.len(), 64);
    assert_eq!(&bytes[32..36], &2.0f32.to_le_bytes());
    assert_eq!(&bytes[52..56], &2u32.to_le_bytes());
    assert_eq!(encode(&Vec::<SphereGpu>::new()).len(), 0);
}

#[test]
fn materials_are_kept_once_for_each_handle() {
    let red = diffuse(10, 1.0, 0.0, 0.0);
    let green = diffuse(20, 0.0, 1.0, 0.0);
    let spheres = vec![
        Sphere::with_material(v(0.0, 0.0, 0.0), s(1.0), red),
        Sphere::new(v(1.0, 0.0, 0.0), s(1.0)),
        Sphere::with_material(v(2.0, 0.0, 0.0), s(1.0), green),
        Sphere::with_material(v(3.0, 0.0, 0.0), s(1.0), red),
        Sphere::with_material(v(4.0, 0.0, 0.0), s(1.0), green),
    ];
    let (materials, records) = marshal_spheres(&spheres);
    assert_eq!(materials.len(), 3);
    assert_eq!(materials[0], MaterialGpu::fallback());
    assert_eq!(materials[1], MaterialGpu::new(Color::rgb(s(1.0), s(0.0), s(0.0)), s(1.0)));
    assert_eq!(materials[2], MaterialGpu::new(Color::rgb(s(0.0), s(1.0), s(0.0)), s(1.0)));
    let indices: Vec<u32> = records.iter().map(|r| r.material_index).collect();
    assert_eq!(indices, vec![1, 0, 2, 1, 2]);
    for (record, sphere) in records.iter().zip(&spheres) {
        assert_eq!(*record, SphereGpu::new(sphere.center, sphere.radius, record.material_index));
    }
}

#[test]
fn materials_are_told_apart_by_handle_and_not_by_value() {
    let a = diffuse(1, 0.5, 0.5, 0.5);
    let b = diffuse(2, 0.5, 0.5, 0.5);
    let spheres = vec![
        Sphere::with_material(v(0.0, 0.0, 0.0), s(1.0), a),
        Sphere::with_material(v(1.0, 0.0, 0.0), s(1.0), b),
    ];
    let (materials, records) = marshal_spheres(&spheres);
    assert_eq!(materials.len(), 3);
    assert_eq!(materials[1], materials[2]);
    assert_eq!((records[0].material_index, records[1].material_index), (1, 2));
    // the same handle with another value: the first value is kept
    let other = SharedMaterial::new(
        1,
        Material::Metal(MetalMaterial::new(Color::rgb(s(0.9), s(0.9), s(0.9)), s(0.2))),
    );
    let spheres = vec![
        Sphere::with_material(v(0.0, 0.0, 0.0), s(1.0), a),
        Sphere::with_material(v(1.0, 0.0, 0.0), s(1.0), other),
    ];
    let (materials, records) = marshal_spheres(&spheres);
    assert_eq!(materials.len(), 2);
    assert_eq!(materials[1], MaterialGpu::new(Color::rgb(s(0.5), s(0.5), s(0.5)), s(1.0)));
    assert_eq!((records[0].material_index, records[1].material_index), (1, 1));
}

#[test]
fn metal_gives_its_roughness_as_smoothness() {
    let metal = SharedMaterial::new(
        3,
        Material::Metal(MetalMaterial::new(Color::rgb(s(0.9), s(0.8), s(0.7)), s(0.25))),
    );
    let (materials, _) = marshal_spheres(&vec![Sphere::with_material(v(0.0, 0.0, 0.0), s(1.0), metal)]);
    assert_eq!(materials[1], MaterialGpu::new(Color::rgb(s(0.9), s(0.8), s(0.7)), s(0.25)));
    assert_eq!(materials[1].material_type, 0);
}

#[test]
fn an_empty_scene_fills_its_buffers_with_inert_records() {
    let (materials, records) = marshal_spheres(&vec![]);
    assert_eq!(materials, vec![MaterialGpu::fallback()]);
    assert_eq!(records, vec![SphereGpu::placeholder()]);
    assert_eq!(records[0].radius.to_bits(), 0);
    let lights = marshal_lights(&vec![]);
    assert_eq!(lights, vec![PointLightGpu::placeholder()]);
    assert_eq!(lights[0].intensity.to_bits(), 0);
    assert_eq!(words_of(&lights[0]), vec![0u32; 12]);
    let buffers = SceneBuffers::build(&vec![], &vec![]);
    assert_eq!((buffers.materials.len(), buffers.spheres.len(), buffers.lights.len()), (1, 1, 1));
}

#[test]
fn lights_are_marshalled_in_order() {
    let lights = vec![
        PointLight::new(v(0.0, 5.0, 5.0), Color::opaque_white(), s(50.0)),
        PointLight::with_attenuation(v(1.0, 1.0, 1.0), Color::red(), s(2.0), s(30.0), s(0.1), s(0.2)),
    ];
    let records = marshal_lights(&lights);
    assert_eq!(records.len(), 2);
    assert_eq!(records[0], PointLightGpu::new(v(0.0, 5.0, 5.0), Color::opaque_white(), s(50.0), s(100.0)));
    assert_eq!(records[1], PointLightGpu::new(v(1.0, 1.0, 1.0), Color::red(), s(2.0), s(30.0)));
}

#[test]
fn workgroups_cover_the_texture() {
    assert_eq!(workgroup_count(0), 0);
    assert_eq!(workgroup_count(1), 1);
    assert_eq!(workgroup_count(7), 1);
    assert_eq!(workgroup_count(8), 1);
    assert_eq!(workgroup_count(9), 2);
    assert_eq!(workgroup_count(800), 100);
    assert_eq!(workgroup_count(600), 75);
    assert_eq!(workgroup_count(1366), 171);
    assert_eq!(workgroup_count(u32::MAX), 536_870_912);
    for extent in 0u32..200 {
        assert_eq!(workgroup_count(extent), (extent + 7) / 8);
    }
}

fn renderer(width: u32, height: u32) -> GpuRenderer {
    let config = GpuRendererConfig { width, height, ..GpuRendererConfig::default() };
    GpuRenderer::new(&config, width, height)
}

#[test]
fn default_gpu_configuration() {
    let c = GpuRendererConfig::default();
    assert_eq!((c.width, c.height, c.samples), (800, 600, 1));
    assert_eq!(c.format, TextureFormat::Rgba8UnormSrgb);
    assert_eq!(c.present_mode, PresentMode::Fifo);
    let r = GpuRenderer::new(&c, 1024, 768);
    assert_eq!((r.texture_width, r.texture_height), (1024, 768));
    assert!(r.is_initialized());
    assert_eq!(*r.config(), c);
    assert_eq!(r.aspect(), Some((1024, 768)));
    assert_eq!(GpuRenderer::new(&c, 10, 0).aspect(), None);
}

#[test]
fn a_resize_to_nothing_is_passed_over() {
    let mut r = renderer(800, 600);
    let before = r;
    assert_eq!(r.resize(0, 600), ResizeAction::Skip);
    assert_eq!(r, before);
    assert_eq!(r.resize(800, 0), ResizeAction::Skip);
    assert_eq!(r.resize(0, 0), ResizeAction::Skip);
    assert_eq!(r, before);
}

#[test]
fn a_resize_takes_the_size_everywhere() {
    let mut r = renderer(800, 600);
    assert_eq!(r.resize(1280, 720), ResizeAction::Rebuild { width: 1280, height: 720 });
    assert_eq!((r.config.width, r.config.height), (1280, 720));
    assert_eq!((r.surface_width, r.surface_height), (1280, 720));
    assert_eq!((r.texture_width, r.texture_height), (1280, 720));
    assert_eq!(r.config.format, TextureFormat::Rgba8UnormSrgb);
}

#[test]
fn resizing_to_the_same_size_twice_changes_nothing_more() {
    let mut r = renderer(800, 600);
    r.resize(640, 480);
    let once = r;
    assert_eq!(r.resize(640, 480), ResizeAction::Rebuild { width: 640, height: 480 });
    assert_eq!(r, once);
    let mut same = renderer(800, 600);
    let before = same;
    same.resize(800, 600);
    assert_eq!(same, before);
}

#[test]
fn a_frame_plan_holds_the_four_buffers_and_the_dispatch() {
    let r = renderer(803, 600);
    let red = diffuse(1, 1.0, 0.0, 0.0);
    let spheres = vec![
        Sphere::with_material(v(0.0, 0.0, 0.0), s(1.0), red),
        Sphere::new(v(3.0, 0.0, 0.0), s(0.5)),
    ];
    let lights = vec![PointLight::new(v(0.0, 5.0, 5.0), Color::opaque_white(), s(50.0))];
    let camera = CameraGpu::initial();
    let plan = r.render(&spheres, &lights, &camera);
    assert_eq!(plan.camera, encode(&vec![camera]));
    assert_eq!(plan.camera.len(), 208);
    let (materials, records) = marshal_spheres(&spheres);
    assert_eq!(plan.materials, encode(&materials));
    assert_eq!(plan.spheres, encode(&records));
    assert_eq!(plan.lights, encode(&marshal_lights(&lights)));
    assert_eq!((plan.spheres.len(), plan.materials.len(), plan.lights.len()), (64, 64, 48));
    assert_eq!((plan.workgroups_x, plan.workgroups_y), (101, 75));
    assert_eq!(&plan.spheres[16..20], &1.0f32.to_le_bytes());
    assert_eq!(&plan.spheres[20..24], &1u32.to_le_bytes());
    let empty = r.render(&vec![], &vec![], &camera);
    assert_eq!((empty.spheres.len(), empty.materials.len(), empty.lights.len()), (32, 32, 48));
}

#[test]
fn surface_format_choice() {
    let supported = vec![TextureFormat::Bgra8UnormSrgb, TextureFormat::Rgba8Unorm, TextureFormat::Other(9)];
    assert_eq!(choose_surface_format(TextureFormat::Rgba8Unorm, &supported), TextureFormat::Rgba8Unorm);
    assert_eq!(choose_surface_format(TextureFormat::Other(9), &supported), TextureFormat::Other(9));
    assert_eq!(
        choose_surface_format(TextureFormat::Rgba8UnormSrgb, &supported),
        TextureFormat::Bgra8UnormSrgb
    );
    assert_eq!(choose_surface_format(TextureFormat::Other(8), &supported), TextureFormat::Bgra8UnormSrgb);
    let mut r = renderer(800, 600);
    r.surface_width = 1;
    r.surface_height = 1;
    assert_eq!(r.initialize(&supported), TextureFormat::Bgra8UnormSrgb);
    assert_eq!((r.surface_width, r.surface_height), (800, 600));
}

#[test]
fn bindings_of_the_compute_pass() {
    let slots = compute_bindings();
    assert_eq!(slots.len(), 5);
    let numbers: Vec<u32> = slots.iter().map(|b| b.binding).collect();
    assert_eq!(numbers, vec![0, 1, 2, 3, 4]);
    assert_eq!(slots[0].kind, BindingKind::Uniform);
    assert_eq!(slots[1].kind, BindingKind::ReadOnlyStorage);
    assert_eq!(slots[4].kind, BindingKind::StorageTexture);
    let sizes: Vec<u64> = slots.iter().map(|b| b.min_size).collect();
    assert_eq!(sizes, vec![208, 32, 32, 48, 0]);
}
