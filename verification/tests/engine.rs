use rrte_engine::api::EngineBuilder;
use rrte_engine::demo::{DemoType, ENGINE_NAME};
use rrte_engine::math::{Color, Scalar, Vec3};
use rrte_engine::renderer::camera::{Camera, ProjectionType};
use rrte_engine::renderer::gpu_layout::CameraGpu;
use rrte_engine::renderer::gpu_renderer::{ResizeAction, TextureFormat};
use rrte_engine::renderer::light::{Light, PointLight};
use rrte_engine::renderer::primitives::{SceneObject, Sphere};
use rrte_engine::renderer::raytracer::{RaytracerConfig, Rgba8};
use rrte_engine::runtime::{
    ActiveRenderer, Engine, EngineConfig, EngineError, EngineState, Frame, RendererMode,
    SurfaceReport, Time,
};

fn s(x: f32) -> Scalar {
    Scalar::from_bits(x.to_bits())
}

fn f(x: Scalar) -> f32 {
    f32::from_bits(x.to_bits())
}

fn small(mode: RendererMode) -> EngineConfig {
    let mut config = EngineConfig::default();
    config.renderer_mode = mode;
    config.renderer_config.width = 4;
    config.renderer_config.height = 3;
    config
}

fn window(width: u32, height: u32) -> SurfaceReport {
    SurfaceReport {
        width,
        height,
        formats: vec![TextureFormat::Bgra8UnormSrgb, TextureFormat::Rgba8UnormSrgb],
        aspect_ratio: s(width as f32 / height as f32),
    }
}

fn aspect(camera: &Camera) -> f32 {
    match camera.projection {
        ProjectionType::Perspective { aspect_ratio, .. } => f(aspect_ratio),
        _ => f32::NAN,
    }
}

fn black(_: u32, _: u32) -> Rgba8 {
    Rgba8 { r: 0, g: 0, b: 0, a: 255 }
}

#[test]
fn a_new_engine() {
    let engine = Engine::new(small(RendererMode::Cpu), s(4.0 / 3.0), 0);
    assert_eq!(*engine.state(), EngineState::Uninitialized);
    assert_eq!(engine.renderer, ActiveRenderer::Unset);
    assert_eq!(engine.frame_buffer, vec![0u8; 48]);
    assert_eq!(engine.get_frame_buffer().map(|b| b.len()), Some(48));
    assert!(!engine.is_running());
    assert_eq!(engine.scene().object_count(), 0);
    match engine.camera().projection {
        ProjectionType::Perspective { fov, aspect_ratio, near, far } => {
            assert_eq!(f(fov), 45.0f32.to_radians());
            assert_eq!(f(aspect_ratio), 4.0 / 3.0);
            assert_eq!(f(near), 0.1);
            assert_eq!(f(far), 100.0);
        }
        _ => panic!("the camera is not a perspective camera"),
    }
    let defaults = EngineConfig::default();
    assert_eq!(f(defaults.target_fps), 60.0);
    assert!(defaults.enable_vsync);
    assert_eq!(defaults.renderer_mode, RendererMode::Cpu);
}

#[test]
fn the_processor_renderer_needs_no_window() {
    let mut engine = Engine::new(small(RendererMode::Cpu), s(4.0 / 3.0), 0);
    assert!(engine.initialize_core_systems().is_ok());
    assert_eq!(engine.initialize_renderer(None, 7), Ok(()));
    assert!(engine.is_running());
    assert_eq!(engine.time().start_time, 7);
    assert!(matches!(engine.renderer, ActiveRenderer::Cpu(_)));
    let before = engine.renderer;
    assert_eq!(engine.initialize_renderer(Some(&window(10, 10)), 7), Ok(()));
    assert_eq!(engine.renderer, before);
    assert!(engine.run_headless_loop().is_ok());
}

#[test]
fn the_device_renderer_needs_a_window_and_a_size() {
    let mut engine = Engine::new(small(RendererMode::Gpu), s(4.0 / 3.0), 0);
    assert_eq!(engine.initialize_renderer(None, 7), Err(EngineError::WindowRequired));
    assert_eq!(*engine.state(), EngineState::InitializingRenderer);
    assert_eq!(engine.renderer, ActiveRenderer::Unset);

    let mut zero = small(RendererMode::Gpu);
    zero.gpu_renderer_config.width = 0;
    zero.renderer_config.width = 0;
    zero.renderer_config.height = 0;
    let mut engine = Engine::new(zero, s(1.0), 0);
    assert_eq!(engine.initialize_renderer(Some(&window(640, 480)), 7), Err(EngineError::ZeroSized));
    assert_eq!(engine.renderer, ActiveRenderer::Unset);
}

#[test]
fn the_device_renderer_takes_the_size_of_the_window() {
    let mut config = small(RendererMode::Gpu);
    config.gpu_renderer_config.height = 0;
    config.gpu_renderer_config.format = TextureFormat::Rgba8Unorm;
    let mut engine = Engine::new(config, s(4.0 / 3.0), 0);
    assert_eq!(engine.initialize_renderer(Some(&window(640, 320)), 7), Ok(()));
    assert!(engine.is_running());
    match engine.renderer {
        ActiveRenderer::Gpu(gpu) => {
            assert_eq!((gpu.config.width, gpu.config.height), (640, 320));
            assert_eq!((gpu.surface_width, gpu.texture_height), (640, 320));
            assert_eq!(gpu.config.format, TextureFormat::Bgra8UnormSrgb);
        }
        _ => panic!("no device renderer"),
    }
    assert_eq!(engine.config().gpu_renderer_config.width, 640);
    assert_eq!(engine.config().gpu_renderer_config.format, TextureFormat::Bgra8UnormSrgb);
    assert_eq!(aspect(engine.camera()), 2.0);
    assert!(engine.get_frame_buffer().is_none());
    assert_eq!(engine.run_headless_loop(), Err(EngineError::HeadlessGpu));
}

#[test]
fn frames() {
    let camera = CameraGpu::initial();
    let mut engine = Engine::new(small(RendererMode::Cpu), s(4.0 / 3.0), 0);
    assert!(matches!(engine.render_frame(black, &camera), Err(EngineError::RendererMissing)));
    engine.initialize_renderer(None, 7).unwrap();
    let frame = engine.render_frame(|x, y| Rgba8 { r: x as u8, g: y as u8, b: 7, a: 255 }, &camera);
    assert!(matches!(frame, Ok(Frame::Rendered)));
    assert_eq!(engine.frame_buffer.len(), 48);
    assert_eq!(&engine.frame_buffer[4 * (2 * 4 + 3)..4 * (2 * 4 + 3) + 4], &[3, 2, 7, 255]);

    let mut engine = Engine::new(small(RendererMode::Gpu), s(4.0 / 3.0), 0);
    engine.initialize_renderer(Some(&window(17, 9)), 7).unwrap();
    let v = |x: f32| Vec3::new(s(x), s(0.0), s(0.0));
    engine.scene.add_object(SceneObject::Sphere(Sphere::new(v(0.0), s(1.0))));
    engine.scene.add_object(SceneObject::Sphere(Sphere::new(v(3.0), s(1.0))));
    engine.scene.add_light(Light::Point(PointLight::new(v(1.0), Color::opaque_white(), s(5.0))));
    match engine.render_frame(black, &camera) {
        Ok(Frame::Planned(plan)) => {
            assert_eq!(plan.spheres.len(), 64);
            assert_eq!(plan.lights.len(), 48);
            assert_eq!(plan.materials.len(), 32);
            assert_eq!((plan.workgroups_x, plan.workgroups_y), (3, 2));
        }
        _ => panic!("no plan"),
    }
    assert_eq!(engine.frame_buffer, vec![0u8; 48]);
}

#[test]
fn resolution_of_the_processor_renderer() {
    let mut engine = Engine::new(small(RendererMode::Cpu), s(4.0 / 3.0), 0);
    engine.initialize_renderer(None, 7).unwrap();
    engine.render_frame(|_, _| Rgba8 { r: 9, g: 9, b: 9, a: 9 }, &CameraGpu::initial()).unwrap();
    assert_eq!(engine.update_resolution(0, 10, s(0.0)), ResizeAction::Skip);
    assert_eq!(engine.frame_buffer.len(), 48);
    assert_eq!(aspect(engine.camera()), 4.0 / 3.0);
    assert_eq!(engine.update_resolution(8, 2, s(4.0)), ResizeAction::Skip);
    assert_eq!(engine.frame_buffer.len(), 64);
    assert_eq!(&engine.frame_buffer[0..48], &vec![9u8; 48][..]);
    assert_eq!(&engine.frame_buffer[48..64], &vec![0u8; 16][..]);
    assert_eq!(aspect(engine.camera()), 4.0);
    assert_eq!((engine.config().renderer_config.width, engine.config().renderer_config.height), (8, 2));
    match engine.renderer {
        ActiveRenderer::Cpu(tracer) => assert_eq!((tracer.config.width, tracer.config.height), (8, 2)),
        _ => panic!("no processor renderer"),
    }
    engine.update_resolution(2, 2, s(1.0));
    assert_eq!(engine.frame_buffer, vec![9u8; 16]);
}

#[test]
fn resolution_of_the_device_renderer_and_of_none() {
    let mut engine = Engine::new(small(RendererMode::Gpu), s(4.0 / 3.0), 0);
    engine.update_resolution(32, 16, s(2.0));
    assert_eq!(engine.config().renderer_config.width, 32);
    assert_eq!(engine.config().gpu_renderer_config.height, 16);
    assert_eq!(engine.frame_buffer.len(), 48);
    engine.initialize_renderer(Some(&window(64, 64)), 7).unwrap();
    assert_eq!(
        engine.update_resolution(128, 64, s(2.0)),
        ResizeAction::Rebuild { width: 128, height: 64 }
    );
    match engine.renderer {
        ActiveRenderer::Gpu(gpu) => assert_eq!((gpu.texture_width, gpu.texture_height), (128, 64)),
        _ => panic!("no device renderer"),
    }
    assert_eq!(engine.config().gpu_renderer_config.width, 128);
    assert_eq!(engine.config().renderer_config.width, 32);
    let before = engine.renderer;
    engine.update_resolution(128, 64, s(2.0));
    assert_eq!(engine.renderer, before);
}

#[test]
fn states() {
    let mut engine = Engine::new(small(RendererMode::Cpu), s(1.0), 0);
    engine.pause();
    assert_eq!(*engine.state(), EngineState::Uninitialized);
    engine.initialize_renderer(None, 7).unwrap();
    engine.resume();
    assert_eq!(*engine.state(), EngineState::Running);
    engine.pause();
    assert_eq!(*engine.state(), EngineState::Paused);
    assert!(!engine.is_running());
    engine.pause();
    assert_eq!(*engine.state(), EngineState::Paused);
    engine.resume();
    assert!(engine.is_running());
    engine.stop();
    assert_eq!(*engine.state(), EngineState::Stopping);
    engine.resume();
    engine.stop();
    assert_eq!(*engine.state(), EngineState::Stopping);
    assert!(engine.shutdown().is_ok());
    assert_eq!(*engine.state(), EngineState::Stopped);
    engine.stop();
    engine.pause();
    assert_eq!(*engine.state(), EngineState::Stopped);
    assert!(!engine.input().is_key_pressed("a"));
}

#[test]
fn builder() {
    let tracer = RaytracerConfig { width: 6, height: 5, ..RaytracerConfig::default() };
    let builder = EngineBuilder::new()
        .window_title("Demo".to_string())
        .window_size(1024, 768)
        .raytracer_config(tracer)
        .enable_plugins(false)
        .plugin_directory("more".to_string());
    assert_eq!(builder.config.window_title, "Demo");
    assert_eq!((builder.config.window_width, builder.config.window_height), (1024, 768));
    assert!(!builder.config.enable_plugins);
    assert_eq!(builder.config.plugin_directories, vec!["plugins", "more"]);
    let engine = builder.build(s(1.2), 0);
    assert_eq!(engine.config().renderer_config, tracer);
    assert_eq!(engine.config().renderer_mode, RendererMode::Cpu);
    assert_eq!(engine.frame_buffer.len(), 120);
    let plain = EngineBuilder::default();
    assert_eq!(plain.config.window_title, "RRTE Game");
    assert_eq!((plain.config.window_width, plain.config.window_height), (800, 600));
    assert!(plain.config.enable_plugins);
}

#[test]
fn cameras() {
    let mut camera = Camera::new_perspective(s(1.0), s(1.5), s(0.1), s(100.0));
    assert!(camera.is_active && camera.is_perspective());
    camera.set_aspect_ratio(s(2.0));
    assert_eq!(aspect(&camera), 2.0);
    let mut flat = Camera::new_orthographic(s(-1.0), s(1.0), s(-1.0), s(1.0), s(0.1), s(10.0));
    assert!(!flat.is_perspective());
    let before = flat;
    flat.set_aspect_ratio(s(2.0));
    assert_eq!(flat, before);
}

#[test]
fn clock() {
    let mut t = Time::new(1_000);
    assert_eq!((t.delta_nanos(), t.elapsed_nanos()), (0, 0));
    assert!(!t.has_frame_rate());
    assert_eq!(f(t.time_scale()), 1.0);
    t.update(1_016);
    assert_eq!((t.delta_nanos(), t.elapsed_nanos()), (16, 16));
    assert!(t.has_frame_rate());
    t.update(1_050);
    assert_eq!((t.delta_nanos(), t.elapsed_nanos()), (34, 50));
    assert_eq!(t.last_frame, 1_016);
    t.update(1_040);
    assert_eq!(t.delta_nanos(), 0);
    t.set_time_scale(s(0.5));
    assert_eq!(f(t.time_scale()), 0.5);
    t.set_time_scale(s(-2.0));
    assert_eq!(f(t.time_scale()), 0.0);
    t.set_time_scale(s(f32::NAN));
    assert_eq!(f(t.time_scale()), 0.0);
    t.set_time_scale(s(3.0));
    t.start(5_000);
    assert_eq!((t.start_time, t.delta_nanos(), t.elapsed_nanos()), (5_000, 0, 0));
    assert_eq!(f(t.time_scale()), 3.0);
}

#[test]
fn names() {
    assert_eq!(ENGINE_NAME, "RRTE Engine");
    let all = [DemoType::CSGOperations, DemoType::Deformations, DemoType::NoiseAndWaves];
    assert_ne!(all[0], all[1]);
    assert_ne!(all[1], all[2]);
}
