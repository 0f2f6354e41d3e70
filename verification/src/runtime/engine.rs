//! The engine: which renderer it runs, in which state it is, and what a
//! change of resolution does to it.

use vstd::prelude::*;
use crate::math::scalar::Scalar;
use crate::renderer::camera::Camera;
use crate::renderer::gpu_layout::{le_bytes, stream, CameraGpu, GpuRecord, SphereGpu};
use crate::renderer::gpu_renderer::{
    choose_surface_format, groups_for, light_table, material_slots, material_table, sphere_table,
    FramePlan, GpuRenderer, GpuRendererConfig, ResizeAction, TextureFormat,
};
use crate::renderer::light::PointLight;
use crate::renderer::primitives::Sphere;
use crate::renderer::raytracer::{pixel_at, Raytracer, RaytracerConfig, Rgba8};
use crate::runtime::input::Input;
use crate::runtime::scene::{lemma_spheres_are_objects, point_lights_of, spheres_of, Scene};
use crate::runtime::time::Time;

verus! {

/// Which renderer the engine runs.
#[derive(Clone, Copy, Debug, PartialEq, Eq, Structural)]
pub enum RendererMode {
    Cpu,
    Gpu,
}

/// Configuration of the engine.
#[derive(Clone, Copy, Debug, PartialEq, Eq, Structural)]
pub struct EngineConfig {
    pub renderer_mode: RendererMode,
    pub renderer_config: RaytracerConfig,
    pub gpu_renderer_config: GpuRendererConfig,
    pub target_fps: Scalar,
    pub enable_vsync: bool,
}

impl Default for EngineConfig {
    /// The processor renderer, both renderers as they come, 60 frames a
    /// second, with vsync.
    fn default() -> (c: EngineConfig)
        ensures
            c.renderer_mode == RendererMode::Cpu,
            c.renderer_config.width == 800,
            c.renderer_config.height == 600,
            c.gpu_renderer_config.width == 800,
            c.gpu_renderer_config.height == 600,
            c.target_fps.bits == 0x4270_0000,
            c.enable_vsync,
    {
        EngineConfig {
            renderer_mode: RendererMode::Cpu,
            renderer_config: RaytracerConfig::default(),
            gpu_renderer_config: GpuRendererConfig::default(),
            target_fps: Scalar::from_bits(0x4270_0000),
            enable_vsync: true,
        }
    }
}

/// The state of the engine.
#[derive(Clone, Copy, Debug, PartialEq, Eq, Structural)]
pub enum EngineState {
    Uninitialized,
    InitializingRenderer,
    Running,
    Paused,
    Stopping,
    Stopped,
}

/// The renderer that the engine holds.
#[derive(Clone, Copy, Debug, PartialEq, Eq, Structural)]
pub enum ActiveRenderer {
    Cpu(Raytracer),
    Gpu(GpuRenderer),
    /// No renderer yet.
    Unset,
}

/// Why the engine could not do what it was asked.
#[derive(Clone, Copy, Debug, PartialEq, Eq, Structural)]
pub enum EngineError {
    /// The device renderer was to be initialised without a window.
    WindowRequired,
    /// The device renderer was to be initialised at a size of zero.
    ZeroSized,
    /// A frame was asked for before any renderer was initialised.
    RendererMissing,
    /// The loop without a window was asked of the device renderer.
    HeadlessGpu,
}

/// What initialisation found of the window and its surface.
pub struct SurfaceReport {
    pub width: u32,
    pub height: u32,
    /// The formats that the surface supports, the preferred first.
    pub formats: Vec<TextureFormat>,
    /// Width over height of the window.
    pub aspect_ratio: Scalar,
}

/// What a frame came to.
pub enum Frame {
    /// The frame is in the engine's frame buffer.
    Rendered,
    /// The frame is to be drawn on the device, as the plan says.
    Planned(FramePlan),
}

/// Whether `plan` is the frame of `gpu` for these spheres and lights, seen
/// through `camera`: the bytes of the four buffers, and one workgroup for
/// each tile of 8 by 8 pixels of the output texture.
pub open spec fn planned(
    plan: FramePlan,
    gpu: GpuRenderer,
    spheres: Seq<Sphere>,
    lights: Seq<PointLight>,
    camera: CameraGpu,
) -> bool {
    &&& plan.camera@ == le_bytes(camera.words())
    &&& plan.materials@ == le_bytes(stream(material_table(material_slots(spheres))))
    &&& exists|records: Seq<SphereGpu>|
        sphere_table(spheres, records) && plan.spheres@ == le_bytes(stream(records))
    &&& plan.lights@ == le_bytes(stream(light_table(lights)))
    &&& plan.workgroups_x == groups_for(gpu.texture_width)
    &&& plan.workgroups_y == groups_for(gpu.texture_height)
}

/// The size at which the device renderer is asked for: the configured
/// size, and where that is 0, the size of the processor renderer.
pub open spec fn fallback_size(gpu: GpuRendererConfig, cpu: RaytracerConfig) -> (u32, u32) {
    (
        if gpu.width == 0 {
            cpu.width
        } else {
            gpu.width
        },
        if gpu.height == 0 {
            cpu.height
        } else {
            gpu.height
        },
    )
}

/// The state after a pause: a running engine pauses, any other stays.
pub open spec fn paused(state: EngineState) -> EngineState {
    if state == EngineState::Running {
        EngineState::Paused
    } else {
        state
    }
}

/// The state after a resume: a paused engine runs, any other stays.
pub open spec fn resumed(state: EngineState) -> EngineState {
    if state == EngineState::Paused {
        EngineState::Running
    } else {
        state
    }
}

/// The state after a stop: an engine that is not stopped is stopping.
pub open spec fn stopped(state: EngineState) -> EngineState {
    if state == EngineState::Stopping || state == EngineState::Stopped {
        state
    } else {
        EngineState::Stopping
    }
}

/// The engine.
pub struct Engine {
    pub config: EngineConfig,
    pub state: EngineState,
    pub renderer: ActiveRenderer,
    pub scene: Scene,
    pub camera: Camera,
    pub input: Input,
    pub time: Time,
    pub frame_buffer: Vec<u8>,
}

impl Engine {
    /// An engine without a renderer, with an empty scene, a perspective
    /// camera of 45 degrees that sees from 0.1 to 100, and a black frame
    /// buffer of four bytes for each pixel of the processor renderer.
    /// `aspect_ratio` is the width of that renderer over its height, and
    /// `now` the reading of the clock, in nanoseconds.
    pub fn new(config: EngineConfig, aspect_ratio: Scalar, now: u64) -> (e: Engine)
        requires
            config.renderer_config.width * config.renderer_config.height * 4 <= u32::MAX,
        ensures
            e.config == config,
            e.state == EngineState::Uninitialized,
            e.renderer == ActiveRenderer::Unset,
            e.scene.wf(),
            e.scene.objects().len() == 0,
            e.scene.lights().len() == 0,
            e.time == Time::started(now),
            e.camera == Camera::perspective(
                Scalar { bits: 0x3f49_0fdb },
                aspect_ratio,
                Scalar { bits: 0x3dcc_cccd },
                Scalar { bits: 0x42c8_0000 },
            ),
            e.frame_buffer@.len() == config.renderer_config.width * config.renderer_config.height
                * 4,
            forall|k: int| 0 <= k < e.frame_buffer@.len() ==> e.frame_buffer@[k] == 0,
    {
        let camera = Camera::new_perspective(
            Scalar::from_bits(0x3f49_0fdb),
            aspect_ratio,
            Scalar::from_bits(0x3dcc_cccd),
            Scalar::from_bits(0x42c8_0000),
        );
        let size = frame_size(config.renderer_config.width, config.renderer_config.height);
        Engine {
            config,
            state: EngineState::Uninitialized,
            renderer: ActiveRenderer::Unset,
            scene: Scene::new(),
            camera,
            input: Input::new(),
            time: Time::new(now),
            frame_buffer: vec![0u8; size],
        }
    }

    /// Initialises the renderer that the configuration names.
    ///
    /// An engine that is not uninitialised is left as it is. Otherwise the
    /// processor renderer needs nothing. The device renderer needs a
    /// window, and a size that is not zero: its configured size, or where
    /// that is 0 the size of the processor renderer. It is then made at the
    /// size of the window, with its configured format where the surface
    /// supports it and else the surface's first, and a perspective camera
    /// takes the window's aspect ratio. The engine runs afterwards and its
    /// clock starts again at `now`; where initialisation fails it stays in
    /// `InitializingRenderer`.
    pub fn initialize_renderer(&mut self, window: Option<&SurfaceReport>, now: u64) -> (r: Result<
        (),
        EngineError,
    >)
        requires
            window.is_some() ==> window.unwrap().formats@.len() > 0,
        ensures
            final(self).scene == old(self).scene,
            final(self).input == old(self).input,
            final(self).frame_buffer == old(self).frame_buffer,
            final(self).time == (if r.is_ok() && old(self).state == EngineState::Uninitialized {
                Time { time_scale: old(self).time.time_scale, ..Time::started(now) }
            } else {
                old(self).time
            }),
            old(self).state != EngineState::Uninitialized ==> r.is_ok() && *final(self) == *old(self),
            old(self).state == EngineState::Uninitialized && old(self).config.renderer_mode
                == RendererMode::Cpu ==> {
                &&& r.is_ok()
                &&& final(self).state == EngineState::Running
                &&& final(self).renderer == ActiveRenderer::Cpu(
                    Raytracer { config: old(self).config.renderer_config },
                )
                &&& final(self).config == old(self).config
                &&& final(self).camera == old(self).camera
            },
            old(self).state == EngineState::Uninitialized && old(self).config.renderer_mode
                == RendererMode::Gpu ==> {
                let size = fallback_size(
                    old(self).config.gpu_renderer_config,
                    old(self).config.renderer_config,
                );
                if window.is_none() {
                    &&& r == Err::<(), EngineError>(EngineError::WindowRequired)
                    &&& final(self).state == EngineState::InitializingRenderer
                    &&& final(self).renderer == old(self).renderer
                    &&& final(self).config == old(self).config
                    &&& final(self).camera == old(self).camera
                } else if size.0 == 0 || size.1 == 0 {
                    &&& r == Err::<(), EngineError>(EngineError::ZeroSized)
                    &&& final(self).state == EngineState::InitializingRenderer
                    &&& final(self).renderer == old(self).renderer
                    &&& final(self).config == old(self).config
                    &&& final(self).camera == old(self).camera
                } else {
                    let report = window.unwrap();
                    let wanted = old(self).config.gpu_renderer_config.format;
                    let gpu = GpuRendererConfig {
                        width: report.width,
                        height: report.height,
                        format: if report.formats@.contains(wanted) {
                            wanted
                        } else {
                            report.formats@[0]
                        },
                        ..old(self).config.gpu_renderer_config
                    };
                    &&& r.is_ok()
                    &&& final(self).state == EngineState::Running
                    &&& final(self).config == (EngineConfig {
                        gpu_renderer_config: gpu,
                        ..old(self).config
                    })
                    &&& final(self).renderer == ActiveRenderer::Gpu(
                        GpuRenderer {
                            config: gpu,
                            surface_width: report.width,
                            surface_height: report.height,
                            texture_width: report.width,
                            texture_height: report.height,
                        },
                    )
                    &&& final(self).camera == old(self).camera.reshaped(report.aspect_ratio)
                }
            },
    {
        if self.state != EngineState::Uninitialized {
            return Ok(());
        }
        self.state = EngineState::InitializingRenderer;
        match self.config.renderer_mode {
            RendererMode::Cpu => {
                self.renderer = ActiveRenderer::Cpu(Raytracer::new(self.config.renderer_config));
            },
            RendererMode::Gpu => {
                let report = match window {
                    Some(report) => report,
                    None => {
                        return Err(EngineError::WindowRequired);
                    },
                };
                let mut gpu_config = self.config.gpu_renderer_config;
                if gpu_config.width == 0 {
                    gpu_config.width = self.config.renderer_config.width;
                }
                if gpu_config.height == 0 {
                    gpu_config.height = self.config.renderer_config.height;
                }
                if gpu_config.width == 0 || gpu_config.height == 0 {
                    return Err(EngineError::ZeroSized);
                }
                gpu_config.format = choose_surface_format(gpu_config.format, &report.formats);
                gpu_config.width = report.width;
                gpu_config.height = report.height;
                self.config.gpu_renderer_config = gpu_config;
                self.renderer = ActiveRenderer::Gpu(
                    GpuRenderer::new(&gpu_config, report.width, report.height),
                );
                self.camera.set_aspect_ratio(report.aspect_ratio);
            },
        }
        self.state = EngineState::Running;
        self.time.start(now);
        Ok(())
    }

    /// Renders a frame with the renderer that the engine holds.
    ///
    /// The processor renderer fills the frame buffer: `shade(x, y)` gives
    /// the pixel at column `x` of row `y`. The device renderer plans the
    /// frame for the spheres and point lights of the scene, seen through
    /// `camera`. Without a renderer there is no frame.
    pub fn render_frame<F: Fn(u32, u32) -> Rgba8>(&mut self, shade: F, camera: &CameraGpu) -> (r:
        Result<Frame, EngineError>)
        requires
            old(self).renderer is Gpu ==> old(self).scene.objects().len() < u32::MAX,
            old(self).renderer matches ActiveRenderer::Cpu(tracer) ==> {
                &&& tracer.frame_len() <= usize::MAX
                &&& forall|x: u32, y: u32|
                    x < tracer.config.width && y < tracer.config.height ==> call_requires(
                        shade,
                        (x, y),
                    )
            },
        ensures
            final(self).config == old(self).config,
            final(self).state == old(self).state,
            final(self).renderer == old(self).renderer,
            final(self).scene == old(self).scene,
            final(self).camera == old(self).camera,
            final(self).input == old(self).input,
            final(self).time == old(self).time,
            match old(self).renderer {
                ActiveRenderer::Cpu(tracer) => {
                    &&& r matches Ok(Frame::Rendered)
                    &&& final(self).frame_buffer@.len() == tracer.config.width
                        * tracer.config.height * 4
                    &&& forall|x: u32, y: u32|
                        x < tracer.config.width && y < tracer.config.height ==> call_ensures(
                            shade,
                            (x, y),
                            #[trigger] pixel_at(
                                final(self).frame_buffer@,
                                tracer.config.width as int,
                                x as int,
                                y as int,
                            ),
                        )
                },
                ActiveRenderer::Gpu(gpu) => {
                    &&& final(self).frame_buffer == old(self).frame_buffer
                    &&& r matches Ok(Frame::Planned(plan))
                    &&& planned(
                        plan,
                        gpu,
                        spheres_of(old(self).scene.objects()),
                        point_lights_of(old(self).scene.lights()),
                        *camera,
                    )
                },
                ActiveRenderer::Unset => {
                    &&& r matches Err(EngineError::RendererMissing)
                    &&& final(self).frame_buffer == old(self).frame_buffer
                },
            },
    {
        match self.renderer {
            ActiveRenderer::Cpu(tracer) => {
                self.frame_buffer = tracer.render(shade);
                Ok(Frame::Rendered)
            },
            ActiveRenderer::Gpu(gpu) => {
                let spheres = self.scene.spheres();
                let lights = self.scene.point_lights();
                proof {
                    lemma_spheres_are_objects(self.scene.objects());
                }
                Ok(Frame::Planned(gpu.render(&spheres, &lights, camera)))
            },
            ActiveRenderer::Unset => Err(EngineError::RendererMissing),
        }
    }

    /// Takes up a new resolution. A size with a zero in it is passed over.
    ///
    /// The processor renderer is configured anew and the frame buffer cut
    /// or filled with zeros to four bytes a pixel. The device renderer is
    /// resized. Without a renderer both configurations take the size. A
    /// perspective camera takes `aspect_ratio`, the width over the height.
    /// The result says what the caller is to rebuild on the device.
    pub fn update_resolution(&mut self, width: u32, height: u32, aspect_ratio: Scalar) -> (action:
        ResizeAction)
        requires
            old(self).renderer is Cpu ==> width * height * 4 <= u32::MAX,
        ensures
            final(self).state == old(self).state,
            final(self).scene == old(self).scene,
            final(self).input == old(self).input,
            final(self).time == old(self).time,
            width == 0 || height == 0 ==> *final(self) == *old(self) && action
                == ResizeAction::Skip,
            width != 0 && height != 0 ==> {
                &&& final(self).camera == old(self).camera.reshaped(aspect_ratio)
                &&& final(self).config.renderer_mode == old(self).config.renderer_mode
                &&& final(self).config.target_fps == old(self).config.target_fps
                &&& final(self).config.enable_vsync == old(self).config.enable_vsync
                &&& match old(self).renderer {
                    ActiveRenderer::Cpu(_) => {
                        let renderer_config = RaytracerConfig {
                            width,
                            height,
                            ..old(self).config.renderer_config
                        };
                        &&& action == ResizeAction::Skip
                        &&& final(self).config.renderer_config == renderer_config
                        &&& final(self).config.gpu_renderer_config == old(self).config.gpu_renderer_config
                        &&& final(self).renderer == ActiveRenderer::Cpu(
                            Raytracer { config: renderer_config },
                        )
                        &&& final(self).frame_buffer@.len() == width * height * 4
                        &&& forall|k: int|
                            0 <= k < final(self).frame_buffer@.len() ==> final(self).frame_buffer@[k] == (if k < old(self).frame_buffer@.len() {
                                old(self).frame_buffer@[k]
                            } else {
                                0
                            })
                    },
                    ActiveRenderer::Gpu(gpu) => {
                        &&& action == ResizeAction::Rebuild { width, height }
                        &&& final(self).renderer == ActiveRenderer::Gpu(gpu.resized(width, height))
                        &&& final(self).config.renderer_config == old(self).config.renderer_config
                        &&& final(self).config.gpu_renderer_config == (GpuRendererConfig {
                            width,
                            height,
                            ..old(self).config.gpu_renderer_config
                        })
                        &&& final(self).frame_buffer == old(self).frame_buffer
                    },
                    ActiveRenderer::Unset => {
                        &&& action == ResizeAction::Skip
                        &&& final(self).renderer == ActiveRenderer::Unset
                        &&& final(self).config.renderer_config == (RaytracerConfig {
                            width,
                            height,
                            ..old(self).config.renderer_config
                        })
                        &&& final(self).config.gpu_renderer_config == (GpuRendererConfig {
                            width,
                            height,
                            ..old(self).config.gpu_renderer_config
                        })
                        &&& final(self).frame_buffer == old(self).frame_buffer
                    },
                }
            },
    {
        if width == 0 || height == 0 {
            return ResizeAction::Skip;
        }
        let mut action = ResizeAction::Skip;
        match self.renderer {
            ActiveRenderer::Cpu(mut tracer) => {
                self.config.renderer_config.width = width;
                self.config.renderer_config.height = height;
                tracer.update_config(self.config.renderer_config);
                self.renderer = ActiveRenderer::Cpu(tracer);
                let size = frame_size(width, height);
                let ghost before = self.frame_buffer@;
                self.frame_buffer.resize(size, 0u8);
                proof {
                    if size <= before.len() {
                        assert(self.frame_buffer@ =~= before.subrange(0, size as int));
                    } else {
                        assert(self.frame_buffer@.subrange(0, before.len() as int) =~= before);
                        assert forall|k: int| 0 <= k < before.len() implies self.frame_buffer@[k]
                            == before[k] by {
                            assert(self.frame_buffer@.subrange(0, before.len() as int)[k]
                                == before[k]);
                        }
                    }
                }
            },
            ActiveRenderer::Gpu(mut gpu) => {
                action = gpu.resize(width, height);
                self.renderer = ActiveRenderer::Gpu(gpu);
                self.config.gpu_renderer_config.width = width;
                self.config.gpu_renderer_config.height = height;
            },
            ActiveRenderer::Unset => {
                self.config.renderer_config.width = width;
                self.config.renderer_config.height = height;
                self.config.gpu_renderer_config.width = width;
                self.config.gpu_renderer_config.height = height;
            },
        }
        self.camera.set_aspect_ratio(aspect_ratio);
        action
    }

    /// The frame buffer, where the configuration names the processor
    /// renderer.
    pub fn get_frame_buffer(&self) -> (buffer: Option<&Vec<u8>>)
        ensures
            self.config.renderer_mode == RendererMode::Cpu ==> buffer == Some(&self.frame_buffer),
            self.config.renderer_mode == RendererMode::Gpu ==> buffer.is_none(),
    {
        match self.config.renderer_mode {
            RendererMode::Cpu => Some(&self.frame_buffer),
            RendererMode::Gpu => None,
        }
    }

    /// Nothing is left to initialise but the renderer.
    pub fn initialize_core_systems(&mut self) -> (r: Result<(), EngineError>)
        ensures
            r.is_ok(),
            *final(self) == *old(self),
    {
        Ok(())
    }

    /// Whether the loop without a window can run: only with the processor
    /// renderer.
    pub fn run_headless_loop(&self) -> (r: Result<(), EngineError>)
        ensures
            self.config.renderer_mode == RendererMode::Cpu ==> r.is_ok(),
            self.config.renderer_mode == RendererMode::Gpu ==> r == Err::<(), EngineError>(
                EngineError::HeadlessGpu,
            ),
    {
        match self.config.renderer_mode {
            RendererMode::Cpu => Ok(()),
            RendererMode::Gpu => Err(EngineError::HeadlessGpu),
        }
    }

    pub fn is_running(&self) -> (r: bool)
        ensures
            r == (self.state == EngineState::Running),
    {
        self.state == EngineState::Running
    }

    pub fn pause(&mut self)
        ensures
            *final(self) == (Engine { state: paused(old(self).state), ..*old(self) }),
    {
        if self.state == EngineState::Running {
            self.state = EngineState::Paused;
        }
    }

    pub fn resume(&mut self)
        ensures
            *final(self) == (Engine { state: resumed(old(self).state), ..*old(self) }),
    {
        if self.state == EngineState::Paused {
            self.state = EngineState::Running;
        }
    }

    pub fn stop(&mut self)
        ensures
            *final(self) == (Engine { state: stopped(old(self).state), ..*old(self) }),
    {
        if self.state != EngineState::Stopping && self.state != EngineState::Stopped {
            self.state = EngineState::Stopping;
        }
    }

    pub fn shutdown(&mut self) -> (r: Result<(), EngineError>)
        ensures
            r.is_ok(),
            *final(self) == (Engine { state: EngineState::Stopped, ..*old(self) }),
    {
        self.state = EngineState::Stopped;
        Ok(())
    }

    pub fn config(&self) -> (c: &EngineConfig)
        ensures
            *c == self.config,
    {
        &self.config
    }

    pub fn state(&self) -> (s: &EngineState)
        ensures
            *s == self.state,
    {
        &self.state
    }

    pub fn scene(&self) -> (s: &Scene)
        ensures
            *s == self.scene,
    {
        &self.scene
    }

    pub fn camera(&self) -> (c: &Camera)
        ensures
            *c == self.camera,
    {
        &self.camera
    }

    pub fn input(&self) -> (i: &Input)
        ensures
            *i == self.input,
    {
        &self.input
    }

    pub fn time(&self) -> (t: &Time)
        ensures
            *t == self.time,
    {
        &self.time
    }
}

/// The bytes of a frame of `width` by `height` pixels.
fn frame_size(width: u32, height: u32) -> (size: usize)
    requires
        width * height * 4 <= u32::MAX,
    ensures
        size == width * height * 4,
{
    assert(width * height <= width * height * 4) by (nonlinear_arith)
        requires
            width * height >= 0,
    ;
    assert(width * height >= 0) by (nonlinear_arith)
        requires
            width >= 0,
            height >= 0,
    ;
    let pixels: u32 = width * height;
    (pixels * 4) as usize
}

/// An engine that runs can be paused and resumed and runs again; one that
/// was stopped stays stopped, whatever is asked of it.
pub proof fn lemma_engine_states(state: EngineState)
    ensures
        resumed(paused(EngineState::Running)) == EngineState::Running,
        paused(paused(state)) == paused(state),
        resumed(resumed(state)) == resumed(state),
        stopped(stopped(state)) == stopped(state),
        state == EngineState::Stopped ==> paused(state) == state && resumed(state) == state
            && stopped(state) == state,
{
}

} // verus!
