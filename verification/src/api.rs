//! Setting up an engine step by step.

use vstd::prelude::*;
use crate::math::scalar::Scalar;
use crate::renderer::gpu_renderer::GpuRendererConfig;
use crate::renderer::raytracer::RaytracerConfig;
use crate::runtime::engine::{Engine, EngineConfig as CoreEngineConfig, EngineState, RendererMode};

verus! {

/// What an application asks of the engine.
pub struct EngineConfig {
    pub window_title: String,
    pub window_width: u32,
    pub window_height: u32,
    pub raytracer_config: RaytracerConfig,
    pub enable_plugins: bool,
    pub plugin_directories: Vec<String>,
}

impl Default for EngineConfig {
    /// A window "RRTE Game" of 800 by 600, the ray tracer as it comes,
    /// plugins from the directory `plugins`.
    fn default() -> (c: EngineConfig)
        ensures
            c.window_title@ == "RRTE Game"@,
            c.window_width == 800,
            c.window_height == 600,
            c.raytracer_config.width == 800,
            c.raytracer_config.height == 600,
            c.enable_plugins,
            c.plugin_directories@.len() == 1,
            c.plugin_directories@[0]@ == "plugins"@,
    {
        let mut plugin_directories: Vec<String> = Vec::new();
        plugin_directories.push("plugins".to_owned());
        EngineConfig {
            window_title: "RRTE Game".to_owned(),
            window_width: 800,
            window_height: 600,
            raytracer_config: RaytracerConfig::default(),
            enable_plugins: true,
            plugin_directories,
        }
    }
}

/// Builds an engine from a configuration that it collects.
pub struct EngineBuilder {
    pub config: EngineConfig,
}

impl EngineBuilder {
    pub fn new() -> (b: EngineBuilder)
        ensures
            b.config.window_width == 800,
            b.config.window_height == 600,
            b.config.enable_plugins,
            b.config.plugin_directories@.len() == 1,
    {
        EngineBuilder { config: EngineConfig::default() }
    }

    pub fn window_title(self, title: String) -> (b: EngineBuilder)
        ensures
            b.config == (EngineConfig { window_title: title, ..self.config }),
    {
        let mut builder = self;
        builder.config.window_title = title;
        builder
    }

    pub fn window_size(self, width: u32, height: u32) -> (b: EngineBuilder)
        ensures
            b.config == (EngineConfig {
                window_width: width,
                window_height: height,
                ..self.config
            }),
    {
        let mut builder = self;
        builder.config.window_width = width;
        builder.config.window_height = height;
        builder
    }

    pub fn raytracer_config(self, config: RaytracerConfig) -> (b: EngineBuilder)
        ensures
            b.config == (EngineConfig { raytracer_config: config, ..self.config }),
    {
        let mut builder = self;
        builder.config.raytracer_config = config;
        builder
    }

    pub fn enable_plugins(self, enable: bool) -> (b: EngineBuilder)
        ensures
            b.config == (EngineConfig { enable_plugins: enable, ..self.config }),
    {
        let mut builder = self;
        builder.config.enable_plugins = enable;
        builder
    }

    /// Adds a directory in which plugins are looked for.
    pub fn plugin_directory(self, directory: String) -> (b: EngineBuilder)
        ensures
            b.config.plugin_directories@ == self.config.plugin_directories@.push(directory),
            b.config.window_title == self.config.window_title,
            b.config.window_width == self.config.window_width,
            b.config.window_height == self.config.window_height,
            b.config.raytracer_config == self.config.raytracer_config,
            b.config.enable_plugins == self.config.enable_plugins,
    {
        let mut builder = self;
        builder.config.plugin_directories.push(directory);
        builder
    }

    /// The engine: the processor renderer with the collected ray tracer
    /// configuration, everything else as it comes. `aspect_ratio` is the
    /// width of the ray tracer's image over its height, and `now` the
    /// reading of the clock, in nanoseconds.
    pub fn build(self, aspect_ratio: Scalar, now: u64) -> (e: Engine)
        requires
            self.config.raytracer_config.width * self.config.raytracer_config.height * 4
                <= u32::MAX,
        ensures
            e.config.renderer_mode == RendererMode::Cpu,
            e.config.renderer_config == self.config.raytracer_config,
            e.state == EngineState::Uninitialized,
            e.frame_buffer@.len() == self.config.raytracer_config.width
                * self.config.raytracer_config.height * 4,
    {
        let defaults = CoreEngineConfig::default();
        let core_config = CoreEngineConfig {
            renderer_mode: defaults.renderer_mode,
            renderer_config: self.config.raytracer_config,
            gpu_renderer_config: defaults.gpu_renderer_config,
            target_fps: defaults.target_fps,
            enable_vsync: defaults.enable_vsync,
        };
        Engine::new(core_config, aspect_ratio, now)
    }
}

impl Default for EngineBuilder {
    fn default() -> (b: EngineBuilder)
        ensures
            b.config.window_width == 800,
            b.config.window_height == 600,
    {
        EngineBuilder::new()
    }
}

} // verus!
