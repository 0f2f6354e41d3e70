//! Plugins that extend the engine.

pub mod loader;
pub mod manifest;
pub mod plugin;
pub mod registry;

pub use loader::PluginLoader;
pub use manifest::{PluginDependency, PluginManifest};
pub use plugin::{BasePlugin, Plugin, PluginContext, PluginError, PluginEvent, PluginState};
pub use registry::PluginRegistry;
