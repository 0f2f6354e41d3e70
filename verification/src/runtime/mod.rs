//! What runs the engine: events, input, the scene and the engine's state.

pub mod engine;
pub mod events;
pub mod input;
pub mod scene;
pub mod time;

pub use engine::{
    ActiveRenderer, Engine, EngineConfig, EngineError, EngineState, Frame, RendererMode, SurfaceReport,
};
pub use events::{EventListener, Events, KeyModifiers, MouseButton, SystemEvent};
pub use input::{Input, InputState, KeyState};
pub use scene::{Scene, SceneComponent, SceneConfig};
pub use time::Time;
