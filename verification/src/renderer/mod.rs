//! Primitives, materials, lights, the camera and the two renderers.

pub mod camera;
pub mod geometry;
pub mod gpu_layout;
pub mod gpu_renderer;
pub mod light;
pub mod material;
pub mod primitives;
pub mod raytracer;
pub mod select;

pub use camera::{Camera, ProjectionType};
pub use gpu_layout::{CameraGpu, GpuRecord, MaterialGpu, PointLightGpu, SphereGpu};
pub use gpu_renderer::{
    BindingKind, BindingSlot, FramePlan, GpuRenderer, GpuRendererConfig, PresentMode, ResizeAction,
    SceneBuffers, TextureFormat,
};
pub use light::{AmbientLight, DirectionalLight, Light, LightContribution, PointLight, SpotLight};
pub use material::{
    Bend, DielectricMaterial, EmissiveMaterial, LambertianMaterial, Material, MaterialProperties,
    MetalMaterial, SharedMaterial,
};
pub use primitives::{
    Barycentric, BoxHit, Capsule, CapsuleHit, CapsulePart, CapsuleProbe, Cone, Crossing, Cube,
    Cylinder, Face, Plane, PlaneCrossing, Quadratic, Root, SceneObject, Slab, Span, Sphere,
    Triangle,
};
pub use raytracer::{Bounce, Found, Radiance, Raytracer, RaytracerConfig, Rgba8};
pub use select::Trial;
