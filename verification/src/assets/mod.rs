//! Assets, their handles, and the loaders that bring them in.

pub mod asset;
pub mod handle;
pub mod image;
pub mod loader;
pub mod manager;

pub use asset::{
    Asset, AssetMetadata, MaterialAsset, MeshAsset, SceneAsset, SceneCamera, SceneEntity,
    SceneLight, Vertex,
};
pub use image::ImageAsset;
pub use handle::{AssetHandle, HandleGenerator, UntypedHandle};
pub use loader::{AssetError, AssetLoader, LoaderRegistry};
pub use manager::AssetManager;
