//! The assets that the engine knows, as plain data.

use vstd::prelude::*;
use crate::math::color::Color;
use crate::math::scalar::Scalar;
use crate::math::transform::Transform;
use crate::math::vector::{Vec2, Vec3};

verus! {

/// Anything that can be loaded and kept under a handle.
pub trait Asset {
    /// Whether `name` can be the name that the asset gives of its type.
    /// Each type of asset says which that is; one that says nothing can
    /// give any.
    open spec fn called(&self, name: Seq<char>) -> bool {
        true
    }

    /// The name of the asset's type.
    fn asset_type(&self) -> (name: &'static str)
        ensures
            self.called(name@),
    ;
}

/// Where an asset came from. Times are seconds since the Unix epoch.
pub struct AssetMetadata {
    pub path: String,
    pub asset_type: String,
    pub size: u64,
    pub created: u64,
    pub modified: u64,
    pub dependencies: Vec<String>,
}

/// One corner of a mesh.
#[derive(Clone, Copy, Debug, PartialEq, Eq, Structural)]
pub struct Vertex {
    pub position: Vec3,
    pub normal: Vec3,
    pub uv: Vec2,
    pub color: Color,
}

/// A mesh of triangles: corners, and three indices into them for each
/// triangle.
pub struct MeshAsset {
    pub vertices: Vec<Vertex>,
    pub indices: Vec<u32>,
    pub metadata: AssetMetadata,
}

impl MeshAsset {
    /// Every index names a corner, and the indices come in threes.
    pub open spec fn well_indexed(&self) -> bool {
        &&& self.indices@.len() % 3 == 0
        &&& forall|k: int| 0 <= k < self.indices@.len() ==> self.indices@[k] < self.vertices@.len()
    }

    /// Whether the mesh is made of whole triangles on corners that exist.
    pub fn is_well_indexed(&self) -> (r: bool)
        ensures
            r == self.well_indexed(),
    {
        if self.indices.len() % 3 != 0 {
            return false;
        }
        let mut k: usize = 0;
        while k < self.indices.len()
            invariant
                k <= self.indices@.len(),
                forall|j: int| 0 <= j < k ==> self.indices@[j] < self.vertices@.len(),
            decreases self.indices@.len() - k,
        {
            if self.indices[k] as usize >= self.vertices.len() {
                return false;
            }
            k = k + 1;
        }
        true
    }

    /// The number of triangles, counting only whole ones.
    pub fn triangle_count(&self) -> (n: usize)
        ensures
            n == self.indices@.len() / 3,
    {
        self.indices.len() / 3
    }
}

impl Asset for MeshAsset {
    open spec fn called(&self, name: Seq<char>) -> bool {
        name == "Mesh"@
    }

    fn asset_type(&self) -> (name: &'static str) {
        "Mesh"
    }
}

/// A material as it is written in a file.
pub struct MaterialAsset {
    pub name: String,
    pub albedo: Color,
    pub metallic: Scalar,
    pub roughness: Scalar,
    pub specular: Scalar,
    pub emission: Color,
    pub ior: Scalar,
    pub albedo_texture: Option<String>,
    pub normal_texture: Option<String>,
    pub metallic_texture: Option<String>,
    pub roughness_texture: Option<String>,
    pub metadata: AssetMetadata,
}

impl Asset for MaterialAsset {
    open spec fn called(&self, name: Seq<char>) -> bool {
        name == "Material"@
    }

    fn asset_type(&self) -> (name: &'static str) {
        "Material"
    }
}

/// An entity of a scene file.
pub struct SceneEntity {
    pub name: String,
    pub transform: Transform,
    pub mesh: Option<String>,
    pub material: Option<String>,
}

/// A light of a scene file.
pub struct SceneLight {
    pub name: String,
    pub light_type: String,
    pub position: Vec3,
    pub direction: Vec3,
    pub color: Color,
    pub intensity: Scalar,
}

/// The camera of a scene file.
#[derive(Clone, Copy, Debug, PartialEq, Eq, Structural)]
pub struct SceneCamera {
    pub transform: Transform,
    pub fov: Scalar,
    pub near: Scalar,
    pub far: Scalar,
}

/// A scene as it is written in a file.
pub struct SceneAsset {
    pub name: String,
    pub entities: Vec<SceneEntity>,
    pub lights: Vec<SceneLight>,
    pub camera: SceneCamera,
    pub metadata: AssetMetadata,
}

impl Asset for SceneAsset {
    open spec fn called(&self, name: Seq<char>) -> bool {
        name == "Scene"@
    }

    fn asset_type(&self) -> (name: &'static str) {
        "Scene"
    }
}

} // verus!
