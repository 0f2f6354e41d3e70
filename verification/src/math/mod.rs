//! Scalars, vectors, colours, rays and transforms as plain data.

pub mod bounds;
pub mod color;
pub mod matrix;
pub mod ray;
pub mod scalar;
pub mod transform;
pub mod vector;

pub use bounds::AABB;
pub use color::Color;
pub use matrix::Mat4;
pub use ray::{HitInfo, Ray};
pub use scalar::Scalar;
pub use transform::Transform;
pub use vector::{Quat, Vec2, Vec3, Vec4};
