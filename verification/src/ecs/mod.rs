//! Entities, their components, and the systems that run over them.

pub mod component;
pub mod entity;
pub mod maps;
pub mod query;
pub mod system;
pub mod world;

pub use component::{Component, ComponentManager, ComponentStorage};
pub use entity::{Entity, EntityManager};
pub use query::{ComplexQuery, Query, QueryBuilder};
pub use system::{System, SystemScheduler};
pub use world::World;
