//! The storage core of an entity-component-system world.
//!
//! A world hands out entity ids, keeps at most one component of each kind per
//! live entity, and once per frame lets every registered system pull component
//! values through a read-only accessor. Entities and per-kind component tables
//! are kept by `ecs_rust`; everything this crate says about them is proved
//! against the contracts collected in [`ecs`].

pub mod components;
pub mod error;
pub mod ecs;
pub mod model;
pub mod system;
pub mod world;

pub use components::{Component, ComponentType, GLTFModel, Position, Rotation, Scale};
pub use error::WorldError;
pub use model::WorldModel;
pub use system::{Accessor, System};
pub use world::AwWorld;
