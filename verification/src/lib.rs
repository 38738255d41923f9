//! Simulation core of a small real-time 3D engine: an entity-component
//! store, axis-aligned box and stationary plane colliders with snap
//! resolution, constant-acceleration gravity integration, and the
//! per-tick orchestration that ties them together.
//!
//! All geometry is carried in fixed-point scalars (thousandths of a world
//! unit), so every computation here is exact integer arithmetic.

pub mod camera;
pub mod gravity;
pub mod label;
pub mod laws;
pub mod light;
pub mod model;
pub mod math;
pub mod quat;
pub mod transform;
pub mod vec3;

pub use camera::Camera3d;
pub use camera::CameraController;
pub use gravity::Gravity;
pub use label::Label;
pub use light::Light;
pub use model::Model3d;
pub use math::FX_MAX;
pub use math::SCALE;
pub use quat::Quat;
pub use transform::Transform3d;
pub use vec3::Vec3;
pub use component::Component;
pub use ecs::HeliumECS;
pub use manager::HeliumManager;
pub use manager::RenderCommand;
pub use world::Entity;
pub use world::World;
pub mod table;
pub mod tick;
pub mod world;
pub mod component;
pub mod ecs;
pub mod manager;
pub mod collider;
