//! Core of a small real-time ray-tracing renderer.
//!
//! The library owns the scene and camera data model and the per-pixel
//! ray-tracing computation: sphere primitives, a single animated point
//! light, an exact-rational camera aspect ratio, the intersection /
//! shading / reflection algorithm, and the frame state machine that
//! drives them.  All scalar quantities are fixed-point integers (see
//! [`fixed`]), so every function here is verified; the windowing and GPU
//! glue around the library converts these snapshots to the byte layout
//! the display substrate wants.

pub mod camera;
pub mod driver;
pub mod fixed;
pub mod light;
pub mod scene;
pub mod shading;
pub mod sphere;
pub mod vec3;
