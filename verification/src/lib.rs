//! Navigation and view-state core of an interactive 3D model viewer.
//!
//! The library maintains a virtual camera over exact fixed-point arithmetic,
//! turns pointer input into camera motion, resolves the surface point a user
//! is interacting with by casting a ray against a triangulated mesh, and
//! derives the per-frame transforms and depth-range parameters that a
//! rendering backend consumes.

pub mod camera;
pub mod fixed;
pub mod focus;
pub mod geometry;
pub mod graphics;
pub mod input;
pub mod scene;
pub mod screen;
pub mod shell;
pub mod viewer;

pub use fixed::SCALE;
