//! A small ray-tracing core: homogeneous points and vectors, square
//! transform matrices, rays, spheres, Phong shading and scene composition.
//!
//! All quantities are carried in saturating decimal fixed-point arithmetic
//! (six fractional digits), so every operation has an exact integer-level
//! specification.

pub mod camera;
pub mod canvas;
pub mod coord;
pub mod fx;
pub mod light;
pub mod material;
pub mod matrix;
pub mod ray;
pub mod render;
pub mod renderable;
pub mod sphere;
pub mod world;
