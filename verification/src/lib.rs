//! A ray tracer whose geometry, materials, camera and integrator are verified.
//!
//! All scalar quantities are signed fixed-point numbers: an `i64` raw value
//! counts units of `1 / fx::FX_ONE`. Arithmetic saturates at `fx::FX_MAX`, and
//! every executable operation is specified exactly against an integer model,
//! so the geometric and optical rules proved here are exact statements about
//! the arithmetic the renderer performs.

pub mod camera;
pub mod color;
pub mod common;
pub mod config;
pub mod cuboid;
pub mod fx;
pub mod hittable;
pub mod hittable_list;
pub mod laws;
pub mod material;
pub mod mesh;
pub mod models;
pub mod photo;
pub mod ray;
pub mod render;
pub mod sphere;
pub mod stl_import;
pub mod triangle;
pub mod vec3;
