//! Core of a CPU raytracer: the discrete arithmetic that shading is built
//! from, together with the deterministic row-band scheduling of the render
//! loop.
//!
//! Rendering itself works on 32-bit floating-point geometry, which lives in
//! the surrounding application; this crate holds the parts whose behaviour is
//! exact and proved: the 8-bit color algebra, material records and the colors
//! derived from texture samples, shadow attenuation of translucent occluders,
//! closest-hit selection, render configuration, and the partition of image
//! rows into worker bands whose reassembly is independent of the worker
//! count.

pub mod color;
pub mod config;
pub mod hit;
pub mod material;
pub mod render;
