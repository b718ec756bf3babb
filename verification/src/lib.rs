//! A small recursive ray tracer: camera rays, affine transforms, shapes,
//! Phong shading with shadows, and depth-bounded reflection.
//!
//! Every scalar is a fixed-point number counting millionths (see `utils::fx`),
//! so each operation of the pipeline is an exact, fully specified function of
//! its inputs.

pub mod laws;
pub mod rt;
pub mod utils;
pub mod world;
