//! Value-level building blocks: the fixed-point scalar, vectors, matrices,
//! rays, materials, the intersection container and the shading context.

pub mod comp;
pub mod fx;
pub mod intersection_holder;
pub mod material;
pub mod matrix;
pub mod ray;
pub mod vec3;
