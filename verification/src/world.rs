//! The scene: transforms, lights, shapes, the camera and the world aggregate
//! that resolves ray intersections.

pub mod camera;
pub mod cylinder;
pub mod light;
pub mod plane;
pub mod shape;
pub mod sphere;
pub mod transform;
pub mod w;
