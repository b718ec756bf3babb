//! A point light: a position and a color-valued intensity.

use crate::utils::ray::{Ray, RayV};
use crate::utils::vec3::{v3_norm, v3_sub, Vec3, V3};
use vstd::prelude::*;

verus! {

/// The mathematical value of a light.
pub ghost struct LightV {
    pub position: V3,
    pub intensity: V3,
}

#[derive(Clone, Copy, Debug)]
pub struct Light {
    pub position: Vec3,
    pub intensity: Vec3,
}

impl View for Light {
    type V = LightV;

    open spec fn view(&self) -> LightV {
        LightV { position: self.position@, intensity: self.intensity@ }
    }
}

/// The ray a light induces at a surface point: it starts at the point and
/// runs along the unit vector from the light toward the point, so the light
/// itself lies at a negative parameter.
pub open spec fn spec_ray_at(l: LightV, hitp: V3) -> RayV {
    RayV { org: hitp, dir: v3_norm(v3_sub(hitp, l.position)) }
}

impl Light {
    pub fn new(position: Vec3, intensity: Vec3) -> (r: Light)
        ensures
            r@ == (LightV { position: position@, intensity: intensity@ }),
    {
        Light { position, intensity }
    }

    pub fn ray_at(&self, hitp: &Vec3) -> (r: Ray)
        ensures
            r@ == spec_ray_at(self@, hitp@),
    {
        let light_dir = hitp.sub(&self.position).norm();
        Ray::new(*hitp, light_dir)
    }
}

} // verus!
