//! A ray: an origin point and a direction vector, with the position-at-t and
//! transform-by-matrix operations.

use crate::utils::fx::Fx;
use crate::utils::matrix::{spec_mul_dir, spec_mul_point, Mat, MatV};
use crate::utils::vec3::{v3_add, v3_approx, v3_mul_s, Vec3, V3};
use vstd::prelude::*;

verus! {

/// The mathematical value of a ray.
pub ghost struct RayV {
    pub org: V3,
    pub dir: V3,
}

/// The point at parameter `t`: origin plus `t` times the direction.
pub open spec fn spec_position(r: RayV, t: int) -> V3 {
    v3_add(r.org, v3_mul_s(r.dir, t))
}

/// The ray moved by an affine matrix: the origin as a point, the direction
/// as a direction.
pub open spec fn spec_ray_transform(r: RayV, m: MatV) -> RayV {
    RayV { org: spec_mul_point(m, r.org), dir: spec_mul_dir(m, r.dir) }
}

#[derive(Clone, Copy, Debug)]
pub struct Ray {
    pub org: Vec3,
    pub dir: Vec3,
}

impl View for Ray {
    type V = RayV;

    open spec fn view(&self) -> RayV {
        RayV { org: self.org@, dir: self.dir@ }
    }
}

impl PartialEq for Ray {
    /// Approximate equality of origin and direction.
    fn eq(&self, other: &Self) -> (r: bool) {
        self.org == other.org && self.dir == other.dir
    }
}

impl vstd::std_specs::cmp::PartialEqSpecImpl for Ray {
    open spec fn obeys_eq_spec() -> bool {
        true
    }

    open spec fn eq_spec(&self, other: &Ray) -> bool {
        v3_approx(self@.org, other@.org) && v3_approx(self@.dir, other@.dir)
    }
}

impl Ray {
    pub fn new(org: Vec3, dir: Vec3) -> (r: Ray)
        ensures
            r@ == (RayV { org: org@, dir: dir@ }),
    {
        Ray { org, dir }
    }

    pub fn position(&self, t: Fx) -> (r: Vec3)
        ensures
            r@ == spec_position(self@, t@),
    {
        self.org.add(&self.dir.mul_s(t))
    }

    pub fn transform(&self, m: &Mat) -> (r: Ray)
        requires
            m.wf(),
            m.rows == 4,
            m.cols == 4,
        ensures
            r@ == spec_ray_transform(self@, m@),
    {
        Ray { org: m.mul_point(&self.org), dir: m.mul_dir(&self.dir) }
    }
}

} // verus!
