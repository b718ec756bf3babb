//! The XZ plane at Y = 0 in object space, placed in the world by its
//! transform.

use crate::utils::fx::{abs_i, fx_div, fx_neg, Fx, EPSILON};
use crate::utils::material::{IMaterial, Material};
use crate::utils::matrix::{spec_inverse, Mat, MatV};
use crate::utils::ray::{spec_ray_transform, Ray, RayV};
use crate::utils::vec3::Vec3;
use crate::world::shape::{spec_normal_at, ShapeKindV, ShapeV};
use crate::world::transform::Transformable;
use vstd::prelude::*;

verus! {

/// The hits of a ray against the object-space plane: none where the ray is
/// near-parallel to the plane or the solved distance lies below the
/// tolerance, else the one finite hit.
pub open spec fn spec_plane_hits(inv: MatV, r: RayV) -> Seq<int> {
    let or = spec_ray_transform(r, inv);
    if abs_i(or.dir.y) < EPSILON as int {
        Seq::empty()
    } else {
        let t = fx_div(fx_neg(or.org.y), or.dir.y);
        if t < EPSILON as int {
            Seq::empty()
        } else {
            seq![t]
        }
    }
}

#[derive(Clone, Debug)]
pub struct Plane {
    pub m: Material,
    pub t: Mat,
    pub inverse: Mat,
}

impl View for Plane {
    type V = ShapeV;

    open spec fn view(&self) -> ShapeV {
        ShapeV { kind: ShapeKindV::Plane, m: self.m@, t: self.t@, inv: self.inverse@ }
    }
}

impl Plane {
    /// Both matrices are 4-by-4 and the cached inverse is exactly the
    /// inverse of the stored transform.
    pub open spec fn wf(&self) -> bool {
        self.t.wf() && self.t.rows == 4 && self.t.cols == 4 && self.inverse.wf()
            && self.inverse.rows == 4 && self.inverse.cols == 4 && self.inverse@ == spec_inverse(
            self.t@,
        )
    }

    /// The ray's one finite hit, or none on a miss.
    pub fn intersect(&self, oray: &Ray) -> (r: Option<Fx>)
        requires
            self.wf(),
        ensures
            match r {
                Some(t) => spec_plane_hits(self@.inv, oray@) == seq![t@],
                None => spec_plane_hits(self@.inv, oray@) == Seq::<int>::empty(),
            },
    {
        let ray = oray.transform(&self.inverse);
        if ray.dir.y.abs().raw < EPSILON {
            return None;
        }
        let t = ray.org.y.neg().div(ray.dir.y);
        if t.raw < EPSILON {
            return None;
        }
        Some(t)
    }

    /// The world-space unit normal: the object-space Y axis pushed through
    /// the transpose of the inverse transform, normalized.
    pub fn normal_at(&self, _hitp: &Vec3) -> (r: Vec3)
        requires
            self.wf(),
        ensures
            r@ == spec_normal_at(self@, _hitp@),
    {
        let obj_norm = Vec3::new(Fx::zero(), Fx::one(), Fx::zero());
        let wrl_norm = self.inverse.transpose().mul_point(&obj_norm);
        wrl_norm.norm()
    }

    pub fn material(&self) -> (r: &Material)
        ensures
            r@ == self@.m,
    {
        &self.m
    }

    /// Replace the transform; the cached inverse is re-derived in the same
    /// step, so no stale-inverse state exists.
    pub fn set_transform(&mut self, m: Mat)
        requires
            m.wf(),
            m.rows == 4,
            m.cols == 4,
        ensures
            final(self).wf(),
            final(self).t@ == m@,
            final(self).inverse@ == spec_inverse(m@),
            final(self).m == old(self).m,
    {
        self.inverse = m.inverse();
        self.t = m;
    }
}

impl Default for Plane {
    fn default() -> (r: Plane)
        ensures
            r.wf(),
            r@.kind == ShapeKindV::Plane,
            r@.m == crate::utils::material::spec_default_material(),
            r@.t == crate::utils::matrix::spec_identity(4),
    {
        let t = Mat::identity(4);
        let inverse = t.inverse();
        Plane { m: Material::default(), t, inverse }
    }
}

impl Transformable for Plane {
    open spec fn t_view(&self) -> MatV {
        self.t@
    }

    open spec fn inv_view(&self) -> MatV {
        self.inverse@
    }

    open spec fn same_but_transform(&self, other: &Self) -> bool {
        self.m == other.m
    }

    open spec fn twf(&self) -> bool {
        self.wf()
    }

    fn apply_transform(&mut self, transform: &Mat) {
        let t = self.t.mul(transform);
        self.inverse = t.inverse();
        self.t = t;
    }
}

impl IMaterial for Plane {
    open spec fn mat(&self) -> Material {
        self.m
    }

    open spec fn with_mat(&self, m: Material) -> Plane {
        Plane { m, t: self.t, inverse: self.inverse }
    }

    fn get_material(&mut self) -> (r: &mut Material) {
        &mut self.m
    }
}

} // verus!
