//! The unit sphere in object space, placed in the world by its transform.

use crate::utils::fx::{fx_add, fx_div, fx_mul, fx_neg, fx_sqrt, fx_sub, Fx, SCALE};
use crate::utils::material::{IMaterial, Material};
use crate::utils::matrix::{spec_inverse, spec_mat_mul, Mat, MatV};
use crate::utils::ray::{spec_ray_transform, Ray, RayV};
use crate::utils::vec3::{v3_dot, Vec3};
use crate::world::shape::{spec_normal_at, ShapeKindV, ShapeV};
use crate::world::transform::Transformable;
use vstd::prelude::*;

verus! {

/// The hits of a ray against the unit sphere, solved in object space: the
/// quadratic from the ray-sphere equation, both roots in ascending order,
/// or none where the discriminant is negative.
pub open spec fn spec_sphere_hits(inv: MatV, r: RayV) -> Seq<int> {
    let or = spec_ray_transform(r, inv);
    let a = v3_dot(or.dir, or.dir);
    let b2 = v3_dot(or.dir, or.org);
    let c = fx_sub(v3_dot(or.org, or.org), SCALE as int);
    let d = fx_sub(fx_mul(b2, b2), fx_mul(a, c));
    if d < 0 {
        Seq::empty()
    } else {
        let ds = fx_sqrt(d);
        seq![fx_div(fx_sub(fx_neg(b2), ds), a), fx_div(fx_add(fx_neg(b2), ds), a)]
    }
}

#[derive(Clone, Debug)]
pub struct Sphere {
    pub m: Material,
    pub t: Mat,
    pub inverse: Mat,
}

impl View for Sphere {
    type V = ShapeV;

    open spec fn view(&self) -> ShapeV {
        ShapeV { kind: ShapeKindV::Sphere, m: self.m@, t: self.t@, inv: self.inverse@ }
    }
}

impl Sphere {
    /// Both matrices are 4-by-4 and the cached inverse is exactly the
    /// inverse of the stored transform.
    pub open spec fn wf(&self) -> bool {
        self.t.wf() && self.t.rows == 4 && self.t.cols == 4 && self.inverse.wf()
            && self.inverse.rows == 4 && self.inverse.cols == 4 && self.inverse@ == spec_inverse(
            self.t@,
        )
    }

    /// The ray's hits, both quadratic roots in ascending order, or none.
    pub fn intersect(&self, oray: &Ray) -> (r: Option<(Fx, Fx)>)
        requires
            self.wf(),
        ensures
            match r {
                Some((t0, t1)) => spec_sphere_hits(self@.inv, oray@) == seq![t0@, t1@],
                None => spec_sphere_hits(self@.inv, oray@) == Seq::<int>::empty(),
            },
    {
        let ray = oray.transform(&self.inverse);
        let a = ray.dir.dot(&ray.dir);
        let b2 = ray.dir.dot(&ray.org);
        let c = ray.org.dot(&ray.org).sub(Fx::one());
        let d = b2.mul(b2).sub(a.mul(c));
        if d.raw < 0 {
            return None;
        }
        let d_sqrt = d.sqrt();
        Some((b2.neg().sub(d_sqrt).div(a), b2.neg().add(d_sqrt).div(a)))
    }

    /// The world-space unit normal at a surface point.
    pub fn normal_at(&self, hitp: &Vec3) -> (r: Vec3)
        requires
            self.wf(),
        ensures
            r@ == spec_normal_at(self@, hitp@),
    {
        let obj_norm = self.inverse.mul_point(hitp).norm();
        let wrl_norm = self.inverse.transpose().mul_point(&obj_norm);
        wrl_norm.norm()
    }

    pub fn material(&self) -> (r: &Material)
        ensures
            r@ == self@.m,
    {
        &self.m
    }

    /// Replace the transform; the cached inverse is re-derived in the same
    /// step, so no stale-inverse state exists.
    pub fn set_transform(&mut self, m: Mat)
        requires
            m.wf(),
            m.rows == 4,
            m.cols == 4,
        ensures
            final(self).wf(),
            final(self).t@ == m@,
            final(self).inverse@ == spec_inverse(m@),
            final(self).m == old(self).m,
    {
        self.inverse = m.inverse();
        self.t = m;
    }
}

impl Default for Sphere {
    fn default() -> (r: Sphere)
        ensures
            r.wf(),
            r@.kind == ShapeKindV::Sphere,
            r@.m == crate::utils::material::spec_default_material(),
            r@.t == crate::utils::matrix::spec_identity(4),
    {
        let t = Mat::identity(4);
        let inverse = t.inverse();
        Sphere { m: Material::default(), t, inverse }
    }
}

impl Transformable for Sphere {
    open spec fn t_view(&self) -> MatV {
        self.t@
    }

    open spec fn inv_view(&self) -> MatV {
        self.inverse@
    }

    open spec fn same_but_transform(&self, other: &Self) -> bool {
        self.m == other.m
    }

    open spec fn twf(&self) -> bool {
        self.wf()
    }

    fn apply_transform(&mut self, transform: &Mat) {
        let t = self.t.mul(transform);
        self.inverse = t.inverse();
        self.t = t;
    }
}

impl IMaterial for Sphere {
    open spec fn mat(&self) -> Material {
        self.m
    }

    open spec fn with_mat(&self, m: Material) -> Sphere {
        Sphere { m, t: self.t, inverse: self.inverse }
    }

    fn get_material(&mut self) -> (r: &mut Material) {
        &mut self.m
    }
}

} // verus!
