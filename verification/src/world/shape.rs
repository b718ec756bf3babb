//! The shape abstraction: a closed set of variants, each owning a material,
//! a transform and its cached inverse, dispatched as a tagged union.

use crate::utils::fx::{Fx, SCALE};
use crate::utils::material::{Material, MaterialV};
use crate::utils::matrix::{spec_mul_point, spec_transpose, Mat, MatV};
use crate::utils::ray::{Ray, RayV};
use crate::utils::vec3::{v3_norm, Vec3, V3};
use crate::world::cylinder::{spec_cylinder_hits, Cylinder};
use crate::world::plane::{spec_plane_hits, Plane};
use crate::world::sphere::{spec_sphere_hits, Sphere};
use vstd::prelude::*;

verus! {

/// Which geometry a shape has; a cylinder carries its height bound.
pub ghost enum ShapeKindV {
    Sphere,
    Plane,
    Cylinder(int),
}

/// The mathematical value of a shape: its geometry, material, transform and
/// cached inverse.
pub ghost struct ShapeV {
    pub kind: ShapeKindV,
    pub m: MaterialV,
    pub t: MatV,
    pub inv: MatV,
}

/// The parametric hit distances of a ray against a shape, in the order the
/// geometry produces them: none, one, or two.
pub open spec fn spec_shape_intersect(s: ShapeV, r: RayV) -> Seq<int> {
    match s.kind {
        ShapeKindV::Sphere => spec_sphere_hits(s.inv, r),
        ShapeKindV::Plane => spec_plane_hits(s.inv, r),
        ShapeKindV::Cylinder(h) => spec_cylinder_hits(s.inv, h, r),
    }
}

/// The world-space surface normal at a point: the object-space normal pushed
/// through the transpose of the inverse transform, then normalized.  The
/// plane's object normal is the constant Y axis; a sphere or cylinder takes
/// the normalized object-space position.
pub open spec fn spec_normal_at(s: ShapeV, p: V3) -> V3 {
    match s.kind {
        ShapeKindV::Plane => v3_norm(
            spec_mul_point(spec_transpose(s.inv, 4, 4), V3 { x: 0, y: SCALE as int, z: 0 }),
        ),
        _ => {
            let obj_norm = v3_norm(spec_mul_point(s.inv, p));
            v3_norm(spec_mul_point(spec_transpose(s.inv, 4, 4), obj_norm))
        },
    }
}

/// A scene primitive: one of the closed set of geometries.
#[derive(Clone, Debug)]
pub enum Shape {
    Sphere(Sphere),
    Plane(Plane),
    Cylinder(Cylinder),
}

impl View for Shape {
    type V = ShapeV;

    open spec fn view(&self) -> ShapeV {
        match self {
            Shape::Sphere(s) => s@,
            Shape::Plane(p) => p@,
            Shape::Cylinder(c) => c@,
        }
    }
}

impl Shape {
    pub open spec fn wf(&self) -> bool {
        match self {
            Shape::Sphere(s) => s.wf(),
            Shape::Plane(p) => p.wf(),
            Shape::Cylinder(c) => c.wf(),
        }
    }

    /// The ray's parametric hit distances against this shape.
    pub fn hits(&self, oray: &Ray) -> (r: Vec<Fx>)
        requires
            self.wf(),
        ensures
            r@.map_values(|v: Fx| v@) == spec_shape_intersect(self@, oray@),
    {
        let mut out: Vec<Fx> = Vec::new();
        match self {
            Shape::Sphere(s) => {
                if let Some((t0, t1)) = s.intersect(oray) {
                    out.push(t0);
                    out.push(t1);
                }
            },
            Shape::Plane(p) => {
                if let Some(t) = p.intersect(oray) {
                    out.push(t);
                }
            },
            Shape::Cylinder(c) => {
                if let Some((t0, t1)) = c.intersect(oray) {
                    out.push(t0);
                    out.push(t1);
                }
            },
        }
        proof {
            assert(out@.map_values(|v: Fx| v@) =~= spec_shape_intersect(self@, oray@));
        }
        out
    }

    /// The world-space unit surface normal at a point.
    pub fn normal_at(&self, hitp: &Vec3) -> (r: Vec3)
        requires
            self.wf(),
        ensures
            r@ == spec_normal_at(self@, hitp@),
    {
        match self {
            Shape::Sphere(s) => s.normal_at(hitp),
            Shape::Plane(p) => p.normal_at(hitp),
            Shape::Cylinder(c) => c.normal_at(hitp),
        }
    }

    pub fn material(&self) -> (r: &Material)
        ensures
            r@ == self@.m,
    {
        match self {
            Shape::Sphere(s) => s.material(),
            Shape::Plane(p) => p.material(),
            Shape::Cylinder(c) => c.material(),
        }
    }

    /// The cached inverse of the shape's transform.
    pub fn inverse(&self) -> (r: &Mat)
        ensures
            r@ == self@.inv,
            self.wf() ==> r.wf() && r.rows == 4 && r.cols == 4,
    {
        match self {
            Shape::Sphere(s) => &s.inverse,
            Shape::Plane(p) => &p.inverse,
            Shape::Cylinder(c) => &c.inverse,
        }
    }

    /// A world-space point brought into the shape's object space.
    pub fn world_point(&self, point: &Vec3) -> (r: Vec3)
        requires
            self.wf(),
        ensures
            r@ == spec_mul_point(self@.inv, point@),
    {
        self.inverse().mul_point(point)
    }
}

} // verus!
