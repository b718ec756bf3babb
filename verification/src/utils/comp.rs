//! The shading context: the quantities derived once per nearest hit that the
//! shading and reflection steps consume.

use crate::utils::fx::{Fx, EPSILON};
use crate::utils::ray::{spec_position, Ray, RayV};
use crate::utils::vec3::{
    v3_add, v3_dot, v3_mul_s, v3_neg, v3_reflect, v3_sub, Vec3, V3,
};
use crate::world::shape::{spec_normal_at, Shape, ShapeV};
use vstd::prelude::*;

verus! {

/// The mathematical value of a shading context.
pub ghost struct CompV {
    pub sp: int,
    pub hitp: V3,
    pub normalv: V3,
    pub reflectv: V3,
    pub eyev: V3,
    pub over_point: V3,
    pub under_point: V3,
    pub inside: bool,
}

/// The context derived from a ray hitting shape `sp` at parameter `t`: the
/// hit point, the surface normal flipped toward the incoming ray where it
/// faces away, the reflection and eye vectors, and the two bias points
/// offset along the normal that secondary rays start from.
pub open spec fn spec_prepare_comp(r: RayV, sh: ShapeV, sp: int, t: int) -> CompV {
    let hitp = spec_position(r, t);
    let n0 = spec_normal_at(sh, hitp);
    let normalv = if v3_dot(v3_neg(r.dir), n0) < 0 {
        v3_neg(n0)
    } else {
        n0
    };
    CompV {
        sp,
        hitp,
        normalv,
        reflectv: v3_reflect(r.dir, normalv),
        eyev: v3_neg(r.dir),
        over_point: v3_add(hitp, v3_mul_s(normalv, EPSILON as int)),
        under_point: v3_sub(hitp, v3_mul_s(normalv, EPSILON as int)),
        inside: false,
    }
}

/// Per-hit derived quantities; `sp` names the hit shape by its index in the
/// world's shape list, the stable identity used for shadow self-exclusion.
#[derive(Clone, Copy, Debug)]
pub struct Comp {
    pub sp: usize,
    pub hitp: Vec3,
    pub normalv: Vec3,
    pub reflectv: Vec3,
    pub eyev: Vec3,
    pub over_point: Vec3,
    pub under_point: Vec3,
    pub inside: bool,
}

impl View for Comp {
    type V = CompV;

    open spec fn view(&self) -> CompV {
        CompV {
            sp: self.sp as int,
            hitp: self.hitp@,
            normalv: self.normalv@,
            reflectv: self.reflectv@,
            eyev: self.eyev@,
            over_point: self.over_point@,
            under_point: self.under_point@,
            inside: self.inside,
        }
    }
}

impl Comp {
    /// Build the shading context for a hit of `ray` on `sh`, which sits at
    /// index `sp` of the world's shape list, at parameter `t`.
    pub fn prepare_comp(ray: &Ray, sh: &Shape, sp: usize, t: Fx) -> (r: Comp)
        requires
            sh.wf(),
        ensures
            r@ == spec_prepare_comp(ray@, sh@, sp as int, t@),
    {
        let hitp = ray.position(t);
        let mut normalv = sh.normal_at(&hitp);
        if ray.dir.neg().dot(&normalv).raw < 0 {
            normalv = normalv.neg();
        }
        let eps = Fx::from_raw(EPSILON);
        Comp {
            sp,
            reflectv: ray.dir.reflect(&normalv),
            eyev: ray.dir.neg(),
            over_point: hitp.add(&normalv.mul_s(eps)),
            under_point: hitp.sub(&normalv.mul_s(eps)),
            hitp,
            normalv,
            inside: false,
        }
    }
}

} // verus!
