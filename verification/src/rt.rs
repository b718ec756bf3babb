//! The recursive tracer: nearest-hit resolution, Phong shading with shadow
//! tests, and depth-bounded specular reflection.
//!
//! Every function here is a pure function of the world, the ray and the
//! depth; `spec_trace` states the whole computation, so one ray traced twice
//! against an unmodified world gives the identical color.

use crate::utils::comp::{spec_prepare_comp, Comp, CompV};
use crate::utils::fx::{fx_powi, Fx, SCALE};
use crate::utils::intersection_holder::IntersectionHolder;
use crate::utils::material::spec_get_color;
use crate::utils::ray::{Ray, RayV};
use crate::utils::vec3::{
    v3_add, v3_dot, v3_mag, v3_mul, v3_mul_s, v3_neg, v3_reflect, v3_sub, v3_zero, Vec3, V3,
};
use crate::world::light::{spec_ray_at, Light, LightV};
use crate::world::w::{
    ix_map, lemma_world_hits_wf, spec_world_hits, Intersection, IntersectionV, World, WorldV,
};
use vstd::prelude::*;

verus! {

/// The recursion cutoff: a trace deeper than this returns the background.
pub const MAX_DEPTH: u64 = 10;

/// The first record with a positive hit distance, scanning in order: hits
/// behind the ray origin are listed but never selected.
pub open spec fn spec_hit(xs: Seq<IntersectionV>) -> Option<IntersectionV>
    decreases xs.len(),
{
    if xs.len() == 0 {
        None
    } else if xs[0].t > 0 {
        Some(xs[0])
    } else {
        spec_hit(xs.subrange(1, xs.len() as int))
    }
}

proof fn lemma_hit_at(s: Seq<IntersectionV>, k: int)
    requires
        0 <= k <= s.len(),
        forall|j: int| 0 <= j < k ==> #[trigger] s[j].t <= 0,
        k < s.len() ==> s[k].t > 0,
    ensures
        spec_hit(s) == if k < s.len() {
            Some(s[k])
        } else {
            None::<IntersectionV>
        },
    decreases s.len(),
{
    if k == 0 {
        if s.len() > 0 && !(s[0].t > 0) {
            let s1 = s.subrange(1, s.len() as int);
            lemma_hit_at(s1, 0);
        }
    } else {
        assert(s[0].t <= 0);
        let s1 = s.subrange(1, s.len() as int);
        assert forall|j: int| 0 <= j < k - 1 implies #[trigger] s1[j].t <= 0 by {
            assert(s1[j] == s[j + 1]);
        }
        if k - 1 < s1.len() {
            assert(s1[k - 1] == s[k]);
        }
        lemma_hit_at(s1, k - 1);
    }
}

proof fn lemma_hit_in(s: Seq<IntersectionV>)
    ensures
        match spec_hit(s) {
            Some(x) => exists|k: int| 0 <= k < s.len() && s[k] == x,
            None => true,
        },
    decreases s.len(),
{
    if s.len() == 0 {
    } else if s[0].t > 0 {
        assert(s[0] == spec_hit(s)->Some_0);
    } else {
        let s1 = s.subrange(1, s.len() as int);
        lemma_hit_in(s1);
        if spec_hit(s1) is Some {
            let k1 = choose|k: int| 0 <= k < s1.len() && s1[k] == spec_hit(s1)->Some_0;
            assert(s[k1 + 1] == s1[k1]);
        }
    }
}

/// Whether any record occludes the light: some hit of another shape lies
/// strictly between the surface point and the light, which sits at
/// parameter `-dist` on the shadow ray.
pub open spec fn spec_is_shadow(xs: Seq<IntersectionV>, dist: int, sp: int) -> bool {
    exists|k: int|
        0 <= k < xs.len() && ((#[trigger] xs[k]).sp != sp && xs[k].t < 0 && xs[k].t + dist > 0)
}

/// The whole-number exponent a shininess scalar stands for.
pub open spec fn spec_shininess_exp(sh: int) -> nat {
    if sh <= 0 {
        0
    } else {
        (sh / (SCALE as int)) as nat
    }
}

/// One light's Phong contribution to a shading context: the ambient term
/// always; diffuse and specular only where the surface faces the light and
/// no other shape occludes it.
pub open spec fn spec_shade_hit(w: WorldV, c: CompV, l: LightV) -> V3 {
    let m = w.shapes[c.sp].m;
    let color = v3_mul(spec_get_color(m, c.hitp), l.intensity);
    let ray = spec_ray_at(l, c.over_point);
    let light_dot = v3_dot(v3_neg(ray.dir), c.normalv);
    let ambient = v3_mul_s(color, m.ambient);
    let dist = v3_mag(v3_sub(c.over_point, l.position));
    let lit = light_dot >= 0 && !spec_is_shadow(spec_world_hits(w, ray), dist, c.sp);
    let diff = if lit {
        v3_mul_s(v3_mul_s(color, m.diffuse), light_dot)
    } else {
        v3_zero()
    };
    let reflect = v3_reflect(ray.dir, c.normalv);
    let reflect_dot = v3_dot(reflect, c.eyev);
    let specular = if lit && reflect_dot > 0 {
        v3_mul_s(
            v3_mul_s(l.intensity, m.specular),
            fx_powi(reflect_dot, spec_shininess_exp(m.shininess)),
        )
    } else {
        v3_zero()
    };
    v3_add(v3_add(ambient, diff), specular)
}

/// The Phong contributions of the first `n` lights, summed onto `init`.
pub open spec fn spec_shade_fold(w: WorldV, c: CompV, init: V3, n: int) -> V3
    decreases n,
{
    if n <= 0 {
        init
    } else {
        v3_add(spec_shade_fold(w, c, init, n - 1), spec_shade_hit(w, c, w.lights[n - 1]))
    }
}

/// The reflected contribution: a recursive trace from the bias point along
/// the reflection vector, scaled by the reflective coefficient; zero where
/// the surface does not reflect or the depth cutoff is reached.
pub open spec fn spec_reflected(w: WorldV, c: CompV, depth: int) -> V3
    decreases 11 - depth, 0int,
{
    let m = w.shapes[c.sp].m;
    if m.reflective > 0 && depth < MAX_DEPTH as int {
        v3_mul_s(
            spec_trace(w, RayV { org: c.over_point, dir: c.reflectv }, depth + 1),
            m.reflective,
        )
    } else {
        v3_zero()
    }
}

/// The color of one ray: background past the depth cutoff or on a miss;
/// otherwise the reflected contribution plus every light's Phong term at
/// the nearest positive hit.
pub open spec fn spec_trace(w: WorldV, r: RayV, depth: int) -> V3
    decreases 11 - depth, 1int,
{
    if depth > MAX_DEPTH as int {
        v3_zero()
    } else {
        match spec_hit(spec_world_hits(w, r)) {
            None => v3_zero(),
            Some(nearest) => {
                let c = spec_prepare_comp(r, w.shapes[nearest.sp], nearest.sp, nearest.t);
                spec_shade_fold(w, c, spec_reflected(w, c, depth), w.lights.len() as int)
            },
        }
    }
}

/// The first record with a positive hit distance, or none.
fn first_hit(xs: &IntersectionHolder<Intersection>) -> (r: Option<Intersection>)
    ensures
        match r {
            Some(i) => spec_hit(ix_map(xs.items())) == Some(i@),
            None => spec_hit(ix_map(xs.items())) == None::<IntersectionV>,
        },
{
    let n = xs.len();
    let mut k: usize = 0;
    while k < n
        invariant
            n == xs.items().len(),
            k <= n,
            forall|j: int| 0 <= j < k ==> #[trigger] ix_map(xs.items())[j].t <= 0,
        decreases n - k,
    {
        let it = match xs.get(k) {
            Some(it) => it,
            None => {
                return None;
            },
        };
        if it.t.raw > 0 {
            proof {
                assert(ix_map(xs.items())[k as int] == xs.items()[k as int]@);
                lemma_hit_at(ix_map(xs.items()), k as int);
            }
            return Some(*it);
        }
        proof {
            assert(ix_map(xs.items())[k as int] == xs.items()[k as int]@);
        }
        k = k + 1;
    }
    proof {
        lemma_hit_at(ix_map(xs.items()), n as int);
    }
    None
}

/// Whether some other shape occludes the light along the shadow ray; `dist`
/// is the distance from the shadow-ray origin to the light.
pub fn is_shadow(world: &World, ray: &Ray, dist: Fx, sp: usize) -> (r: bool)
    requires
        world.wf(),
    ensures
        r == spec_is_shadow(spec_world_hits(world@, ray@), dist@, sp as int),
{
    let mut xs: IntersectionHolder<Intersection> = IntersectionHolder::new(world.shapes.len());
    world.intersect(ray, &mut xs);
    proof {
        assert(ix_map(xs.items()) =~= spec_world_hits(world@, ray@));
    }
    let n = xs.len();
    let mut k: usize = 0;
    while k < n
        invariant
            n == xs.items().len(),
            k <= n,
            ix_map(xs.items()) == spec_world_hits(world@, ray@),
            forall|j: int|
                0 <= j < k ==> !((#[trigger] ix_map(xs.items())[j]).sp != sp as int && ix_map(
                    xs.items(),
                )[j].t < 0 && ix_map(xs.items())[j].t + dist@ > 0),
        decreases n - k,
    {
        let it = match xs.get(k) {
            Some(it) => it,
            None => {
                return false;
            },
        };
        proof {
            assert(ix_map(xs.items())[k as int] == xs.items()[k as int]@);
        }
        if it.sp != sp && it.t.raw < 0 && (dist.raw as i128) + (it.t.raw as i128) > 0 {
            return true;
        }
        k = k + 1;
    }
    false
}

/// One light's Phong contribution to a shading context, with the shadow
/// test against the whole world.
pub fn shade_hit(world: &World, c: &Comp, light: &Light) -> (r: Vec3)
    requires
        world.wf(),
        c@.sp < world@.shapes.len(),
    ensures
        r@ == spec_shade_hit(world@, c@, light@),
{
    proof {
        assert(world@.shapes[c@.sp] == world.shapes@[c@.sp]@);
    }
    let m = *world.shapes[c.sp].material();
    let color = m.get_color(&c.hitp).mul(&light.intensity);
    let ray = light.ray_at(&c.over_point);
    let light_dot = ray.dir.neg().dot(&c.normalv);
    let ambient = color.mul_s(m.ambient);
    let dist = c.over_point.sub(&light.position).mag();
    let mut diff = Vec3::zero();
    let mut specular = Vec3::zero();
    if light_dot.raw >= 0 && !is_shadow(world, &ray, dist, c.sp) {
        diff = color.mul_s(m.diffuse).mul_s(light_dot);
        let reflect = ray.dir.reflect(&c.normalv);
        let reflect_dot = reflect.dot(&c.eyev);
        if reflect_dot.raw > 0 {
            let exp: u64 = if m.shininess.raw <= 0 {
                0
            } else {
                (m.shininess.raw as u64) / (SCALE as u64)
            };
            let factor = reflect_dot.powi(exp);
            specular = light.intensity.mul_s(m.specular).mul_s(factor);
        }
    }
    ambient.add(&diff).add(&specular)
}

/// The reflected contribution at a hit, bounded by the depth cutoff.
pub fn reflected_color(world: &World, comp: &Comp, depth: usize) -> (r: Vec3)
    requires
        world.wf(),
        comp@.sp < world@.shapes.len(),
    ensures
        r@ == spec_reflected(world@, comp@, depth as int),
    decreases 11 - depth as int, 0int,
{
    proof {
        assert(world@.shapes[comp@.sp] == world.shapes@[comp@.sp]@);
    }
    let m = *world.shapes[comp.sp].material();
    if m.reflective.raw > 0 && depth < MAX_DEPTH as usize {
        trace(world, &Ray::new(comp.over_point, comp.reflectv), depth + 1).mul_s(m.reflective)
    } else {
        Vec3::zero()
    }
}

/// The color of one ray through the world: a pure function of the world,
/// the ray and the depth, so tracing the same ray twice against an
/// unmodified world returns the identical color.
#[verifier::rlimit(80)]
pub fn trace(world: &World, ray: &Ray, depth: usize) -> (r: Vec3)
    requires
        world.wf(),
    ensures
        r@ == spec_trace(world@, ray@, depth as int),
    decreases 11 - depth as int, 1int,
{
    let bg = Vec3::zero();
    if depth > MAX_DEPTH as usize {
        return bg;
    }
    let mut xs: IntersectionHolder<Intersection> = IntersectionHolder::new(world.shapes.len());
    world.intersect(ray, &mut xs);
    proof {
        assert(ix_map(xs.items()) =~= spec_world_hits(world@, ray@));
    }
    match first_hit(&xs) {
        None => bg,
        Some(nearest) => {
            proof {
                lemma_world_hits_wf(world@, ray@);
                lemma_hit_in(spec_world_hits(world@, ray@));
                assert(nearest@.sp < world@.shapes.len());
                assert(world@.shapes[nearest@.sp] == world.shapes@[nearest@.sp]@);
            }
            let comp = Comp::prepare_comp(
                ray,
                &world.shapes[nearest.sp],
                nearest.sp,
                nearest.t,
            );
            let mut surface = reflected_color(world, &comp, depth);
            let ghost refl = surface@;
            let mut li: usize = 0;
            while li < world.lights.len()
                invariant
                    world.wf(),
                    li <= world.lights@.len(),
                    comp@.sp < world@.shapes.len(),
                    surface@ == spec_shade_fold(world@, comp@, refl, li as int),
                decreases world.lights@.len() - li,
            {
                proof {
                    assert(world@.lights[li as int] == world.lights@[li as int]@);
                }
                surface = surface.add(&shade_hit(world, &comp, &world.lights[li]));
                li = li + 1;
            }
            proof {
                assert(refl == spec_reflected(world@, comp@, depth as int));
                assert(surface@ == spec_shade_fold(
                    world@,
                    comp@,
                    spec_reflected(world@, comp@, depth as int),
                    world@.lights.len() as int,
                ));
                assert(spec_hit(spec_world_hits(world@, ray@)) == Some(nearest@));
                assert(comp@ == spec_prepare_comp(
                    ray@,
                    world@.shapes[nearest@.sp],
                    nearest@.sp,
                    nearest@.t,
                ));
            }
            surface
        },
    }
}

/// The tracer: a world and the per-ray entry point over it.
pub struct RayTracer {
    pub world: World,
}

impl RayTracer {
    pub fn new(world: World) -> (r: RayTracer)
        ensures
            r.world == world,
    {
        RayTracer { world }
    }

    /// Resize the camera's output; the scene stays as it is.
    pub fn update_size(&mut self, width: u32, height: u32)
        ensures
            final(self).world.camera@.width == width as int,
            final(self).world.camera@.height == height as int,
            final(self).world.camera@.angle == old(self).world.camera@.angle,
            final(self).world.camera@.inverse == old(self).world.camera@.inverse,
            final(self).world.camera.wf() == old(self).world.camera.wf(),
            final(self).world.lights == old(self).world.lights,
            final(self).world.shapes == old(self).world.shapes,
    {
        self.world.camera.update_size(width, height);
    }

    /// The color of one ray; see the free function `trace`.
    pub fn trace(&self, ray: &Ray, depth: usize) -> (r: Vec3)
        requires
            self.world.wf(),
        ensures
            r@ == spec_trace(self.world@, ray@, depth as int),
    {
        trace(&self.world, ray, depth)
    }

    pub fn world(&self) -> (r: &World)
        ensures
            *r == self.world,
    {
        &self.world
    }

    pub fn mut_world(&mut self) -> (r: &mut World)
        ensures
            *r == old(self).world,
            final(self).world == *final(r),
    {
        &mut self.world
    }
}

} // verus!
