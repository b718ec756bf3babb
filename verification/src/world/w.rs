//! The world aggregate: the camera, the lights and the shapes, and the
//! resolution of a ray against every shape into one ascending sequence of
//! intersections.

use crate::utils::fx::{Fx, SCALE};
use crate::utils::intersection_holder::IntersectionHolder;
use crate::utils::material::{IMaterial, MaterialV, PatternV};
use crate::utils::matrix::{spec_identity, spec_inverse, spec_mat_mul, Mat};
use crate::utils::ray::{Ray, RayV};
use crate::utils::vec3::{Vec3, V3};
use crate::world::camera::{spec_camera_steps, Camera, CameraV};
use crate::world::light::{Light, LightV};
use crate::world::shape::{spec_shape_intersect, Shape, ShapeKindV, ShapeV};
use crate::world::sphere::Sphere;
use crate::world::transform::{spec_scaling, Transformable};
use vstd::prelude::*;
use vstd::seq_lib::*;

verus! {

/// The mathematical value of an intersection record.
pub ghost struct IntersectionV {
    /// The hit shape, named by its index in the world's shape list.
    pub sp: int,
    /// The parametric hit distance along the ray.
    pub t: int,
}

/// One intersection: the hit shape named by its index in the world's shape
/// list, and the parametric hit distance.
#[derive(Clone, Copy, Debug, PartialEq, Eq, Structural)]
pub struct Intersection {
    pub sp: usize,
    pub t: Fx,
}

impl View for Intersection {
    type V = IntersectionV;

    open spec fn view(&self) -> IntersectionV {
        IntersectionV { sp: self.sp as int, t: self.t@ }
    }
}

/// The values of a sequence of intersection records.
pub open spec fn ix_map(s: Seq<Intersection>) -> Seq<IntersectionV> {
    s.map_values(|i: Intersection| i@)
}

/// Ascending by hit distance.
pub open spec fn sorted_by_t(s: Seq<IntersectionV>) -> bool {
    forall|i: int, j: int| 0 <= i < j < s.len() ==> #[trigger] s[i].t <= #[trigger] s[j].t
}

/// Where a new record of distance `t` goes: after every leading record at
/// distance `t` or less, so ties keep insertion order.
pub open spec fn spec_insert_pos(s: Seq<IntersectionV>, t: int) -> int
    decreases s.len(),
{
    if s.len() == 0 || s[0].t > t {
        0
    } else {
        1 + spec_insert_pos(s.subrange(1, s.len() as int), t)
    }
}

/// A record placed at its stable sorted position.
pub open spec fn spec_insert(s: Seq<IntersectionV>, x: IntersectionV) -> Seq<IntersectionV> {
    s.insert(spec_insert_pos(s, x.t), x)
}

/// One shape's first `k` hits, each placed at its sorted position.
pub open spec fn spec_add_hits(
    s: Seq<IntersectionV>,
    hits: Seq<int>,
    sp: int,
    k: int,
) -> Seq<IntersectionV>
    decreases k,
{
    if k <= 0 {
        s
    } else {
        spec_insert(spec_add_hits(s, hits, sp, k - 1), IntersectionV { sp, t: hits[k - 1] })
    }
}

/// The merged hits of the first `n` shapes.
pub open spec fn spec_hits_upto(w: WorldV, r: RayV, n: int) -> Seq<IntersectionV>
    decreases n,
{
    if n <= 0 {
        Seq::empty()
    } else {
        let prev = spec_hits_upto(w, r, n - 1);
        let h = spec_shape_intersect(w.shapes[n - 1], r);
        spec_add_hits(prev, h, n - 1, h.len() as int)
    }
}

/// Every hit of the ray against every shape of the world, merged into one
/// sequence ascending by distance; ties keep shape order, and within one
/// shape the geometry's own order.
pub open spec fn spec_world_hits(w: WorldV, r: RayV) -> Seq<IntersectionV> {
    spec_hits_upto(w, r, w.shapes.len() as int)
}

proof fn lemma_pos_bounds(s: Seq<IntersectionV>, t: int)
    ensures
        0 <= spec_insert_pos(s, t) <= s.len(),
        forall|k: int| 0 <= k < spec_insert_pos(s, t) ==> #[trigger] s[k].t <= t,
        spec_insert_pos(s, t) < s.len() ==> s[spec_insert_pos(s, t)].t > t,
    decreases s.len(),
{
    if s.len() == 0 || s[0].t > t {
    } else {
        let s1 = s.subrange(1, s.len() as int);
        lemma_pos_bounds(s1, t);
        let p = spec_insert_pos(s, t);
        assert forall|k: int| 0 <= k < p implies #[trigger] s[k].t <= t by {
            if k > 0 {
                assert(s[k] == s1[k - 1]);
            }
        }
        if p < s.len() {
            assert(s[p] == s1[p - 1]);
        }
    }
}

/// The characterization of the insertion point: every record before it is
/// at distance `t` or less, and the record at it, if any, lies beyond `t`.
proof fn lemma_pos_char(s: Seq<IntersectionV>, t: int, p: int)
    requires
        0 <= p <= s.len(),
        forall|k: int| 0 <= k < p ==> #[trigger] s[k].t <= t,
        p < s.len() ==> s[p].t > t,
    ensures
        spec_insert_pos(s, t) == p,
    decreases s.len(),
{
    if p == 0 {
    } else {
        assert(s[0].t <= t);
        let s1 = s.subrange(1, s.len() as int);
        assert forall|k: int| 0 <= k < p - 1 implies #[trigger] s1[k].t <= t by {
            assert(s1[k] == s[k + 1]);
        }
        if p - 1 < s1.len() {
            assert(s1[p - 1] == s[p]);
        }
        lemma_pos_char(s1, t, p - 1);
    }
}

/// Insertion at the stable position keeps the sequence ascending.
proof fn lemma_insert_keeps_sorted(s: Seq<IntersectionV>, x: IntersectionV)
    requires
        sorted_by_t(s),
    ensures
        sorted_by_t(spec_insert(s, x)),
{
    lemma_pos_bounds(s, x.t);
    let p = spec_insert_pos(s, x.t);
    let r = s.insert(p, x);
    s.insert_ensures(p, x);
    assert forall|i: int, j: int| 0 <= i < j < r.len() implies #[trigger] r[i].t
        <= #[trigger] r[j].t by {
        if i < p && j < p {
        } else if i < p && j == p {
            assert(r[i] == s[i] && r[j] == x);
        } else if i < p && j > p {
            assert(r[i] == s[i] && r[j] == s[j - 1]);
            if j - 1 == i {
                assert(s[i].t <= x.t);
                assert(r[j].t == s[i].t);
            }
        } else if i == p && j > p {
            assert(r[i] == x && r[j] == s[j - 1]);
            assert(s[p].t > x.t);
            if j - 1 > p {
                assert(s[p].t <= s[j - 1].t);
            }
        } else {
            assert(r[i] == s[i - 1] && r[j] == s[j - 1]);
        }
    }
}

/// Insertion only adds the new record: a bound on every shape index is kept.
proof fn lemma_insert_keeps_sp(s: Seq<IntersectionV>, x: IntersectionV, n: int)
    requires
        forall|k: int| 0 <= k < s.len() ==> 0 <= #[trigger] s[k].sp < n,
        0 <= x.sp < n,
    ensures
        forall|k: int|
            0 <= k < spec_insert(s, x).len() ==> 0 <= #[trigger] spec_insert(s, x)[k].sp < n,
{
    lemma_pos_bounds(s, x.t);
    let p = spec_insert_pos(s, x.t);
    let r = s.insert(p, x);
    s.insert_ensures(p, x);
    assert forall|k: int| 0 <= k < r.len() implies 0 <= #[trigger] r[k].sp < n by {
        if k < p {
            assert(r[k] == s[k]);
        } else if k == p {
            assert(r[k] == x);
        } else {
            assert(r[k] == s[k - 1]);
        }
    }
}

proof fn lemma_add_hits_props(s: Seq<IntersectionV>, hits: Seq<int>, sp: int, k: int, n: int)
    requires
        sorted_by_t(s),
        forall|q: int| 0 <= q < s.len() ==> 0 <= #[trigger] s[q].sp < n,
        0 <= sp < n,
    ensures
        sorted_by_t(spec_add_hits(s, hits, sp, k)),
        forall|q: int|
            0 <= q < spec_add_hits(s, hits, sp, k).len() ==> 0 <= #[trigger] spec_add_hits(
                s,
                hits,
                sp,
                k,
            )[q].sp < n,
    decreases k,
{
    if k <= 0 {
    } else {
        lemma_add_hits_props(s, hits, sp, k - 1, n);
        let prev = spec_add_hits(s, hits, sp, k - 1);
        lemma_insert_keeps_sorted(prev, IntersectionV { sp, t: hits[k - 1] });
        lemma_insert_keeps_sp(prev, IntersectionV { sp, t: hits[k - 1] }, n);
    }
}

/// The merged hit sequence is ascending by distance and every record names
/// a shape of the world.
pub proof fn lemma_world_hits_wf(w: WorldV, r: RayV)
    ensures
        sorted_by_t(spec_world_hits(w, r)),
        forall|k: int|
            0 <= k < spec_world_hits(w, r).len() ==> 0 <= #[trigger] spec_world_hits(w, r)[k].sp
                < w.shapes.len(),
{
    lemma_hits_upto_wf(w, r, w.shapes.len() as int);
}

proof fn lemma_hits_upto_wf(w: WorldV, r: RayV, n: int)
    requires
        n <= w.shapes.len(),
    ensures
        sorted_by_t(spec_hits_upto(w, r, n)),
        forall|k: int|
            0 <= k < spec_hits_upto(w, r, n).len() ==> 0 <= #[trigger] spec_hits_upto(w, r, n)[k].sp
                < w.shapes.len(),
    decreases n,
{
    if n <= 0 {
    } else {
        lemma_hits_upto_wf(w, r, n - 1);
        let h = spec_shape_intersect(w.shapes[n - 1], r);
        lemma_add_hits_props(
            spec_hits_upto(w, r, n - 1),
            h,
            n - 1,
            h.len() as int,
            w.shapes.len() as int,
        );
    }
}

/// Place one record at its stable sorted position.
fn insert_sorted(v: &mut Vec<Intersection>, x: Intersection)
    ensures
        ix_map(final(v)@) == spec_insert(ix_map(old(v)@), x@),
{
    let mut p: usize = 0;
    while p < v.len() && v[p].t.raw <= x.t.raw
        invariant
            p <= v@.len(),
            forall|k: int| 0 <= k < p ==> #[trigger] v@[k]@.t <= x@.t,
        decreases v@.len() - p,
    {
        p = p + 1;
    }
    proof {
        assert forall|k: int| 0 <= k < p implies #[trigger] ix_map(v@)[k].t <= x@.t by {
            assert(ix_map(v@)[k] == v@[k]@);
        }
        if (p as int) < v@.len() {
            assert(ix_map(v@)[p as int] == v@[p as int]@);
        }
        lemma_pos_char(ix_map(v@), x@.t, p as int);
    }
    let ghost s = ix_map(v@);
    v.insert(p, x);
    proof {
        s.insert_ensures(p as int, x@);
        assert(ix_map(v@) =~= s.insert(p as int, x@));
    }
}

/// The mathematical value of a world.
pub ghost struct WorldV {
    pub camera: CameraV,
    pub lights: Seq<LightV>,
    pub shapes: Seq<ShapeV>,
}

/// The scene aggregate: the camera, the light list and the shape list.
#[derive(Debug)]
pub struct World {
    pub camera: Camera,
    pub lights: Vec<Light>,
    pub shapes: Vec<Shape>,
}

impl View for World {
    type V = WorldV;

    open spec fn view(&self) -> WorldV {
        WorldV {
            camera: self.camera@,
            lights: self.lights@.map_values(|l: Light| l@),
            shapes: self.shapes@.map_values(|s: Shape| s@),
        }
    }
}

impl World {
    pub open spec fn wf(&self) -> bool {
        self.camera.wf() && (forall|i: int|
            0 <= i < self.shapes@.len() ==> (#[trigger] self.shapes@[i]).wf())
    }

    pub fn new(camera: Camera, lights: Vec<Light>, shapes: Vec<Shape>) -> (r: World)
        ensures
            r@.camera == camera@,
            r@.lights == lights@.map_values(|l: Light| l@),
            r@.shapes == shapes@.map_values(|s: Shape| s@),
            r.camera == camera,
            r.lights == lights,
            r.shapes == shapes,
    {
        World { camera, lights, shapes }
    }

    /// Resolve the ray against every shape: the merged hits, ascending by
    /// distance, are appended to `xs`.
    pub fn intersect(&self, ray: &Ray, xs: &mut IntersectionHolder<Intersection>)
        requires
            self.wf(),
        ensures
            ix_map(final(xs).items()) == ix_map(old(xs).items()) + spec_world_hits(self@, ray@),
            sorted_by_t(spec_world_hits(self@, ray@)),
            forall|k: int|
                0 <= k < spec_world_hits(self@, ray@).len() ==> 0 <= #[trigger] spec_world_hits(
                    self@,
                    ray@,
                )[k].sp < self@.shapes.len(),
            final(xs).spec_size() == old(xs).spec_size(),
            final(xs).spec_capacity() == old(xs).spec_capacity(),
    {
        proof {
            lemma_world_hits_wf(self@, ray@);
        }
        let mut merged: Vec<Intersection> = Vec::new();
        let mut ix: usize = 0;
        proof {
            assert(ix_map(merged@) =~= spec_hits_upto(self@, ray@, 0));
        }
        while ix < self.shapes.len()
            invariant
                self.wf(),
                ix <= self.shapes@.len(),
                ix_map(merged@) == spec_hits_upto(self@, ray@, ix as int),
            decreases self.shapes@.len() - ix,
        {
            let ts = self.shapes[ix].hits(ray);
            let ghost base = ix_map(merged@);
            let ghost h = spec_shape_intersect(self@.shapes[ix as int], ray@);
            let mut k: usize = 0;
            while k < ts.len()
                invariant
                    0 <= k <= ts@.len(),
                    ts@.map_values(|v: Fx| v@) == h,
                    ix_map(merged@) == spec_add_hits(base, h, ix as int, k as int),
                decreases ts@.len() - k,
            {
                proof {
                    assert(ts@.map_values(|v: Fx| v@)[k as int] == ts@[k as int]@);
                }
                insert_sorted(&mut merged, Intersection { sp: ix, t: ts[k] });
                k = k + 1;
            }
            proof {
                assert(self@.shapes[ix as int] == self.shapes@[ix as int]@);
                assert(ix_map(merged@) == spec_hits_upto(self@, ray@, ix as int + 1));
            }
            ix = ix + 1;
        }
        let mut k: usize = 0;
        while k < merged.len()
            invariant
                k <= merged@.len(),
                ix_map(merged@) == spec_world_hits(self@, ray@),
                ix_map(xs.items()) == ix_map(old(xs).items()) + ix_map(merged@.subrange(0, k as int)),
                xs.spec_size() == old(xs).spec_size(),
                xs.spec_capacity() == old(xs).spec_capacity(),
            decreases merged@.len() - k,
        {
            let ghost prev = xs.items();
            xs.push(merged[k]);
            proof {
                assert(ix_map(prev.push(merged@[k as int])) =~= ix_map(prev).push(
                    merged@[k as int]@,
                ));
                assert(ix_map(merged@.subrange(0, k as int + 1)) =~= ix_map(
                    merged@.subrange(0, k as int),
                ).push(merged@[k as int]@));
                assert(ix_map(xs.items()) =~= ix_map(old(xs).items()) + ix_map(
                    merged@.subrange(0, k as int + 1),
                ));
            }
            k = k + 1;
        }
        proof {
            assert(merged@.subrange(0, merged@.len() as int) =~= merged@);
        }
    }
}

/// The default two-sphere scene: a unit camera, one white light, an outer
/// colored matte sphere and an inner sphere at half scale.
pub open spec fn spec_default_world() -> WorldV {
    WorldV {
        camera: CameraV {
            width: 1000,
            height: 1000,
            x_step: spec_camera_steps(1000, 1000).1,
            y_step: spec_camera_steps(1000, 1000).2,
            ar: spec_camera_steps(1000, 1000).0,
            angle: SCALE as int,
            inverse: spec_inverse(spec_identity(4)),
        },
        lights: seq![
            LightV {
                position: V3 {
                    x: -10 * (SCALE as int),
                    y: 10 * (SCALE as int),
                    z: -10 * (SCALE as int),
                },
                intensity: V3 { x: SCALE as int, y: SCALE as int, z: SCALE as int },
            },
        ],
        shapes: seq![
            ShapeV {
                kind: ShapeKindV::Sphere,
                m: MaterialV {
                    pattern: PatternV::Unified(
                        V3 {
                            x: (SCALE as int) / 10 * 8,
                            y: SCALE as int,
                            z: (SCALE as int) / 10 * 6,
                        },
                    ),
                    diffuse: (SCALE as int) / 10 * 7,
                    specular: (SCALE as int) / 2,
                    ..crate::utils::material::spec_default_material()
                },
                t: spec_identity(4),
                inv: spec_inverse(spec_identity(4)),
            },
            ShapeV {
                kind: ShapeKindV::Sphere,
                m: crate::utils::material::spec_default_material(),
                t: spec_mat_mul(
                    spec_identity(4),
                    spec_scaling(
                        (SCALE as int) / 2,
                        (SCALE as int) / 2,
                        (SCALE as int) / 2,
                    ),
                    4,
                ),
                inv: spec_inverse(
                    spec_mat_mul(
                        spec_identity(4),
                        spec_scaling(
                            (SCALE as int) / 2,
                            (SCALE as int) / 2,
                            (SCALE as int) / 2,
                        ),
                        4,
                    ),
                ),
            },
        ],
    }
}

impl Default for World {
    fn default() -> (r: World)
        ensures
            r.wf(),
            r@ == spec_default_world(),
    {
        let camera = Camera::new(1000, 1000, Fx::one(), Mat::identity(4));
        let mut lights: Vec<Light> = Vec::new();
        lights.push(
            Light::new(
                Vec3::new(Fx::from_int(-10), Fx::from_int(10), Fx::from_int(-10)),
                Vec3::new(Fx::one(), Fx::one(), Fx::one()),
            ),
        );
        let half = Fx::from_raw(SCALE / 2);
        let mut shapes: Vec<Shape> = Vec::new();
        shapes.push(
            Shape::Sphere(
                Sphere::default().color(
                    Fx::from_raw(SCALE / 10 * 8),
                    Fx::one(),
                    Fx::from_raw(SCALE / 10 * 6),
                ).diffuse(Fx::from_raw(SCALE / 10 * 7)).specular(Fx::from_raw(SCALE / 2)),
            ),
        );
        shapes.push(Shape::Sphere(Sphere::default().scaling(half, half, half)));
        let r = World::new(camera, lights, shapes);
        proof {
            assert(r@.lights =~= spec_default_world().lights);
            assert(r@.shapes =~= spec_default_world().shapes);
        }
        r
    }
}

} // verus!
