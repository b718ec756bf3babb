//! Laws the library's operations obey, stated over the same spec functions
//! the contracts use and proved once for every input the statement admits.

use crate::utils::fx::{
    abs_i, fx_div, fx_mul, fx_neg, fx_sqrt, lemma_fx_mul_one, lemma_fx_mul_zero,
    lemma_fx_sqrt_bounds, lemma_fx_sqrt_unique, EPSILON, SCALE,
};
use crate::utils::matrix::{spec_identity, spec_mul_dir, spec_mul_point, spec_transpose};
use crate::utils::ray::{spec_position, spec_ray_transform, RayV};
use crate::utils::vec3::{v3_add, v3_dot, v3_mag, v3_norm, V3};
use crate::world::shape::{spec_normal_at, ShapeKindV, ShapeV};
use crate::world::transform::spec_translation;
use vstd::arithmetic::div_mod::{
    lemma_fundamental_div_mod, lemma_remainder_lower, lemma_remainder_upper,
};
use vstd::prelude::*;

verus! {

/// A bound comfortably clear of saturation: a quarter of the scalar range.
/// Both transform laws hold on values within it; near the edge of the range
/// the saturating arithmetic flattens sums and the laws give out.
pub open spec fn well_within_range(x: int) -> bool {
    abs_i(x) <= i64::MAX as int / 4
}

/// A coordinate bound of a million units, the widest scene the unit-length
/// law is stated for.
pub open spec fn scene_coord(x: int) -> bool {
    abs_i(x) <= 1_000_000 * (SCALE as int)
}

proof fn lemma_translation_moves_point(t: V3, p: V3)
    requires
        abs_i(t.x) <= i64::MAX as int / 2,
        abs_i(t.y) <= i64::MAX as int / 2,
        abs_i(t.z) <= i64::MAX as int / 2,
        abs_i(p.x) <= i64::MAX as int / 2,
        abs_i(p.y) <= i64::MAX as int / 2,
        abs_i(p.z) <= i64::MAX as int / 2,
    ensures
        spec_mul_point(spec_translation(t.x, t.y, t.z), p) == (V3 {
            x: p.x + t.x,
            y: p.y + t.y,
            z: p.z + t.z,
        }),
{
    lemma_fx_mul_one(p.x);
    lemma_fx_mul_one(p.y);
    lemma_fx_mul_one(p.z);
    lemma_fx_mul_zero(p.x);
    lemma_fx_mul_zero(p.y);
    lemma_fx_mul_zero(p.z);
}

proof fn lemma_translation_keeps_dir(t: V3, d: V3)
    requires
        abs_i(d.x) <= i64::MAX as int,
        abs_i(d.y) <= i64::MAX as int,
        abs_i(d.z) <= i64::MAX as int,
    ensures
        spec_mul_dir(spec_translation(t.x, t.y, t.z), d) == d,
{
    lemma_fx_mul_one(d.x);
    lemma_fx_mul_one(d.y);
    lemma_fx_mul_one(d.z);
    lemma_fx_mul_zero(d.x);
    lemma_fx_mul_zero(d.y);
    lemma_fx_mul_zero(d.z);
}

/// Ray transform is linear in translation: moving a ray by `t` and then
/// taking the position at `s` lands where the untransformed position moved
/// by `t` lands, exactly.
pub proof fn lemma_ray_translation(r: RayV, t: V3, s: int)
    requires
        well_within_range(r.org.x) && well_within_range(r.org.y) && well_within_range(r.org.z),
        well_within_range(t.x) && well_within_range(t.y) && well_within_range(t.z),
        scene_coord(r.dir.x) && scene_coord(r.dir.y) && scene_coord(r.dir.z),
        scene_coord(s),
    ensures
        spec_position(spec_ray_transform(r, spec_translation(t.x, t.y, t.z)), s) == v3_add(
            spec_position(r, s),
            t,
        ),
{
    lemma_translation_moves_point(t, r.org);
    lemma_translation_keeps_dir(t, r.dir);
    lemma_mul_coord_bound(r.dir.x, s);
    lemma_mul_coord_bound(r.dir.y, s);
    lemma_mul_coord_bound(r.dir.z, s);
}

/// The product of two scene coordinates stays well inside the scalar range.
proof fn lemma_mul_coord_bound(a: int, s: int)
    requires
        scene_coord(a),
        scene_coord(s),
    ensures
        abs_i(fx_mul(a, s)) <= 1_000_000_000_000_000_000,
{
    let b = 1_000_000 * (SCALE as int);
    assert(abs_i(a * s) <= b * b) by (nonlinear_arith)
        requires
            abs_i(a) <= b,
            abs_i(s) <= b,
            b == 1_000_000 * (SCALE as int),
    ;
    let q = abs_i(a * s) / (SCALE as int);
    lemma_fundamental_div_mod(abs_i(a * s), SCALE as int);
    assert(q * (SCALE as int) <= abs_i(a * s)) by {
        lemma_remainder_lower(abs_i(a * s), SCALE as int);
    }
    assert(q <= 1_000_000_000_000_000_000) by (nonlinear_arith)
        requires
            q * (SCALE as int) <= abs_i(a * s),
            abs_i(a * s) <= 1_000_000 * (SCALE as int) * (1_000_000 * (SCALE as int)),
            SCALE == 1_000_000,
            q >= 0,
    ;
    assert(q >= 0) by {
        vstd::arithmetic::div_mod::lemma_div_pos_is_pos(abs_i(a * s), SCALE as int);
    }
}

/// The inverse of a translation undoes it: pushing a point through the
/// translation by `t` and then through the translation by `-t` returns the
/// point, exactly.
pub proof fn lemma_translation_round_trip(p: V3, t: V3)
    requires
        well_within_range(p.x) && well_within_range(p.y) && well_within_range(p.z),
        well_within_range(t.x) && well_within_range(t.y) && well_within_range(t.z),
    ensures
        spec_mul_point(
            spec_translation(fx_neg(t.x), fx_neg(t.y), fx_neg(t.z)),
            spec_mul_point(spec_translation(t.x, t.y, t.z), p),
        ) == p,
{
    lemma_translation_moves_point(t, p);
    let moved = V3 { x: p.x + t.x, y: p.y + t.y, z: p.z + t.z };
    lemma_translation_moves_point(V3 { x: fx_neg(t.x), y: fx_neg(t.y), z: fx_neg(t.z) }, moved);
}

proof fn lemma_mul_point_identity(p: V3)
    requires
        abs_i(p.x) <= i64::MAX as int,
        abs_i(p.y) <= i64::MAX as int,
        abs_i(p.z) <= i64::MAX as int,
    ensures
        spec_mul_point(spec_identity(4), p) == p,
{
    lemma_fx_mul_one(p.x);
    lemma_fx_mul_one(p.y);
    lemma_fx_mul_one(p.z);
    lemma_fx_mul_zero(p.x);
    lemma_fx_mul_zero(p.y);
    lemma_fx_mul_zero(p.z);
}

proof fn lemma_transpose_identity()
    ensures
        spec_transpose(spec_identity(4), 4, 4) == spec_identity(4),
{
    assert(spec_transpose(spec_identity(4), 4, 4) =~~= spec_identity(4));
}

/// On an identity-transformed plane the surface normal is exactly the unit
/// Y axis, so its length is exactly one.
pub proof fn lemma_plane_identity_normal(sh: ShapeV, p: V3)
    requires
        sh.kind == ShapeKindV::Plane,
        sh.inv == spec_identity(4),
    ensures
        spec_normal_at(sh, p) == (V3 { x: 0, y: SCALE as int, z: 0 }),
        v3_mag(spec_normal_at(sh, p)) == SCALE as int,
{
    let s = SCALE as int;
    let axis = V3 { x: 0, y: s, z: 0 };
    lemma_transpose_identity();
    lemma_mul_point_identity(axis);
    lemma_fx_mul_one(s);
    lemma_fx_mul_zero(0);
    assert(v3_dot(axis, axis) == s);
    lemma_fx_sqrt_unique(s, s);
    assert(v3_mag(axis) == s);
    lemma_fx_div_scale(0);
    lemma_fx_div_scale(s);
    assert(v3_norm(axis) == axis);
    assert(spec_normal_at(sh, p) == axis);
}

/// Floor-division bounds for a non-negative dividend.
proof fn lemma_floor_div(a: int, b: int)
    requires
        a >= 0,
        b > 0,
    ensures
        a / b >= 0,
        b * (a / b) <= a,
        a < b * (a / b + 1),
{
    lemma_fundamental_div_mod(a, b);
    lemma_remainder_lower(a, b);
    lemma_remainder_upper(a, b);
    vstd::arithmetic::div_mod::lemma_div_pos_is_pos(a, b);
    assert(b * (a / b + 1) == b * (a / b) + b) by (nonlinear_arith);
}

/// A scalar squared: non-negative, exactly the floored square over `SCALE`.
proof fn lemma_fx_mul_self(x: int)
    requires
        scene_coord(x),
    ensures
        fx_mul(x, x) == (abs_i(x) * abs_i(x)) / (SCALE as int),
        0 <= fx_mul(x, x) <= 1_000_000_000_000_000_000,
        (SCALE as int) * fx_mul(x, x) <= abs_i(x) * abs_i(x),
        abs_i(x) * abs_i(x) < (SCALE as int) * (fx_mul(x, x) + 1),
{
    let s = SCALE as int;
    let a = abs_i(x);
    if x < 0 {
        assert(x * x == (-x) * (-x)) by (nonlinear_arith);
    }
    assert(a * a <= 1_000_000 * s * (1_000_000 * s)) by (nonlinear_arith)
        requires
            0 <= a <= 1_000_000 * s,
    ;
    lemma_floor_div(a * a, s);
    let q = (a * a) / s;
    assert(q <= 1_000_000_000_000_000_000);
}

/// Normalization lands within eight raw units of unit length, and each
/// component within eight raw units of the scalar one, for any vector of
/// scene-sized coordinates whose magnitude is at least half a unit.
pub proof fn lemma_norm_near_unit(v: V3)
    requires
        scene_coord(v.x),
        scene_coord(v.y),
        scene_coord(v.z),
        v3_mag(v) >= (SCALE as int) / 2,
    ensures
        abs_i(v3_mag(v3_norm(v)) - SCALE as int) <= 8,
        abs_i(v3_norm(v).x) <= SCALE as int + 8,
        abs_i(v3_norm(v).y) <= SCALE as int + 8,
        abs_i(v3_norm(v).z) <= SCALE as int + 8,
{
    let s = SCALE as int;
    let ax = abs_i(v.x);
    let ay = abs_i(v.y);
    let az = abs_i(v.z);
    lemma_fx_mul_self(v.x);
    lemma_fx_mul_self(v.y);
    lemma_fx_mul_self(v.z);
    let qx = fx_mul(v.x, v.x);
    let qy = fx_mul(v.y, v.y);
    let qz = fx_mul(v.z, v.z);
    let dd = qx + qy + qz;
    assert(v3_dot(v, v) == dd);
    let qq = ax * ax + ay * ay + az * az;
    assert(s * dd <= qq < s * (dd + 3));

    // The magnitude's square-root bounds.
    let m = v3_mag(v);
    assert(m == fx_sqrt(dd));
    assert(dd > 0) by {
        if dd <= 0 {
            assert(fx_sqrt(dd) == 0);
        }
    }
    lemma_fx_sqrt_bounds(dd);
    assert(m * m <= dd * s);
    assert(dd * s < (m + 1) * (m + 1));
    assert(m >= s / 2);
    assert(m * m <= qq) by (nonlinear_arith)
        requires
            m * m <= dd * s,
            s * dd <= qq,
            dd * s == s * dd,
    ;
    assert(qq <= m * m + 2 * m + 3 * s) by (nonlinear_arith)
        requires
            qq < s * dd + 3 * s,
            s * dd == dd * s,
            dd * s < (m + 1) * (m + 1),
    ;

    // Component bounds: no coordinate is much longer than the magnitude.
    assert(ax <= m + 4 && ay <= m + 4 && az <= m + 4) by (nonlinear_arith)
        requires
            ax >= 0 && ay >= 0 && az >= 0,
            ax * ax + ay * ay + az * az <= m * m + 2 * m + 3 * s,
            m >= s / 2,
            s == 1_000_000,
    ;

    // The normalized components.
    lemma_norm_component(v.x, m);
    lemma_norm_component(v.y, m);
    lemma_norm_component(v.z, m);
    let cx = abs_i(v3_norm(v).x);
    let cy = abs_i(v3_norm(v).y);
    let cz = abs_i(v3_norm(v).z);
    assert(cx == (ax * s) / m && cy == (ay * s) / m && cz == (az * s) / m);
    lemma_floor_div(ax * s, m);
    lemma_floor_div(ay * s, m);
    lemma_floor_div(az * s, m);

    assert(cx <= s + 8) by (nonlinear_arith)
        requires
            m * cx <= ax * s,
            ax <= m + 4,
            m >= s / 2,
            cx >= 0,
            s == 1_000_000,
    ;
    assert(cy <= s + 8) by (nonlinear_arith)
        requires
            m * cy <= ay * s,
            ay <= m + 4,
            m >= s / 2,
            cy >= 0,
            s == 1_000_000,
    ;
    assert(cz <= s + 8) by (nonlinear_arith)
        requires
            m * cz <= az * s,
            az <= m + 4,
            m >= s / 2,
            cz >= 0,
            s == 1_000_000,
    ;

    // The squared length of the normalized vector, in exact terms.
    let nn = cx * cx + cy * cy + cz * cz;
    lemma_sum_sq_upper(m, s, cx, cy, cz, ax, ay, az, nn, qq);
    assert(nn <= s * s + 16 * s) by (nonlinear_arith)
        requires
            m * m * nn <= s * s * qq,
            qq <= m * m + 2 * m + 3 * s,
            m >= s / 2,
            m > 0,
            s == 1_000_000,
            nn >= 0,
    ;
    let tt = ax + ay + az;
    assert(tt * tt <= 3 * qq) by (nonlinear_arith)
        requires
            tt == ax + ay + az,
            qq == ax * ax + ay * ay + az * az,
    ;
    assert(tt <= 2 * m) by (nonlinear_arith)
        requires
            tt >= 0,
            tt * tt <= 3 * qq,
            qq <= m * m + 2 * m + 3 * s,
            m >= s / 2,
            s == 1_000_000,
    ;
    lemma_sum_sq_lower(m, s, cx, cy, cz, ax, ay, az, nn, qq, tt);
    assert(nn >= s * s - 4 * s) by (nonlinear_arith)
        requires
            m * m * nn >= s * s * qq - 2 * m * s * tt,
            qq >= m * m,
            tt <= 2 * m,
            tt >= 0,
            m > 0,
            s > 0,
            nn <= s * s + 16 * s,
    ;

    // The magnitude of the normalized vector.
    let n = v3_norm(v);
    lemma_fx_mul_self_small(n.x);
    lemma_fx_mul_self_small(n.y);
    lemma_fx_mul_self_small(n.z);
    let dd2 = fx_mul(n.x, n.x) + fx_mul(n.y, n.y) + fx_mul(n.z, n.z);
    assert(v3_dot(n, n) == dd2);
    assert(s * dd2 <= nn < s * (dd2 + 3));
    assert(dd2 * s >= s * s - 7 * s) by (nonlinear_arith)
        requires
            s * dd2 > nn - 3 * s,
            nn >= s * s - 4 * s,
            s > 0,
            dd2 * s == s * dd2,
    ;
    assert(dd2 * s <= s * s + 16 * s) by (nonlinear_arith)
        requires
            s * dd2 <= nn,
            nn <= s * s + 16 * s,
            dd2 * s == s * dd2,
    ;
    assert(dd2 > 0) by (nonlinear_arith)
        requires
            dd2 * s >= s * s - 7 * s,
            s == 1_000_000,
    ;
    let m2 = fx_sqrt(dd2);
    lemma_fx_sqrt_bounds(dd2);
    assert(m2 <= s + 8) by (nonlinear_arith)
        requires
            m2 * m2 <= dd2 * s,
            dd2 * s <= s * s + 16 * s,
            m2 >= 0,
            s == 1_000_000,
    ;
    assert(m2 >= s - 4) by (nonlinear_arith)
        requires
            dd2 * s < (m2 + 1) * (m2 + 1),
            dd2 * s >= s * s - 7 * s,
            m2 >= 0,
            s == 1_000_000,
    ;
    assert(v3_mag(n) == m2);
}

/// A component of a normalized vector: its absolute value is the floored
/// scaled quotient by the magnitude.
proof fn lemma_norm_component(x: int, m: int)
    requires
        scene_coord(x),
        (SCALE as int) / 2 <= m,
    ensures
        abs_i(fx_div(x, m)) == (abs_i(x) * (SCALE as int)) / m,
        fx_div(x, m) == if x < 0 {
            -((abs_i(x) * (SCALE as int)) / m)
        } else {
            (abs_i(x) * (SCALE as int)) / m
        },
{
    let s = SCALE as int;
    let a = abs_i(x);
    assert(abs_i(x * s) == a * s) by (nonlinear_arith)
        requires
            a == abs_i(x),
            s > 0,
    ;
    lemma_floor_div(a * s, m);
    let c = (a * s) / m;
    assert(c * m <= a * s) by (nonlinear_arith)
        requires
            m * c <= a * s,
            m * c == c * m,
    ;
    assert(c <= 2 * a) by (nonlinear_arith)
        requires
            c * m <= a * s,
            m >= s / 2,
            c >= 0,
            a >= 0,
            s == 1_000_000,
    ;
    assert(c <= i64::MAX as int);
}

/// A near-unit scalar squared: exactly the floored square over `SCALE`.
proof fn lemma_fx_mul_self_small(x: int)
    requires
        abs_i(x) <= 2 * (SCALE as int),
    ensures
        fx_mul(x, x) == (abs_i(x) * abs_i(x)) / (SCALE as int),
        0 <= fx_mul(x, x) <= 4 * (SCALE as int),
        (SCALE as int) * fx_mul(x, x) <= abs_i(x) * abs_i(x),
        abs_i(x) * abs_i(x) < (SCALE as int) * (fx_mul(x, x) + 1),
{
    let s = SCALE as int;
    let a = abs_i(x);
    if x < 0 {
        assert(x * x == (-x) * (-x)) by (nonlinear_arith);
    }
    assert(a * a <= 2 * s * (2 * s)) by (nonlinear_arith)
        requires
            0 <= a <= 2 * s,
    ;
    lemma_floor_div(a * a, s);
    let q = (a * a) / s;
    assert(q <= 4 * s) by (nonlinear_arith)
        requires
            s * q <= a * a,
            a * a <= 2 * s * (2 * s),
            s == 1_000_000,
            q >= 0,
    ;
}

/// On an identity-transformed sphere or cylinder the surface normal comes
/// out unit-length to within the tolerance, for any surface point at least
/// half a unit from the origin.
pub proof fn lemma_radial_identity_normal_unit(sh: ShapeV, p: V3)
    requires
        sh.kind != ShapeKindV::Plane,
        sh.inv == spec_identity(4),
        scene_coord(p.x),
        scene_coord(p.y),
        scene_coord(p.z),
        v3_mag(p) >= (SCALE as int) / 2,
    ensures
        abs_i(v3_mag(spec_normal_at(sh, p)) - SCALE as int) < EPSILON as int,
{
    let s = SCALE as int;
    lemma_mul_point_identity(p);
    lemma_norm_near_unit(p);
    let u = v3_norm(p);
    lemma_transpose_identity();
    lemma_mul_point_identity(u);
    assert(spec_normal_at(sh, p) == v3_norm(u));
    lemma_norm_near_unit(u);
}

/// Summing the per-component square bounds: the scaled squared length of
/// the normalized vector does not exceed that of the vector it came from.
proof fn lemma_sum_sq_upper(
    m: int,
    s: int,
    cx: int,
    cy: int,
    cz: int,
    ax: int,
    ay: int,
    az: int,
    nn: int,
    qq: int,
)
    requires
        0 <= m * cx <= ax * s,
        0 <= m * cy <= ay * s,
        0 <= m * cz <= az * s,
        nn == cx * cx + cy * cy + cz * cz,
        qq == ax * ax + ay * ay + az * az,
        m > 0,
        s > 0,
    ensures
        m * m * nn <= s * s * qq,
{
    assert((m * cx) * (m * cx) <= (ax * s) * (ax * s)) by (nonlinear_arith)
        requires
            0 <= m * cx <= ax * s,
    ;
    assert((m * cy) * (m * cy) <= (ay * s) * (ay * s)) by (nonlinear_arith)
        requires
            0 <= m * cy <= ay * s,
    ;
    assert((m * cz) * (m * cz) <= (az * s) * (az * s)) by (nonlinear_arith)
        requires
            0 <= m * cz <= az * s,
    ;
    lemma_expand_products(m, s, cx, cy, cz, ax, ay, az, nn, qq);
}

/// Summing the per-component truncation bounds: the scaled squared length
/// of the normalized vector falls short of the unnormalized one's by at
/// most the truncation terms.
proof fn lemma_sum_sq_lower(
    m: int,
    s: int,
    cx: int,
    cy: int,
    cz: int,
    ax: int,
    ay: int,
    az: int,
    nn: int,
    qq: int,
    tt: int,
)
    requires
        m * cx >= 0,
        m * cy >= 0,
        m * cz >= 0,
        m * (cx + 1) > ax * s,
        m * (cy + 1) > ay * s,
        m * (cz + 1) > az * s,
        ax >= 0,
        ay >= 0,
        az >= 0,
        nn == cx * cx + cy * cy + cz * cz,
        qq == ax * ax + ay * ay + az * az,
        tt == ax + ay + az,
        m > 0,
        s > 0,
    ensures
        m * m * nn >= s * s * qq - 2 * m * s * tt,
{
    lemma_comp_sq_lower(m, s, cx, ax);
    lemma_comp_sq_lower(m, s, cy, ay);
    lemma_comp_sq_lower(m, s, cz, az);
    lemma_expand_products(m, s, cx, cy, cz, ax, ay, az, nn, qq);
    lemma_mul_distrib3(2 * m * s, ax, ay, az);
    assert(2 * m * s * ax == 2 * m * (ax * s)) by (nonlinear_arith);
    assert(2 * m * s * ay == 2 * m * (ay * s)) by (nonlinear_arith);
    assert(2 * m * s * az == 2 * m * (az * s)) by (nonlinear_arith);
}

/// The squared sums written out over their components.
proof fn lemma_expand_products(
    m: int,
    s: int,
    cx: int,
    cy: int,
    cz: int,
    ax: int,
    ay: int,
    az: int,
    nn: int,
    qq: int,
)
    requires
        nn == cx * cx + cy * cy + cz * cz,
        qq == ax * ax + ay * ay + az * az,
    ensures
        m * m * nn == (m * cx) * (m * cx) + (m * cy) * (m * cy) + (m * cz) * (m * cz),
        s * s * qq == (ax * s) * (ax * s) + (ay * s) * (ay * s) + (az * s) * (az * s),
{
    lemma_mul_distrib3(m * m, cx * cx, cy * cy, cz * cz);
    assert((m * cx) * (m * cx) == m * m * (cx * cx)) by (nonlinear_arith);
    assert((m * cy) * (m * cy) == m * m * (cy * cy)) by (nonlinear_arith);
    assert((m * cz) * (m * cz) == m * m * (cz * cz)) by (nonlinear_arith);
    lemma_mul_distrib3(s * s, ax * ax, ay * ay, az * az);
    assert((ax * s) * (ax * s) == s * s * (ax * ax)) by (nonlinear_arith);
    assert((ay * s) * (ay * s) == s * s * (ay * ay)) by (nonlinear_arith);
    assert((az * s) * (az * s) == s * s * (az * az)) by (nonlinear_arith);
}

/// One component's truncation bound, squared.
proof fn lemma_comp_sq_lower(m: int, s: int, c: int, a: int)
    requires
        m * c >= 0,
        m * (c + 1) > a * s,
        a >= 0,
        m > 0,
        s > 0,
    ensures
        (m * c) * (m * c) >= (a * s) * (a * s) - 2 * m * (a * s),
{
    assert(m * c > a * s - m) by (nonlinear_arith)
        requires
            m * (c + 1) > a * s,
    ;
    if a * s >= m {
        assert((m * c) * (m * c) >= (a * s - m) * (a * s - m)) by (nonlinear_arith)
            requires
                m * c >= a * s - m,
                a * s - m >= 0,
        ;
        assert((a * s - m) * (a * s - m) >= (a * s) * (a * s) - 2 * m * (a * s))
            by (nonlinear_arith);
    } else {
        assert((a * s) * (a * s) - 2 * m * (a * s) <= 0) by (nonlinear_arith)
            requires
                0 <= a * s < m,
        ;
        assert((m * c) * (m * c) >= 0) by (nonlinear_arith);
    }
}

/// A 2-by-2 grid with a zero row has determinant zero.
proof fn lemma_det2_zero_row(m: crate::utils::matrix::MatV, r: int)
    requires
        m.len() == 2,
        0 <= r < 2,
        m[r][0] == 0,
        m[r][1] == 0,
    ensures
        crate::utils::matrix::spec_det(m) == 0,
{
    lemma_fx_mul_zero(m[0][0]);
    lemma_fx_mul_zero(m[0][1]);
    lemma_fx_mul_zero(m[1][0]);
    lemma_fx_mul_zero(m[1][1]);
}

/// A 3-by-3 grid with a zero row has determinant zero.
proof fn lemma_det3_zero_row(m: crate::utils::matrix::MatV, r: int)
    requires
        m.len() == 3,
        forall|i: int| 0 <= i < 3 ==> (#[trigger] m[i]).len() == 3,
        0 <= r < 3,
        m[r][0] == 0,
        m[r][1] == 0,
        m[r][2] == 0,
    ensures
        crate::utils::matrix::spec_det(m) == 0,
{
    reveal_with_fuel(crate::utils::matrix::spec_det, 3);
    reveal_with_fuel(crate::utils::matrix::spec_det_sum, 5);
    if r == 0 {
        lemma_fx_mul_zero(crate::utils::matrix::spec_cof(m, 0, 0));
        lemma_fx_mul_zero(crate::utils::matrix::spec_cof(m, 0, 1));
        lemma_fx_mul_zero(crate::utils::matrix::spec_cof(m, 0, 2));
        assert(crate::utils::matrix::spec_det_sum(m, 1) == 0);
        assert(crate::utils::matrix::spec_det_sum(m, 2) == 0);
        assert(crate::utils::matrix::spec_det_sum(m, 3) == 0);
        assert(crate::utils::matrix::spec_det(m) == 0);
    } else {
        assert forall|k: int| 0 <= k < 3 implies #[trigger] crate::utils::matrix::spec_cof(m, 0, k)
            == 0 by {
            let sb = crate::utils::matrix::spec_submatrix(m, 0, k);
            assert(sb[r - 1][0] == m[r][if 0 < k {
                0int
            } else {
                1int
            }]);
            assert(sb[r - 1][1] == m[r][if 1 < k {
                1int
            } else {
                2int
            }]);
            lemma_det2_zero_row(sb, r - 1);
        }
        lemma_fx_mul_zero(m[0][0]);
        lemma_fx_mul_zero(m[0][1]);
        lemma_fx_mul_zero(m[0][2]);
        assert(crate::utils::matrix::spec_cof(m, 0, 0) == 0);
        assert(crate::utils::matrix::spec_cof(m, 0, 1) == 0);
        assert(crate::utils::matrix::spec_cof(m, 0, 2) == 0);
        assert(crate::utils::matrix::spec_det_sum(m, 0) == 0);
        assert(fx_mul(m[0][0], crate::utils::matrix::spec_cof(m, 0, 0)) == 0);
        assert(crate::utils::matrix::spec_det_sum(m, 1) == 0);
        assert(crate::utils::matrix::spec_det_sum(m, 2) == 0);
        assert(crate::utils::matrix::spec_det_sum(m, 3) == 0);
        assert(crate::utils::matrix::spec_det(m) == 0);
    }
}

proof fn lemma_det_identity3()
    ensures
        crate::utils::matrix::spec_det(spec_identity(3)) == SCALE as int,
{
    reveal_with_fuel(crate::utils::matrix::spec_det, 3);
    reveal_with_fuel(crate::utils::matrix::spec_det_sum, 5);
    let s = SCALE as int;
    let m = spec_identity(3);
    let sb = crate::utils::matrix::spec_submatrix(m, 0, 0);
    assert(sb.len() == 2 && sb[0][0] == s && sb[0][1] == 0 && sb[1][0] == 0 && sb[1][1] == s);
    lemma_fx_mul_one(s);
    lemma_fx_mul_zero(0);
    assert(crate::utils::matrix::spec_det(sb) == s);
    assert(crate::utils::matrix::spec_cof(m, 0, 0) == s);
    lemma_fx_mul_zero(crate::utils::matrix::spec_cof(m, 0, 1));
    lemma_fx_mul_zero(crate::utils::matrix::spec_cof(m, 0, 2));
}

proof fn lemma_det_identity4()
    ensures
        crate::utils::matrix::spec_det(spec_identity(4)) == SCALE as int,
{
    reveal_with_fuel(crate::utils::matrix::spec_det, 3);
    reveal_with_fuel(crate::utils::matrix::spec_det_sum, 6);
    let s = SCALE as int;
    let m = spec_identity(4);
    let sb = crate::utils::matrix::spec_submatrix(m, 0, 0);
    assert(sb =~~= spec_identity(3));
    lemma_det_identity3();
    assert(crate::utils::matrix::spec_cof(m, 0, 0) == s);
    lemma_fx_mul_one(s);
    lemma_fx_mul_zero(crate::utils::matrix::spec_cof(m, 0, 1));
    lemma_fx_mul_zero(crate::utils::matrix::spec_cof(m, 0, 2));
    lemma_fx_mul_zero(crate::utils::matrix::spec_cof(m, 0, 3));
    assert(m[0][1] == 0 && m[0][2] == 0 && m[0][3] == 0);
    assert(crate::utils::matrix::spec_det_sum(m, 1) == s);
    assert(crate::utils::matrix::spec_det_sum(m, 2) == s);
    assert(crate::utils::matrix::spec_det_sum(m, 3) == s);
    assert(crate::utils::matrix::spec_det_sum(m, 4) == s);
    assert(m.len() == 4);
    assert(crate::utils::matrix::spec_det(m) == s);
}

/// The adjugate inverse of the identity is exactly the identity, so a
/// freshly constructed shape's cached inverse is the identity grid.
pub proof fn lemma_inverse_identity()
    ensures
        crate::utils::matrix::spec_det(spec_identity(4)) == SCALE as int,
        crate::utils::matrix::spec_inverse(spec_identity(4)) == spec_identity(4),
{
    let s = SCALE as int;
    let m = spec_identity(4);
    lemma_det_identity4();
    let inv = crate::utils::matrix::spec_inverse(m);
    assert forall|i: int, j: int| 0 <= i < 4 && 0 <= j < 4 implies inv[i][j] == m[i][j] by {
        if i == j {
            let sb = crate::utils::matrix::spec_submatrix(m, i, i);
            assert(sb =~~= spec_identity(3));
            lemma_det_identity3();
            assert(crate::utils::matrix::spec_cof(m, j, i) == s);
            lemma_fx_div_scale(s);
        } else {
            let sb = crate::utils::matrix::spec_submatrix(m, j, i);
            let r0: int = if i < j {
                i
            } else {
                i - 1
            };
            assert(sb[r0][0] == 0 && sb[r0][1] == 0 && sb[r0][2] == 0);
            lemma_det3_zero_row(sb, r0);
            assert(crate::utils::matrix::spec_cof(m, j, i) == 0);
            lemma_fx_div_scale(0);
        }
    }
    assert(inv =~~= m);
}

/// For all points and all identity-transformed shapes the surface normal
/// comes out unit-length to within the tolerance; on a sphere or cylinder
/// the point must sit at least half a unit from the origin, where the
/// normal's direction is defined at all.
pub proof fn lemma_identity_shape_normal_unit(sh: ShapeV, p: V3)
    requires
        sh.t == spec_identity(4),
        sh.inv == crate::utils::matrix::spec_inverse(sh.t),
        scene_coord(p.x),
        scene_coord(p.y),
        scene_coord(p.z),
        sh.kind == ShapeKindV::Plane || v3_mag(p) >= (SCALE as int) / 2,
    ensures
        abs_i(v3_mag(spec_normal_at(sh, p)) - SCALE as int) < EPSILON as int,
{
    lemma_inverse_identity();
    if sh.kind == ShapeKindV::Plane {
        lemma_plane_identity_normal(sh, p);
    } else {
        lemma_radial_identity_normal_unit(sh, p);
    }
}

/// Distributing a factor over a three-term sum.
proof fn lemma_mul_distrib3(k: int, a: int, b: int, c: int)
    ensures
        k * (a + b + c) == k * a + k * b + k * c,
{
    vstd::arithmetic::mul::lemma_mul_is_distributive_add(k, a + b, c);
    vstd::arithmetic::mul::lemma_mul_is_distributive_add(k, a, b);
}

/// Dividing by one is exact.
proof fn lemma_fx_div_scale(x: int)
    requires
        i64::MIN as int <= x <= i64::MAX as int,
    ensures
        fx_div(x, SCALE as int) == x,
{
    let s = SCALE as int;
    if x >= 0 {
        vstd::arithmetic::div_mod::lemma_div_multiples_vanish(x, s);
        assert(s * x == x * s) by (nonlinear_arith);
        assert(abs_i(x * s) / abs_i(s) == (s * x) / s);
    } else {
        vstd::arithmetic::div_mod::lemma_div_multiples_vanish(-x, s);
        assert(s * (-x) == -(x * s)) by (nonlinear_arith);
        assert(abs_i(x * s) / abs_i(s) == (s * (-x)) / s);
    }
}

} // verus!
