//! Elementary affine transforms and the builder capability that composes
//! them onto an entity's stored transform.
//!
//! Every builder left-composes an elementary matrix onto the entity's current
//! transform (`new = current * elementary`) and the entity then re-derives
//! whatever inverse it caches; no state with a stale inverse exists.

use crate::utils::fx::{fx_neg, Fx, SCALE};
use crate::utils::matrix::{spec_inverse, spec_mat_mul, Mat, MatV};
use vstd::prelude::*;

verus! {

pub open spec fn spec_translation(x: int, y: int, z: int) -> MatV {
    seq![
        seq![SCALE as int, 0int, 0int, x],
        seq![0int, SCALE as int, 0int, y],
        seq![0int, 0int, SCALE as int, z],
        seq![0int, 0int, 0int, SCALE as int],
    ]
}

pub open spec fn spec_scaling(x: int, y: int, z: int) -> MatV {
    seq![
        seq![x, 0int, 0int, 0int],
        seq![0int, y, 0int, 0int],
        seq![0int, 0int, z, 0int],
        seq![0int, 0int, 0int, SCALE as int],
    ]
}

/// Rotation about X from the sine and cosine of the angle.
pub open spec fn spec_rotation_x(s: int, c: int) -> MatV {
    seq![
        seq![SCALE as int, 0int, 0int, 0int],
        seq![0int, c, fx_neg(s), 0int],
        seq![0int, s, c, 0int],
        seq![0int, 0int, 0int, SCALE as int],
    ]
}

/// Rotation about Y from the sine and cosine of the angle.
pub open spec fn spec_rotation_y(s: int, c: int) -> MatV {
    seq![
        seq![c, 0int, s, 0int],
        seq![0int, SCALE as int, 0int, 0int],
        seq![fx_neg(s), 0int, c, 0int],
        seq![0int, 0int, 0int, SCALE as int],
    ]
}

/// Rotation about Z from the sine and cosine of the angle.
pub open spec fn spec_rotation_z(s: int, c: int) -> MatV {
    seq![
        seq![c, fx_neg(s), 0int, 0int],
        seq![s, c, 0int, 0int],
        seq![0int, 0int, SCALE as int, 0int],
        seq![0int, 0int, 0int, SCALE as int],
    ]
}

pub open spec fn spec_shearing(xy: int, xz: int, yx: int, yz: int, zx: int, zy: int) -> MatV {
    seq![
        seq![SCALE as int, xy, xz, 0int],
        seq![yx, SCALE as int, yz, 0int],
        seq![zx, zy, SCALE as int, 0int],
        seq![0int, 0int, 0int, SCALE as int],
    ]
}

/// One row of four scalars.
fn row4(a: Fx, b: Fx, c: Fx, d: Fx) -> (r: Vec<Fx>)
    ensures
        r@.len() == 4,
        r@.map_values(|v: Fx| v@) == seq![a@, b@, c@, d@],
{
    let mut row: Vec<Fx> = Vec::new();
    row.push(a);
    row.push(b);
    row.push(c);
    row.push(d);
    assert(row@.map_values(|v: Fx| v@) =~= seq![a@, b@, c@, d@]);
    row
}

/// A 4-by-4 matrix from its rows.
fn mat4(r0: Vec<Fx>, r1: Vec<Fx>, r2: Vec<Fx>, r3: Vec<Fx>) -> (r: Mat)
    requires
        r0@.len() == 4,
        r1@.len() == 4,
        r2@.len() == 4,
        r3@.len() == 4,
    ensures
        r.wf(),
        r.rows == 4,
        r.cols == 4,
        r@ == seq![
            r0@.map_values(|v: Fx| v@),
            r1@.map_values(|v: Fx| v@),
            r2@.map_values(|v: Fx| v@),
            r3@.map_values(|v: Fx| v@),
        ],
{
    let mut tab: Vec<Vec<Fx>> = Vec::new();
    tab.push(r0);
    tab.push(r1);
    tab.push(r2);
    tab.push(r3);
    let r = Mat { tab, rows: 4, cols: 4 };
    assert(r@ =~= seq![
        r.tab@[0]@.map_values(|v: Fx| v@),
        r.tab@[1]@.map_values(|v: Fx| v@),
        r.tab@[2]@.map_values(|v: Fx| v@),
        r.tab@[3]@.map_values(|v: Fx| v@),
    ]);
    r
}

pub fn translation_mat(x: Fx, y: Fx, z: Fx) -> (r: Mat)
    ensures
        r.wf(),
        r.rows == 4,
        r.cols == 4,
        r@ == spec_translation(x@, y@, z@),
{
    let o = Fx::one();
    let n = Fx::zero();
    let r = mat4(
        row4(o, n, n, x),
        row4(n, o, n, y),
        row4(n, n, o, z),
        row4(n, n, n, o),
    );
    assert(r@ =~~= spec_translation(x@, y@, z@));
    r
}

pub fn scaling_mat(x: Fx, y: Fx, z: Fx) -> (r: Mat)
    ensures
        r.wf(),
        r.rows == 4,
        r.cols == 4,
        r@ == spec_scaling(x@, y@, z@),
{
    let o = Fx::one();
    let n = Fx::zero();
    let r = mat4(
        row4(x, n, n, n),
        row4(n, y, n, n),
        row4(n, n, z, n),
        row4(n, n, n, o),
    );
    assert(r@ =~~= spec_scaling(x@, y@, z@));
    r
}

/// Rotation about X; `s` and `c` are the sine and cosine of the angle.
pub fn rotation_x_mat(s: Fx, c: Fx) -> (r: Mat)
    ensures
        r.wf(),
        r.rows == 4,
        r.cols == 4,
        r@ == spec_rotation_x(s@, c@),
{
    let o = Fx::one();
    let n = Fx::zero();
    let r = mat4(
        row4(o, n, n, n),
        row4(n, c, s.neg(), n),
        row4(n, s, c, n),
        row4(n, n, n, o),
    );
    assert(r@ =~~= spec_rotation_x(s@, c@));
    r
}

/// Rotation about Y; `s` and `c` are the sine and cosine of the angle.
pub fn rotation_y_mat(s: Fx, c: Fx) -> (r: Mat)
    ensures
        r.wf(),
        r.rows == 4,
        r.cols == 4,
        r@ == spec_rotation_y(s@, c@),
{
    let o = Fx::one();
    let n = Fx::zero();
    let r = mat4(
        row4(c, n, s, n),
        row4(n, o, n, n),
        row4(s.neg(), n, c, n),
        row4(n, n, n, o),
    );
    assert(r@ =~~= spec_rotation_y(s@, c@));
    r
}

/// Rotation about Z; `s` and `c` are the sine and cosine of the angle.
pub fn rotation_z_mat(s: Fx, c: Fx) -> (r: Mat)
    ensures
        r.wf(),
        r.rows == 4,
        r.cols == 4,
        r@ == spec_rotation_z(s@, c@),
{
    let o = Fx::one();
    let n = Fx::zero();
    let r = mat4(
        row4(c, s.neg(), n, n),
        row4(s, c, n, n),
        row4(n, n, o, n),
        row4(n, n, n, o),
    );
    assert(r@ =~~= spec_rotation_z(s@, c@));
    r
}

pub fn shearing_mat(xy: Fx, xz: Fx, yx: Fx, yz: Fx, zx: Fx, zy: Fx) -> (r: Mat)
    ensures
        r.wf(),
        r.rows == 4,
        r.cols == 4,
        r@ == spec_shearing(xy@, xz@, yx@, yz@, zx@, zy@),
{
    let o = Fx::one();
    let n = Fx::zero();
    let r = mat4(
        row4(o, xy, xz, n),
        row4(yx, o, yz, n),
        row4(zx, zy, o, n),
        row4(n, n, n, o),
    );
    assert(r@ =~~= spec_shearing(xy@, xz@, yx@, yz@, zx@, zy@));
    r
}

/// The builder capability: an entity holding a 4-by-4 transform that can be
/// translated, scaled, rotated and sheared by left-composition.
pub trait Transformable: Sized {
    /// The entity's forward transform.
    spec fn t_view(&self) -> MatV;

    /// The inverse the entity exposes; an entity that caches one keeps it
    /// equal to the inverse of the forward transform at all times.
    spec fn inv_view(&self) -> MatV;

    /// Everything outside the transform and its cached inverse agrees.
    spec fn same_but_transform(&self, other: &Self) -> bool;

    /// The entity's well-formedness.
    spec fn twf(&self) -> bool;

    /// Left-compose an elementary matrix onto the stored transform and
    /// re-derive the cached inverse; the one atomic way the transform moves.
    fn apply_transform(&mut self, transform: &Mat)
        requires
            old(self).twf(),
            transform.wf(),
            transform.rows == 4,
            transform.cols == 4,
        ensures
            final(self).twf(),
            final(self).t_view() == spec_mat_mul(old(self).t_view(), transform@, 4),
            final(self).inv_view() == spec_inverse(final(self).t_view()),
            final(self).same_but_transform(old(self)),
    ;

    fn translation(self, x: Fx, y: Fx, z: Fx) -> (r: Self)
        requires
            self.twf(),
        ensures
            r.twf(),
            r.t_view() == spec_mat_mul(self.t_view(), spec_translation(x@, y@, z@), 4),
            r.inv_view() == spec_inverse(r.t_view()),
            r.same_but_transform(&self),
    {
        let mut s = self;
        s.apply_transform(&translation_mat(x, y, z));
        s
    }

    fn scaling(self, x: Fx, y: Fx, z: Fx) -> (r: Self)
        requires
            self.twf(),
        ensures
            r.twf(),
            r.t_view() == spec_mat_mul(self.t_view(), spec_scaling(x@, y@, z@), 4),
            r.inv_view() == spec_inverse(r.t_view()),
            r.same_but_transform(&self),
    {
        let mut s = self;
        s.apply_transform(&scaling_mat(x, y, z));
        s
    }

    /// Rotation about X; the caller supplies the sine and cosine of the angle.
    fn rotation_x(self, s: Fx, c: Fx) -> (r: Self)
        requires
            self.twf(),
        ensures
            r.twf(),
            r.t_view() == spec_mat_mul(self.t_view(), spec_rotation_x(s@, c@), 4),
            r.inv_view() == spec_inverse(r.t_view()),
            r.same_but_transform(&self),
    {
        let mut sf = self;
        sf.apply_transform(&rotation_x_mat(s, c));
        sf
    }

    /// Rotation about Y; the caller supplies the sine and cosine of the angle.
    fn rotation_y(self, s: Fx, c: Fx) -> (r: Self)
        requires
            self.twf(),
        ensures
            r.twf(),
            r.t_view() == spec_mat_mul(self.t_view(), spec_rotation_y(s@, c@), 4),
            r.inv_view() == spec_inverse(r.t_view()),
            r.same_but_transform(&self),
    {
        let mut sf = self;
        sf.apply_transform(&rotation_y_mat(s, c));
        sf
    }

    /// Rotation about Z; the caller supplies the sine and cosine of the angle.
    fn rotation_z(self, s: Fx, c: Fx) -> (r: Self)
        requires
            self.twf(),
        ensures
            r.twf(),
            r.t_view() == spec_mat_mul(self.t_view(), spec_rotation_z(s@, c@), 4),
            r.inv_view() == spec_inverse(r.t_view()),
            r.same_but_transform(&self),
    {
        let mut sf = self;
        sf.apply_transform(&rotation_z_mat(s, c));
        sf
    }

    fn shearing(self, xy: Fx, xz: Fx, yx: Fx, yz: Fx, zx: Fx, zy: Fx) -> (r: Self)
        requires
            self.twf(),
        ensures
            r.twf(),
            r.t_view() == spec_mat_mul(
                self.t_view(),
                spec_shearing(xy@, xz@, yx@, yz@, zx@, zy@),
                4,
            ),
            r.inv_view() == spec_inverse(r.t_view()),
            r.same_but_transform(&self),
    {
        let mut s = self;
        s.apply_transform(&shearing_mat(xy, xz, yx, yz, zx, zy));
        s
    }
}

impl Transformable for Mat {
    open spec fn t_view(&self) -> MatV {
        self@
    }

    /// A bare matrix caches no inverse: it exposes the spec-level one.
    open spec fn inv_view(&self) -> MatV {
        spec_inverse(self@)
    }

    open spec fn same_but_transform(&self, other: &Self) -> bool {
        true
    }

    open spec fn twf(&self) -> bool {
        self.wf() && self.rows == 4 && self.cols == 4
    }

    fn apply_transform(&mut self, transform: &Mat) {
        let r = self.mul(transform);
        self.tab = r.tab;
    }
}

} // verus!
