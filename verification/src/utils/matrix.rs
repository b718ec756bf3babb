//! Square matrices over the fixed-point scalar: multiplication, transposition,
//! cofactor determinants and the adjugate inverse, plus the point and
//! direction transforms of affine geometry.

use crate::utils::fx::{abs_i, fx_add, fx_div, fx_mul, fx_neg, fx_sub, Fx, EPSILON, SCALE};
use crate::utils::vec3::{Vec3, V3};
use vstd::prelude::*;

verus! {

/// The mathematical value of a matrix: its grid of raw scalar values,
/// row-major.
pub type MatV = Seq<Seq<int>>;

pub open spec fn spec_identity(n: int) -> MatV {
    Seq::new(n as nat, |i: int| Seq::new(n as nat, |j: int| if i == j {
        SCALE as int
    } else {
        0
    }))
}

pub open spec fn spec_transpose(m: MatV, rows: int, cols: int) -> MatV {
    Seq::new(cols as nat, |i: int| Seq::new(rows as nat, |j: int| m[j][i]))
}

/// The row-by-column contraction of one result entry, summed left to right
/// over `k` terms.
pub open spec fn spec_rc(a: MatV, b: MatV, i: int, j: int, k: int) -> int
    decreases k,
{
    if k <= 0 {
        0
    } else {
        fx_add(spec_rc(a, b, i, j, k - 1), fx_mul(a[i][k - 1], b[k - 1][j]))
    }
}

pub open spec fn spec_mat_mul(a: MatV, b: MatV, n: int) -> MatV {
    Seq::new(a.len(), |i: int| Seq::new(b[0].len(), |j: int| spec_rc(a, b, i, j, n)))
}

/// The grid with row `r` and column `c` struck out.
pub open spec fn spec_submatrix(m: MatV, r: int, c: int) -> MatV {
    Seq::new(
        (m.len() - 1) as nat,
        |i: int|
            Seq::new(
                (m[0].len() - 1) as nat,
                |j: int|
                    m[if i < r {
                        i
                    } else {
                        i + 1
                    }][if j < c {
                        j
                    } else {
                        j + 1
                    }],
            ),
    )
}

/// Determinant by first-row cofactor expansion down to the 2-by-2 base case.
pub open spec fn spec_det(m: MatV) -> int
    decreases m.len(), m.len() + 1int,
{
    if m.len() <= 1 {
        if m.len() == 1 {
            m[0][0]
        } else {
            SCALE as int
        }
    } else if m.len() == 2 {
        fx_sub(fx_mul(m[0][0], m[1][1]), fx_mul(m[0][1], m[1][0]))
    } else {
        spec_det_sum(m, m.len() as int)
    }
}

/// Partial cofactor expansion of the first row, over columns `0 .. j`.
pub open spec fn spec_det_sum(m: MatV, j: int) -> int
    decreases m.len(), j,
{
    if j <= 0 {
        0
    } else {
        fx_add(spec_det_sum(m, j - 1), fx_mul(m[0][j - 1], spec_cof(m, 0, j - 1)))
    }
}

/// Cofactor: the minor, negated where row and column parities differ.
pub open spec fn spec_cof(m: MatV, r: int, c: int) -> int
    decreases m.len(), 0int,
{
    if m.len() <= 1 {
        0
    } else if r % 2 != c % 2 {
        fx_neg(spec_det(spec_submatrix(m, r, c)))
    } else {
        spec_det(spec_submatrix(m, r, c))
    }
}

/// Inverse as adjugate over determinant.  A zero determinant marks a
/// degenerate transform, a construction-time caller error; the identity grid
/// is the defined stand-in the library returns for it.
pub open spec fn spec_inverse(m: MatV) -> MatV {
    if spec_det(m) == 0 {
        spec_identity(m.len() as int)
    } else {
        Seq::new(m.len(), |i: int| Seq::new(m.len(), |j: int| fx_div(spec_cof(m, j, i), spec_det(m))))
    }
}

/// A point transformed by an affine 4-by-4 grid: the translation column
/// enters the sum.
pub open spec fn spec_mul_point(m: MatV, v: V3) -> V3 {
    V3 {
        x: fx_add(fx_add(fx_add(fx_mul(m[0][0], v.x), fx_mul(m[0][1], v.y)), fx_mul(m[0][2], v.z)), m[0][3]),
        y: fx_add(fx_add(fx_add(fx_mul(m[1][0], v.x), fx_mul(m[1][1], v.y)), fx_mul(m[1][2], v.z)), m[1][3]),
        z: fx_add(fx_add(fx_add(fx_mul(m[2][0], v.x), fx_mul(m[2][1], v.y)), fx_mul(m[2][2], v.z)), m[2][3]),
    }
}

/// A direction transformed by an affine 4-by-4 grid: the translation column
/// is ignored.
pub open spec fn spec_mul_dir(m: MatV, v: V3) -> V3 {
    V3 {
        x: fx_add(fx_add(fx_mul(m[0][0], v.x), fx_mul(m[0][1], v.y)), fx_mul(m[0][2], v.z)),
        y: fx_add(fx_add(fx_mul(m[1][0], v.x), fx_mul(m[1][1], v.y)), fx_mul(m[1][2], v.z)),
        z: fx_add(fx_add(fx_mul(m[2][0], v.x), fx_mul(m[2][1], v.y)), fx_mul(m[2][2], v.z)),
    }
}

/// The orientation part of a view transform: the (left, true-up, back)
/// basis derived from the eye, the target and the up hint.
pub open spec fn spec_view_orientation(from: V3, to: V3, up: V3) -> MatV {
    let forward = crate::utils::vec3::v3_norm(crate::utils::vec3::v3_sub(to, from));
    let left = crate::utils::vec3::v3_cross(forward, crate::utils::vec3::v3_norm(up));
    let true_up = crate::utils::vec3::v3_cross(left, forward);
    seq![
        seq![left.x, left.y, left.z, 0int],
        seq![true_up.x, true_up.y, true_up.z, 0int],
        seq![fx_neg(forward.x), fx_neg(forward.y), fx_neg(forward.z), 0int],
        seq![0int, 0int, 0int, SCALE as int],
    ]
}

/// The full view transform: the orientation composed with a translation
/// canceling the eye position.
pub open spec fn spec_view_transformation(from: V3, to: V3, up: V3) -> MatV {
    spec_mat_mul(
        spec_view_orientation(from, to, up),
        crate::world::transform::spec_translation(fx_neg(from.x), fx_neg(from.y), fx_neg(from.z)),
        4,
    )
}

/// Approximate equality of two grids: same dimensions, each entry within
/// `EPSILON` raw units.
pub open spec fn mat_approx(a: MatV, b: MatV) -> bool {
    a.len() == b.len() && (forall|i: int|
        0 <= i < a.len() ==> (#[trigger] a[i]).len() == b[i].len()) && (forall|i: int, j: int|
        0 <= i < a.len() && 0 <= j < a[i].len() ==> abs_i(#[trigger] a[i][j] - b[i][j])
            < EPSILON as int)
}

/// A matrix of fixed-point scalars with its dimensions.
#[derive(Clone, Debug)]
pub struct Mat {
    pub tab: Vec<Vec<Fx>>,
    pub rows: usize,
    pub cols: usize,
}

impl View for Mat {
    type V = MatV;

    open spec fn view(&self) -> MatV {
        self.tab@.map_values(|row: Vec<Fx>| row@.map_values(|v: Fx| v@))
    }
}

impl PartialEq for Mat {
    /// Approximate equality of the grids: same dimensions, each entry within
    /// the fixed tolerance.
    fn eq(&self, other: &Self) -> (r: bool) {
        if self.tab.len() != other.tab.len() {
            return false;
        }
        let mut i: usize = 0;
        while i < self.tab.len()
            invariant
                i <= self.tab@.len(),
                self.tab@.len() == other.tab@.len(),
                forall|p: int| 0 <= p < i ==> (#[trigger] self@[p]).len() == other@[p].len(),
                forall|p: int, q: int|
                    0 <= p < i && 0 <= q < self@[p].len() ==> abs_i(
                        #[trigger] self@[p][q] - other@[p][q],
                    ) < EPSILON as int,
            decreases self.tab@.len() - i,
        {
            if self.tab[i].len() != other.tab[i].len() {
                proof {
                    assert(self@[i as int].len() != other@[i as int].len());
                }
                return false;
            }
            let mut j: usize = 0;
            while j < self.tab[i].len()
                invariant
                    i < self.tab@.len(),
                    self.tab@.len() == other.tab@.len(),
                    j <= self.tab@[i as int]@.len(),
                    self.tab@[i as int]@.len() == other.tab@[i as int]@.len(),
                    forall|q: int|
                        0 <= q < j ==> abs_i(#[trigger] self@[i as int][q] - other@[i as int][q])
                            < EPSILON as int,
                decreases self.tab@[i as int]@.len() - j,
            {
                let d = self.tab[i][j].sub(other.tab[i][j]).abs();
                if d.raw >= EPSILON {
                    proof {
                        assert(abs_i(self@[i as int][j as int] - other@[i as int][j as int])
                            >= EPSILON as int);
                    }
                    return false;
                }
                j = j + 1;
            }
            i = i + 1;
        }
        true
    }
}

impl vstd::std_specs::cmp::PartialEqSpecImpl for Mat {
    open spec fn obeys_eq_spec() -> bool {
        true
    }

    open spec fn eq_spec(&self, other: &Mat) -> bool {
        mat_approx(self@, other@)
    }
}

impl Mat {
    /// The grid is rectangular and matches the stored dimensions.
    pub open spec fn wf(&self) -> bool {
        self.tab@.len() == self.rows && self.rows >= 1 && self.cols >= 1 && (forall|i: int|
            0 <= i < self.tab@.len() ==> (#[trigger] self.tab@[i])@.len() == self.cols)
    }

    pub fn new(tab: Vec<Vec<Fx>>) -> (r: Mat)
        requires
            tab@.len() >= 1,
            forall|i: int| 0 <= i < tab@.len() ==> (#[trigger] tab@[i])@.len() == tab@[0]@.len(),
            tab@[0]@.len() >= 1,
        ensures
            r.wf(),
            r.rows == tab@.len(),
            r.cols == tab@[0]@.len(),
            r@ == tab@.map_values(|row: Vec<Fx>| row@.map_values(|v: Fx| v@)),
    {
        let cols = tab[0].len();
        let rows = tab.len();
        Mat { tab, cols, rows }
    }

    /// The all-zero matrix of the given dimensions.
    pub fn default(cols: usize, rows: usize) -> (r: Mat)
        requires
            rows >= 1,
            cols >= 1,
        ensures
            r.wf(),
            r.rows == rows,
            r.cols == cols,
            r@ == Seq::new(rows as nat, |i: int| Seq::new(cols as nat, |j: int| 0int)),
    {
        let mut tab: Vec<Vec<Fx>> = Vec::new();
        let mut i: usize = 0;
        while i < rows
            invariant
                i <= rows,
                tab@.len() == i,
                forall|p: int|
                    0 <= p < i ==> (#[trigger] tab@[p])@.map_values(|v: Fx| v@) =~= Seq::new(
                        cols as nat,
                        |j: int| 0int,
                    ),
            decreases rows - i,
        {
            let mut row: Vec<Fx> = Vec::new();
            let mut j: usize = 0;
            while j < cols
                invariant
                    j <= cols,
                    row@.len() == j,
                    forall|q: int| 0 <= q < j ==> (#[trigger] row@[q])@ == 0int,
                decreases cols - j,
            {
                row.push(Fx::zero());
                j = j + 1;
            }
            assert(row@.map_values(|v: Fx| v@) =~= Seq::new(cols as nat, |j: int| 0int));
            tab.push(row);
            i = i + 1;
        }
        let r = Mat { tab, cols, rows };
        assert(r@ =~~= Seq::new(rows as nat, |i: int| Seq::new(cols as nat, |j: int| 0int)));
        r
    }

    /// The identity matrix of the given size.
    pub fn identity(cols: usize) -> (r: Mat)
        requires
            cols >= 1,
        ensures
            r.wf(),
            r.rows == cols,
            r.cols == cols,
            r@ == spec_identity(cols as int),
    {
        let mut tab: Vec<Vec<Fx>> = Vec::new();
        let mut i: usize = 0;
        while i < cols
            invariant
                i <= cols,
                tab@.len() == i,
                forall|p: int|
                    0 <= p < i ==> (#[trigger] tab@[p])@.map_values(|v: Fx| v@) =~= Seq::new(
                        cols as nat,
                        |j: int|
                            if p == j {
                                SCALE as int
                            } else {
                                0int
                            },
                    ),
            decreases cols - i,
        {
            let mut row: Vec<Fx> = Vec::new();
            let mut j: usize = 0;
            while j < cols
                invariant
                    j <= cols,
                    row@.len() == j,
                    forall|q: int|
                        0 <= q < j ==> (#[trigger] row@[q])@ == if i == q {
                            SCALE as int
                        } else {
                            0int
                        },
                decreases cols - j,
            {
                if i == j {
                    row.push(Fx::one());
                } else {
                    row.push(Fx::zero());
                }
                j = j + 1;
            }
            assert(row@.map_values(|v: Fx| v@) =~= Seq::new(
                cols as nat,
                |j: int|
                    if i as int == j {
                        SCALE as int
                    } else {
                        0int
                    },
            ));
            tab.push(row);
            i = i + 1;
        }
        let r = Mat { tab, cols, rows: cols };
        assert(r@ =~~= spec_identity(cols as int));
        r
    }

    /// A single-column matrix holding the vector, padded with `def` below.
    pub fn from_vec3(v3: &Vec3, rows: usize, def: Fx) -> (r: Mat)
        requires
            rows >= 3,
        ensures
            r.wf(),
            r.rows == rows,
            r.cols == 1,
            r@ == Seq::new(
                rows as nat,
                |i: int|
                    seq![
                        if i == 0 {
                            v3@.x
                        } else if i == 1 {
                            v3@.y
                        } else if i == 2 {
                            v3@.z
                        } else {
                            def@
                        },
                    ],
            ),
    {
        let mut tab: Vec<Vec<Fx>> = Vec::new();
        let mut i: usize = 0;
        while i < rows
            invariant
                i <= rows,
                rows >= 3,
                tab@.len() == i,
                forall|p: int|
                    0 <= p < i ==> (#[trigger] tab@[p])@.map_values(|v: Fx| v@) =~= seq![
                        if p == 0 {
                            v3@.x
                        } else if p == 1 {
                            v3@.y
                        } else if p == 2 {
                            v3@.z
                        } else {
                            def@
                        },
                    ],
            decreases rows - i,
        {
            let mut row: Vec<Fx> = Vec::new();
            if i == 0 {
                row.push(v3.x);
            } else if i == 1 {
                row.push(v3.y);
            } else if i == 2 {
                row.push(v3.z);
            } else {
                row.push(def);
            }
            assert(row@.map_values(|v: Fx| v@) =~= seq![
                if i as int == 0 {
                    v3@.x
                } else if i as int == 1 {
                    v3@.y
                } else if i as int == 2 {
                    v3@.z
                } else {
                    def@
                },
            ]);
            tab.push(row);
            i = i + 1;
        }
        let r = Mat { tab, cols: 1, rows };
        assert(r@ =~~= Seq::new(
            rows as nat,
            |i: int|
                seq![
                    if i == 0 {
                        v3@.x
                    } else if i == 1 {
                        v3@.y
                    } else if i == 2 {
                        v3@.z
                    } else {
                        def@
                    },
                ],
        ));
        r
    }

    pub fn transpose(&self) -> (r: Mat)
        requires
            self.wf(),
        ensures
            r.wf(),
            r.rows == self.cols,
            r.cols == self.rows,
            r@ == spec_transpose(self@, self.rows as int, self.cols as int),
    {
        let mut tab: Vec<Vec<Fx>> = Vec::new();
        let mut i: usize = 0;
        while i < self.cols
            invariant
                self.wf(),
                i <= self.cols,
                tab@.len() == i,
                forall|p: int|
                    0 <= p < i ==> (#[trigger] tab@[p])@.map_values(|v: Fx| v@) =~= Seq::new(
                        self.rows as nat,
                        |j: int| self@[j][p],
                    ),
            decreases self.cols - i,
        {
            let mut row: Vec<Fx> = Vec::new();
            let mut j: usize = 0;
            while j < self.rows
                invariant
                    self.wf(),
                    i < self.cols,
                    j <= self.rows,
                    row@.len() == j,
                    forall|q: int| 0 <= q < j ==> (#[trigger] row@[q])@ == self@[q][i as int],
                decreases self.rows - j,
            {
                row.push(self.tab[j][i]);
                j = j + 1;
            }
            assert(row@.map_values(|v: Fx| v@) =~= Seq::new(self.rows as nat, |j: int| self@[j][i as int]));
            tab.push(row);
            i = i + 1;
        }
        let r = Mat { tab, rows: self.cols, cols: self.rows };
        assert(r@ =~~= spec_transpose(self@, self.rows as int, self.cols as int));
        r
    }

    /// The grid with the given row and column struck out.
    pub fn submatrix(&self, row: usize, col: usize) -> (r: Mat)
        requires
            self.wf(),
            self.rows >= 2,
            self.cols >= 2,
            row < self.rows,
            col < self.cols,
        ensures
            r.wf(),
            r.rows == self.rows - 1,
            r.cols == self.cols - 1,
            r@ == spec_submatrix(self@, row as int, col as int),
    {
        let mut tab: Vec<Vec<Fx>> = Vec::new();
        let mut i: usize = 0;
        while i < self.rows - 1
            invariant
                self.wf(),
                self.rows >= 2,
                self.cols >= 2,
                row < self.rows,
                col < self.cols,
                i <= self.rows - 1,
                tab@.len() == i,
                forall|p: int|
                    0 <= p < i ==> (#[trigger] tab@[p])@.map_values(|v: Fx| v@)
                        =~= spec_submatrix(self@, row as int, col as int)[p],
            decreases self.rows - i,
        {
            let src_i: usize = if i < row {
                i
            } else {
                i + 1
            };
            let mut r_row: Vec<Fx> = Vec::new();
            let mut j: usize = 0;
            while j < self.cols - 1
                invariant
                    self.wf(),
                    self.cols >= 2,
                    col < self.cols,
                    src_i < self.rows,
                    j <= self.cols - 1,
                    r_row@.len() == j,
                    forall|q: int|
                        0 <= q < j ==> (#[trigger] r_row@[q])@ == self@[src_i as int][
                            if q < col {
                                q
                            } else {
                                q + 1
                            }
                        ],
                decreases self.cols - j,
            {
                let src_j: usize = if j < col {
                    j
                } else {
                    j + 1
                };
                r_row.push(self.tab[src_i][src_j]);
                j = j + 1;
            }
            assert(r_row@.map_values(|v: Fx| v@) =~= spec_submatrix(
                self@,
                row as int,
                col as int,
            )[i as int]);
            tab.push(r_row);
            i = i + 1;
        }
        let r = Mat { tab, rows: self.rows - 1, cols: self.cols - 1 };
        assert(r@ =~~= spec_submatrix(self@, row as int, col as int));
        r
    }

    /// Determinant by first-row cofactor expansion.
    pub fn determinant(&self) -> (r: Fx)
        requires
            self.wf(),
            self.rows == self.cols,
            self.rows >= 2,
        ensures
            r@ == spec_det(self@),
        decreases self.rows, 2int,
    {
        if self.rows == 2 {
            return self.tab[0][0].mul(self.tab[1][1]).sub(self.tab[0][1].mul(self.tab[1][0]));
        }
        let mut acc = Fx::zero();
        let mut j: usize = 0;
        while j < self.cols
            invariant
                self.wf(),
                self.rows == self.cols,
                self.rows >= 3,
                j <= self.cols,
                acc@ == spec_det_sum(self@, j as int),
            decreases self.cols - j, 3int,
        {
            acc = acc.add(self.tab[0][j].mul(self.cofactor(0, j)));
            j = j + 1;
        }
        acc
    }

    /// The determinant of the grid with the given row and column struck out.
    pub fn minor(&self, row: usize, col: usize) -> (r: Fx)
        requires
            self.wf(),
            self.rows == self.cols,
            self.rows >= 3,
            row < self.rows,
            col < self.cols,
        ensures
            r@ == spec_det(spec_submatrix(self@, row as int, col as int)),
        decreases self.rows, 0int,
    {
        self.submatrix(row, col).determinant()
    }

    /// The minor, negated where row and column parities differ.
    pub fn cofactor(&self, row: usize, col: usize) -> (r: Fx)
        requires
            self.wf(),
            self.rows == self.cols,
            self.rows >= 3,
            row < self.rows,
            col < self.cols,
        ensures
            r@ == spec_cof(self@, row as int, col as int),
        decreases self.rows, 1int,
    {
        if row % 2 != col % 2 {
            self.minor(row, col).neg()
        } else {
            self.minor(row, col)
        }
    }

    /// The adjugate inverse.  A zero determinant marks a degenerate
    /// transform, a construction-time caller error; the identity matrix is
    /// the defined result the library hands back for it.
    pub fn inverse(&self) -> (r: Mat)
        requires
            self.wf(),
            self.rows == self.cols,
            self.rows >= 3,
        ensures
            r.wf(),
            r.rows == self.rows,
            r.cols == self.cols,
            r@ == spec_inverse(self@),
    {
        let d = self.determinant();
        if d.raw == 0 {
            return Mat::identity(self.rows);
        }
        let mut tab: Vec<Vec<Fx>> = Vec::new();
        let mut i: usize = 0;
        while i < self.rows
            invariant
                self.wf(),
                self.rows == self.cols,
                self.rows >= 3,
                d@ == spec_det(self@),
                d@ != 0,
                i <= self.rows,
                tab@.len() == i,
                forall|p: int|
                    0 <= p < i ==> (#[trigger] tab@[p])@.map_values(|v: Fx| v@) =~= Seq::new(
                        self.rows as nat,
                        |j: int| fx_div(spec_cof(self@, j, p), spec_det(self@)),
                    ),
            decreases self.rows - i,
        {
            let mut row: Vec<Fx> = Vec::new();
            let mut j: usize = 0;
            while j < self.cols
                invariant
                    self.wf(),
                    self.rows == self.cols,
                    self.rows >= 3,
                    d@ == spec_det(self@),
                    i < self.rows,
                    j <= self.cols,
                    row@.len() == j,
                    forall|q: int|
                        0 <= q < j ==> (#[trigger] row@[q])@ == fx_div(
                            spec_cof(self@, q, i as int),
                            spec_det(self@),
                        ),
                decreases self.cols - j,
            {
                row.push(self.cofactor(j, i).div(d));
                j = j + 1;
            }
            assert(row@.map_values(|v: Fx| v@) =~= Seq::new(
                self.rows as nat,
                |j: int| fx_div(spec_cof(self@, j, i as int), spec_det(self@)),
            ));
            tab.push(row);
            i = i + 1;
        }
        let r = Mat { tab, rows: self.rows, cols: self.cols };
        assert(r@ =~~= spec_inverse(self@));
        r
    }

    /// Row-by-column matrix product.
    pub fn mul(&self, rhs: &Mat) -> (r: Mat)
        requires
            self.wf(),
            rhs.wf(),
            self.cols == rhs.rows,
        ensures
            r.wf(),
            r.rows == self.rows,
            r.cols == rhs.cols,
            r@ == spec_mat_mul(self@, rhs@, self.cols as int),
    {
        let mut tab: Vec<Vec<Fx>> = Vec::new();
        let mut i: usize = 0;
        while i < self.rows
            invariant
                self.wf(),
                rhs.wf(),
                self.cols == rhs.rows,
                i <= self.rows,
                tab@.len() == i,
                forall|p: int|
                    0 <= p < i ==> (#[trigger] tab@[p])@.map_values(|v: Fx| v@) =~= Seq::new(
                        rhs.cols as nat,
                        |j: int| spec_rc(self@, rhs@, p, j, self.cols as int),
                    ),
            decreases self.rows - i,
        {
            let mut row: Vec<Fx> = Vec::new();
            let mut j: usize = 0;
            while j < rhs.cols
                invariant
                    self.wf(),
                    rhs.wf(),
                    self.cols == rhs.rows,
                    i < self.rows,
                    j <= rhs.cols,
                    row@.len() == j,
                    forall|q: int|
                        0 <= q < j ==> (#[trigger] row@[q])@ == spec_rc(
                            self@,
                            rhs@,
                            i as int,
                            q,
                            self.cols as int,
                        ),
                decreases rhs.cols - j,
            {
                let mut acc = Fx::zero();
                let mut k: usize = 0;
                while k < self.cols
                    invariant
                        self.wf(),
                        rhs.wf(),
                        self.cols == rhs.rows,
                        i < self.rows,
                        j < rhs.cols,
                        k <= self.cols,
                        acc@ == spec_rc(self@, rhs@, i as int, j as int, k as int),
                    decreases self.cols - k,
                {
                    acc = acc.add(self.tab[i][k].mul(rhs.tab[k][j]));
                    k = k + 1;
                }
                row.push(acc);
                j = j + 1;
            }
            assert(row@.map_values(|v: Fx| v@) =~= Seq::new(
                rhs.cols as nat,
                |q: int| spec_rc(self@, rhs@, i as int, q, self.cols as int),
            ));
            tab.push(row);
            i = i + 1;
        }
        let r = Mat { tab, rows: self.rows, cols: rhs.cols };
        assert(r@ =~~= spec_mat_mul(self@, rhs@, self.cols as int));
        r
    }

    /// Transform a point: the translation column enters the sum.
    pub fn mul_point(&self, rhs: &Vec3) -> (r: Vec3)
        requires
            self.wf(),
            self.rows == 4,
            self.cols == 4,
        ensures
            r@ == spec_mul_point(self@, rhs@),
    {
        Vec3::new(
            self.tab[0][0].mul(rhs.x).add(self.tab[0][1].mul(rhs.y)).add(
                self.tab[0][2].mul(rhs.z),
            ).add(self.tab[0][3]),
            self.tab[1][0].mul(rhs.x).add(self.tab[1][1].mul(rhs.y)).add(
                self.tab[1][2].mul(rhs.z),
            ).add(self.tab[1][3]),
            self.tab[2][0].mul(rhs.x).add(self.tab[2][1].mul(rhs.y)).add(
                self.tab[2][2].mul(rhs.z),
            ).add(self.tab[2][3]),
        )
    }

    /// The camera's view transform: an orthonormal orientation built from
    /// the eye point, the target and the up hint, composed with a
    /// translation canceling the eye position.
    pub fn view_transformation(from: &Vec3, to: &Vec3, up: &Vec3) -> (r: Mat)
        ensures
            r.wf(),
            r.rows == 4,
            r.cols == 4,
            r@ == spec_view_transformation(from@, to@, up@),
    {
        let forward = to.sub(from).norm();
        let left = forward.cross(&up.norm());
        let true_up = left.cross(&forward);
        let mut tab: Vec<Vec<Fx>> = Vec::new();
        let mut r0: Vec<Fx> = Vec::new();
        r0.push(left.x);
        r0.push(left.y);
        r0.push(left.z);
        r0.push(Fx::zero());
        let mut r1: Vec<Fx> = Vec::new();
        r1.push(true_up.x);
        r1.push(true_up.y);
        r1.push(true_up.z);
        r1.push(Fx::zero());
        let mut r2: Vec<Fx> = Vec::new();
        r2.push(forward.x.neg());
        r2.push(forward.y.neg());
        r2.push(forward.z.neg());
        r2.push(Fx::zero());
        let mut r3: Vec<Fx> = Vec::new();
        r3.push(Fx::zero());
        r3.push(Fx::zero());
        r3.push(Fx::zero());
        r3.push(Fx::one());
        tab.push(r0);
        tab.push(r1);
        tab.push(r2);
        tab.push(r3);
        let orient = Mat { tab, rows: 4, cols: 4 };
        proof {
            assert(orient@ =~~= spec_view_orientation(from@, to@, up@));
        }
        crate::world::transform::Transformable::translation(
            orient,
            from.x.neg(),
            from.y.neg(),
            from.z.neg(),
        )
    }

    /// Transform a direction: the translation column is ignored.
    pub fn mul_dir(&self, rhs: &Vec3) -> (r: Vec3)
        requires
            self.wf(),
            self.rows == 4,
            self.cols == 4,
        ensures
            r@ == spec_mul_dir(self@, rhs@),
    {
        Vec3::new(
            self.tab[0][0].mul(rhs.x).add(self.tab[0][1].mul(rhs.y)).add(
                self.tab[0][2].mul(rhs.z),
            ),
            self.tab[1][0].mul(rhs.x).add(self.tab[1][1].mul(rhs.y)).add(
                self.tab[1][2].mul(rhs.z),
            ),
            self.tab[2][0].mul(rhs.x).add(self.tab[2][1].mul(rhs.y)).add(
                self.tab[2][2].mul(rhs.z),
            ),
        )
    }
}

} // verus!
