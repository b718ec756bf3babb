//! The scalar of the whole library: a fixed-point real number.
//!
//! A value counts millionths, so `raw == 1_500_000` stands for 1.5.  Every
//! operation saturates at the `i64` range and truncates toward zero where it
//! divides, which makes each of them a total, exactly specified function.

use vstd::arithmetic::div_mod::lemma_div_multiples_vanish;
use vstd::prelude::*;

verus! {

/// Raw units in 1.0: scalars count millionths.
pub const SCALE: i64 = 1_000_000;

/// Tolerance of approximate equality, in raw units (0.0001).
pub const EPSILON: i64 = 100;

/// Saturation of a mathematical integer into the `i64` range.
pub open spec fn sat(x: int) -> int {
    if x > i64::MAX as int {
        i64::MAX as int
    } else if x < i64::MIN as int {
        i64::MIN as int
    } else {
        x
    }
}

pub open spec fn abs_i(x: int) -> int {
    if x < 0 {
        -x
    } else {
        x
    }
}

/// Division truncating toward zero; division by zero yields zero, the
/// library's defined stand-in for a quotient the design leaves undefined.
pub open spec fn tdiv(a: int, b: int) -> int {
    if b == 0 {
        0
    } else if (a < 0) != (b < 0) {
        -(abs_i(a) / abs_i(b))
    } else {
        abs_i(a) / abs_i(b)
    }
}

pub open spec fn fx_add(a: int, b: int) -> int {
    sat(a + b)
}

pub open spec fn fx_sub(a: int, b: int) -> int {
    sat(a - b)
}

pub open spec fn fx_neg(a: int) -> int {
    sat(-a)
}

pub open spec fn fx_mul(a: int, b: int) -> int {
    sat(tdiv(a * b, SCALE as int))
}

pub open spec fn fx_div(a: int, b: int) -> int {
    sat(tdiv(a * (SCALE as int), b))
}

/// Integer square root, rounded down; zero on negative arguments.
pub open spec fn isqrt_s(n: int) -> int
    decreases n,
{
    if n <= 0 {
        0
    } else if (isqrt_s(n - 1) + 1) * (isqrt_s(n - 1) + 1) <= n {
        isqrt_s(n - 1) + 1
    } else {
        isqrt_s(n - 1)
    }
}

/// Square root of a scalar; zero on negative arguments, where the design
/// leaves the result undefined.
pub open spec fn fx_sqrt(a: int) -> int {
    if a <= 0 {
        0
    } else {
        isqrt_s(a * (SCALE as int))
    }
}

/// Integer power of a scalar, by repeated scalar multiplication.
pub open spec fn fx_powi(b: int, n: nat) -> int
    decreases n,
{
    if n == 0 {
        SCALE as int
    } else {
        fx_mul(fx_powi(b, (n - 1) as nat), b)
    }
}

/// Nearest whole number of units, halves rounded away from zero.
pub open spec fn round_units(x: int) -> int {
    if x >= 0 {
        (x + (SCALE as int) / 2) / (SCALE as int)
    } else {
        -((-x + (SCALE as int) / 2) / (SCALE as int))
    }
}

/// Whether a scalar rounds to an even number of units.
pub open spec fn rounds_even(x: int) -> bool {
    abs_i(round_units(x)) % 2 == 0
}

/// A real number in fixed-point representation: `raw` counts millionths.
#[derive(Clone, Copy, Debug, PartialEq, Eq, Structural)]
pub struct Fx {
    pub raw: i64,
}

impl View for Fx {
    type V = int;

    open spec fn view(&self) -> int {
        self.raw as int
    }
}

/// Saturation of an `i128` intermediate back into the scalar range.
fn clamp_i64(x: i128) -> (r: i64)
    ensures
        r as int == sat(x as int),
{
    if x > i64::MAX as i128 {
        i64::MAX
    } else if x < i64::MIN as i128 {
        i64::MIN
    } else {
        x as i64
    }
}

/// Truncating division on the `i128` intermediates of scalar arithmetic.
fn tdiv_i128(a: i128, b: i128) -> (r: i128)
    requires
        a > i128::MIN,
        b > i128::MIN,
    ensures
        r as int == tdiv(a as int, b as int),
{
    if b == 0 {
        return 0;
    }
    let ua: u128 = if a < 0 {
        (-a) as u128
    } else {
        a as u128
    };
    let ub: u128 = if b < 0 {
        (-b) as u128
    } else {
        b as u128
    };
    let q: u128 = ua / ub;
    proof {
        assert(ua as int == abs_i(a as int));
        assert(ub as int == abs_i(b as int));
        assert(q as int == abs_i(a as int) / abs_i(b as int));
        assert(abs_i(a as int) / abs_i(b as int) <= abs_i(a as int)) by (nonlinear_arith)
            requires
                abs_i(a as int) >= 0,
                abs_i(b as int) >= 1,
        ;
    }
    if (a < 0) != (b < 0) {
        -(q as i128)
    } else {
        q as i128
    }
}

proof fn lemma_isqrt_s(n: int)
    ensures
        isqrt_s(n) >= 0,
        n >= 0 ==> isqrt_s(n) * isqrt_s(n) <= n,
        n >= 0 ==> n < (isqrt_s(n) + 1) * (isqrt_s(n) + 1),
    decreases n,
{
    if n <= 0 {
    } else {
        lemma_isqrt_s(n - 1);
        let r = isqrt_s(n - 1);
        if (r + 1) * (r + 1) <= n {
            assert((r + 1 + 1) * (r + 1 + 1) > n) by (nonlinear_arith)
                requires
                    r >= 0,
                    n - 1 < (r + 1) * (r + 1),
                    (r + 1) * (r + 1) <= n,
            ;
        }
    }
}

proof fn lemma_isqrt_unique(n: int, r: int)
    requires
        n >= 0,
        r >= 0,
        r * r <= n,
        n < (r + 1) * (r + 1),
    ensures
        r == isqrt_s(n),
{
    lemma_isqrt_s(n);
    let s = isqrt_s(n);
    if r < s {
        assert((r + 1) * (r + 1) <= s * s) by (nonlinear_arith)
            requires
                0 <= r,
                r + 1 <= s,
        ;
    }
    if s < r {
        assert((s + 1) * (s + 1) <= r * r) by (nonlinear_arith)
            requires
                0 <= s,
                s + 1 <= r,
        ;
    }
}

/// Integer square root of a `u128`, by bisection.
fn isqrt_u128(n: u128) -> (r: u128)
    requires
        n < (1u128 << 100),
    ensures
        r * r <= n < (r + 1) * (r + 1),
{
    let mut lo: u128 = 0;
    let mut hi: u128 = 1u128 << 50;
    proof {
        assert((1u128 << 50) * (1u128 << 50) == (1u128 << 100)) by (bit_vector);
        assert(1u128 << 100 > 0) by (bit_vector);
    }
    while lo + 1 < hi
        invariant
            lo < hi,
            hi <= 1u128 << 50,
            lo * lo <= n,
            n < hi * hi,
        decreases hi - lo,
    {
        let mid: u128 = lo + (hi - lo) / 2;
        proof {
            assert((1u128 << 50) * (1u128 << 50) == (1u128 << 100)) by (bit_vector);
            assert(mid * mid <= (1u128 << 50) * (1u128 << 50)) by (nonlinear_arith)
                requires
                    0 <= mid <= (1u128 << 50),
            ;
        }
        if mid * mid <= n {
            lo = mid;
        } else {
            hi = mid;
        }
    }
    lo
}

impl Fx {
    /// The scalar with the given count of millionths.
    pub fn from_raw(raw: i64) -> (r: Fx)
        ensures
            r@ == raw as int,
    {
        Fx { raw }
    }

    /// The scalar standing for the whole number `i`.
    pub fn from_int(i: i64) -> (r: Fx)
        ensures
            r@ == sat(i * (SCALE as int)),
    {
        Fx { raw: clamp_i64(i as i128 * SCALE as i128) }
    }

    pub fn zero() -> (r: Fx)
        ensures
            r@ == 0,
    {
        Fx { raw: 0 }
    }

    pub fn one() -> (r: Fx)
        ensures
            r@ == SCALE as int,
    {
        Fx { raw: SCALE }
    }

    pub fn add(self, o: Fx) -> (r: Fx)
        ensures
            r@ == fx_add(self@, o@),
    {
        Fx { raw: clamp_i64(self.raw as i128 + o.raw as i128) }
    }

    pub fn sub(self, o: Fx) -> (r: Fx)
        ensures
            r@ == fx_sub(self@, o@),
    {
        Fx { raw: clamp_i64(self.raw as i128 - o.raw as i128) }
    }

    pub fn neg(self) -> (r: Fx)
        ensures
            r@ == fx_neg(self@),
    {
        Fx { raw: clamp_i64(-(self.raw as i128)) }
    }

    pub fn mul(self, o: Fx) -> (r: Fx)
        ensures
            r@ == fx_mul(self@, o@),
    {
        proof {
            assert((1i128 << 63) * (1i128 << 63) == (1i128 << 126)) by (bit_vector);
            assert(-(1i128 << 63) <= i64::MIN as i128 && i64::MAX as i128 <= (1i128 << 63))
                by (bit_vector);
            assert((1i128 << 126) < i128::MAX) by (bit_vector);
            assert(-(1i128 << 126) <= (self.raw as i128) * (o.raw as i128) <= (1i128 << 126))
                by (nonlinear_arith)
                requires
                    -(1i128 << 63) <= self.raw as i128 <= (1i128 << 63),
                    -(1i128 << 63) <= o.raw as i128 <= (1i128 << 63),
                    (1i128 << 63) * (1i128 << 63) == (1i128 << 126),
            ;
        }
        let p: i128 = self.raw as i128 * o.raw as i128;
        Fx { raw: clamp_i64(tdiv_i128(p, SCALE as i128)) }
    }

    pub fn div(self, o: Fx) -> (r: Fx)
        ensures
            r@ == fx_div(self@, o@),
    {
        proof {
            assert((1i128 << 63) * (1i128 << 63) == (1i128 << 126)) by (bit_vector);
            assert(-(1i128 << 63) <= i64::MIN as i128 && i64::MAX as i128 <= (1i128 << 63))
                by (bit_vector);
            assert(0 < SCALE as i128 <= (1i128 << 63));
            assert((1i128 << 126) < i128::MAX) by (bit_vector);
            assert(-(1i128 << 126) <= (self.raw as i128) * (SCALE as i128) <= (1i128 << 126))
                by (nonlinear_arith)
                requires
                    -(1i128 << 63) <= self.raw as i128 <= (1i128 << 63),
                    0 < SCALE as i128 <= (1i128 << 63),
                    (1i128 << 63) * (1i128 << 63) == (1i128 << 126),
            ;
        }
        let p: i128 = self.raw as i128 * SCALE as i128;
        Fx { raw: clamp_i64(tdiv_i128(p, o.raw as i128)) }
    }

    pub fn abs(self) -> (r: Fx)
        ensures
            r@ == sat(abs_i(self@)),
    {
        if self.raw < 0 {
            self.neg()
        } else {
            self
        }
    }

    /// Square root; zero on negative arguments.
    pub fn sqrt(self) -> (r: Fx)
        ensures
            r@ == fx_sqrt(self@),
    {
        if self.raw <= 0 {
            return Fx { raw: 0 };
        }
        proof {
            assert((1u128 << 100) > (i64::MAX as u128) * (SCALE as u128)) by (bit_vector);
            assert((self.raw as u128) * (SCALE as u128) <= (i64::MAX as u128) * (SCALE as u128))
                by (nonlinear_arith)
                requires
                    0 < self.raw as u128 <= i64::MAX as u128,
            ;
        }
        let n: u128 = self.raw as u128 * SCALE as u128;
        let r: u128 = isqrt_u128(n);
        proof {
            assert((1u128 << 50) * (1u128 << 50) == (1u128 << 100)) by (bit_vector);
            assert(r < (1u128 << 50)) by (nonlinear_arith)
                requires
                    r * r <= n,
                    n < (1u128 << 100),
                    (1u128 << 50) * (1u128 << 50) == (1u128 << 100),
            ;
            assert((1u128 << 50) < i64::MAX as u128) by (bit_vector);
            lemma_isqrt_unique(n as int, r as int);
        }
        Fx { raw: r as i64 }
    }

    /// The `n`-th power, by repeated scalar multiplication.
    pub fn powi(self, n: u64) -> (r: Fx)
        ensures
            r@ == fx_powi(self@, n as nat),
    {
        let mut acc: Fx = Fx { raw: SCALE };
        let mut i: u64 = 0;
        while i < n
            invariant
                i <= n,
                acc@ == fx_powi(self@, i as nat),
            decreases n - i,
        {
            acc = acc.mul(self);
            i = i + 1;
        }
        acc
    }

    /// Nearest whole number of units, halves rounded away from zero.
    pub fn round_units(self) -> (r: i64)
        ensures
            r as int == round_units(self@),
    {
        let neg: bool = self.raw < 0;
        let a: u128 = if neg {
            (-(self.raw as i128)) as u128
        } else {
            self.raw as u128
        };
        let q: u128 = (a + (SCALE as u128) / 2) / (SCALE as u128);
        proof {
            vstd::arithmetic::div_mod::lemma_div_nonincreasing(
                a as int + (SCALE as int) / 2,
                SCALE as int,
            );
        }
        if neg {
            -(q as i64)
        } else {
            q as i64
        }
    }

    /// Whether the scalar rounds to an even number of units.
    pub fn rounds_even(self) -> (r: bool)
        ensures
            r == rounds_even(self@),
    {
        let k: i64 = self.round_units();
        let a: u64 = if k < 0 {
            (-(k as i128)) as u64
        } else {
            k as u64
        };
        a % 2 == 0
    }
}

/// What the square root returns: the largest integer whose square does not
/// exceed the argument brought to square-of-raw units.
pub proof fn lemma_fx_sqrt_bounds(a: int)
    requires
        a >= 0,
    ensures
        fx_sqrt(a) >= 0,
        fx_sqrt(a) * fx_sqrt(a) <= a * (SCALE as int),
        a * (SCALE as int) < (fx_sqrt(a) + 1) * (fx_sqrt(a) + 1),
{
    if a == 0 {
    } else {
        lemma_isqrt_s(a * (SCALE as int));
    }
}

/// The square root is the unique integer with those bounds.
pub proof fn lemma_fx_sqrt_unique(a: int, r: int)
    requires
        a >= 0,
        r >= 0,
        r * r <= a * (SCALE as int),
        a * (SCALE as int) < (r + 1) * (r + 1),
    ensures
        fx_sqrt(a) == r,
{
    if a == 0 {
        if r > 0 {
            assert(r * r >= 1) by (nonlinear_arith)
                requires
                    r >= 1,
            ;
        }
    } else {
        lemma_isqrt_unique(a * (SCALE as int), r);
    }
}

/// Multiplying by one is exact: scalar multiplication by `SCALE` returns the
/// other factor unchanged.
pub proof fn lemma_fx_mul_one(x: int)
    requires
        i64::MIN <= x <= i64::MAX,
    ensures
        fx_mul(SCALE as int, x) == x,
        fx_mul(x, SCALE as int) == x,
{
    let s = SCALE as int;
    if x >= 0 {
        lemma_div_multiples_vanish(x, s);
        assert(s * x == x * s) by (nonlinear_arith);
        assert(abs_i(s * x) / abs_i(s) == (s * x) / s);
    } else {
        lemma_div_multiples_vanish(-x, s);
        assert(s * (-x) == -(s * x)) by (nonlinear_arith);
        assert(s * (-x) == -(x * s)) by (nonlinear_arith);
        assert(abs_i(s * x) / abs_i(s) == (s * (-x)) / s);
        assert(abs_i(x * s) / abs_i(s) == (s * (-x)) / s);
    }
}

/// Multiplying by zero is exact.
pub proof fn lemma_fx_mul_zero(x: int)
    ensures
        fx_mul(0, x) == 0,
        fx_mul(x, 0) == 0,
{
    assert(0 * x == 0) by (nonlinear_arith);
    assert(x * 0 == 0) by (nonlinear_arith);
    assert(abs_i(0int) / abs_i(SCALE as int) == 0);
}

} // verus!
