//! Three-component vectors over the fixed-point scalar, used for points,
//! directions and colors alike.

use crate::utils::fx::{
    abs_i, fx_add, fx_div, fx_mul, fx_neg, fx_sqrt, fx_sub, Fx, EPSILON, SCALE,
};
use vstd::prelude::*;

verus! {

/// The mathematical value of a vector: three scalar values in raw units.
pub ghost struct V3 {
    pub x: int,
    pub y: int,
    pub z: int,
}

pub open spec fn v3_zero() -> V3 {
    V3 { x: 0, y: 0, z: 0 }
}

pub open spec fn v3_add(a: V3, b: V3) -> V3 {
    V3 { x: fx_add(a.x, b.x), y: fx_add(a.y, b.y), z: fx_add(a.z, b.z) }
}

pub open spec fn v3_sub(a: V3, b: V3) -> V3 {
    V3 { x: fx_sub(a.x, b.x), y: fx_sub(a.y, b.y), z: fx_sub(a.z, b.z) }
}

pub open spec fn v3_mul(a: V3, b: V3) -> V3 {
    V3 { x: fx_mul(a.x, b.x), y: fx_mul(a.y, b.y), z: fx_mul(a.z, b.z) }
}

pub open spec fn v3_div(a: V3, b: V3) -> V3 {
    V3 { x: fx_div(a.x, b.x), y: fx_div(a.y, b.y), z: fx_div(a.z, b.z) }
}

pub open spec fn v3_add_s(a: V3, f: int) -> V3 {
    V3 { x: fx_add(a.x, f), y: fx_add(a.y, f), z: fx_add(a.z, f) }
}

pub open spec fn v3_sub_s(a: V3, f: int) -> V3 {
    V3 { x: fx_sub(a.x, f), y: fx_sub(a.y, f), z: fx_sub(a.z, f) }
}

pub open spec fn v3_mul_s(a: V3, f: int) -> V3 {
    V3 { x: fx_mul(a.x, f), y: fx_mul(a.y, f), z: fx_mul(a.z, f) }
}

pub open spec fn v3_div_s(a: V3, f: int) -> V3 {
    V3 { x: fx_div(a.x, f), y: fx_div(a.y, f), z: fx_div(a.z, f) }
}

pub open spec fn v3_neg(a: V3) -> V3 {
    V3 { x: fx_neg(a.x), y: fx_neg(a.y), z: fx_neg(a.z) }
}

pub open spec fn v3_dot(a: V3, b: V3) -> int {
    fx_add(fx_add(fx_mul(a.x, b.x), fx_mul(a.y, b.y)), fx_mul(a.z, b.z))
}

/// Dot product restricted to the XZ plane, as the cylinder's quadratic needs.
pub open spec fn v3_dotxz(a: V3, b: V3) -> int {
    fx_add(fx_mul(a.x, b.x), fx_mul(a.z, b.z))
}

pub open spec fn v3_cross(a: V3, b: V3) -> V3 {
    V3 {
        x: fx_sub(fx_mul(a.y, b.z), fx_mul(a.z, b.y)),
        y: fx_sub(fx_mul(a.z, b.x), fx_mul(a.x, b.z)),
        z: fx_sub(fx_mul(a.x, b.y), fx_mul(a.y, b.x)),
    }
}

pub open spec fn v3_mag(a: V3) -> int {
    fx_sqrt(v3_dot(a, a))
}

/// Normalization; on a vector whose magnitude rounds to zero every component
/// divides to zero, the defined stand-in for what the design leaves undefined.
pub open spec fn v3_norm(a: V3) -> V3 {
    v3_div_s(a, v3_mag(a))
}

pub open spec fn v3_reflect(v: V3, normal: V3) -> V3 {
    v3_sub(v, v3_mul_s(v3_mul_s(normal, v3_dot(v, normal)), 2 * (SCALE as int)))
}

/// Approximate equality: each component within `EPSILON` raw units.
pub open spec fn v3_approx(a: V3, b: V3) -> bool {
    abs_i(a.x - b.x) < EPSILON as int && abs_i(a.y - b.y) < EPSILON as int && abs_i(a.z - b.z)
        < EPSILON as int
}

/// One output color channel: the scalar clamped to [0, 1] and scaled to 255,
/// rounded down.
pub open spec fn color_byte(x: int) -> int {
    let c = if x < 0 {
        0
    } else if x > SCALE as int {
        SCALE as int
    } else {
        x
    };
    (c * 255) / (SCALE as int)
}

/// The packed 0x00RRGGBB color of a vector.
pub open spec fn v3_color(a: V3) -> int {
    color_byte(a.x) * 65536 + color_byte(a.y) * 256 + color_byte(a.z)
}

/// A vector of three fixed-point scalars.
#[derive(Clone, Copy, Debug)]
pub struct Vec3 {
    pub x: Fx,
    pub y: Fx,
    pub z: Fx,
}

impl View for Vec3 {
    type V = V3;

    open spec fn view(&self) -> V3 {
        V3 { x: self.x@, y: self.y@, z: self.z@ }
    }
}

impl PartialEq for Vec3 {
    /// Approximate equality, as everywhere in the library: each component
    /// within the fixed tolerance.
    fn eq(&self, other: &Self) -> (r: bool) {
        let x_diff = self.x.sub(other.x).abs();
        let y_diff = self.y.sub(other.y).abs();
        let z_diff = self.z.sub(other.z).abs();
        x_diff.raw < EPSILON && y_diff.raw < EPSILON && z_diff.raw < EPSILON
    }
}

impl vstd::std_specs::cmp::PartialEqSpecImpl for Vec3 {
    open spec fn obeys_eq_spec() -> bool {
        true
    }

    open spec fn eq_spec(&self, other: &Vec3) -> bool {
        v3_approx(self@, other@)
    }
}

impl Vec3 {
    pub fn new(x: Fx, y: Fx, z: Fx) -> (r: Vec3)
        ensures
            r@ == (V3 { x: x@, y: y@, z: z@ }),
    {
        Vec3 { x, y, z }
    }

    pub fn zero() -> (r: Vec3)
        ensures
            r@ == (V3 { x: 0, y: 0, z: 0 }),
    {
        Vec3 { x: Fx::zero(), y: Fx::zero(), z: Fx::zero() }
    }

    /// All three components set to the one scalar given.
    pub fn from_float(f: Fx) -> (r: Vec3)
        ensures
            r@ == (V3 { x: f@, y: f@, z: f@ }),
    {
        Vec3 { x: f, y: f, z: f }
    }

    pub fn add(&self, o: &Vec3) -> (r: Vec3)
        ensures
            r@ == v3_add(self@, o@),
    {
        Vec3 { x: self.x.add(o.x), y: self.y.add(o.y), z: self.z.add(o.z) }
    }

    pub fn sub(&self, o: &Vec3) -> (r: Vec3)
        ensures
            r@ == v3_sub(self@, o@),
    {
        Vec3 { x: self.x.sub(o.x), y: self.y.sub(o.y), z: self.z.sub(o.z) }
    }

    pub fn mul(&self, o: &Vec3) -> (r: Vec3)
        ensures
            r@ == v3_mul(self@, o@),
    {
        Vec3 { x: self.x.mul(o.x), y: self.y.mul(o.y), z: self.z.mul(o.z) }
    }

    pub fn div(&self, o: &Vec3) -> (r: Vec3)
        ensures
            r@ == v3_div(self@, o@),
    {
        Vec3 { x: self.x.div(o.x), y: self.y.div(o.y), z: self.z.div(o.z) }
    }

    pub fn add_s(&self, f: Fx) -> (r: Vec3)
        ensures
            r@ == v3_add_s(self@, f@),
    {
        Vec3 { x: self.x.add(f), y: self.y.add(f), z: self.z.add(f) }
    }

    pub fn sub_s(&self, f: Fx) -> (r: Vec3)
        ensures
            r@ == v3_sub_s(self@, f@),
    {
        Vec3 { x: self.x.sub(f), y: self.y.sub(f), z: self.z.sub(f) }
    }

    pub fn mul_s(&self, f: Fx) -> (r: Vec3)
        ensures
            r@ == v3_mul_s(self@, f@),
    {
        Vec3 { x: self.x.mul(f), y: self.y.mul(f), z: self.z.mul(f) }
    }

    pub fn div_s(&self, f: Fx) -> (r: Vec3)
        ensures
            r@ == v3_div_s(self@, f@),
    {
        Vec3 { x: self.x.div(f), y: self.y.div(f), z: self.z.div(f) }
    }

    pub fn neg(&self) -> (r: Vec3)
        ensures
            r@ == v3_neg(self@),
    {
        Vec3 { x: self.x.neg(), y: self.y.neg(), z: self.z.neg() }
    }

    pub fn dot(&self, rhs: &Vec3) -> (r: Fx)
        ensures
            r@ == v3_dot(self@, rhs@),
    {
        self.x.mul(rhs.x).add(self.y.mul(rhs.y)).add(self.z.mul(rhs.z))
    }

    /// Dot product over the X and Z components only.
    pub fn dotxz(&self, rhs: &Vec3) -> (r: Fx)
        ensures
            r@ == v3_dotxz(self@, rhs@),
    {
        self.x.mul(rhs.x).add(self.z.mul(rhs.z))
    }

    pub fn cross(&self, other: &Vec3) -> (r: Vec3)
        ensures
            r@ == v3_cross(self@, other@),
    {
        Vec3 {
            x: self.y.mul(other.z).sub(self.z.mul(other.y)),
            y: self.z.mul(other.x).sub(self.x.mul(other.z)),
            z: self.x.mul(other.y).sub(self.y.mul(other.x)),
        }
    }

    pub fn mag(&self) -> (r: Fx)
        ensures
            r@ == v3_mag(self@),
    {
        self.dot(self).sqrt()
    }

    pub fn norm(&self) -> (r: Vec3)
        ensures
            r@ == v3_norm(self@),
    {
        self.div_s(self.mag())
    }

    pub fn reflect(&self, normal: &Vec3) -> (r: Vec3)
        ensures
            r@ == v3_reflect(self@, normal@),
    {
        let two = Fx::from_int(2);
        self.sub(&normal.mul_s(self.dot(normal)).mul_s(two))
    }

    pub fn set(&mut self, other: &Vec3)
        ensures
            *final(self) == *other,
    {
        self.x = other.x;
        self.y = other.y;
        self.z = other.z;
    }

    pub fn set_scalar(&mut self, x: Fx, y: Fx, z: Fx)
        ensures
            *final(self) == (Vec3 { x, y, z }),
    {
        self.x = x;
        self.y = y;
        self.z = z;
    }

    /// The packed 0x00RRGGBB color, each channel clamped to [0, 1] and
    /// quantized to 8 bits.
    pub fn to_color(&self) -> (r: u32)
        ensures
            r as int == v3_color(self@),
    {
        let r = clamp_byte(self.x);
        let g = clamp_byte(self.y);
        let b = clamp_byte(self.z);
        r as u32 * 65536 + g as u32 * 256 + b as u32
    }
}

/// One channel of the output color: clamp to [0, 1], scale to 255.
fn clamp_byte(f: Fx) -> (r: u8)
    ensures
        r as int == color_byte(f@),
{
    let c: i64 = if f.raw < 0 {
        0
    } else if f.raw > SCALE {
        SCALE
    } else {
        f.raw
    };
    proof {
        vstd::arithmetic::div_mod::lemma_div_nonincreasing(c as int * 255, SCALE as int);
        assert(c as int * 255 <= SCALE as int * 255) by (nonlinear_arith)
            requires
                0 <= c as int <= SCALE as int,
        ;
        assert((SCALE as int * 255) / (SCALE as int) == 255) by {
            vstd::arithmetic::div_mod::lemma_div_multiples_vanish(255, SCALE as int);
        }
        vstd::arithmetic::div_mod::lemma_div_is_ordered(
            c as int * 255,
            SCALE as int * 255,
            SCALE as int,
        );
    }
    ((c as u64 * 255) / (SCALE as u64)) as u8
}

} // verus!
