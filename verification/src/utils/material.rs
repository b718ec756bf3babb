//! Surface materials: a color or two-color pattern and the Phong
//! coefficients, with the builder capability shapes use at scene-build time.

use crate::utils::fx::{rounds_even, Fx, SCALE};
use crate::utils::vec3::{Vec3, V3};
use vstd::prelude::*;

verus! {

/// The mathematical value of a pattern.
pub ghost enum PatternV {
    /// Stripes along X: the odd color, then the even color.
    Stripped(V3, V3),
    Unified(V3),
}

/// The mathematical value of a material.
pub ghost struct MaterialV {
    pub pattern: PatternV,
    pub ambient: int,
    pub diffuse: int,
    pub specular: int,
    pub reflective: int,
    pub shininess: int,
}

/// A surface color: one flat color, or stripes along X.
#[derive(Clone, Copy, Debug)]
pub enum Pattern {
    /// The odd-stripe color, then the even-stripe color.
    Stripped(Vec3, Vec3),
    Unified(Vec3),
}

impl View for Pattern {
    type V = PatternV;

    open spec fn view(&self) -> PatternV {
        match *self {
            Pattern::Stripped(odd, even) => PatternV::Stripped(odd@, even@),
            Pattern::Unified(c) => PatternV::Unified(c@),
        }
    }
}

#[derive(Clone, Copy, Debug)]
pub struct Material {
    pub pattern: Pattern,
    pub ambient: Fx,
    pub diffuse: Fx,
    pub specular: Fx,
    pub reflective: Fx,
    pub shininess: Fx,
}

impl View for Material {
    type V = MaterialV;

    open spec fn view(&self) -> MaterialV {
        MaterialV {
            pattern: self.pattern@,
            ambient: self.ambient@,
            diffuse: self.diffuse@,
            specular: self.specular@,
            reflective: self.reflective@,
            shininess: self.shininess@,
        }
    }
}

/// The surface color at a point: for stripes, the even color where the
/// point's X rounds to an even number of units, the odd color elsewhere.
pub open spec fn spec_get_color(m: MaterialV, point: V3) -> V3 {
    match m.pattern {
        PatternV::Stripped(odd, even) => if rounds_even(point.x) {
            even
        } else {
            odd
        },
        PatternV::Unified(c) => c,
    }
}

impl Material {
    pub fn get_color(&self, point: &Vec3) -> (r: &Vec3)
        ensures
            r@ == spec_get_color(self@, point@),
    {
        match &self.pattern {
            Pattern::Stripped(odd_color, even_color) => {
                if point.x.rounds_even() {
                    even_color
                } else {
                    odd_color
                }
            },
            Pattern::Unified(color) => color,
        }
    }
}

/// The default material of the design: white, ambient 0.1, diffuse 0.9,
/// specular 0.9, no reflection, shininess 200.
pub open spec fn spec_default_material() -> MaterialV {
    MaterialV {
        pattern: PatternV::Unified(V3 { x: SCALE as int, y: SCALE as int, z: SCALE as int }),
        ambient: (SCALE as int) / 10,
        diffuse: (SCALE as int) / 10 * 9,
        specular: (SCALE as int) / 10 * 9,
        reflective: 0,
        shininess: 200 * (SCALE as int),
    }
}

impl Default for Material {
    fn default() -> (r: Material)
        ensures
            r@ == spec_default_material(),
    {
        Material {
            pattern: Pattern::Unified(Vec3::from_float(Fx::one())),
            ambient: Fx::from_raw(SCALE / 10),
            diffuse: Fx::from_raw(SCALE / 10 * 9),
            specular: Fx::from_raw(SCALE / 10 * 9),
            reflective: Fx::zero(),
            shininess: Fx::from_raw(200 * SCALE),
        }
    }
}

/// The builder capability every shape offers at scene-build time: each call
/// replaces one material field and hands the entity back for chaining.
pub trait IMaterial: Sized {
    /// The entity's material.
    spec fn mat(&self) -> Material;

    /// The entity with its material replaced and all else unchanged.
    spec fn with_mat(&self, m: Material) -> Self;

    fn get_material(&mut self) -> (r: &mut Material)
        ensures
            *r == old(self).mat(),
            *final(self) == old(self).with_mat(*final(r)),
    ;

    fn color(self, x: Fx, y: Fx, z: Fx) -> (r: Self)
        ensures
            r == self.with_mat(
                Material { pattern: Pattern::Unified(Vec3 { x, y, z }), ..self.mat() },
            ),
    {
        let mut s = self;
        let m = s.get_material();
        m.pattern = Pattern::Unified(Vec3::new(x, y, z));
        s
    }

    fn pattern(self, pattern: Pattern) -> (r: Self)
        ensures
            r == self.with_mat(Material { pattern, ..self.mat() }),
    {
        let mut s = self;
        let m = s.get_material();
        m.pattern = pattern;
        s
    }

    fn diffuse(self, f: Fx) -> (r: Self)
        ensures
            r == self.with_mat(Material { diffuse: f, ..self.mat() }),
    {
        let mut s = self;
        let m = s.get_material();
        m.diffuse = f;
        s
    }

    fn specular(self, f: Fx) -> (r: Self)
        ensures
            r == self.with_mat(Material { specular: f, ..self.mat() }),
    {
        let mut s = self;
        let m = s.get_material();
        m.specular = f;
        s
    }

    fn ambient(self, f: Fx) -> (r: Self)
        ensures
            r == self.with_mat(Material { ambient: f, ..self.mat() }),
    {
        let mut s = self;
        let m = s.get_material();
        m.ambient = f;
        s
    }

    fn reflective(self, f: Fx) -> (r: Self)
        ensures
            r == self.with_mat(Material { reflective: f, ..self.mat() }),
    {
        let mut s = self;
        let m = s.get_material();
        m.reflective = f;
        s
    }

    fn shininess(self, f: Fx) -> (r: Self)
        ensures
            r == self.with_mat(Material { shininess: f, ..self.mat() }),
    {
        let mut s = self;
        let m = s.get_material();
        m.shininess = f;
        s
    }
}

} // verus!
