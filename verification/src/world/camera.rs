//! The camera: maps a pixel coordinate to a world-space ray through the
//! inverse of its view transform.

use crate::utils::fx::{fx_div, fx_mul, fx_neg, fx_sub, sat, Fx, SCALE};
use crate::utils::matrix::{spec_inverse, spec_mul_point, Mat, MatV};
use crate::utils::ray::{Ray, RayV};
use crate::utils::vec3::{v3_norm, v3_sub, Vec3, V3};
use vstd::prelude::*;

verus! {

/// The scalar standing for the whole number `i`.
pub open spec fn fx_of_int(i: int) -> int {
    sat(i * (SCALE as int))
}

/// The mathematical value of a camera.
pub ghost struct CameraV {
    pub width: int,
    pub height: int,
    pub x_step: int,
    pub y_step: int,
    pub ar: int,
    pub angle: int,
    pub inverse: MatV,
}

/// The derived fields a camera holds for a given pixel size: the aspect
/// ratio and the two per-pixel step sizes.
pub open spec fn spec_camera_steps(width: int, height: int) -> (int, int, int) {
    (
        fx_div(fx_of_int(width), fx_of_int(height)),
        fx_div(fx_of_int(2), fx_of_int(width)),
        fx_div(fx_of_int(2), fx_of_int(height)),
    )
}

/// The world-space ray through pixel `(x, y)`: the pixel mapped to the
/// device plane at z = -1, that point and the camera origin pushed through
/// the inverse view transform, and the direction normalized.
pub open spec fn spec_get_ray(c: CameraV, x: int, y: int) -> RayV {
    let xf = fx_mul(
        fx_mul(fx_neg(fx_sub(fx_mul(c.x_step, fx_of_int(x)), SCALE as int)), c.ar),
        c.angle,
    );
    let yf = fx_mul(fx_neg(fx_sub(fx_mul(c.y_step, fx_of_int(y)), SCALE as int)), c.angle);
    let p = spec_mul_point(c.inverse, V3 { x: xf, y: yf, z: fx_of_int(-1) });
    let o = spec_mul_point(c.inverse, V3 { x: 0, y: 0, z: 0 });
    RayV { org: o, dir: v3_norm(v3_sub(p, o)) }
}

/// A camera: pixel dimensions, per-pixel step sizes, the aspect ratio, the
/// tangent of half the vertical field of view, and the cached inverse of
/// the view transform.
#[derive(Clone, Debug)]
pub struct Camera {
    pub width: u32,
    pub height: u32,
    pub x_step: Fx,
    pub y_step: Fx,
    pub ar: Fx,
    pub angle: Fx,
    pub inverse: Mat,
}

impl View for Camera {
    type V = CameraV;

    open spec fn view(&self) -> CameraV {
        CameraV {
            width: self.width as int,
            height: self.height as int,
            x_step: self.x_step@,
            y_step: self.y_step@,
            ar: self.ar@,
            angle: self.angle@,
            inverse: self.inverse@,
        }
    }
}

impl Camera {
    pub open spec fn wf(&self) -> bool {
        self.inverse.wf() && self.inverse.rows == 4 && self.inverse.cols == 4
    }

    /// A camera of the given pixel size looking through the view transform
    /// `t`; `angle` is the tangent of half the vertical field of view.
    pub fn new(width: u32, height: u32, angle: Fx, t: Mat) -> (r: Camera)
        requires
            t.wf(),
            t.rows == 4,
            t.cols == 4,
        ensures
            r.wf(),
            r@.width == width as int,
            r@.height == height as int,
            r@.angle == angle@,
            (r@.ar, r@.x_step, r@.y_step) == spec_camera_steps(width as int, height as int),
            r@.inverse == spec_inverse(t@),
    {
        let w = Fx::from_int(width as i64);
        let h = Fx::from_int(height as i64);
        Camera {
            width,
            height,
            ar: w.div(h),
            angle,
            x_step: Fx::from_int(2).div(w),
            y_step: Fx::from_int(2).div(h),
            inverse: t.inverse(),
        }
    }

    /// Resize the output: the step sizes and aspect ratio move, the view
    /// transform stays.
    pub fn update_size(&mut self, width: u32, height: u32)
        ensures
            final(self).wf() == old(self).wf(),
            final(self)@.width == width as int,
            final(self)@.height == height as int,
            final(self)@.angle == old(self)@.angle,
            final(self)@.inverse == old(self)@.inverse,
            (final(self)@.ar, final(self)@.x_step, final(self)@.y_step) == spec_camera_steps(
                width as int,
                height as int,
            ),
    {
        let w = Fx::from_int(width as i64);
        let h = Fx::from_int(height as i64);
        self.width = width;
        self.height = height;
        self.ar = w.div(h);
        self.x_step = Fx::from_int(2).div(w);
        self.y_step = Fx::from_int(2).div(h);
    }

    /// Replace the field of view and the view transform; the cached inverse
    /// is re-derived in the same step.
    pub fn update(&mut self, angle: Fx, t: Mat)
        requires
            t.wf(),
            t.rows == 4,
            t.cols == 4,
        ensures
            final(self).wf(),
            final(self)@.width == old(self)@.width,
            final(self)@.height == old(self)@.height,
            final(self)@.x_step == old(self)@.x_step,
            final(self)@.y_step == old(self)@.y_step,
            final(self)@.ar == fx_div(
                fx_of_int(old(self)@.width),
                fx_of_int(old(self)@.height),
            ),
            final(self)@.angle == angle@,
            final(self)@.inverse == spec_inverse(t@),
    {
        let w = Fx::from_int(self.width as i64);
        let h = Fx::from_int(self.height as i64);
        self.ar = w.div(h);
        self.angle = angle;
        self.inverse = t.inverse();
    }

    /// The world-space ray through pixel `(x, y)`.
    pub fn get_ray(&self, x: u32, y: u32) -> (r: Ray)
        requires
            self.wf(),
        ensures
            r@ == spec_get_ray(self@, x as int, y as int),
    {
        let xf = self.x_step.mul(Fx::from_int(x as i64)).sub(Fx::one()).neg().mul(self.ar).mul(
            self.angle,
        );
        let yf = self.y_step.mul(Fx::from_int(y as i64)).sub(Fx::one()).neg().mul(self.angle);
        let p = self.inverse.mul_point(&Vec3::new(xf, yf, Fx::from_int(-1)));
        let o = self.inverse.mul_point(&Vec3::from_float(Fx::zero()));
        let dir = p.sub(&o).norm();
        Ray::new(o, dir)
    }
}

} // verus!
