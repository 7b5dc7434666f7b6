//! The perspective camera with simulated lens aperture.
//!
//! Construction derives an orthonormal basis and the image-plane corner
//! from the user-facing parameters; ray generation samples the lens disk
//! for depth of field.

use vstd::prelude::*;
use crate::fx::{Fx, fx_mul, fx_div, FX_ONE_RAW};
use crate::trig::{fx_degrees_to_radians, fx_tan};
use crate::vec3::{
    Vec3, V3, v3_add, v3_sub, v3_scale, v3_div_s, v3_cross, v3_unit, v3_in_unit_disk,
    SAMPLE_TRIES,
};
use crate::ray::{Ray, RayV};
use crate::rng::Rng;

verus! {

/// The model of a camera basis.
pub struct CameraV {
    pub origin: V3,
    pub lower_left_corner: V3,
    pub horizontal: V3,
    pub vertical: V3,
    pub u: V3,
    pub v: V3,
    pub w: V3,
    pub lens_radius: int,
}

/// The derived camera basis for the given user-facing parameters.
pub open spec fn camera_new(
    eye: V3,
    target: V3,
    up_dir: V3,
    v_fov_degrees: int,
    aspect_ratio: int,
    aperture: int,
    depth_of_field: int,
) -> CameraV {
    let theta = fx_degrees_to_radians(v_fov_degrees);
    let h = fx_tan(fx_div(theta, 2 * FX_ONE_RAW as int));
    let viewport_height = fx_mul(2 * FX_ONE_RAW as int, h);
    let viewport_width = fx_mul(aspect_ratio, viewport_height);
    let w = v3_unit(v3_sub(eye, target));
    let u = v3_unit(v3_cross(up_dir, w));
    let v = v3_cross(w, u);
    let horizontal = v3_scale(u, fx_mul(depth_of_field, viewport_width));
    let vertical = v3_scale(v, fx_mul(depth_of_field, viewport_height));
    let lower_left_corner = v3_sub(
        v3_sub(v3_sub(eye, v3_div_s(horizontal, 2 * FX_ONE_RAW as int)), v3_div_s(vertical, 2
            * FX_ONE_RAW as int)),
        v3_scale(w, depth_of_field),
    );
    CameraV {
        origin: eye,
        lower_left_corner,
        horizontal,
        vertical,
        u,
        v,
        w,
        lens_radius: fx_div(aperture, 2 * FX_ONE_RAW as int),
    }
}

/// The ray for image-plane coordinates `(s, t)` with the lens offset of one
/// disk sample, and the sampler state after the draw.
pub open spec fn camera_ray(c: CameraV, s: int, t: int, state: int) -> (RayV, int) {
    let draw = v3_in_unit_disk(state, SAMPLE_TRIES as nat);
    let rd = v3_scale(draw.0, c.lens_radius);
    let offset = v3_add(v3_scale(c.u, rd.x), v3_scale(c.v, rd.y));
    let origin = v3_add(c.origin, offset);
    let direction = v3_sub(
        v3_sub(
            v3_add(v3_add(c.lower_left_corner, v3_scale(c.horizontal, s)), v3_scale(c.vertical, t)),
            c.origin,
        ),
        offset,
    );
    (RayV { origin, direction }, draw.1)
}

/// The perspective camera of the path tracer.
pub struct Camera {
    origin: Vec3,
    lower_left_corner: Vec3,
    horizontal: Vec3,
    vertical: Vec3,
    u: Vec3,
    v: Vec3,
    w: Vec3,
    lens_radius: Fx,
}

impl View for Camera {
    type V = CameraV;

    closed spec fn view(&self) -> CameraV {
        CameraV {
            origin: self.origin@,
            lower_left_corner: self.lower_left_corner@,
            horizontal: self.horizontal@,
            vertical: self.vertical@,
            u: self.u@,
            v: self.v@,
            w: self.w@,
            lens_radius: self.lens_radius@,
        }
    }
}

impl Camera {
    /// Derive the camera basis: vertical extent from the field of view,
    /// orthonormal axes from eye, target and up, viewport vectors scaled by
    /// the focus distance, and the lens radius as half the aperture.
    pub fn new(
        eye: Vec3,
        target: Vec3,
        up_dir: Vec3,
        v_fov_degrees: Fx,
        aspect_ratio: Fx,
        aperture: Fx,
        depth_of_field: Fx,
    ) -> (r: Camera)
        ensures
            r@ == camera_new(
                eye@,
                target@,
                up_dir@,
                v_fov_degrees@,
                aspect_ratio@,
                aperture@,
                depth_of_field@,
            ),
    {
        let two = Fx::from_int(2);
        let theta = crate::trig::degrees_to_radians(v_fov_degrees);
        let h = theta.div(two).ntan();
        let viewport_height = two.mul(h);
        let viewport_width = aspect_ratio.mul(viewport_height);
        let w = eye.sub(target).unit_vector();
        let u = up_dir.cross(w).unit_vector();
        let v = w.cross(u);
        let origin = eye;
        let horizontal = u.scale(depth_of_field.mul(viewport_width));
        let vertical = v.scale(depth_of_field.mul(viewport_height));
        let lower_left_corner = origin.sub(horizontal.div_s(two)).sub(vertical.div_s(two)).sub(
            w.scale(depth_of_field),
        );
        let lens_radius = aperture.div(two);
        Camera { origin, lower_left_corner, horizontal, vertical, w, u, v, lens_radius }
    }

    /// The world-space ray for normalized image-plane coordinates `(s, t)`,
    /// with its origin jittered on the lens disk for depth of field.
    pub fn get_ray(&self, s: Fx, t: Fx, rng: &mut Rng) -> (r: Ray)
        ensures
            r@ == camera_ray(self@, s@, t@, old(rng)@).0,
            final(rng)@ == camera_ray(self@, s@, t@, old(rng)@).1,
    {
        let rd = Vec3::random_in_unit_disk(rng).scale(self.lens_radius);
        let offset = self.u.scale(rd.x).add(self.v.scale(rd.y));
        Ray::new(
            self.origin.add(offset),
            self.lower_left_corner.add(self.horizontal.scale(s)).add(self.vertical.scale(t)).sub(
                self.origin,
            ).sub(offset),
        )
    }
}

} // verus!
