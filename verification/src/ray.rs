//! Parametric rays.

use vstd::prelude::*;
use crate::fx::Fx;
use crate::vec3::{Vec3, V3, v3_add, v3_scale};

verus! {

/// The model of a ray: an origin and a direction.
pub struct RayV {
    pub origin: V3,
    pub direction: V3,
}

/// The point `origin + t * direction`.
pub open spec fn ray_at(r: RayV, t: int) -> V3 {
    v3_add(r.origin, v3_scale(r.direction, t))
}

/// A ray: an origin point and a direction vector (not necessarily unit).
#[derive(Clone, Copy, Debug, PartialEq, Eq, Structural)]
pub struct Ray {
    origin: Vec3,
    direction: Vec3,
}

impl View for Ray {
    type V = RayV;

    closed spec fn view(&self) -> RayV {
        RayV { origin: self.origin@, direction: self.direction@ }
    }
}

impl Ray {
    pub fn new(origin: Vec3, direction: Vec3) -> (r: Ray)
        ensures
            r@ == (RayV { origin: origin@, direction: direction@ }),
    {
        Ray { origin, direction }
    }

    pub fn origin(&self) -> (r: Vec3)
        ensures
            r@ == self@.origin,
    {
        self.origin
    }

    pub fn direction(&self) -> (r: Vec3)
        ensures
            r@ == self@.direction,
    {
        self.direction
    }

    /// The point at parameter `t` along the ray.
    pub fn at(&self, t: Fx) -> (r: Vec3)
        ensures
            r@ == ray_at(self@, t@),
    {
        self.origin.add(self.direction.scale(t))
    }
}

} // verus!
