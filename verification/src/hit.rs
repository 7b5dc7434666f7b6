//! Hit records: the result of a successful ray/geometry intersection.

use vstd::prelude::*;
use crate::fx::Fx;
use crate::vec3::{Vec3, V3, v3_dot, v3_neg, v3_in_range, lemma_v3_dot_comm, lemma_v3_dot_neg};
use crate::ray::{Ray, RayV};
use crate::material::{Material, MatV};

verus! {

/// The model of a hit record.
pub struct HitV {
    pub point: V3,
    pub normal: V3,
    pub material: MatV,
    pub t: int,
    pub front_face: bool,
}

/// Front-face correction: the stored normal opposes the incoming ray, and
/// `front_face` records whether the geometric normal already did.
pub open spec fn hit_record_new(t: int, point: V3, outward_normal: V3, ray: RayV, material: MatV)
    -> HitV {
    let front_face = v3_dot(ray.direction, outward_normal) < 0;
    HitV {
        point,
        normal: if front_face {
            outward_normal
        } else {
            v3_neg(outward_normal)
        },
        material,
        t,
        front_face,
    }
}

/// Front-face correction orients the stored normal against the incoming
/// ray: unless the ray grazes the surface exactly (a zero dot product with
/// the geometric normal), the dot product of the stored normal and the ray
/// direction is strictly negative.
pub proof fn lemma_hit_normal_opposes(t: int, point: V3, outward: V3, r: RayV, m: MatV)
    requires
        v3_in_range(outward),
        v3_dot(r.direction, outward) != 0,
    ensures
        v3_dot(hit_record_new(t, point, outward, r, m).normal, r.direction) < 0,
{
    let d = v3_dot(r.direction, outward);
    if d < 0 {
        lemma_v3_dot_comm(outward, r.direction);
    } else {
        lemma_v3_dot_neg(r.direction, outward);
        lemma_v3_dot_comm(v3_neg(outward), r.direction);
    }
}

/// The result of a successful intersection test.
#[derive(Clone, Copy, Debug)]
pub struct HitRecord {
    pub point: Vec3,
    pub normal: Vec3,
    pub material: Material,
    pub t: Fx,
    pub front_face: bool,
}

impl View for HitRecord {
    type V = HitV;

    open spec fn view(&self) -> HitV {
        HitV {
            point: self.point@,
            normal: self.normal@,
            material: self.material@,
            t: self.t@,
            front_face: self.front_face,
        }
    }
}

impl HitRecord {
    /// Build a record for a hit at parameter `t`, orienting the normal
    /// against the incoming ray.
    pub fn new(t: Fx, point: Vec3, outward_normal: Vec3, ray: &Ray, material: Material) -> (r:
        HitRecord)
        ensures
            r@ == hit_record_new(t@, point@, outward_normal@, ray@, material@),
    {
        let front_face = ray.direction().dot(outward_normal).lt(Fx::zero());
        let normal = if front_face {
            outward_normal
        } else {
            outward_normal.neg()
        };
        HitRecord { t, point, normal, front_face, material }
    }
}

} // verus!
