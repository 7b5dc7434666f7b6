//! Quaternions for the orientation-correction hook of the mesh path.
//!
//! The rotation built from two directions uses the half-angle identities
//! `cos(a/2) = sqrt((1 + cos a) / 2)` and `sin(a/2) = sqrt((1 - cos a) / 2)`
//! on the dot product of the unit directions, so no arc cosine is needed.

use vstd::prelude::*;
use crate::fx::{Fx, fx_add, fx_sub, fx_mul, fx_div, fx_sqrt, FX_ONE_RAW};
use crate::trig::{fx_sin, fx_cos};
use crate::vec3::{Vec3, V3, v3_add, v3_scale, v3_dot, v3_cross, v3_unit};

verus! {

/// The model of a quaternion.
pub struct QuatV {
    pub w: int,
    pub x: int,
    pub y: int,
    pub z: int,
}

/// A rotation quaternion: a scalar part and a vector part.
#[derive(Clone, Copy, Debug, PartialEq, Eq, Structural)]
pub struct Quaternion {
    // Scalar
    pub w: Fx,
    pub x: Fx,
    pub y: Fx,
    pub z: Fx,
}

impl View for Quaternion {
    type V = QuatV;

    open spec fn view(&self) -> QuatV {
        QuatV { w: self.w@, x: self.x@, y: self.y@, z: self.z@ }
    }
}

/// The quaternion of a rotation about `axis` by `angle`.
pub open spec fn quat_from_axis_angle(axis: V3, angle: int) -> QuatV {
    let half = fx_div(angle, 2 * FX_ONE_RAW as int);
    let w = fx_cos(half);
    let c = fx_sin(half);
    QuatV { w, x: fx_mul(c, axis.x), y: fx_mul(c, axis.y), z: fx_mul(c, axis.z) }
}

/// The rotation taking the direction of `eye` to the direction of
/// `target`, by the half-angle identities on their dot product.
pub open spec fn quat_from_direction(eye: V3, target: V3) -> QuatV {
    let v1 = v3_unit(eye);
    let v2 = v3_unit(target);
    let d = v3_dot(v1, v2);
    let axis = v3_cross(v1, v2);
    let w = fx_sqrt(fx_div(fx_add(FX_ONE_RAW as int, d), 2 * FX_ONE_RAW as int));
    let c = fx_sqrt(fx_div(fx_sub(FX_ONE_RAW as int, d), 2 * FX_ONE_RAW as int));
    QuatV { w, x: fx_mul(c, axis.x), y: fx_mul(c, axis.y), z: fx_mul(c, axis.z) }
}

/// The squared magnitude of a quaternion.
pub open spec fn quat_magnitude(q: QuatV) -> int {
    fx_add(fx_add(fx_add(fx_mul(q.w, q.w), fx_mul(q.x, q.x)), fx_mul(q.y, q.y)), fx_mul(q.z, q.z))
}

/// The normalized quaternion: unchanged when the squared magnitude is
/// already one, else divided by its root.
pub open spec fn quat_normalize(q: QuatV) -> QuatV {
    let mag = quat_magnitude(q);
    if mag == FX_ONE_RAW as int {
        q
    } else {
        let root = fx_sqrt(mag);
        QuatV {
            w: fx_div(q.w, root),
            x: fx_div(q.x, root),
            y: fx_div(q.y, root),
            z: fx_div(q.z, root),
        }
    }
}

/// The Hamilton product.
pub open spec fn quat_multiply(a: QuatV, b: QuatV) -> QuatV {
    QuatV {
        w: fx_sub(fx_sub(fx_sub(fx_mul(a.w, b.w), fx_mul(a.x, b.x)), fx_mul(a.y, b.y)), fx_mul(
            a.z, b.z)),
        x: fx_sub(fx_add(fx_add(fx_mul(a.w, b.x), fx_mul(a.x, b.w)), fx_mul(a.y, b.z)), fx_mul(
            a.z, b.y)),
        y: fx_add(fx_add(fx_sub(fx_mul(a.w, b.y), fx_mul(a.x, b.z)), fx_mul(a.y, b.w)), fx_mul(
            a.z, b.x)),
        z: fx_add(fx_sub(fx_add(fx_mul(a.w, b.z), fx_mul(a.x, b.y)), fx_mul(a.y, b.x)), fx_mul(
            a.z, b.w)),
    }
}

/// The image of `v` under the rotation: `2 u (u . v) + v (w^2 - u . u) +
/// 2 w (u x v)` for vector part `u`.
pub open spec fn quat_rotate(q: QuatV, v: V3) -> V3 {
    let u = V3 { x: q.x, y: q.y, z: q.z };
    let two = 2 * FX_ONE_RAW as int;
    v3_add(
        v3_add(
            v3_scale(v3_scale(u, two), v3_dot(u, v)),
            v3_scale(v, fx_sub(fx_mul(q.w, q.w), v3_dot(u, u))),
        ),
        v3_scale(v3_scale(v3_cross(u, v), two), q.w),
    )
}

/// The model of the homogeneous rotation matrix of a quaternion.
pub struct Mat4V {
    pub rows: Seq<Seq<int>>,
}

/// The rotation matrix of a (normalized) quaternion, with `w^2` shortcut
/// to one.
pub open spec fn quat_matrix(q: QuatV) -> Mat4V {
    let one = FX_ONE_RAW as int;
    let two = 2 * one;
    let two_x2 = fx_mul(two, fx_mul(q.x, q.x));
    let two_y2 = fx_mul(two, fx_mul(q.y, q.y));
    let two_z2 = fx_mul(two, fx_mul(q.z, q.z));
    let two_xy = fx_mul(fx_mul(two, q.x), q.y);
    let two_xz = fx_mul(fx_mul(two, q.x), q.z);
    let two_yz = fx_mul(fx_mul(two, q.y), q.z);
    let two_wx = fx_mul(fx_mul(two, q.w), q.x);
    let two_wz = fx_mul(fx_mul(two, q.w), q.z);
    let two_wy = fx_mul(fx_mul(two, q.w), q.y);
    Mat4V {
        rows: seq![
            seq![
                fx_sub(fx_sub(one, two_y2), two_z2),
                fx_sub(two_xy, two_wz),
                fx_add(two_xz, two_wy),
                0,
            ],
            seq![
                fx_add(two_xy, two_wz),
                fx_sub(fx_sub(one, two_x2), two_z2),
                fx_add(two_yz, two_wx),
                0,
            ],
            seq![
                fx_sub(two_xz, two_wy),
                fx_sub(two_yz, two_wx),
                fx_sub(fx_sub(one, two_x2), two_y2),
                0,
            ],
            seq![0, 0, 0, one],
        ],
    }
}

impl Quaternion {
    /// The identity rotation.
    pub fn default() -> (r: Quaternion)
        ensures
            r@ == (QuatV { w: FX_ONE_RAW as int, x: 0, y: 0, z: 0 }),
    {
        Quaternion::identity()
    }

    pub fn new(w: Fx, v0: Fx, v1: Fx, v2: Fx) -> (r: Quaternion)
        ensures
            r@ == (QuatV { w: w@, x: v0@, y: v1@, z: v2@ }),
    {
        Quaternion { w, x: v0, y: v1, z: v2 }
    }

    /// The four components, scalar part first.
    pub fn wxyz(&self) -> (r: (Fx, Fx, Fx, Fx))
        ensures
            r.0@ == self@.w,
            r.1@ == self@.x,
            r.2@ == self@.y,
            r.3@ == self@.z,
    {
        (self.w, self.x, self.y, self.z)
    }

    pub fn identity() -> (r: Quaternion)
        ensures
            r@ == (QuatV { w: FX_ONE_RAW as int, x: 0, y: 0, z: 0 }),
    {
        Quaternion::new(Fx::one(), Fx::zero(), Fx::zero(), Fx::zero())
    }

    /// The rotation taking the direction of `eye` to the direction of
    /// `target`.
    pub fn from_direction(eye: Vec3, target: Vec3) -> (r: Quaternion)
        ensures
            r@ == quat_from_direction(eye@, target@),
    {
        let two = Fx::from_int(2);
        let v1 = eye.unit_vector();
        let v2 = target.unit_vector();
        let d = v1.dot(v2);
        let axis = v1.cross(v2);
        let w = Fx::one().add(d).div(two).nsqrt();
        let c = Fx::one().sub(d).div(two).nsqrt();
        Quaternion::new(w, c.mul(axis.x), c.mul(axis.y), c.mul(axis.z))
    }

    /// The rotation about `axis` by `angle` radians.
    pub fn from_axis_angle(axis: Vec3, angle: Fx) -> (r: Quaternion)
        ensures
            r@ == quat_from_axis_angle(axis@, angle@),
    {
        let half = angle.div(Fx::from_int(2));
        let w = half.ncos();
        let c = half.nsin();
        Quaternion::new(w, c.mul(axis.x), c.mul(axis.y), c.mul(axis.z))
    }

    pub fn from_x_rotation(angle: Fx) -> (r: Quaternion)
        ensures
            r@ == quat_from_axis_angle(V3 { x: FX_ONE_RAW as int, y: 0, z: 0 }, angle@),
    {
        Quaternion::from_axis_angle(Vec3::new(Fx::one(), Fx::zero(), Fx::zero()), angle)
    }

    pub fn from_y_rotation(angle: Fx) -> (r: Quaternion)
        ensures
            r@ == quat_from_axis_angle(V3 { x: 0, y: FX_ONE_RAW as int, z: 0 }, angle@),
    {
        Quaternion::from_axis_angle(Vec3::new(Fx::zero(), Fx::one(), Fx::zero()), angle)
    }

    pub fn from_z_rotation(angle: Fx) -> (r: Quaternion)
        ensures
            r@ == quat_from_axis_angle(V3 { x: 0, y: 0, z: FX_ONE_RAW as int }, angle@),
    {
        Quaternion::from_axis_angle(Vec3::new(Fx::zero(), Fx::zero(), Fx::one()), angle)
    }

    /// Normalize to unit magnitude, unless already unit.
    pub fn normalize(&self) -> (r: Quaternion)
        ensures
            r@ == quat_normalize(self@),
    {
        let mag = self.magnitude();
        if mag.raw() == FX_ONE_RAW {
            return *self;
        }
        let mag = mag.nsqrt();
        let w = self.w.div(mag);
        let x = self.x.div(mag);
        let y = self.y.div(mag);
        let z = self.z.div(mag);
        Quaternion::new(w, x, y, z)
    }

    /// The homogeneous rotation matrix, rows first.
    pub fn to_matrix(&self) -> (r: [[Fx; 4]; 4])
        ensures
            forall|i: int, j: int|
                0 <= i < 4 && 0 <= j < 4 ==> #[trigger] r@[i]@[j]@ == quat_matrix(
                    self@,
                ).rows[i][j],
    {
        let zero = Fx::zero();
        let one = Fx::one();
        let two = Fx::from_int(2);
        let w = self.w;
        let x = self.x;
        let y = self.y;
        let z = self.z;
        let x_sqrd = x.nsqrd();
        let y_sqrd = y.nsqrd();
        let z_sqrd = z.nsqrd();
        let two_x2 = two.mul(x_sqrd);
        let two_y2 = two.mul(y_sqrd);
        let two_z2 = two.mul(z_sqrd);
        let two_xy = two.mul(x).mul(y);
        let two_xz = two.mul(x).mul(z);
        let two_yz = two.mul(y).mul(z);
        let two_wx = two.mul(w).mul(x);
        let two_wz = two.mul(w).mul(z);
        let two_wy = two.mul(w).mul(y);
        // Since it is normalized, w^2 shortcuts to one.
        let m1 = [one.sub(two_y2).sub(two_z2), two_xy.sub(two_wz), two_xz.add(two_wy), zero];
        let m2 = [two_xy.add(two_wz), one.sub(two_x2).sub(two_z2), two_yz.add(two_wx), zero];
        let m3 = [two_xz.sub(two_wy), two_yz.sub(two_wx), one.sub(two_x2).sub(two_y2), zero];
        let m4 = [zero, zero, zero, one];
        [m1, m2, m3, m4]
    }

    /// Rotate a vector by this quaternion.
    pub fn rotate_vec3(&self, v: Vec3) -> (r: Vec3)
        ensures
            r@ == quat_rotate(self@, v@),
    {
        let u = Vec3 { x: self.x, y: self.y, z: self.z };
        let s = self.w;
        let two = Fx::from_int(2);
        u.scale(two).scale(u.dot(v)).add(v.scale(s.nsqrd().sub(u.dot(u)))).add(
            u.cross(v).scale(two).scale(s),
        )
    }

    /// The Hamilton product; not commutative.
    pub fn multiply(&self, other: Quaternion) -> (r: Quaternion)
        ensures
            r@ == quat_multiply(self@, other@),
    {
        let w = self.w.mul(other.w).sub(self.x.mul(other.x)).sub(self.y.mul(other.y)).sub(
            self.z.mul(other.z),
        );
        let x = self.w.mul(other.x).add(self.x.mul(other.w)).add(self.y.mul(other.z)).sub(
            self.z.mul(other.y),
        );
        let y = self.w.mul(other.y).sub(self.x.mul(other.z)).add(self.y.mul(other.w)).add(
            self.z.mul(other.x),
        );
        let z = self.w.mul(other.z).add(self.x.mul(other.y)).sub(self.y.mul(other.x)).add(
            self.z.mul(other.w),
        );
        Quaternion::new(w, x, y, z)
    }

    /// The squared magnitude.
    pub fn magnitude(&self) -> (r: Fx)
        ensures
            r@ == quat_magnitude(self@),
    {
        self.w.nsqrd().add(self.x.nsqrd()).add(self.y.nsqrd()).add(self.z.nsqrd())
    }

    /// The Hamilton product.
    pub fn mul(self, rhs: Quaternion) -> (r: Quaternion)
        ensures
            r@ == quat_multiply(self@, rhs@),
    {
        self.multiply(rhs)
    }

    /// The Hamilton product, in place.
    pub fn mul_assign(&mut self, rhs: Quaternion)
        ensures
            final(self)@ == quat_multiply(old(self)@, rhs@),
    {
        let m = self.multiply(rhs);
        self.w = m.w;
        self.x = m.x;
        self.y = m.y;
        self.z = m.z;
    }
}

} // verus!
