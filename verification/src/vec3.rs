//! Three-component vectors.
//!
//! `Vec3` is the executable vector; `V3` is its mathematical model, a triple
//! of fixed-point numerators.  Every executable operation is specified
//! exactly by the matching `v3_*` spec function.

use vstd::prelude::*;
use crate::fx::{
    Fx, fx_add, fx_sub, fx_neg, fx_mul, fx_div, fx_sqrt, fx_min, fx_abs, fx_in_range, FX_ONE_RAW,
};
use crate::rng::{Rng, rng_step, rng_unit_of, rng_range_of, random_range};

verus! {

/// The model of a vector: three fixed-point numerators.
pub struct V3 {
    pub x: int,
    pub y: int,
    pub z: int,
}

/// The executable vector.
#[derive(Clone, Copy, Debug, PartialEq, Eq, Structural)]
pub struct Vec3 {
    pub x: Fx,
    pub y: Fx,
    pub z: Fx,
}

impl View for Vec3 {
    type V = V3;

    open spec fn view(&self) -> V3 {
        V3 { x: self.x@, y: self.y@, z: self.z@ }
    }
}

pub open spec fn v3_add(a: V3, b: V3) -> V3 {
    V3 { x: fx_add(a.x, b.x), y: fx_add(a.y, b.y), z: fx_add(a.z, b.z) }
}

pub open spec fn v3_sub(a: V3, b: V3) -> V3 {
    V3 { x: fx_sub(a.x, b.x), y: fx_sub(a.y, b.y), z: fx_sub(a.z, b.z) }
}

pub open spec fn v3_neg(a: V3) -> V3 {
    V3 { x: fx_neg(a.x), y: fx_neg(a.y), z: fx_neg(a.z) }
}

/// Component-wise product.
pub open spec fn v3_mul(a: V3, b: V3) -> V3 {
    V3 { x: fx_mul(a.x, b.x), y: fx_mul(a.y, b.y), z: fx_mul(a.z, b.z) }
}

/// Product with a scalar.
pub open spec fn v3_scale(a: V3, s: int) -> V3 {
    V3 { x: fx_mul(a.x, s), y: fx_mul(a.y, s), z: fx_mul(a.z, s) }
}

/// Quotient by a scalar.
pub open spec fn v3_div_s(a: V3, s: int) -> V3 {
    V3 { x: fx_div(a.x, s), y: fx_div(a.y, s), z: fx_div(a.z, s) }
}

pub open spec fn v3_dot(a: V3, b: V3) -> int {
    fx_add(fx_add(fx_mul(a.x, b.x), fx_mul(a.y, b.y)), fx_mul(a.z, b.z))
}

pub open spec fn v3_cross(a: V3, b: V3) -> V3 {
    V3 {
        x: fx_sub(fx_mul(a.y, b.z), fx_mul(a.z, b.y)),
        y: fx_sub(fx_mul(a.z, b.x), fx_mul(a.x, b.z)),
        z: fx_sub(fx_mul(a.x, b.y), fx_mul(a.y, b.x)),
    }
}

pub open spec fn v3_len_squared(a: V3) -> int {
    v3_dot(a, a)
}

pub open spec fn v3_len(a: V3) -> int {
    fx_sqrt(v3_len_squared(a))
}

pub open spec fn v3_unit(a: V3) -> V3 {
    v3_div_s(a, v3_len(a))
}

/// Every component lies in the representable range.
pub open spec fn v3_in_range(a: V3) -> bool {
    fx_in_range(a.x) && fx_in_range(a.y) && fx_in_range(a.z)
}

/// The dot product is commutative.
pub proof fn lemma_v3_dot_comm(a: V3, b: V3)
    ensures
        v3_dot(a, b) == v3_dot(b, a),
{
    crate::fx::lemma_fx_mul_comm(a.x, b.x);
    crate::fx::lemma_fx_mul_comm(a.y, b.y);
    crate::fx::lemma_fx_mul_comm(a.z, b.z);
}

/// Negating one side of a dot product negates it exactly.
pub proof fn lemma_v3_dot_neg(d: V3, o: V3)
    requires
        v3_in_range(o),
    ensures
        v3_dot(d, v3_neg(o)) == fx_neg(v3_dot(d, o)),
{
    crate::fx::lemma_fx_mul_neg(d.x, o.x);
    crate::fx::lemma_fx_mul_neg(d.y, o.y);
    crate::fx::lemma_fx_mul_neg(d.z, o.z);
}

/// All components are smaller than one numerator unit in magnitude.
pub open spec fn v3_near_zero(a: V3) -> bool {
    fx_abs(a.x) < 1 && fx_abs(a.y) < 1 && fx_abs(a.z) < 1
}

/// Mirror reflection about a normal: `a - 2 (a . n) n`.
pub open spec fn v3_reflect(a: V3, n: V3) -> V3 {
    v3_sub(a, v3_scale(n, fx_mul(2 * FX_ONE_RAW as int, v3_dot(a, n))))
}

/// Snell refraction of the unit direction `uv` about `n` with ratio `eta`.
pub open spec fn v3_refract(uv: V3, n: V3, eta: int) -> V3 {
    let cos_theta = fx_min(v3_dot(v3_neg(uv), n), FX_ONE_RAW as int);
    let r_out_perp = v3_scale(v3_add(uv, v3_scale(n, cos_theta)), eta);
    let k = fx_sqrt(fx_sub(FX_ONE_RAW as int, v3_len_squared(r_out_perp)));
    let r_out_parallel = v3_scale(n, fx_neg(k));
    v3_add(r_out_perp, r_out_parallel)
}

/// The three unit draws of one vector sample, and the state after them.
pub open spec fn v3_random_of(s: int, min: int, max: int) -> V3 {
    V3 {
        x: rng_range_of(rng_step(s), min, max),
        y: rng_range_of(rng_step(rng_step(s)), min, max),
        z: rng_range_of(rng_step(rng_step(rng_step(s))), min, max),
    }
}

pub open spec fn rng_step3(s: int) -> int {
    rng_step(rng_step(rng_step(s)))
}

/// Rejection sampling for a point inside the unit sphere, with a bounded
/// number of tries and a fixed in-sphere fallback.
pub open spec fn v3_in_unit_sphere(s: int, tries: nat) -> (V3, int)
    decreases tries,
{
    let p = v3_random_of(s, -(FX_ONE_RAW as int), FX_ONE_RAW as int);
    let s3 = rng_step3(s);
    if v3_len_squared(p) < FX_ONE_RAW as int {
        (p, s3)
    } else if tries == 0 {
        (V3 { x: (FX_ONE_RAW / 2) as int, y: 0, z: 0 }, s3)
    } else {
        v3_in_unit_sphere(s3, (tries - 1) as nat)
    }
}

/// Rejection sampling for a point inside the unit disk in the x-y plane.
pub open spec fn v3_in_unit_disk(s: int, tries: nat) -> (V3, int)
    decreases tries,
{
    let p = V3 {
        x: rng_range_of(rng_step(s), -(FX_ONE_RAW as int), FX_ONE_RAW as int),
        y: rng_range_of(rng_step(rng_step(s)), -(FX_ONE_RAW as int), FX_ONE_RAW as int),
        z: 0,
    };
    let s2 = rng_step(rng_step(s));
    if v3_len_squared(p) < FX_ONE_RAW as int {
        (p, s2)
    } else if tries == 0 {
        (V3 { x: (FX_ONE_RAW / 2) as int, y: 0, z: 0 }, s2)
    } else {
        v3_in_unit_disk(s2, (tries - 1) as nat)
    }
}

/// How many rejection-sampling tries a draw makes before the fallback.
pub const SAMPLE_TRIES: u32 = 64;

impl Vec3 {
    /// The zero vector.
    pub fn default() -> (r: Vec3)
        ensures
            r@ == (V3 { x: 0, y: 0, z: 0 }),
    {
        Vec3 { x: Fx::zero(), y: Fx::zero(), z: Fx::zero() }
    }

    pub fn new(x: Fx, y: Fx, z: Fx) -> (r: Vec3)
        ensures
            r@ == (V3 { x: x@, y: y@, z: z@ }),
    {
        Vec3 { x, y, z }
    }

    pub fn len_squared(&self) -> (r: Fx)
        ensures
            r@ == v3_len_squared(self@),
    {
        self.x.mul(self.x).add(self.y.mul(self.y)).add(self.z.mul(self.z))
    }

    pub fn len(&self) -> (r: Fx)
        ensures
            r@ == v3_len(self@),
    {
        self.len_squared().nsqrt()
    }

    pub fn dot(&self, v: Vec3) -> (r: Fx)
        ensures
            r@ == v3_dot(self@, v@),
    {
        self.x.mul(v.x).add(self.y.mul(v.y)).add(self.z.mul(v.z))
    }

    pub fn cross(&self, other: Vec3) -> (r: Vec3)
        ensures
            r@ == v3_cross(self@, other@),
    {
        Vec3 {
            x: self.y.mul(other.z).sub(self.z.mul(other.y)),
            y: self.z.mul(other.x).sub(self.x.mul(other.z)),
            z: self.x.mul(other.y).sub(self.y.mul(other.x)),
        }
    }

    pub fn unit_vector(&self) -> (r: Vec3)
        ensures
            r@ == v3_unit(self@),
    {
        self.div_s(self.len())
    }

    pub fn neg(self) -> (r: Vec3)
        ensures
            r@ == v3_neg(self@),
    {
        Vec3 { x: self.x.neg(), y: self.y.neg(), z: self.z.neg() }
    }

    pub fn add(self, rhs: Vec3) -> (r: Vec3)
        ensures
            r@ == v3_add(self@, rhs@),
    {
        Vec3 { x: self.x.add(rhs.x), y: self.y.add(rhs.y), z: self.z.add(rhs.z) }
    }

    pub fn sub(self, rhs: Vec3) -> (r: Vec3)
        ensures
            r@ == v3_sub(self@, rhs@),
    {
        Vec3 { x: self.x.sub(rhs.x), y: self.y.sub(rhs.y), z: self.z.sub(rhs.z) }
    }

    /// Component-wise product.
    pub fn mul(self, rhs: Vec3) -> (r: Vec3)
        ensures
            r@ == v3_mul(self@, rhs@),
    {
        Vec3 { x: self.x.mul(rhs.x), y: self.y.mul(rhs.y), z: self.z.mul(rhs.z) }
    }

    /// Product with a scalar.
    pub fn scale(self, rhs: Fx) -> (r: Vec3)
        ensures
            r@ == v3_scale(self@, rhs@),
    {
        Vec3 { x: self.x.mul(rhs), y: self.y.mul(rhs), z: self.z.mul(rhs) }
    }

    /// Quotient by a scalar.
    pub fn div_s(self, rhs: Fx) -> (r: Vec3)
        ensures
            r@ == v3_div_s(self@, rhs@),
    {
        Vec3 { x: self.x.div(rhs), y: self.y.div(rhs), z: self.z.div(rhs) }
    }

    /// A vector with each component drawn uniformly from `[0, 1)`.
    pub fn random(rng: &mut Rng) -> (r: Vec3)
        ensures
            final(rng)@ == rng_step3(old(rng)@),
            r@ == v3_random_of(old(rng)@, 0, FX_ONE_RAW as int),
            0 <= r@.x < FX_ONE_RAW as int,
            0 <= r@.y < FX_ONE_RAW as int,
            0 <= r@.z < FX_ONE_RAW as int,
    {
        let x = random_range(rng, Fx::zero(), Fx::one());
        let y = random_range(rng, Fx::zero(), Fx::one());
        let z = random_range(rng, Fx::zero(), Fx::one());
        Vec3 { x, y, z }
    }

    /// A vector with each component drawn uniformly from `[min, max)`.
    pub fn random_range(rng: &mut Rng, min: Fx, max: Fx) -> (r: Vec3)
        ensures
            final(rng)@ == rng_step3(old(rng)@),
            r@ == v3_random_of(old(rng)@, min@, max@),
            0 <= min@ < max@ && max@ <= FX_ONE_RAW as int ==> {
                &&& min@ <= r@.x < max@
                &&& min@ <= r@.y < max@
                &&& min@ <= r@.z < max@
            },
    {
        let x = random_range(rng, min, max);
        let y = random_range(rng, min, max);
        let z = random_range(rng, min, max);
        Vec3 { x, y, z }
    }

    /// A uniformly random point strictly inside the unit sphere.
    pub fn random_in_unit_sphere(rng: &mut Rng) -> (r: Vec3)
        ensures
            r@ == v3_in_unit_sphere(old(rng)@, SAMPLE_TRIES as nat).0,
            final(rng)@ == v3_in_unit_sphere(old(rng)@, SAMPLE_TRIES as nat).1,
    {
        Vec3::in_unit_sphere_rec(rng, SAMPLE_TRIES)
    }

    fn in_unit_sphere_rec(rng: &mut Rng, tries: u32) -> (r: Vec3)
        ensures
            r@ == v3_in_unit_sphere(old(rng)@, tries as nat).0,
            final(rng)@ == v3_in_unit_sphere(old(rng)@, tries as nat).1,
        decreases tries,
    {
        let p = Vec3::random_range(rng, Fx::one().neg(), Fx::one());
        if p.len_squared().lt(Fx::one()) {
            p
        } else if tries == 0 {
            Vec3 { x: Fx::from_raw(FX_ONE_RAW / 2), y: Fx::zero(), z: Fx::zero() }
        } else {
            Vec3::in_unit_sphere_rec(rng, tries - 1)
        }
    }

    /// A random point inside the unit sphere, normalized onto its surface.
    pub fn random_unit_vector(rng: &mut Rng) -> (r: Vec3)
        ensures
            r@ == v3_unit(v3_in_unit_sphere(old(rng)@, SAMPLE_TRIES as nat).0),
            final(rng)@ == v3_in_unit_sphere(old(rng)@, SAMPLE_TRIES as nat).1,
    {
        Vec3::random_in_unit_sphere(rng).unit_vector()
    }

    /// A uniformly random point strictly inside the unit disk (z = 0).
    pub fn random_in_unit_disk(rng: &mut Rng) -> (r: Vec3)
        ensures
            r@ == v3_in_unit_disk(old(rng)@, SAMPLE_TRIES as nat).0,
            final(rng)@ == v3_in_unit_disk(old(rng)@, SAMPLE_TRIES as nat).1,
    {
        Vec3::in_unit_disk_rec(rng, SAMPLE_TRIES)
    }

    fn in_unit_disk_rec(rng: &mut Rng, tries: u32) -> (r: Vec3)
        ensures
            r@ == v3_in_unit_disk(old(rng)@, tries as nat).0,
            final(rng)@ == v3_in_unit_disk(old(rng)@, tries as nat).1,
        decreases tries,
    {
        let one = Fx::one();
        let p = Vec3 {
            x: random_range(rng, one.neg(), one),
            y: random_range(rng, one.neg(), one),
            z: Fx::zero(),
        };
        if p.len_squared().lt(Fx::one()) {
            p
        } else if tries == 0 {
            Vec3 { x: Fx::from_raw(FX_ONE_RAW / 2), y: Fx::zero(), z: Fx::zero() }
        } else {
            Vec3::in_unit_disk_rec(rng, tries - 1)
        }
    }

    /// Whether every component is smaller than one numerator unit.
    pub fn near_zero(&self) -> (r: bool)
        ensures
            r == v3_near_zero(self@),
    {
        self.x.nabs().lt(Fx::from_raw(1)) && self.y.nabs().lt(Fx::from_raw(1)) && self.z.nabs().lt(
            Fx::from_raw(1))
    }

    /// Mirror reflection about `normal`.
    pub fn reflect(&self, normal: Vec3) -> (r: Vec3)
        ensures
            r@ == v3_reflect(self@, normal@),
    {
        self.sub(normal.scale(Fx::from_int(2).mul(self.dot(normal))))
    }

    /// Snell refraction about `normal` with refraction ratio `etai_over_etat`.
    pub fn refract(&self, normal: Vec3, etai_over_etat: Fx) -> (r: Vec3)
        ensures
            r@ == v3_refract(self@, normal@, etai_over_etat@),
    {
        let uv = *self;
        let cos_theta = Fx::min(uv.neg().dot(normal), Fx::one());
        let r_out_perp = uv.add(normal.scale(cos_theta)).scale(etai_over_etat);
        let k = Fx::one().sub(r_out_perp.len_squared()).nsqrt();
        let r_out_parallel = normal.scale(k.neg());
        r_out_perp.add(r_out_parallel)
    }
}

} // verus!
