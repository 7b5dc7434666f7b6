//! Fixed-point trigonometry.
//!
//! Angles are reduced by whole turns and folded into the first quadrant,
//! where a short Taylor polynomial evaluates sine and cosine.  Each function
//! is specified exactly by the matching spec function; the polynomial is the
//! definition of the result, so the contracts pin every bit.

use vstd::prelude::*;
use crate::fx::{Fx, fx_add, fx_sub, fx_neg, fx_mul, fx_div, fx_clamp_to, FX_ONE_RAW};

verus! {

/// Numerator of pi.
pub const FX_PI_RAW: i64 = 205887;

/// Numerator of two pi.
pub const FX_TWO_PI_RAW: i64 = 411775;

/// Numerator of pi over two.
pub const FX_HALF_PI_RAW: i64 = 102944;

/// Taylor polynomial of sine on the first quadrant.
pub open spec fn sin_poly(t: int) -> int {
    let t2 = fx_mul(t, t);
    let t3 = fx_mul(t2, t);
    let t5 = fx_mul(t3, t2);
    let t7 = fx_mul(t5, t2);
    fx_add(
        fx_sub(t, fx_div(t3, 6 * FX_ONE_RAW as int)),
        fx_sub(fx_div(t5, 120 * FX_ONE_RAW as int), fx_div(t7, 5040 * FX_ONE_RAW as int)),
    )
}

/// Taylor polynomial of cosine on the first quadrant.
pub open spec fn cos_poly(t: int) -> int {
    let t2 = fx_mul(t, t);
    let t4 = fx_mul(t2, t2);
    let t6 = fx_mul(t4, t2);
    fx_sub(
        fx_add(fx_sub(FX_ONE_RAW as int, fx_div(t2, 2 * FX_ONE_RAW as int)), fx_div(t4, 24
            * FX_ONE_RAW as int)),
        fx_div(t6, 720 * FX_ONE_RAW as int),
    )
}

/// Reduce an angle by whole turns into `[-2 pi, 2 pi]`.
pub open spec fn angle_reduce(x: int) -> int {
    let k = crate::fx::fx_trunc_whole(fx_div(x, FX_TWO_PI_RAW as int));
    let r = fx_sub(x, fx_mul(k, FX_TWO_PI_RAW as int));
    fx_clamp_to(r, -(FX_TWO_PI_RAW as int), FX_TWO_PI_RAW as int)
}

/// Sine on `[0, pi]`, folded into the first quadrant.
pub open spec fn sin_half(a: int) -> int {
    if a > FX_HALF_PI_RAW as int {
        sin_poly(fx_sub(FX_PI_RAW as int, a))
    } else {
        sin_poly(a)
    }
}

/// Cosine on `[0, pi]`, folded into the first quadrant.
pub open spec fn cos_half(a: int) -> int {
    if a > FX_HALF_PI_RAW as int {
        fx_neg(cos_poly(fx_sub(FX_PI_RAW as int, a)))
    } else {
        cos_poly(a)
    }
}

/// Sine on `[0, 2 pi]`.
pub open spec fn sin_turn(r: int) -> int {
    if r > FX_PI_RAW as int {
        fx_neg(sin_half(fx_sub(r, FX_PI_RAW as int)))
    } else {
        sin_half(r)
    }
}

/// Cosine on `[0, 2 pi]`.
pub open spec fn cos_turn(r: int) -> int {
    if r > FX_PI_RAW as int {
        fx_neg(cos_half(fx_sub(r, FX_PI_RAW as int)))
    } else {
        cos_half(r)
    }
}

pub open spec fn fx_sin(x: int) -> int {
    let r = angle_reduce(x);
    if r < 0 {
        fx_neg(sin_turn(fx_neg(r)))
    } else {
        sin_turn(r)
    }
}

pub open spec fn fx_cos(x: int) -> int {
    let r = angle_reduce(x);
    if r < 0 {
        cos_turn(fx_neg(r))
    } else {
        cos_turn(r)
    }
}

pub open spec fn fx_tan(x: int) -> int {
    fx_div(fx_sin(x), fx_cos(x))
}

pub open spec fn fx_degrees_to_radians(d: int) -> int {
    fx_div(fx_mul(d, FX_PI_RAW as int), 180 * FX_ONE_RAW as int)
}

/// The angle in radians of `degrees` degrees.
pub fn degrees_to_radians(degrees: Fx) -> (r: Fx)
    ensures
        r@ == fx_degrees_to_radians(degrees@),
{
    degrees.mul(Fx::pi()).div(Fx::from_int(180))
}

fn sin_poly_exec(t: Fx) -> (r: Fx)
    ensures
        r@ == sin_poly(t@),
{
    let t2 = t.mul(t);
    let t3 = t2.mul(t);
    let t5 = t3.mul(t2);
    let t7 = t5.mul(t2);
    t.sub(t3.div(Fx::from_int(6))).add(
        t5.div(Fx::from_int(120)).sub(t7.div(Fx::from_int(5040))),
    )
}

fn cos_poly_exec(t: Fx) -> (r: Fx)
    ensures
        r@ == cos_poly(t@),
{
    let t2 = t.mul(t);
    let t4 = t2.mul(t2);
    let t6 = t4.mul(t2);
    Fx::one().sub(t2.div(Fx::from_int(2))).add(t4.div(Fx::from_int(24))).sub(
        t6.div(Fx::from_int(720)),
    )
}

fn angle_reduce_exec(x: Fx) -> (r: Fx)
    ensures
        r@ == angle_reduce(x@),
{
    let two_pi = Fx::from_raw(FX_TWO_PI_RAW);
    let k = x.div(two_pi).trunc_whole();
    let r = x.sub(k.mul(two_pi));
    crate::fx::clamp(r, two_pi.neg(), two_pi)
}

fn sin_half_exec(a: Fx) -> (r: Fx)
    ensures
        r@ == sin_half(a@),
{
    if a.gt(Fx::from_raw(FX_HALF_PI_RAW)) {
        sin_poly_exec(Fx::from_raw(FX_PI_RAW).sub(a))
    } else {
        sin_poly_exec(a)
    }
}

fn cos_half_exec(a: Fx) -> (r: Fx)
    ensures
        r@ == cos_half(a@),
{
    if a.gt(Fx::from_raw(FX_HALF_PI_RAW)) {
        cos_poly_exec(Fx::from_raw(FX_PI_RAW).sub(a)).neg()
    } else {
        cos_poly_exec(a)
    }
}

fn sin_turn_exec(r: Fx) -> (s: Fx)
    ensures
        s@ == sin_turn(r@),
{
    if r.gt(Fx::pi()) {
        sin_half_exec(r.sub(Fx::pi())).neg()
    } else {
        sin_half_exec(r)
    }
}

fn cos_turn_exec(r: Fx) -> (s: Fx)
    ensures
        s@ == cos_turn(r@),
{
    if r.gt(Fx::pi()) {
        cos_half_exec(r.sub(Fx::pi())).neg()
    } else {
        cos_half_exec(r)
    }
}

impl Fx {
    /// The scalar pi.
    pub fn pi() -> (r: Fx)
        ensures
            r@ == FX_PI_RAW as int,
    {
        Fx::from_raw(FX_PI_RAW)
    }

    /// Sine of the scalar taken as an angle in radians.
    pub fn nsin(&self) -> (r: Fx)
        ensures
            r@ == fx_sin(self@),
    {
        let red = angle_reduce_exec(*self);
        if red.lt(Fx::zero()) {
            sin_turn_exec(red.neg()).neg()
        } else {
            sin_turn_exec(red)
        }
    }

    /// Cosine of the scalar taken as an angle in radians.
    pub fn ncos(&self) -> (r: Fx)
        ensures
            r@ == fx_cos(self@),
    {
        let red = angle_reduce_exec(*self);
        if red.lt(Fx::zero()) {
            cos_turn_exec(red.neg())
        } else {
            cos_turn_exec(red)
        }
    }

    /// Tangent of the scalar taken as an angle in radians.
    pub fn ntan(&self) -> (r: Fx)
        ensures
            r@ == fx_tan(self@),
    {
        self.nsin().div(self.ncos())
    }
}

} // verus!
