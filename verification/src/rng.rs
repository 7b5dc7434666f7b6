//! Pseudo-random sampling.
//!
//! The engine threads an explicit linear-congruential generator through every
//! sampling site, so each draw has an exact specification (`rng_step`,
//! `rng_unit_of`) and a whole render pass is a pure function of the scene,
//! the camera and the seed.  Fresh entropy, when a caller wants it, enters
//! only through [`Rng::from_entropy`].

use vstd::prelude::*;
use crate::fx::{Fx, fx_clamp, fx_add, fx_sub, fx_mul, FX_ONE_RAW};

verus! {

/// Multiplier of the linear-congruential step.
pub const RNG_MUL: u64 = 6364136223846793005;

/// Increment of the linear-congruential step.
pub const RNG_INC: u64 = 1442695040888963407;

/// One step of the generator state.
#[verifier::opaque]
pub open spec fn rng_step(s: int) -> int {
    (s * (RNG_MUL as int) + (RNG_INC as int)) % 0x10000000000000000
}

/// The unit-interval scalar drawn from a state: its top sixteen bits.
#[verifier::opaque]
pub open spec fn rng_unit_of(s: int) -> int {
    s / 0x1000000000000
}

/// Numerator of a scalar drawn uniformly from `[min, max)`.
pub open spec fn rng_range_of(s: int, min: int, max: int) -> int {
    fx_add(min, fx_mul(rng_unit_of(s), fx_sub(max, min)))
}

/// An explicit pseudo-random generator: a linear-congruential `u64` state.
#[derive(Clone, Copy, Debug, PartialEq, Eq, Structural)]
pub struct Rng {
    state: u64,
}

impl View for Rng {
    type V = int;

    closed spec fn view(&self) -> int {
        self.state as int
    }
}

/// Relies on rand::random for one machine-entropy seed; nothing is assumed
/// about its value.
#[verifier::external_body]
fn entropy_seed() -> u64 {
    rand::random::<u64>()
}

impl Rng {
    /// A generator with the given seed.
    pub fn new(seed: u64) -> (r: Rng)
        ensures
            r@ == seed as int,
    {
        Rng { state: seed }
    }

    /// A generator seeded from machine entropy.
    pub fn from_entropy() -> Rng {
        Rng { state: entropy_seed() }
    }

    /// Advance the state by one step.
    pub fn step(&mut self)
        ensures
            final(self)@ == rng_step(old(self)@),
    {
        let s: u128 = self.state as u128;
        proof {
            reveal(rng_step);
            assert((s as int) * (RNG_MUL as int) + (RNG_INC as int) < (0x100000000000000000000000000000000
                as int)) by (nonlinear_arith)
                requires
                    0 <= (s as int),
                    (s as int) < 0x10000000000000000;
        }
        let p: u128 = s * (RNG_MUL as u128) + (RNG_INC as u128);
        self.state = (p % 0x10000000000000000u128) as u64;
    }

    /// Draw a scalar uniformly from `[0, 1)`.
    pub fn next_unit(&mut self) -> (r: Fx)
        ensures
            final(self)@ == rng_step(old(self)@),
            r@ == rng_unit_of(final(self)@),
            0 <= r@ < FX_ONE_RAW as int,
    {
        self.step();
        proof {
            reveal(rng_unit_of);
        }
        let raw: u64 = self.state / 0x1000000000000u64;
        Fx::from_raw(raw as i64)
    }
}

/// Any stepped state yields a unit draw inside `[0, 1)`.
pub proof fn lemma_rng_unit_bounds(s: int)
    ensures
        0 <= rng_unit_of(rng_step(s)) < 65536,
{
    reveal(rng_step);
    reveal(rng_unit_of);
}

/// Draw a scalar uniformly from `[0, 1)`.
pub fn random_normalized(rng: &mut Rng) -> (r: Fx)
    ensures
        final(rng)@ == rng_step(old(rng)@),
        r@ == rng_unit_of(final(rng)@),
        0 <= r@ < FX_ONE_RAW as int,
{
    rng.next_unit()
}

/// Draw a scalar uniformly from `[min, max)`.
pub fn random_range(rng: &mut Rng, min: Fx, max: Fx) -> (r: Fx)
    ensures
        final(rng)@ == rng_step(old(rng)@),
        r@ == rng_range_of(final(rng)@, min@, max@),
        0 <= min@ < max@ && max@ <= FX_ONE_RAW as int ==> min@ <= r@ < max@,
{
    let u = rng.next_unit();
    proof {
        if 0 <= min@ < max@ && max@ <= FX_ONE_RAW as int {
            crate::fx::lemma_fx_mul_unit(u@, max@ - min@);
        }
    }
    min.add(u.mul(max.sub(min)))
}

} // verus!
