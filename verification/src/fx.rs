//! Fixed-point scalars: the real numbers of the engine.
//!
//! A `Fx` stores a real number as `n / 65536` for an `i64` numerator `n`.
//! Every operation clamps its result to the symmetric range
//! `[-FX_RAW_BOUND, FX_RAW_BOUND]`, so all operations are total and each has
//! an exact integer-level specification (`fx_add`, `fx_mul`, ...) over the
//! numerator.  Products and quotients truncate toward zero, which keeps
//! negation exact: `fx_mul(-a, b) == -fx_mul(a, b)`.

use vstd::prelude::*;

verus! {

use vstd::math::abs;

/// Numerator of the scalar one: the fixed-point scale.
pub const FX_ONE_RAW: i64 = 65536;

/// Largest numerator magnitude a scalar may hold.
pub const FX_RAW_BOUND: i64 = 0x4000_0000_0000_0000;

/// A fixed-point real number: the value `n / 65536`.
#[derive(Clone, Copy, Debug, PartialEq, Eq, Structural)]
pub struct Fx {
    n: i64,
}

impl Fx {
    #[verifier::type_invariant]
    spec fn inv(self) -> bool {
        fx_in_range(self.n as int)
    }
}

impl View for Fx {
    type V = int;

    closed spec fn view(&self) -> int {
        self.n as int
    }
}

/// Clamp a numerator into the representable range.
pub open spec fn fx_clamp(v: int) -> int {
    if v > FX_RAW_BOUND as int {
        FX_RAW_BOUND as int
    } else if v < -(FX_RAW_BOUND as int) {
        -(FX_RAW_BOUND as int)
    } else {
        v
    }
}

pub open spec fn fx_in_range(v: int) -> bool {
    -(FX_RAW_BOUND as int) <= v <= FX_RAW_BOUND as int
}

pub open spec fn fx_add(a: int, b: int) -> int {
    fx_clamp(a + b)
}

pub open spec fn fx_sub(a: int, b: int) -> int {
    fx_clamp(a - b)
}

pub open spec fn fx_neg(a: int) -> int {
    fx_clamp(-a)
}

/// Product of two scalars: magnitudes multiply, the scale divides out,
/// truncation is toward zero.
pub open spec fn fx_mul(a: int, b: int) -> int {
    let m = (abs(a) as int) * (abs(b) as int) / (FX_ONE_RAW as int);
    let c = if m > FX_RAW_BOUND as int {
        FX_RAW_BOUND as int
    } else {
        m
    };
    if (a < 0) != (b < 0) {
        -c
    } else {
        c
    }
}

/// Quotient of two scalars; division by zero yields zero.
pub open spec fn fx_div(a: int, b: int) -> int {
    if b == 0 {
        0
    } else {
        let m = (abs(a) as int) * (FX_ONE_RAW as int) / (abs(b) as int);
        let c = if m > FX_RAW_BOUND as int {
            FX_RAW_BOUND as int
        } else {
            m
        };
        if (a < 0) != (b < 0) {
            -c
        } else {
            c
        }
    }
}

/// `r` is the integer square root of `m`.
pub open spec fn is_isqrt(m: int, r: int) -> bool {
    0 <= r && r * r <= m && m < (r + 1) * (r + 1)
}

#[verifier::opaque]
pub open spec fn isqrt(m: int) -> int {
    choose|r: int| is_isqrt(m, r)
}

/// Square root of a scalar; nonpositive inputs yield zero.
pub open spec fn fx_sqrt(a: int) -> int {
    if a <= 0 {
        0
    } else {
        isqrt(a * (FX_ONE_RAW as int))
    }
}

pub open spec fn fx_min(a: int, b: int) -> int {
    if a < b {
        a
    } else {
        b
    }
}

pub open spec fn fx_max(a: int, b: int) -> int {
    if a > b {
        a
    } else {
        b
    }
}

pub open spec fn fx_abs(a: int) -> int {
    fx_clamp(abs(a) as int)
}

/// Multiplying by a unit-interval scalar shrinks a nonnegative scalar.
pub proof fn lemma_fx_mul_unit(u: int, c: int)
    requires
        0 <= u < FX_ONE_RAW as int,
        0 <= c <= FX_RAW_BOUND as int,
    ensures
        0 <= fx_mul(u, c),
        c > 0 ==> fx_mul(u, c) < c,
        c == 0 ==> fx_mul(u, c) == 0,
{
    assert(abs(u) == u);
    assert(abs(c) == c);
    if c > 0 {
        assert(u * c < c * (FX_ONE_RAW as int)) by (nonlinear_arith)
            requires
                0 <= u,
                u < FX_ONE_RAW as int,
                c > 0;
        assert(u * c / (FX_ONE_RAW as int) < c) by (nonlinear_arith)
            requires
                0 <= u * c,
                u * c < c * (FX_ONE_RAW as int);
    }
    assert(0 <= u * c) by (nonlinear_arith)
        requires
            0 <= u,
            0 <= c;
}

/// The fraction one half is the midpoint numerator.
pub proof fn lemma_half_value()
    ensures
        fx_div(1 * (FX_ONE_RAW as int), 2 * (FX_ONE_RAW as int)) == 32768,
{
    assert(abs(65536) == 65536);
    assert(abs(131072) == 131072);
    assert((65536 as int) * (65536 as int) == 4294967296) by (nonlinear_arith);
    assert(4294967296 as int / 131072 == 32768);
}

/// The whole part of a scalar: rounded toward zero to an integer.
pub open spec fn fx_trunc_whole(v: int) -> int {
    if v >= 0 {
        (v / (FX_ONE_RAW as int)) * (FX_ONE_RAW as int)
    } else {
        -(((-v) / (FX_ONE_RAW as int)) * (FX_ONE_RAW as int))
    }
}

/// Multiplication of scalars is commutative.
pub proof fn lemma_fx_mul_comm(a: int, b: int)
    ensures
        fx_mul(a, b) == fx_mul(b, a),
{
    assert((abs(a) as int) * (abs(b) as int) == (abs(b) as int) * (abs(a) as int))
        by (nonlinear_arith);
}

/// Negating one factor negates the product exactly.
pub proof fn lemma_fx_mul_neg(a: int, b: int)
    requires
        fx_in_range(b),
    ensures
        fx_mul(a, fx_neg(b)) == fx_neg(fx_mul(a, b)),
{
    let nb = fx_neg(b);
    assert(nb == -b);
    assert(abs(nb) == abs(b));
    assert((abs(a) as int) * (abs(nb) as int) == (abs(a) as int) * (abs(b) as int));
    assert(0 <= (abs(a) as int) * (abs(b) as int)) by (nonlinear_arith)
        requires
            0 <= (abs(a) as int),
            0 <= (abs(b) as int);
    vstd::arithmetic::div_mod::lemma_div_pos_is_pos(
        (abs(a) as int) * (abs(b) as int),
        FX_ONE_RAW as int,
    );
    let m = (abs(a) as int) * (abs(b) as int) / (FX_ONE_RAW as int);
    let c = if m > FX_RAW_BOUND as int {
        FX_RAW_BOUND as int
    } else {
        m
    };
    if b == 0 {
        assert((abs(a) as int) * (abs(b) as int) == 0) by (nonlinear_arith)
            requires
                (abs(b) as int) == 0;
        assert(c == 0);
    } else if (a < 0) != (b < 0) {
        assert(fx_mul(a, b) == -c);
        assert((a < 0) == (nb < 0));
        assert(fx_mul(a, nb) == c);
        assert(fx_neg(-c) == c);
    } else {
        assert(fx_mul(a, b) == c);
        assert((a < 0) != (nb < 0));
        assert(fx_mul(a, nb) == -c);
        assert(fx_neg(c) == -c);
    }
}

/// Multiplying an in-range scalar by one gives it back exactly.
pub proof fn lemma_fx_mul_one(a: int)
    requires
        fx_in_range(a),
    ensures
        fx_mul(a, FX_ONE_RAW as int) == a,
        fx_mul(a, fx_neg(FX_ONE_RAW as int)) == fx_neg(a),
{
    assert(abs(FX_ONE_RAW as int) == FX_ONE_RAW as int);
    vstd::arithmetic::div_mod::lemma_div_multiples_vanish(abs(a) as int, FX_ONE_RAW as int);
    assert((FX_ONE_RAW as int) * (abs(a) as int) == (abs(a) as int) * (FX_ONE_RAW as int))
        by (nonlinear_arith);
    lemma_fx_mul_neg(a, FX_ONE_RAW as int);
}

/// A quotient of scalars is always in the representable range.
pub proof fn lemma_fx_div_in_range(a: int, b: int)
    ensures
        fx_in_range(fx_div(a, b)),
{
    if b != 0 {
        assert(0 <= (abs(a) as int) * (FX_ONE_RAW as int)) by (nonlinear_arith)
            requires
                0 <= (abs(a) as int);
        vstd::arithmetic::div_mod::lemma_div_pos_is_pos((abs(a) as int) * (FX_ONE_RAW as int), abs(
            b) as int);
    }
}

/// Multiplying by a scalar in `[0, 1]` cannot grow a nonnegative scalar.
pub proof fn lemma_fx_mul_le(a: int, b: int)
    requires
        0 <= a <= FX_ONE_RAW as int,
        0 <= b <= FX_RAW_BOUND as int,
    ensures
        0 <= fx_mul(a, b) <= b,
{
    assert(abs(a) == a);
    assert(abs(b) == b);
    assert(0 <= a * b) by (nonlinear_arith)
        requires
            0 <= a,
            0 <= b;
    assert(a * b <= (FX_ONE_RAW as int) * b) by (nonlinear_arith)
        requires
            a <= FX_ONE_RAW as int,
            0 <= b;
    vstd::arithmetic::div_mod::lemma_div_pos_is_pos(a * b, FX_ONE_RAW as int);
    vstd::arithmetic::div_mod::lemma_div_is_ordered(
        a * b,
        (FX_ONE_RAW as int) * b,
        FX_ONE_RAW as int,
    );
    vstd::arithmetic::div_mod::lemma_div_multiples_vanish(b, FX_ONE_RAW as int);
}

/// A fraction with numerator at most its positive denominator lies in
/// `[0, 1]`.
pub proof fn lemma_frac_in_unit(n: int, d: int)
    requires
        0 <= n <= d,
        0 < d <= 0xFFFFFFFF,
    ensures
        0 <= fx_div(n * (FX_ONE_RAW as int), d * (FX_ONE_RAW as int)) <= FX_ONE_RAW as int,
{
    let s = FX_ONE_RAW as int;
    assert(0 < d * s && d * s <= 0xFFFFFFFF * 65536) by (nonlinear_arith)
        requires
            0 < d <= 0xFFFFFFFF,
            s == 65536;
    assert(0 <= n * s && n * s <= d * s) by (nonlinear_arith)
        requires
            0 <= n <= d,
            s == 65536;
    assert(abs(n * s) == n * s);
    assert(abs(d * s) == d * s);
    assert(0 <= (n * s) * s && (n * s) * s <= (d * s) * s) by (nonlinear_arith)
        requires
            0 <= n * s,
            n * s <= d * s,
            s == 65536;
    vstd::arithmetic::div_mod::lemma_div_pos_is_pos((n * s) * s, d * s);
    vstd::arithmetic::div_mod::lemma_div_is_ordered((n * s) * s, (d * s) * s, d * s);
    vstd::arithmetic::div_mod::lemma_div_multiples_vanish(s, d * s);
    assert(((d * s) * s) / (d * s) == s) by {
        assert((d * s) * s == (d * s) * s);
    }
    assert(((n * s) * s) / (d * s) <= s);
}

/// The integer square root is unique.
pub proof fn lemma_isqrt_unique(m: int, r1: int, r2: int)
    requires
        is_isqrt(m, r1),
        is_isqrt(m, r2),
    ensures
        r1 == r2,
{
    if r1 < r2 {
        assert((r1 + 1) * (r1 + 1) <= r2 * r2) by (nonlinear_arith)
            requires
                0 <= r1,
                r1 + 1 <= r2;
    }
    if r2 < r1 {
        assert((r2 + 1) * (r2 + 1) <= r1 * r1) by (nonlinear_arith)
            requires
                0 <= r2,
                r2 + 1 <= r1;
    }
}

/// Magnitude of an `i64` as a `u128`.
fn abs_u128(x: i64) -> (r: u128)
    ensures
        r as int == abs(x as int) as int,
{
    if x >= 0 {
        x as u128
    } else {
        (-(x as i128)) as u128
    }
}

/// Clamp a wide numerator back into an `i64` in range.
fn clamp_i128(s: i128) -> (r: i64)
    ensures
        r as int == fx_clamp(s as int),
{
    if s > FX_RAW_BOUND as i128 {
        FX_RAW_BOUND
    } else if s < -(FX_RAW_BOUND as i128) {
        -FX_RAW_BOUND
    } else {
        s as i64
    }
}

/// Integer square root by bisection; callers bound `m` below `2^80`.
fn isqrt_u128(m: u128) -> (r: u64)
    requires
        (m as int) < (0x100000000000000000000 as int),
    ensures
        is_isqrt(m as int, r as int),
{
    if m == 0 {
        return 0u64;
    }
    let mut lo: u128 = 0;
    let mut hi: u128 = 0x10000000000;
    proof {
        assert((0x10000000000 as int) * (0x10000000000 as int) == (0x100000000000000000000 as int)) by (nonlinear_arith);
    }
    while lo + 1 < hi
        invariant
            0 <= lo < hi,
            hi <= 0x10000000000,
            (lo as int) * (lo as int) <= m as int,
            (m as int) < (hi as int) * (hi as int),
        decreases hi - lo,
    {
        let mid: u128 = lo + (hi - lo) / 2;
        proof {
            assert((mid as int) * (mid as int) <= (0x10000000000 as int) * (0x10000000000 as int))
                by (nonlinear_arith)
                requires
                    0 <= (mid as int),
                    (mid as int) <= 0x10000000000;
        }
        let sq: u128 = mid * mid;
        if sq <= m {
            lo = mid;
        } else {
            hi = mid;
        }
    }
    lo as u64
}

impl Fx {
    /// The scalar with the given numerator, clamped into range.
    pub fn from_raw(n: i64) -> (r: Fx)
        ensures
            r@ == fx_clamp(n as int),
    {
        if n > FX_RAW_BOUND {
            Fx { n: FX_RAW_BOUND }
        } else if n < -FX_RAW_BOUND {
            Fx { n: -FX_RAW_BOUND }
        } else {
            Fx { n }
        }
    }

    /// The numerator.
    pub fn raw(self) -> (r: i64)
        ensures
            r as int == self@,
    {
        self.n
    }

    /// The scalar equal to the integer `i`.
    pub fn from_int(i: i32) -> (r: Fx)
        ensures
            r@ == (i as int) * (FX_ONE_RAW as int),
    {
        Fx { n: (i as i64) * FX_ONE_RAW }
    }

    /// The scalar equal to the unsigned integer `v`.
    pub fn from_u32(v: u32) -> (r: Fx)
        ensures
            r@ == (v as int) * (FX_ONE_RAW as int),
    {
        Fx { n: (v as i64) * FX_ONE_RAW }
    }

    pub fn zero() -> (r: Fx)
        ensures
            r@ == 0,
    {
        Fx { n: 0 }
    }

    pub fn one() -> (r: Fx)
        ensures
            r@ == FX_ONE_RAW as int,
    {
        Fx { n: FX_ONE_RAW }
    }

    /// Largest representable scalar, standing in for infinity.
    pub fn infinity() -> (r: Fx)
        ensures
            r@ == FX_RAW_BOUND as int,
    {
        Fx { n: FX_RAW_BOUND }
    }

    /// The fraction `numerator / denominator`.
    pub fn fraction(numerator: i32, denominator: i32) -> (r: Fx)
        ensures
            r@ == fx_div((numerator as int) * (FX_ONE_RAW as int), (denominator as int) * (
            FX_ONE_RAW as int)),
    {
        Fx::from_int(numerator).div(Fx::from_int(denominator))
    }

    pub fn add(self, o: Fx) -> (r: Fx)
        ensures
            r@ == fx_add(self@, o@),
    {
        let s: i128 = (self.n as i128) + (o.n as i128);
        Fx { n: clamp_i128(s) }
    }

    pub fn sub(self, o: Fx) -> (r: Fx)
        ensures
            r@ == fx_sub(self@, o@),
    {
        let s: i128 = (self.n as i128) - (o.n as i128);
        Fx { n: clamp_i128(s) }
    }

    pub fn neg(self) -> (r: Fx)
        ensures
            r@ == fx_neg(self@),
    {
        let s: i128 = -(self.n as i128);
        Fx { n: clamp_i128(s) }
    }

    pub fn mul(self, o: Fx) -> (r: Fx)
        ensures
            r@ == fx_mul(self@, o@),
    {
        let negative: bool = (self.n < 0) != (o.n < 0);
        let am: u128 = abs_u128(self.n);
        let bm: u128 = abs_u128(o.n);
        proof {
            assert((am as int) * (bm as int) <= (0x8000000000000000 as int) * (0x8000000000000000 as int))
                by (nonlinear_arith)
                requires
                    0 <= (am as int),
                    (am as int) <= (0x8000000000000000 as int),
                    0 <= (bm as int),
                    (bm as int) <= (0x8000000000000000 as int);
        }
        let p: u128 = (am * bm) / (FX_ONE_RAW as u128);
        let c: i64 = if p > FX_RAW_BOUND as u128 {
            FX_RAW_BOUND
        } else {
            p as i64
        };
        if negative {
            Fx { n: -c }
        } else {
            Fx { n: c }
        }
    }

    pub fn div(self, o: Fx) -> (r: Fx)
        ensures
            r@ == fx_div(self@, o@),
    {
        if o.n == 0 {
            return Fx { n: 0 };
        }
        let negative: bool = (self.n < 0) != (o.n < 0);
        let am: u128 = abs_u128(self.n);
        let bm: u128 = abs_u128(o.n);
        proof {
            assert((am as int) * (FX_ONE_RAW as int) <= (0x8000000000000000 as int) * (0x10000 as int))
                by (nonlinear_arith)
                requires
                    0 <= (am as int),
                    (am as int) <= (0x8000000000000000 as int);
        }
        let p: u128 = (am * (FX_ONE_RAW as u128)) / bm;
        let c: i64 = if p > FX_RAW_BOUND as u128 {
            FX_RAW_BOUND
        } else {
            p as i64
        };
        if negative {
            Fx { n: -c }
        } else {
            Fx { n: c }
        }
    }

    /// Square root of the scalar (zero on nonpositive input).
    pub fn nsqrt(self) -> (r: Fx)
        ensures
            r@ == fx_sqrt(self@),
    {
        if self.n <= 0 {
            return Fx { n: 0 };
        }
        let m: u128 = (self.n as u128) * (FX_ONE_RAW as u128);
        proof {
            assert(((self.n as u128) as int) * (FX_ONE_RAW as int) < (0x100000000000000000000 as int))
                by (nonlinear_arith)
                requires
                    0 <= ((self.n as u128) as int),
                    ((self.n as u128) as int) < (0x8000000000000000 as int);
        }
        let r: u64 = isqrt_u128(m);
        proof {
            reveal(isqrt);
            lemma_isqrt_unique(m as int, r as int, isqrt(m as int));
            assert((r as int) * (r as int) < (0x100000000000000000000 as int)) by (nonlinear_arith)
                requires
                    0 <= (r as int),
                    (r as int) * (r as int) <= (m as int),
                    (m as int) < (0x100000000000000000000 as int);
            assert((r as int) <= 0x10000000000) by (nonlinear_arith)
                requires
                    0 <= (r as int),
                    (r as int) * (r as int) < (0x100000000000000000000 as int);
        }
        Fx { n: r as i64 }
    }

    /// The whole part of the scalar, rounded toward zero.
    pub fn trunc_whole(self) -> (r: Fx)
        ensures
            r@ == fx_trunc_whole(self@),
    {
        proof {
            use_type_invariant(self);
        }
        if self.n >= 0 {
            let m: u64 = (self.n as u64) / (FX_ONE_RAW as u64) * (FX_ONE_RAW as u64);
            proof {
                vstd::arithmetic::div_mod::lemma_fundamental_div_mod(self.n as int, FX_ONE_RAW as int);
                assert((self.n as int / (FX_ONE_RAW as int)) * (FX_ONE_RAW as int) == (
                FX_ONE_RAW as int) * (self.n as int / (FX_ONE_RAW as int))) by (nonlinear_arith);
            }
            Fx { n: m as i64 }
        } else {
            let mag: u64 = (-(self.n as i128)) as u64;
            let m: u64 = mag / (FX_ONE_RAW as u64) * (FX_ONE_RAW as u64);
            proof {
                vstd::arithmetic::div_mod::lemma_fundamental_div_mod(mag as int, FX_ONE_RAW as int);
                assert((mag as int / (FX_ONE_RAW as int)) * (FX_ONE_RAW as int) == (
                FX_ONE_RAW as int) * (mag as int / (FX_ONE_RAW as int))) by (nonlinear_arith);
            }
            Fx { n: -(m as i64) }
        }
    }

    /// Absolute value.
    pub fn nabs(self) -> (r: Fx)
        ensures
            r@ == fx_abs(self@),
    {
        proof {
            use_type_invariant(self);
        }
        if self.n < 0 {
            self.neg()
        } else {
            self
        }
    }

    /// The square of the scalar.
    pub fn nsqrd(self) -> (r: Fx)
        ensures
            r@ == fx_mul(self@, self@),
    {
        self.mul(self)
    }

    pub fn min(a: Fx, b: Fx) -> (r: Fx)
        ensures
            r@ == fx_min(a@, b@),
    {
        if a.n < b.n {
            a
        } else {
            b
        }
    }

    pub fn max(a: Fx, b: Fx) -> (r: Fx)
        ensures
            r@ == fx_max(a@, b@),
    {
        if a.n > b.n {
            a
        } else {
            b
        }
    }

    pub fn as_r(self) -> (r: Fx)
        ensures
            r == self,
    {
        self
    }

    pub fn lt(self, o: Fx) -> (r: bool)
        ensures
            r == (self@ < o@),
    {
        self.n < o.n
    }

    pub fn le(self, o: Fx) -> (r: bool)
        ensures
            r == (self@ <= o@),
    {
        self.n <= o.n
    }

    pub fn gt(self, o: Fx) -> (r: bool)
        ensures
            r == (self@ > o@),
    {
        self.n > o.n
    }

    pub fn ge(self, o: Fx) -> (r: bool)
        ensures
            r == (self@ >= o@),
    {
        self.n >= o.n
    }
}

/// Clamp `n` into `[min, max]`.
pub open spec fn fx_clamp_to(n: int, min: int, max: int) -> int {
    if n < min {
        min
    } else if n > max {
        max
    } else {
        n
    }
}

/// Clamp a scalar into `[min, max]`.
pub fn clamp(n: Fx, min: Fx, max: Fx) -> (r: Fx)
    ensures
        r@ == fx_clamp_to(n@, min@, max@),
{
    if n.lt(min) {
        min
    } else if n.gt(max) {
        max
    } else {
        n
    }
}

} // verus!
