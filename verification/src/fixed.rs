//! Exact fixed-point arithmetic on `i64` values with three fractional
//! decimal digits, together with the integer square root used to measure
//! slid distances and impulse magnitudes.

use vstd::prelude::*;
use crate::FX_ONE;

verus! {

/// The absolute value of a mathematical integer.
pub open spec fn spec_abs(a: int) -> int {
    if a >= 0 { a } else { -a }
}

/// Integer division rounded toward zero, for a positive divisor.
pub open spec fn spec_div_trunc(n: int, d: int) -> int {
    if n >= 0 { n / d } else { -((-n) / d) }
}

/// Integer division rounded upward, for a non-negative dividend and a
/// positive divisor.
pub open spec fn spec_div_ceil(n: int, d: int) -> int {
    (n + d - 1) / d
}

/// The fixed-point product of two fixed-point values, rounded toward zero.
pub open spec fn spec_fx_mul(a: int, b: int) -> int {
    spec_div_trunc(a * b, FX_ONE as int)
}

/// `v` clamped into the interval `[lo, hi]`.
pub open spec fn spec_clamp(v: int, lo: int, hi: int) -> int {
    if v < lo {
        lo
    } else if v > hi {
        hi
    } else {
        v
    }
}

/// The fixed-point product of two fixed-point values, rounded toward zero.
pub fn fx_mul(a: i64, b: i64) -> (r: i64)
    requires
        -i64::MAX <= a,
        -i64::MAX <= b,
        spec_abs(a as int * b as int) <= i64::MAX as int,
    ensures
        r as int == spec_fx_mul(a as int, b as int),
{
    let neg: bool = (a < 0) != (b < 0);
    let ua: u64 = if a < 0 { (-a) as u64 } else { a as u64 };
    let ub: u64 = if b < 0 { (-b) as u64 } else { b as u64 };
    proof {
        let ai = a as int;
        let bi = b as int;
        assert((-ai) * bi == -(ai * bi)) by (nonlinear_arith);
        assert(ai * (-bi) == -(ai * bi)) by (nonlinear_arith);
        assert((-ai) * (-bi) == ai * bi) by (nonlinear_arith);
        assert(ai >= 0 && bi >= 0 ==> ai * bi >= 0) by (nonlinear_arith);
        assert(ai >= 0 && bi <= 0 ==> ai * bi <= 0) by (nonlinear_arith);
        assert(ai <= 0 && bi >= 0 ==> ai * bi <= 0) by (nonlinear_arith);
        assert(ai <= 0 && bi <= 0 ==> ai * bi >= 0) by (nonlinear_arith);
        assert(ua as int * ub as int == spec_abs(ai * bi));
    }
    let p: u64 = ua * ub;
    let q: u64 = p / 1000;
    proof {
        assert(p == 1000 * q + p % 1000) by {
            vstd::arithmetic::div_mod::lemma_fundamental_div_mod(p as int, 1000);
        }
        assert(q <= p);
    }
    if neg {
        -(q as i64)
    } else {
        q as i64
    }
}

/// A fixed-point coordinate rounded to the nearest whole pixel, halves
/// away from zero, saturated to the range of an `i32`.
pub open spec fn spec_round_px(v: int) -> int {
    if v >= 0 {
        (v + 500) / 1000
    } else {
        -((-v + 500) / 1000)
    }
}

/// Rounds a fixed-point coordinate to the nearest whole pixel, halves away
/// from zero, saturating at the bounds of an `i32`.
pub fn round_to_px(v: i64) -> (r: i32)
    requires
        -i64::MAX <= v,
        spec_abs(v as int) <= i64::MAX - 500,
    ensures
        r as int == spec_clamp(spec_round_px(v as int), i32::MIN as int, i32::MAX as int),
{
    let neg: bool = v < 0;
    let uv: u64 = if v < 0 { (-v) as u64 } else { v as u64 };
    let q: u64 = (uv + 500) / 1000;
    if neg {
        if q >= 2147483648 {
            i32::MIN
        } else {
            -(q as i32)
        }
    } else {
        if q >= 2147483647 {
            i32::MAX
        } else {
            q as i32
        }
    }
}

/// Clamps a value into the interval `[lo, hi]`.
pub fn clamp_i64(v: i64, lo: i64, hi: i64) -> (r: i64)
    requires
        lo <= hi,
    ensures
        r as int == spec_clamp(v as int, lo as int, hi as int),
{
    if v < lo {
        lo
    } else if v > hi {
        hi
    } else {
        v
    }
}

/// `a * b / d` with the division rounded downward.
pub fn mul_div_floor_u64(a: u64, b: u64, d: u64) -> (r: u64)
    requires
        d > 0,
        a as int * b as int <= u64::MAX as int,
    ensures
        r as int == (a as int * b as int) / (d as int),
{
    let p: u64 = a * b;
    proof {
        assert(p == d * (p / d) + p % d) by {
            vstd::arithmetic::div_mod::lemma_fundamental_div_mod(p as int, d as int);
        }
    }
    p / d
}

/// `a * b / d` with the division rounded upward.
pub fn mul_div_ceil_u64(a: u64, b: u64, d: u64) -> (r: u64)
    requires
        d > 0,
        a as int * b as int + d as int - 1 <= u64::MAX as int,
    ensures
        r as int == spec_div_ceil(a as int * b as int, d as int),
{
    let p: u64 = a * b;
    (p + (d - 1)) / d
}

/// The integer square root: the greatest `r` with `r * r <= n`.
pub fn isqrt(n: u64) -> (r: u64)
    ensures
        r as int * r as int <= n as int,
        (n as int) < (r as int + 1) * (r as int + 1),
{
    let mut lo: u64 = 0;
    let mut hi: u64 = if n < 4294967295 {
        n
    } else {
        4294967295
    };
    proof {
        assert(n < 4294967295 ==> (n as int) < (n as int + 1) * (n as int + 1)) by (nonlinear_arith);
    }
    while lo < hi
        invariant
            lo <= hi,
            hi <= 4294967295,
            lo as int * lo as int <= n as int,
            (n as int) < (hi as int + 1) * (hi as int + 1),
        decreases hi - lo,
    {
        let mid: u64 = lo + (hi - lo + 1) / 2;
        proof {
            assert(mid as int * mid as int <= 4294967295int * 4294967295int) by (nonlinear_arith)
                requires 0 <= (mid as int) <= 4294967295int;
        }
        let sq: u64 = mid * mid;
        if sq <= n {
            lo = mid;
        } else {
            hi = mid - 1;
        }
    }
    lo
}

/// The fixed-point product by a factor in `[0, FX_ONE]` never grows the
/// magnitude of its operand.
pub proof fn lemma_fx_mul_shrinks(v: int, f: int)
    requires
        0 <= f <= FX_ONE as int,
    ensures
        spec_abs(spec_fx_mul(v, f)) <= spec_abs(v),
{
    let p = v * f;
    assert(v >= 0 ==> 0 <= v * f && v * f <= v * (FX_ONE as int)) by (nonlinear_arith)
        requires 0 <= f <= FX_ONE as int;
    assert(v < 0 ==> 0 <= -(v * f) && -(v * f) <= (-v) * (FX_ONE as int)) by (nonlinear_arith)
        requires 0 <= f <= FX_ONE as int;
    if v >= 0 {
        assert(p / 1000 <= (v * 1000) / 1000) by {
            vstd::arithmetic::div_mod::lemma_div_is_ordered(p, v * 1000, 1000);
        }
        assert((v * 1000) / 1000 == v) by {
            vstd::arithmetic::div_mod::lemma_div_multiples_vanish(v, 1000);
        }
        assert(p / 1000 >= 0) by {
            vstd::arithmetic::div_mod::lemma_div_is_ordered(0, p, 1000);
        }
    } else {
        assert((-p) / 1000 <= ((-v) * 1000) / 1000) by {
            vstd::arithmetic::div_mod::lemma_div_is_ordered(-p, (-v) * 1000, 1000);
        }
        assert(((-v) * 1000) / 1000 == -v) by {
            vstd::arithmetic::div_mod::lemma_div_multiples_vanish(-v, 1000);
        }
        assert((-p) / 1000 >= 0) by {
            vstd::arithmetic::div_mod::lemma_div_is_ordered(0, -p, 1000);
        }
    }
}

/// Multiplying by exactly `FX_ONE` is the identity.
pub proof fn lemma_fx_mul_one(v: int)
    ensures
        spec_fx_mul(v, FX_ONE as int) == v,
{
    if v >= 0 {
        assert((v * 1000) / 1000 == v) by {
            vstd::arithmetic::div_mod::lemma_div_multiples_vanish(v, 1000);
        }
    } else {
        assert(v * 1000 == -((-v) * 1000)) by (nonlinear_arith);
        assert(((-v) * 1000) / 1000 == -v) by {
            vstd::arithmetic::div_mod::lemma_div_multiples_vanish(-v, 1000);
        }
    }
}

/// Downward-rounded division undershoots its dividend: `(a / l) * l`
/// lies between zero and `a`.
pub proof fn lemma_div_floor_mul_le(a: int, l: int)
    requires
        0 <= a,
        1 <= l,
    ensures
        0 <= a / l,
        (a / l) * l <= a,
{
    vstd::arithmetic::div_mod::lemma_fundamental_div_mod(a, l);
    vstd::arithmetic::div_mod::lemma_mod_bound(a, l);
    vstd::arithmetic::div_mod::lemma_div_of0(l);
    vstd::arithmetic::div_mod::lemma_div_is_ordered(0, a, l);
    assert(l * (a / l) == (a / l) * l) by (nonlinear_arith);
}

/// Upward-rounded division overshoots its dividend: `spec_div_ceil(a, l) * l`
/// is at least `a`, and the quotient is non-negative.
pub proof fn lemma_div_ceil_mul_ge(a: int, l: int)
    requires
        0 <= a,
        1 <= l,
    ensures
        0 <= spec_div_ceil(a, l),
        spec_div_ceil(a, l) * l >= a,
{
    vstd::arithmetic::div_mod::lemma_fundamental_div_mod(a + l - 1, l);
    vstd::arithmetic::div_mod::lemma_mod_bound(a + l - 1, l);
    vstd::arithmetic::div_mod::lemma_div_of0(l);
    vstd::arithmetic::div_mod::lemma_div_is_ordered(0, a + l - 1, l);
    assert(l * ((a + l - 1) / l) == ((a + l - 1) / l) * l) by (nonlinear_arith);
}

/// The magnitude of a product is bounded by the product of the bounds on
/// its factors.
pub proof fn lemma_abs_mul_le(a: int, b: int, ca: int, cb: int)
    requires
        spec_abs(a) <= ca,
        spec_abs(b) <= cb,
    ensures
        spec_abs(a * b) <= ca * cb,
{
    assert(-(ca * cb) <= a * b && a * b <= ca * cb) by (nonlinear_arith)
        requires -ca <= a <= ca, -cb <= b <= cb;
}

/// A fixed-point product whose underlying integer product is bounded by
/// `bound * FX_ONE` is itself bounded by `bound`.
pub proof fn lemma_fx_mul_abs_bound(a: int, b: int, bound: int)
    requires
        0 <= bound,
        spec_abs(a * b) <= bound * (FX_ONE as int),
    ensures
        spec_abs(spec_fx_mul(a, b)) <= bound,
{
    let n = a * b;
    if n >= 0 {
        assert(n / 1000 <= (bound * 1000) / 1000) by {
            vstd::arithmetic::div_mod::lemma_div_is_ordered(n, bound * 1000, 1000);
        }
        assert((bound * 1000) / 1000 == bound) by {
            vstd::arithmetic::div_mod::lemma_div_multiples_vanish(bound, 1000);
        }
        assert(n / 1000 >= 0) by {
            vstd::arithmetic::div_mod::lemma_div_is_ordered(0, n, 1000);
        }
    } else {
        assert((-n) / 1000 <= (bound * 1000) / 1000) by {
            vstd::arithmetic::div_mod::lemma_div_is_ordered(-n, bound * 1000, 1000);
        }
        assert((bound * 1000) / 1000 == bound) by {
            vstd::arithmetic::div_mod::lemma_div_multiples_vanish(bound, 1000);
        }
        assert((-n) / 1000 >= 0) by {
            vstd::arithmetic::div_mod::lemma_div_is_ordered(0, -n, 1000);
        }
    }
}

/// Multiplying by zero gives zero.
pub proof fn lemma_fx_mul_zero(v: int)
    ensures
        spec_fx_mul(v, 0) == 0,
{
    assert(v * 0 == 0) by (nonlinear_arith);
}

} // verus!
