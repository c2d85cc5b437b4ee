//! Saturating fixed-point arithmetic on `i64`.
//!
//! A fixed-point number holds a real value scaled by [`FX_ONE`] (so the
//! stored integer `x` stands for the real number `x / FX_ONE`).  Every
//! operation is total: results outside `[-FX_MAX, FX_MAX]` saturate to the
//! nearest bound, division by zero yields zero, and the square root of a
//! negative number yields zero.  Each executable operation has an exact
//! specification mirror, so callers know the result to the last unit.

use vstd::arithmetic::div_mod::{lemma_div_is_ordered, lemma_div_pos_is_pos};
use vstd::prelude::*;

verus! {

/// The fixed-point scale: the integer standing for the real number one.
pub const FX_ONE: i64 = 65536;

/// The saturation bound of every fixed-point operation.
pub const FX_MAX: i64 = 0x4000_0000_0000_0000;

/// The lower saturation bound, `-FX_MAX`.
pub const FX_MIN: i64 = -0x4000_0000_0000_0000;

/// Absolute value of a mathematical integer.
pub open spec fn iabs(x: int) -> int {
    if x < 0 {
        -x
    } else {
        x
    }
}

/// Saturate a mathematical integer into the fixed-point range.
pub open spec fn fx_clip(x: int) -> i64 {
    if x > FX_MAX {
        FX_MAX
    } else if x < FX_MIN {
        FX_MIN
    } else {
        x as i64
    }
}

/// Truncating (round-toward-zero) division, the behaviour of `/` on machine
/// integers; division by zero is defined as zero.
pub open spec fn fx_tdiv(a: int, b: int) -> int {
    if b == 0 {
        0
    } else if (a < 0) == (b < 0) {
        iabs(a) / iabs(b)
    } else {
        -(iabs(a) / iabs(b))
    }
}

/// Saturating fixed-point addition.
pub open spec fn spec_fx_add(a: i64, b: i64) -> i64 {
    fx_clip(a + b)
}

/// Saturating fixed-point subtraction.
pub open spec fn spec_fx_sub(a: i64, b: i64) -> i64 {
    fx_clip(a - b)
}

/// Saturating fixed-point negation.
pub open spec fn spec_fx_neg(a: i64) -> i64 {
    fx_clip(-a)
}

/// Saturating fixed-point multiplication: `(a * b) / FX_ONE`, truncated.
pub open spec fn spec_fx_mul(a: i64, b: i64) -> i64 {
    fx_clip(fx_tdiv(a * b, FX_ONE as int))
}

/// Saturating fixed-point division: `(a * FX_ONE) / b`, truncated; zero when
/// `b` is zero.
pub open spec fn spec_fx_div(a: i64, b: i64) -> i64 {
    if b == 0 {
        0
    } else {
        fx_clip(fx_tdiv(a * FX_ONE, b as int))
    }
}

/// Division of a fixed-point value by a plain integer count, truncated; zero
/// when the count is zero.
pub open spec fn spec_fx_divk(a: i64, k: int) -> i64 {
    if k == 0 {
        0
    } else {
        fx_clip(fx_tdiv(a as int, k))
    }
}

/// The fixed-point number standing for the plain integer `i`.
pub open spec fn spec_fx_of_int(i: int) -> i64 {
    fx_clip(i * FX_ONE)
}

/// The integer square root: the largest `r` with `r * r <= n` (zero for
/// `n < 1`).
pub open spec fn isqrt_spec(n: int) -> int
    decreases n,
{
    if n < 1 {
        0
    } else {
        let p = isqrt_spec(n - 1);
        if (p + 1) * (p + 1) <= n {
            p + 1
        } else {
            p
        }
    }
}

/// Fixed-point square root: `isqrt(x * FX_ONE)` stands for the real square
/// root of `x / FX_ONE`; zero for non-positive input.
pub open spec fn spec_fx_sqrt(x: i64) -> i64 {
    if x <= 0 {
        0
    } else {
        fx_clip(isqrt_spec(x * FX_ONE))
    }
}

pub proof fn lemma_isqrt_bounds(n: int)
    requires
        n >= 0,
    ensures
        isqrt_spec(n) >= 0,
        isqrt_spec(n) * isqrt_spec(n) <= n,
        n < (isqrt_spec(n) + 1) * (isqrt_spec(n) + 1),
    decreases n,
{
    if n >= 1 {
        lemma_isqrt_bounds(n - 1);
        let p = isqrt_spec(n - 1);
        if (p + 1) * (p + 1) <= n {
            assert(n == (p + 1) * (p + 1));
            assert((p + 1) * (p + 1) < (p + 2) * (p + 2)) by (nonlinear_arith)
                requires
                    p >= 0,
            ;
        }
    }
}

pub proof fn lemma_isqrt_unique(n: int, r: int)
    requires
        n >= 0,
        r >= 0,
        r * r <= n,
        n < (r + 1) * (r + 1),
    ensures
        r == isqrt_spec(n),
{
    lemma_isqrt_bounds(n);
    let q = isqrt_spec(n);
    if r < q {
        assert((r + 1) * (r + 1) <= q * q) by (nonlinear_arith)
            requires
                r >= 0,
                q >= r + 1,
        ;
    }
    if q < r {
        assert((q + 1) * (q + 1) <= r * r) by (nonlinear_arith)
            requires
                q >= 0,
                r >= q + 1,
        ;
    }
}

/// The sign of a product follows the signs of its factors.
pub proof fn lemma_mul_sign(a: int, b: int)
    ensures
        a > 0 && b > 0 ==> a * b > 0,
        a < 0 && b < 0 ==> a * b > 0,
        a > 0 && b < 0 ==> a * b < 0,
        a < 0 && b > 0 ==> a * b < 0,
        a == 0 || b == 0 ==> a * b == 0,
{
    assert(a > 0 && b > 0 ==> a * b > 0) by (nonlinear_arith);
    assert(a < 0 && b < 0 ==> a * b > 0) by (nonlinear_arith);
    assert(a > 0 && b < 0 ==> a * b < 0) by (nonlinear_arith);
    assert(a < 0 && b > 0 ==> a * b < 0) by (nonlinear_arith);
    assert(a == 0 || b == 0 ==> a * b == 0) by (nonlinear_arith);
}

/// Absolute values are multiplicative.
pub proof fn lemma_iabs_mul(a: int, b: int)
    ensures
        iabs(a * b) == iabs(a) * iabs(b),
{
    lemma_mul_sign(a, b);
    if a >= 0 && b < 0 {
        assert(a * -b == -(a * b)) by (nonlinear_arith);
    } else if a < 0 && b >= 0 {
        assert(-a * b == -(a * b)) by (nonlinear_arith);
    } else if a < 0 && b < 0 {
        assert(-a * -b == a * b) by (nonlinear_arith);
    }
}

/// A fixed-point square is never negative.
pub proof fn lemma_fx_square_nonneg(a: i64)
    ensures
        spec_fx_mul(a, a) >= 0,
{
    assert(a * a >= 0) by (nonlinear_arith);
    lemma_div_pos_is_pos(a * a, 65536);
}

/// Truncating division is monotone in the numerator, for a positive divisor.
pub proof fn lemma_tdiv_mono(a: int, b: int, d: int)
    requires
        a <= b,
        d > 0,
    ensures
        fx_tdiv(a, d) <= fx_tdiv(b, d),
{
    if a >= 0 {
        lemma_div_is_ordered(a, b, d);
    } else if b < 0 {
        lemma_div_is_ordered(-b, -a, d);
    } else {
        lemma_div_pos_is_pos(-a, d);
        lemma_div_pos_is_pos(b, d);
    }
}

/// Fixed-point division by a fixed positive divisor is monotone in the
/// numerator.
pub proof fn lemma_fx_div_mono(a: i64, b: i64, d: i64)
    requires
        a <= b,
        d >= 0,
    ensures
        spec_fx_div(a, d) <= spec_fx_div(b, d),
{
    if d != 0 {
        assert(a * 65536 <= b * 65536) by (nonlinear_arith)
            requires
                a <= b,
        ;
        lemma_tdiv_mono(a * 65536, b * 65536, d as int);
    }
}

/// Absolute value of an `i64`, widened so that `i64::MIN` is representable.
fn abs_u128(a: i64) -> (r: u128)
    ensures
        r == iabs(a as int),
        r <= 0x8000_0000_0000_0000u128,
{
    if a < 0 {
        (-(a as i128)) as u128
    } else {
        a as u128
    }
}

/// Apply a sign to a magnitude and saturate into the fixed-point range.
fn sign_clip(q: u128, neg: bool) -> (r: i64)
    ensures
        r == fx_clip(
            if neg {
                -(q as int)
            } else {
                q as int
            },
        ),
{
    if q > 0x4000_0000_0000_0000u128 {
        if neg {
            FX_MIN
        } else {
            FX_MAX
        }
    } else {
        let v: i64 = q as i64;
        if neg {
            -v
        } else {
            v
        }
    }
}

pub fn fx_add(a: i64, b: i64) -> (r: i64)
    ensures
        r == spec_fx_add(a, b),
{
    let s: i128 = a as i128 + b as i128;
    if s > FX_MAX as i128 {
        FX_MAX
    } else if s < FX_MIN as i128 {
        FX_MIN
    } else {
        s as i64
    }
}

pub fn fx_sub(a: i64, b: i64) -> (r: i64)
    ensures
        r == spec_fx_sub(a, b),
{
    let s: i128 = a as i128 - b as i128;
    if s > FX_MAX as i128 {
        FX_MAX
    } else if s < FX_MIN as i128 {
        FX_MIN
    } else {
        s as i64
    }
}

pub fn fx_neg(a: i64) -> (r: i64)
    ensures
        r == spec_fx_neg(a),
{
    let s: i128 = -(a as i128);
    if s > FX_MAX as i128 {
        FX_MAX
    } else if s < FX_MIN as i128 {
        FX_MIN
    } else {
        s as i64
    }
}

pub fn fx_mul(a: i64, b: i64) -> (r: i64)
    ensures
        r == spec_fx_mul(a, b),
{
    let neg: bool = (a < 0) != (b < 0);
    let ma: u128 = abs_u128(a);
    let mb: u128 = abs_u128(b);
    proof {
        lemma_iabs_mul(a as int, b as int);
        lemma_mul_sign(a as int, b as int);
        assert(ma * mb <= 0x8000_0000_0000_0000u128 * 0x8000_0000_0000_0000u128)
            by (nonlinear_arith)
            requires
                ma <= 0x8000_0000_0000_0000u128,
                mb <= 0x8000_0000_0000_0000u128,
        ;
    }
    let q: u128 = (ma * mb) / 65536;
    sign_clip(q, neg)
}

pub fn fx_div(a: i64, b: i64) -> (r: i64)
    ensures
        r == spec_fx_div(a, b),
{
    if b == 0 {
        return 0;
    }
    let neg: bool = (a < 0) != (b < 0);
    let ma: u128 = abs_u128(a);
    let mb: u128 = abs_u128(b);
    proof {
        lemma_iabs_mul(a as int, 65536);
        lemma_mul_sign(a as int, 65536);
    }
    let q: u128 = (ma * 65536) / mb;
    sign_clip(q, neg)
}

pub fn fx_divk(a: i64, k: i64) -> (r: i64)
    ensures
        r == spec_fx_divk(a, k as int),
{
    if k == 0 {
        return 0;
    }
    let neg: bool = (a < 0) != (k < 0);
    let ma: u128 = abs_u128(a);
    let mk: u128 = abs_u128(k);
    sign_clip(ma / mk, neg)
}

/// Division of a fixed-point value by an element count.
pub fn fx_div_count(a: i64, k: usize) -> (r: i64)
    ensures
        r == spec_fx_divk(a, k as int),
{
    if k == 0 {
        return 0;
    }
    let neg: bool = a < 0;
    let ma: u128 = abs_u128(a);
    sign_clip(ma / (k as u128), neg)
}

/// The fixed-point number standing for the plain integer `i`.
pub fn fx_of_usize(i: usize) -> (r: i64)
    ensures
        r == spec_fx_of_int(i as int),
{
    let q: u128 = (i as u128) * 65536;
    if q > 0x4000_0000_0000_0000u128 {
        FX_MAX
    } else {
        q as i64
    }
}

/// Integer square root by bisection.
pub fn isqrt_u(n: u128) -> (r: u128)
    requires
        n < 0x1_0000_0000_0000_0000_0000u128,
    ensures
        r * r <= n,
        n < (r + 1) * (r + 1),
        r == isqrt_spec(n as int),
{
    let mut lo: u128 = 0;
    let mut hi: u128 = 0x100_0000_0000u128;
    assert(n < 0x100_0000_0000u128 * 0x100_0000_0000u128) by (nonlinear_arith)
        requires
            n < 0x1_0000_0000_0000_0000_0000u128,
    ;
    while lo + 1 < hi
        invariant
            lo < hi,
            hi <= 0x100_0000_0000u128,
            lo * lo <= n,
            n < hi * hi,
        decreases hi - lo,
    {
        let mid: u128 = lo + (hi - lo) / 2;
        proof {
            assert(mid * mid <= 0x100_0000_0000u128 * 0x100_0000_0000u128) by (nonlinear_arith)
                requires
                    mid <= 0x100_0000_0000u128,
            ;
        }
        if mid * mid <= n {
            lo = mid;
        } else {
            hi = mid;
        }
    }
    proof {
        lemma_isqrt_unique(n as int, lo as int);
    }
    lo
}

/// Fixed-point square root; zero for non-positive input.
pub fn fx_sqrt(x: i64) -> (r: i64)
    ensures
        r == spec_fx_sqrt(x),
{
    if x <= 0 {
        return 0;
    }
    let n: u128 = (x as u128) * 65536;
    let q: u128 = isqrt_u(n);
    proof {
        if q > 0x4000_0000_0000_0000u128 {
            assert(q * q > n) by (nonlinear_arith)
                requires
                    q > 0x4000_0000_0000_0000u128,
                    n < 0x1_0000_0000_0000_0000_0000u128,
            ;
            assert(false);
        }
    }
    q as i64
}

} // verus!
