//! Exact behaviour of the fixed-point layer, the vector algebra and the
//! deterministic random source.

use raytracing::fixed::{
    fx_add, fx_div, fx_div_count, fx_divk, fx_mul, fx_neg, fx_of_usize, fx_sqrt, fx_sub, FX_MAX,
    FX_MIN, FX_ONE,
};
use raytracing::rng::{Rng, RNG_FALLBACK};
use raytracing::vec3::Vec3;

const ONE: i64 = 65536;

#[test]
fn add_sub_exact_and_saturating() {
    assert_eq!(fx_add(ONE, ONE), 2 * ONE);
    assert_eq!(fx_add(-ONE, ONE), 0);
    assert_eq!(fx_add(FX_MAX, FX_MAX), FX_MAX);
    assert_eq!(fx_sub(FX_MIN, FX_MAX), FX_MIN);
    assert_eq!(fx_sub(3 * ONE, ONE), 2 * ONE);
    assert_eq!(fx_neg(5 * ONE), -5 * ONE);
    assert_eq!(fx_neg(i64::MIN), FX_MAX);
}

#[test]
fn mul_rescales_and_truncates() {
    assert_eq!(fx_mul(2 * ONE, 3 * ONE), 6 * ONE);
    assert_eq!(fx_mul(-2 * ONE, 3 * ONE), -6 * ONE);
    // 1/65536 squared truncates to zero.
    assert_eq!(fx_mul(1, 1), 0);
    // Half times half is a quarter, exactly.
    assert_eq!(fx_mul(32768, 32768), 16384);
    assert_eq!(fx_mul(FX_MAX, FX_MAX), FX_MAX);
    assert_eq!(fx_mul(FX_MAX, -FX_MAX), FX_MIN);
    assert_eq!(fx_mul(7 * ONE, 0), 0);
}

#[test]
fn div_is_total() {
    assert_eq!(fx_div(ONE, 2 * ONE), 32768);
    assert_eq!(fx_div(-ONE, 2 * ONE), -32768);
    assert_eq!(fx_div(ONE, -2 * ONE), -32768);
    assert_eq!(fx_div(5 * ONE, 0), 0);
    assert_eq!(fx_divk(10 * ONE, 4), (10 * ONE) / 4);
    assert_eq!(fx_divk(ONE, 0), 0);
    assert_eq!(fx_div_count(10 * ONE, 5), 2 * ONE);
    assert_eq!(fx_div_count(10 * ONE, 0), 0);
    // Truncation is toward zero on negative numerators.
    assert_eq!(fx_divk(-3, 2), -1);
}

#[test]
fn sqrt_exact_squares_and_truncation() {
    assert_eq!(fx_sqrt(4 * ONE), 2 * ONE);
    assert_eq!(fx_sqrt(ONE), ONE);
    assert_eq!(fx_sqrt(0), 0);
    assert_eq!(fx_sqrt(-5 * ONE), 0);
    // sqrt(2) = 92681.9... in fixed point, truncated.
    assert_eq!(fx_sqrt(2 * ONE), 92681);
    // sqrt(1/4) = 1/2.
    assert_eq!(fx_sqrt(16384), 32768);
}

#[test]
fn int_conversion() {
    assert_eq!(fx_of_usize(0), 0);
    assert_eq!(fx_of_usize(7), 7 * ONE);
    assert_eq!(fx_of_usize(usize::MAX), FX_MAX);
}

#[test]
fn scale_constant_is_consistent() {
    assert_eq!(FX_ONE, ONE);
    assert_eq!(FX_MIN, -FX_MAX);
}

#[test]
fn vector_algebra_exact() {
    let a = Vec3::new(ONE, 2 * ONE, 3 * ONE);
    let b = Vec3::new(4 * ONE, 5 * ONE, 6 * ONE);
    assert_eq!(a.vadd(&b), Vec3::new(5 * ONE, 7 * ONE, 9 * ONE));
    assert_eq!(b.vsub(&a), Vec3::new(3 * ONE, 3 * ONE, 3 * ONE));
    assert_eq!(a.dot(&b), 32 * ONE);
    assert_eq!(a.scale(2 * ONE), Vec3::new(2 * ONE, 4 * ONE, 6 * ONE));
    assert_eq!(a.component_mul(&b), Vec3::new(4 * ONE, 10 * ONE, 18 * ONE));
    assert_eq!(a.vneg(), Vec3::new(-ONE, -2 * ONE, -3 * ONE));
    let x = Vec3::new(ONE, 0, 0);
    let y = Vec3::new(0, ONE, 0);
    assert_eq!(x.cross(&y), Vec3::new(0, 0, ONE));
    assert_eq!(y.cross(&x), Vec3::new(0, 0, -ONE));
}

#[test]
fn norm_and_normalize() {
    let v = Vec3::new(3 * ONE, 4 * ONE, 0);
    assert_eq!(v.norm(), 5 * ONE);
    // 3/5 and 4/5, truncated: 39321.6 and 52428.8.
    assert_eq!(v.normalize(), Vec3::new(39321, 52428, 0));
    // The zero vector normalizes to itself: division by zero yields zero.
    assert_eq!(Vec3::zeros().normalize(), Vec3::zeros());
    assert_eq!(Vec3::new(ONE, 0, 0).normalize(), Vec3::new(ONE, 0, 0));
}

#[test]
fn rng_is_deterministic_and_nonzero() {
    let mut r1 = Rng::new(42);
    let mut r2 = Rng::new(42);
    for _ in 0..100 {
        assert_eq!(r1.next_unit(), r2.next_unit());
        assert_eq!(r1.state, r2.state);
        assert_ne!(r1.state, 0);
    }
    assert_eq!(Rng::new(0).state, RNG_FALLBACK);
    let mut r3 = Rng::new(42);
    let u: i64 = r3.next_unit();
    assert!(0 <= u && u < ONE);
    assert_ne!(r3.state, Rng::new(42).state);
}
