//! The bit-level predicates against the machine's own IEEE-754 comparisons:
//! for a spread of encodings the predicates must agree exactly with the
//! floating-point operators they restate.

use micrograd::bits::{
    abs_below_epsilon, eq_bits, gt_zero, is_nan, is_zero, lt_zero, EPSILON_BITS, NAN_BITS,
    ONE_BITS, ZERO_BITS,
};

fn samples() -> Vec<f64> {
    vec![
        0.0,
        -0.0,
        1.0,
        -1.0,
        0.5,
        -0.5,
        2.0,
        -6.0,
        6.8813735870195432,
        f64::NAN,
        -f64::NAN,
        f64::INFINITY,
        f64::NEG_INFINITY,
        f64::EPSILON,
        -f64::EPSILON,
        f64::EPSILON / 2.0,
        -f64::EPSILON / 2.0,
        1e-300,
        -1e-300,
        f64::MIN_POSITIVE,
        f64::MAX,
        f64::MIN,
    ]
}

#[test]
fn constants_are_the_advertised_encodings() {
    assert_eq!(ZERO_BITS, 0.0f64.to_bits());
    assert_eq!(ONE_BITS, 1.0f64.to_bits());
    assert_eq!(EPSILON_BITS, f64::EPSILON.to_bits());
    assert!(f64::from_bits(NAN_BITS).is_nan());
}

#[test]
fn nan_and_zero_tests_match_ieee() {
    for &a in &samples() {
        assert_eq!(is_nan(a.to_bits()), a.is_nan(), "is_nan on {a}");
        assert_eq!(is_zero(a.to_bits()), a == 0.0, "is_zero on {a}");
    }
}

#[test]
fn sign_tests_match_ieee() {
    for &a in &samples() {
        assert_eq!(gt_zero(a.to_bits()), a > 0.0, "gt_zero on {a}");
        assert_eq!(lt_zero(a.to_bits()), a < 0.0, "lt_zero on {a}");
    }
}

#[test]
fn equality_matches_ieee() {
    for &a in &samples() {
        for &b in &samples() {
            assert_eq!(eq_bits(a.to_bits(), b.to_bits()), a == b, "eq on {a} and {b}");
        }
    }
}

#[test]
fn epsilon_guard_matches_ieee() {
    for &a in &samples() {
        assert_eq!(
            abs_below_epsilon(a.to_bits()),
            a.abs() < f64::EPSILON,
            "epsilon guard on {a}"
        );
    }
}
