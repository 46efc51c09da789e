use vec3::binary64::{is_zero, negate, NEGATIVE_ZERO, POSITIVE_ZERO, SIGN_MASK};
use vec3::{check_divisor, Vec3Error};

fn samples() -> Vec<f64> {
    vec![
        0.0,
        -0.0,
        1.0,
        -1.0,
        1.5,
        -2.25,
        1e-300,
        -1e-300,
        5e-324,
        f64::MIN_POSITIVE,
        f64::MAX,
        f64::MIN,
        f64::EPSILON,
        f64::INFINITY,
        f64::NEG_INFINITY,
        f64::NAN,
    ]
}

#[test]
fn zero_constants_are_the_encodings_of_the_two_zeros() {
    assert_eq!(POSITIVE_ZERO, 0.0f64.to_bits());
    assert_eq!(NEGATIVE_ZERO, (-0.0f64).to_bits());
    assert_eq!(SIGN_MASK, 1u64 << 63);
}

#[test]
fn negate_agrees_with_float_negation() {
    for value in samples() {
        assert_eq!(negate(value.to_bits()), (-value).to_bits());
    }
}

#[test]
fn negate_gives_exact_expected_encodings() {
    assert_eq!(negate(0x3FF0_0000_0000_0000), 0xBFF0_0000_0000_0000);
    assert_eq!(negate(0xBFF0_0000_0000_0000), 0x3FF0_0000_0000_0000);
    assert_eq!(negate(0), 0x8000_0000_0000_0000);
    assert_eq!(f64::from_bits(negate(2.5f64.to_bits())), -2.5);
}

#[test]
fn negate_keeps_the_payload_of_a_nan() {
    let nan: u64 = 0x7FF8_0000_0000_1234;
    assert!(f64::from_bits(nan).is_nan());
    assert_eq!(negate(nan), 0xFFF8_0000_0000_1234);
    assert!(f64::from_bits(negate(nan)).is_nan());
}

#[test]
fn negate_twice_is_the_identity() {
    for value in samples() {
        let bits = value.to_bits();
        assert_eq!(negate(negate(bits)), bits);
        assert_ne!(negate(bits), bits);
    }
}

#[test]
fn is_zero_agrees_with_comparison_against_zero() {
    for value in samples() {
        assert_eq!(is_zero(value.to_bits()), value == 0.0);
    }
}

#[test]
fn is_zero_holds_of_the_two_zeros_only() {
    assert!(is_zero(0));
    assert!(is_zero(0x8000_0000_0000_0000));
    assert!(!is_zero(1));
    assert!(!is_zero(0x8000_0000_0000_0001));
    assert!(!is_zero(0x7FF0_0000_0000_0000));
    assert!(!is_zero(u64::MAX));
}

#[test]
fn is_zero_is_kept_by_negation() {
    for value in samples() {
        let bits = value.to_bits();
        assert_eq!(is_zero(negate(bits)), is_zero(bits));
    }
}

#[test]
fn dividing_by_zero_is_refused() {
    assert_eq!(check_divisor(0.0f64.to_bits()), Err(Vec3Error::DivideByZero));
}

#[test]
fn dividing_by_negative_zero_is_refused() {
    assert_eq!(check_divisor((-0.0f64).to_bits()), Err(Vec3Error::DivideByZero));
}

#[test]
fn dividing_by_a_tiny_divisor_is_admitted() {
    let tiny = 1e-300f64;
    let admitted = check_divisor(tiny.to_bits());
    assert_eq!(admitted, Ok(tiny.to_bits()));
    let divisor = f64::from_bits(admitted.unwrap());
    let quotient = 1.0 / divisor;
    assert!(quotient.is_finite());
    assert!(quotient > 1e299);
}

#[test]
fn dividing_by_the_smallest_subnormal_is_admitted() {
    assert_eq!(check_divisor(1), Ok(1));
    assert_eq!(f64::from_bits(1), 5e-324);
}

#[test]
fn dividing_by_infinity_or_nan_is_admitted() {
    for value in [f64::INFINITY, f64::NEG_INFINITY, f64::NAN] {
        assert_eq!(check_divisor(value.to_bits()), Ok(value.to_bits()));
    }
}

#[test]
fn check_divisor_refuses_exactly_what_compares_equal_to_zero() {
    for value in samples() {
        let refused = check_divisor(value.to_bits()).is_err();
        assert_eq!(refused, value == 0.0);
    }
}
