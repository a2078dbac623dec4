use lambda_engine::scalar::{Scalar, HALF_BITS, INFINITY_BITS, ONE_BITS, SIGN_BIT, ZERO_BITS};

fn scalar(value: f32) -> Scalar {
    Scalar::from_bits(value.to_bits())
}

fn samples() -> Vec<f32> {
    vec![
        0.0,
        -0.0,
        1.0,
        -1.0,
        0.5,
        -0.5,
        2.0,
        1.0e-40,
        -1.0e-40,
        f32::MIN_POSITIVE,
        f32::MAX,
        f32::MIN,
        f32::INFINITY,
        f32::NEG_INFINITY,
        f32::NAN,
        -f32::NAN,
        3.1415927,
        1.0000001,
        0.99999994,
    ]
}

#[test]
fn constants_are_the_bits_of_their_numbers() {
    assert_eq!(ZERO_BITS, 0.0f32.to_bits());
    assert_eq!(HALF_BITS, 0.5f32.to_bits());
    assert_eq!(ONE_BITS, 1.0f32.to_bits());
    assert_eq!(INFINITY_BITS, f32::INFINITY.to_bits());
    assert_eq!(SIGN_BIT, (-0.0f32).to_bits());
    assert_eq!(Scalar::zero().to_bits(), 0.0f32.to_bits());
    assert_eq!(Scalar::one().to_bits(), 1.0f32.to_bits());
}

#[test]
fn from_bits_and_to_bits_round_trip() {
    for v in samples() {
        assert_eq!(scalar(v).to_bits(), v.to_bits());
        assert_eq!(scalar(v).bits, v.to_bits());
    }
}

#[test]
fn le_agrees_with_the_numbers() {
    for a in samples() {
        for b in samples() {
            assert_eq!(scalar(a).le(&scalar(b)), a <= b, "{} <= {}", a, b);
        }
    }
}

#[test]
fn lt_agrees_with_the_numbers() {
    for a in samples() {
        for b in samples() {
            assert_eq!(scalar(a).lt(&scalar(b)), a < b, "{} < {}", a, b);
        }
    }
}

#[test]
fn nan_and_finite_are_recognised() {
    for v in samples() {
        assert_eq!(scalar(v).is_nan(), v.is_nan());
        assert_eq!(scalar(v).is_finite(), v.is_finite());
    }
}

#[test]
fn the_two_zeros_compare_equal_but_are_different_scalars() {
    let plus = scalar(0.0);
    let minus = scalar(-0.0);
    assert!(plus.le(&minus));
    assert!(minus.le(&plus));
    assert!(!plus.lt(&minus));
    assert!(!minus.lt(&plus));
    assert_ne!(plus, minus);
}

#[test]
fn nan_is_below_nothing_and_above_nothing() {
    let nan = scalar(f32::NAN);
    assert!(!nan.le(&nan));
    assert!(!nan.le(&scalar(1.0)));
    assert!(!scalar(1.0).le(&nan));
    assert!(!nan.lt(&scalar(f32::INFINITY)));
}
