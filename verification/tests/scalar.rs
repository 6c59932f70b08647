use tracer::scalar::Scalar;

fn scalar(x: f32) -> Scalar {
    Scalar::from_bits(x.to_bits())
}

fn samples() -> Vec<f32> {
    vec![
        0.0,
        -0.0,
        1.0,
        -1.0,
        0.5,
        -0.5,
        1e-3,
        -1e-3,
        1.5,
        255.99,
        f32::MIN_POSITIVE,
        -f32::MIN_POSITIVE,
        f32::from_bits(1),
        f32::from_bits(0x8000_0001),
        f32::MAX,
        f32::MIN,
        f32::INFINITY,
        f32::NEG_INFINITY,
        f32::NAN,
        f32::from_bits(0xffc0_0000),
        f32::from_bits(0x7f80_0001),
    ]
}

#[test]
fn bits_round_trip() {
    for x in samples() {
        assert_eq!(scalar(x).to_bits(), x.to_bits());
    }
    assert_eq!(Scalar::from_bits(0x3f80_0000).bits, 0x3f80_0000);
}

#[test]
fn zero_is_positive_zero() {
    assert_eq!(Scalar::zero().to_bits(), 0.0f32.to_bits());
    assert_eq!(Scalar::zero().rank_value(), 0);
    assert!(!Scalar::zero().is_nan());
}

#[test]
fn is_nan_agrees_with_the_machine() {
    for x in samples() {
        assert_eq!(scalar(x).is_nan(), x.is_nan(), "{x}");
    }
}

#[test]
fn rank_of_known_values() {
    assert_eq!(scalar(1.0).rank_value(), 0x3f80_0000);
    assert_eq!(scalar(-1.0).rank_value(), -0x3f80_0000);
    assert_eq!(scalar(0.0).rank_value(), 0);
    assert_eq!(scalar(-0.0).rank_value(), 0);
    assert_eq!(scalar(f32::INFINITY).rank_value(), 0x7f80_0000);
    assert_eq!(scalar(f32::NEG_INFINITY).rank_value(), -0x7f80_0000);
    assert_eq!(scalar(f32::MAX).rank_value(), 0x7f7f_ffff);
    assert_eq!(Scalar::from_bits(0xffff_ffff).rank_value(), -0x7fff_ffff);
}

#[test]
fn lt_agrees_with_the_machine() {
    for a in samples() {
        for b in samples() {
            assert_eq!(scalar(a).lt(scalar(b)), a < b, "{a} < {b}");
        }
    }
}

#[test]
fn le_agrees_with_the_machine() {
    for a in samples() {
        for b in samples() {
            assert_eq!(scalar(a).le(scalar(b)), a <= b, "{a} <= {b}");
        }
    }
}

#[test]
fn gt_agrees_with_the_machine() {
    for a in samples() {
        for b in samples() {
            assert_eq!(scalar(a).gt(scalar(b)), a > b, "{a} > {b}");
        }
    }
}

#[test]
fn ge_agrees_with_the_machine() {
    for a in samples() {
        for b in samples() {
            assert_eq!(scalar(a).ge(scalar(b)), a >= b, "{a} >= {b}");
        }
    }
}

#[test]
fn both_zeros_compare_equal() {
    assert!(!scalar(-0.0).lt(scalar(0.0)));
    assert!(!scalar(0.0).lt(scalar(-0.0)));
    assert!(scalar(-0.0).le(scalar(0.0)));
    assert!(scalar(0.0).le(scalar(-0.0)));
}

#[test]
fn nan_compares_with_nothing() {
    let nan = scalar(f32::NAN);
    assert!(!nan.lt(nan));
    assert!(!nan.le(nan));
    assert!(!nan.gt(scalar(0.0)));
    assert!(!scalar(0.0).ge(nan));
}

#[test]
fn is_finite_agrees_with_the_machine() {
    for x in samples() {
        assert_eq!(scalar(x).is_finite(), x.is_finite(), "{x}");
    }
}
