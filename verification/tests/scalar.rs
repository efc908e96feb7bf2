use train_harness::scalar::Scalar;

fn scalar(x: f64) -> Scalar {
    Scalar::from_bits(x.to_bits())
}

fn samples() -> Vec<f64> {
    vec![
        0.0,
        -0.0,
        0.5,
        -0.5,
        1.0,
        -1.0,
        1.0e-4,
        2.0,
        -2.0,
        1.5,
        f64::MIN_POSITIVE,
        -f64::MIN_POSITIVE,
        f64::from_bits(1),
        -f64::from_bits(1),
        f64::EPSILON,
        f64::MAX,
        f64::MIN,
        f64::INFINITY,
        f64::NEG_INFINITY,
        f64::NAN,
        -f64::NAN,
        f64::from_bits(0x7FF0_0000_0000_0001),
        f64::from_bits(0xFFFF_FFFF_FFFF_FFFF),
        3.141592653589793,
        -1.0e300,
        1.0e-300,
    ]
}

#[test]
fn bits_go_in_and_out_unchanged() {
    for x in samples() {
        assert_eq!(scalar(x).to_bits(), x.to_bits());
    }
    assert_eq!(Scalar::from_bits(0x3FE0_0000_0000_0000).to_bits(), 0x3FE0_0000_0000_0000);
}

#[test]
fn nan_is_told_as_the_machine_tells_it() {
    for x in samples() {
        assert_eq!(scalar(x).nan(), x.is_nan(), "{x:?}");
    }
}

#[test]
fn greater_than_is_the_order_of_the_machine() {
    for a in samples() {
        for b in samples() {
            assert_eq!(scalar(a).greater_than(scalar(b)), a > b, "{a:?} > {b:?}");
        }
    }
}

#[test]
fn single_precision_values_keep_their_order() {
    let values: [f32; 8] =
        [0.5, 0.25, -0.5, 0.0, -0.0, f32::MAX, f32::MIN_POSITIVE, f32::NEG_INFINITY];
    for a in values {
        for b in values {
            assert_eq!(scalar(a as f64).greater_than(scalar(b as f64)), a > b);
        }
    }
}

#[test]
fn zeros_of_either_sign_do_not_exceed_each_other() {
    assert!(!scalar(0.0).greater_than(scalar(-0.0)));
    assert!(!scalar(-0.0).greater_than(scalar(0.0)));
}
