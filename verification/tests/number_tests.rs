use rlox::number::{equal, less, less_equal, nan, negate, zero, INFINITY_BITS, SIGN_BIT};

fn samples() -> Vec<f64> {
    vec![
        0.0,
        -0.0,
        1.0,
        -1.0,
        0.5,
        -0.5,
        2.0,
        1.0e-300,
        -1.0e-300,
        5.0e-324,
        -5.0e-324,
        f64::MIN_POSITIVE,
        f64::MAX,
        f64::MIN,
        f64::EPSILON,
        1.0 + f64::EPSILON,
        f64::INFINITY,
        f64::NEG_INFINITY,
        f64::NAN,
        -f64::NAN,
        f64::from_bits(0x7ff0_0000_0000_0001),
        f64::from_bits(0xfff8_0000_0000_1234),
        123456789.125,
        -7.0e22,
    ]
}

#[test]
fn constants_are_the_sign_bit_and_infinity() {
    assert_eq!(SIGN_BIT, (-0.0_f64).to_bits());
    assert_eq!(INFINITY_BITS, f64::INFINITY.to_bits());
}

#[test]
fn nan_test_agrees_with_the_numbers() {
    for x in samples() {
        assert_eq!(nan(x.to_bits()), x.is_nan(), "{:?}", x);
    }
}

#[test]
fn zero_test_agrees_with_the_numbers() {
    for x in samples() {
        assert_eq!(zero(x.to_bits()), x == 0.0, "{:?}", x);
    }
    assert!(zero(0));
    assert!(zero(SIGN_BIT));
    assert!(!zero(1));
    assert!(!zero(SIGN_BIT + 1));
}

#[test]
fn negation_agrees_with_the_numbers() {
    for x in samples() {
        assert_eq!(negate(x.to_bits()), (-x).to_bits(), "{:?}", x);
    }
    assert_eq!(negate(1.5_f64.to_bits()), (-1.5_f64).to_bits());
    assert_eq!(negate(0), SIGN_BIT);
    assert_eq!(negate(SIGN_BIT), 0);
}

#[test]
fn negation_twice_is_the_identity() {
    for x in samples() {
        assert_eq!(negate(negate(x.to_bits())), x.to_bits());
    }
}

#[test]
fn equality_agrees_with_the_numbers() {
    for x in samples() {
        for y in samples() {
            assert_eq!(equal(x.to_bits(), y.to_bits()), x == y, "{:?} == {:?}", x, y);
        }
    }
}

#[test]
fn less_agrees_with_the_numbers() {
    for x in samples() {
        for y in samples() {
            assert_eq!(less(x.to_bits(), y.to_bits()), x < y, "{:?} < {:?}", x, y);
        }
    }
}

#[test]
fn less_equal_agrees_with_the_numbers() {
    for x in samples() {
        for y in samples() {
            assert_eq!(less_equal(x.to_bits(), y.to_bits()), x <= y, "{:?} <= {:?}", x, y);
        }
    }
}

#[test]
fn the_two_zeros_are_equal_and_neither_is_less() {
    let (plus, minus) = (0.0_f64.to_bits(), (-0.0_f64).to_bits());
    assert!(equal(plus, minus));
    assert!(!less(minus, plus));
    assert!(!less(plus, minus));
    assert!(less_equal(minus, plus));
    assert!(less_equal(plus, minus));
}

#[test]
fn no_comparison_holds_of_a_nan() {
    let n = f64::NAN.to_bits();
    let one = 1.0_f64.to_bits();
    assert!(!equal(n, n) && !less(n, n) && !less_equal(n, n));
    assert!(!equal(n, one) && !less(n, one) && !less_equal(n, one));
    assert!(!equal(one, n) && !less(one, n) && !less_equal(one, n));
}
