use bbob_optimizations::scalar::Scalar;

fn number(x: f64) -> Scalar {
    Scalar::from_bits(x.to_bits())
}

fn float(s: Scalar) -> f64 {
    f64::from_bits(s.to_bits())
}

fn samples() -> Vec<f64> {
    vec![
        0.0,
        -0.0,
        1.0,
        -1.0,
        0.5,
        -0.5,
        5.0,
        -5.0,
        1e-300,
        -1e-300,
        5e-324,
        -5e-324,
        1.7976931348623157e308,
        -1.7976931348623157e308,
        f64::INFINITY,
        f64::NEG_INFINITY,
        f64::NAN,
        -f64::NAN,
        f64::from_bits(0x7FF0_0000_0000_0001),
        f64::from_bits(0xFFFF_FFFF_FFFF_FFFF),
        3.141592653589793,
        -2.718281828459045,
        21.1,
        -356.7,
    ]
}

#[test]
fn bits_round_trip() {
    for x in samples() {
        assert_eq!(number(x).to_bits(), x.to_bits());
        assert_eq!(Scalar::from_bits(x.to_bits()), number(x));
    }
    assert_eq!(float(Scalar::zero()), 0.0);
    assert_eq!(Scalar::zero().to_bits(), 0);
    assert_eq!(float(Scalar::largest()), f64::MAX);
}

#[test]
fn is_nan_agrees_with_floats() {
    for x in samples() {
        assert_eq!(number(x).is_nan(), x.is_nan(), "{x}");
    }
}

#[test]
fn lt_agrees_with_floats() {
    for a in samples() {
        for b in samples() {
            assert_eq!(number(a).lt(number(b)), a < b, "{a} < {b}");
        }
    }
}

#[test]
fn le_agrees_with_floats() {
    for a in samples() {
        for b in samples() {
            assert_eq!(number(a).le(number(b)), a <= b, "{a} <= {b}");
        }
    }
}

#[test]
fn total_lt_agrees_with_the_total_order_of_floats() {
    for a in samples() {
        for b in samples() {
            assert_eq!(
                number(a).total_lt(number(b)),
                a.total_cmp(&b) == std::cmp::Ordering::Less,
                "{a} before {b}"
            );
        }
    }
}

#[test]
fn the_two_zeros_are_equal_numbers_but_ordered_patterns() {
    let minus = number(-0.0);
    let plus = number(0.0);
    assert!(!minus.lt(plus));
    assert!(!plus.lt(minus));
    assert!(minus.le(plus));
    assert!(plus.le(minus));
    assert!(minus.total_lt(plus));
    assert!(!plus.total_lt(minus));
    assert_ne!(minus, plus);
}

#[test]
fn nothing_compares_with_what_is_not_a_number() {
    let nan = number(f64::NAN);
    for x in samples() {
        assert!(!nan.lt(number(x)));
        assert!(!number(x).lt(nan));
        assert!(!nan.le(number(x)));
        assert!(!number(x).le(nan));
    }
}

#[test]
fn max_and_min_pick_the_larger_and_the_smaller() {
    assert_eq!(float(number(1.0).max(number(2.0))), 2.0);
    assert_eq!(float(number(2.0).max(number(1.0))), 2.0);
    assert_eq!(float(number(1.0).min(number(2.0))), 1.0);
    assert_eq!(float(number(2.0).min(number(1.0))), 1.0);
    assert_eq!(float(number(-3.0).max(number(-7.5))), -3.0);
    assert_eq!(float(number(-3.0).min(number(-7.5))), -7.5);
}

#[test]
fn max_and_min_skip_what_is_not_a_number() {
    let nan = number(f64::NAN);
    assert_eq!(float(nan.max(number(2.0))), 2.0);
    assert_eq!(float(number(2.0).max(nan)), 2.0);
    assert_eq!(float(nan.min(number(2.0))), 2.0);
    assert_eq!(float(number(2.0).min(nan)), 2.0);
    assert!(nan.max(nan).is_nan());
    assert!(nan.min(nan).is_nan());
}

#[test]
fn max_and_min_agree_with_floats_on_numbers() {
    for a in samples() {
        for b in samples() {
            if a.is_nan() || b.is_nan() || (a == 0.0 && b == 0.0) {
                continue;
            }
            assert_eq!(float(number(a).max(number(b))), a.max(b));
            assert_eq!(float(number(a).min(number(b))), a.min(b));
        }
    }
}

#[test]
fn abs_and_neg_agree_with_floats() {
    for x in samples() {
        assert_eq!(number(x).abs().to_bits(), x.abs().to_bits(), "{x}");
        assert_eq!(number(x).neg().to_bits(), (-x).to_bits(), "{x}");
    }
}

#[test]
fn round_to_count_agrees_with_rounding_and_casting() {
    let mut values = samples();
    values.extend([
        0.4,
        0.5,
        0.49999999999999994,
        0.5000000000000001,
        1.0,
        1.4999999999999998,
        1.5,
        2.5,
        3.5,
        -0.5,
        -1.5,
        79.6,
        80.4,
        19999.5,
        20000.49,
        4503599627370495.5,
        4503599627370496.0,
        4503599627370497.0,
        9007199254740991.0,
        9007199254740992.0,
        9007199254740994.0,
        4294967295.0,
        4294967295.5,
        4294967296.0,
        9223372036854775808.0,
        18446744073709549568.0,
        18446744073709551616.0,
        1e19,
        1e20,
        1e300,
    ]);
    for x in values {
        assert_eq!(number(x).round_to_count(), x.round() as usize, "{x}");
    }
}

#[test]
fn round_to_count_rounds_halves_away_from_zero() {
    assert_eq!(number(0.5).round_to_count(), 1);
    assert_eq!(number(1.5).round_to_count(), 2);
    assert_eq!(number(2.5).round_to_count(), 3);
    assert_eq!(number(2.4999999999999996).round_to_count(), 2);
    assert_eq!(number(-2.5).round_to_count(), 0);
    assert_eq!(number(f64::NAN).round_to_count(), 0);
    assert_eq!(number(f64::INFINITY).round_to_count(), usize::MAX);
    assert_eq!(number(f64::NEG_INFINITY).round_to_count(), 0);
    assert_eq!(number(84.0).round_to_count(), 84);
}
