use gamepad_web::{same_number, BASELINE_TIMESTAMP, ZERO};

fn samples() -> Vec<f64> {
    vec![
        0.0,
        -0.0,
        1.0,
        -1.0,
        0.125,
        -0.5,
        1234.5678,
        f64::MIN_POSITIVE,
        -f64::MIN_POSITIVE,
        f64::MIN_POSITIVE / 2.0,
        f64::MAX,
        f64::MIN,
        f64::EPSILON,
        f64::INFINITY,
        f64::NEG_INFINITY,
        f64::NAN,
        -f64::NAN,
        f64::from_bits(0x7FF0_0000_0000_0001),
        f64::from_bits(0xFFF0_0000_0000_0001),
        f64::from_bits(0x7FFF_FFFF_FFFF_FFFF),
        f64::from_bits(0x0000_0000_0000_0001),
        f64::from_bits(0x8000_0000_0000_0001),
    ]
}

#[test]
fn same_number_agrees_with_numeric_equality() {
    let values = samples();
    for a in values.iter() {
        for b in values.iter() {
            assert_eq!(same_number(a.to_bits(), b.to_bits()), a == b, "{:?} and {:?}", a, b);
        }
    }
}

#[test]
fn zeros_are_the_same_number() {
    assert!(same_number(0.0f64.to_bits(), (-0.0f64).to_bits()));
    assert!(same_number((-0.0f64).to_bits(), 0.0f64.to_bits()));
    assert!(same_number(ZERO, ZERO));
}

#[test]
fn nan_is_not_the_same_number_as_itself() {
    let nan = f64::NAN.to_bits();
    assert!(!same_number(nan, nan));
    assert!(!same_number(nan, 0.0f64.to_bits()));
    assert!(!same_number(1.0f64.to_bits(), nan));
}

#[test]
fn infinities_are_numbers() {
    let inf = f64::INFINITY.to_bits();
    let neg = f64::NEG_INFINITY.to_bits();
    assert!(same_number(inf, inf));
    assert!(same_number(neg, neg));
    assert!(!same_number(inf, neg));
}

#[test]
fn constants_are_the_bits_they_stand_for() {
    assert_eq!(ZERO, 0.0f64.to_bits());
    assert_eq!(BASELINE_TIMESTAMP, (-1.0f64).to_bits());
    assert_eq!(f64::from_bits(BASELINE_TIMESTAMP), -1.0);
}
