use dash33::Double;

fn double(value: f64) -> Double {
    Double::from_bits(value.to_bits())
}

#[test]
fn bits_are_kept() {
    for bits in [0u64, 1, 0x3ff0_0000_0000_0000, 0x7ff8_0000_0000_0000, u64::MAX] {
        assert_eq!(Double::from_bits(bits).to_bits(), bits);
        assert_eq!(Double::from_bits(bits).bits, bits);
    }
}

#[test]
fn floats_survive_the_round_trip() {
    for value in [0.0f64, -0.0, 0.8, 0.95, 0.98, 0.99, 50.0, -5.0, f64::MAX, f64::MIN_POSITIVE] {
        let back = f64::from_bits(double(value).to_bits());
        assert_eq!(back.to_bits(), value.to_bits());
    }
}

#[test]
fn is_negative_agrees_with_comparison_to_zero() {
    let values = [
        0.0f64,
        -0.0,
        1.0,
        -1.0,
        -5.0,
        0.98,
        -0.98,
        5e-324,
        -5e-324,
        f64::MIN_POSITIVE,
        -f64::MIN_POSITIVE,
        f64::MAX,
        f64::MIN,
        f64::INFINITY,
        f64::NEG_INFINITY,
        f64::NAN,
        -f64::NAN,
        f64::EPSILON,
        -f64::EPSILON,
    ];
    for value in values {
        assert_eq!(double(value).is_negative(), value < 0.0, "for {:?}", value);
    }
}

#[test]
fn zero_of_either_sign_is_not_negative() {
    assert!(!Double::from_bits(0x0000_0000_0000_0000).is_negative());
    assert!(!Double::from_bits(0x8000_0000_0000_0000).is_negative());
}

#[test]
fn smallest_negative_values_are_negative() {
    assert!(Double::from_bits(0x8000_0000_0000_0001).is_negative());
    assert!(Double::from_bits(0x800f_ffff_ffff_ffff).is_negative());
    assert!(Double::from_bits(0x8010_0000_0000_0000).is_negative());
}

#[test]
fn negative_infinity_is_negative_and_nan_is_not() {
    assert!(Double::from_bits(0xfff0_0000_0000_0000).is_negative());
    assert!(!Double::from_bits(0xfff0_0000_0000_0001).is_negative());
    assert!(!Double::from_bits(0xfff8_0000_0000_0000).is_negative());
    assert!(!Double::from_bits(0xffff_ffff_ffff_ffff).is_negative());
    assert!(!Double::from_bits(0x7ff0_0000_0000_0000).is_negative());
    assert!(!Double::from_bits(0x7ff8_0000_0000_0000).is_negative());
}

#[test]
fn is_negative_agrees_with_comparison_on_a_sweep_of_bit_patterns() {
    let mut bits: u64 = 0;
    for _ in 0..4096 {
        let value = f64::from_bits(bits);
        assert_eq!(Double::from_bits(bits).is_negative(), value < 0.0, "for bits {:#x}", bits);
        bits = bits.wrapping_mul(6364136223846793005).wrapping_add(1442695040888963407);
    }
}
