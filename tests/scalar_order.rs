use physics_engine::scalar_order::{
    is_nan_bits, less_or_equal, less_than, rank_of, LARGEST_FINITE, LOWEST_FINITE, ZERO,
};

#[test]
fn bounds_are_the_extreme_finite_numbers() {
    assert_eq!(LARGEST_FINITE, f32::MAX.to_bits());
    assert_eq!(LOWEST_FINITE, f32::MIN.to_bits());
    assert_eq!(ZERO, 0.0f32.to_bits());
}

#[test]
fn less_than_agrees_with_float_comparison() {
    let values = [
        f32::NEG_INFINITY,
        f32::MIN,
        -3.5,
        -1.0,
        -0.0,
        0.0,
        1e-7,
        0.5,
        2.0,
        f32::MAX,
        f32::INFINITY,
        f32::NAN,
        -f32::NAN,
    ];
    for a in values {
        for b in values {
            assert_eq!(less_than(a.to_bits(), b.to_bits()), a < b, "{} < {}", a, b);
            assert_eq!(less_or_equal(a.to_bits(), b.to_bits()), a <= b, "{} <= {}", a, b);
        }
    }
}

#[test]
fn both_zeros_are_equal() {
    let neg = (-0.0f32).to_bits();
    assert!(!less_than(neg, ZERO));
    assert!(!less_than(ZERO, neg));
    assert!(less_or_equal(neg, ZERO));
    assert_eq!(rank_of(neg), 0);
    assert_eq!(rank_of(ZERO), 0);
}

#[test]
fn nan_is_detected() {
    assert!(is_nan_bits(f32::NAN.to_bits()));
    assert!(is_nan_bits((-f32::NAN).to_bits()));
    assert!(!is_nan_bits(f32::INFINITY.to_bits()));
    assert!(!is_nan_bits(f32::NEG_INFINITY.to_bits()));
    assert!(!is_nan_bits(1.0f32.to_bits()));
}

#[test]
fn rank_orders_negative_numbers() {
    assert!(rank_of((-2.0f32).to_bits()) < rank_of((-1.0f32).to_bits()));
    assert!(rank_of((-1.0f32).to_bits()) < rank_of(1.0f32.to_bits()));
    assert_eq!(rank_of(1.0f32.to_bits()), 0x3f80_0000);
    assert_eq!(rank_of((-1.0f32).to_bits()), -0x3f80_0000);
}
