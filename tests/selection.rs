use physics_engine::scalar_order::{LARGEST_FINITE, LOWEST_FINITE};
use physics_engine::selection::{first_max_above, first_min_below};

fn bits(v: &[f32]) -> Vec<u32> {
    v.iter().map(|x| x.to_bits()).collect()
}

#[test]
fn minimum_takes_the_first_of_equal_values() {
    let r = first_min_below(&bits(&[5.0, -3.0, -3.0, 7.0]), LARGEST_FINITE);
    assert_eq!(r, (Some(1), (-3.0f32).to_bits()));
}

#[test]
fn minimum_of_empty_is_the_ceiling() {
    assert_eq!(first_min_below(&Vec::new(), LARGEST_FINITE), (None, LARGEST_FINITE));
}

#[test]
fn minimum_skips_nan_and_values_at_the_ceiling() {
    let r = first_min_below(&bits(&[f32::NAN, f32::MAX, f32::INFINITY]), LARGEST_FINITE);
    assert_eq!(r, (None, LARGEST_FINITE));
    let r = first_min_below(&bits(&[f32::NAN, 2.0, f32::NAN, 1.0]), LARGEST_FINITE);
    assert_eq!(r, (Some(3), 1.0f32.to_bits()));
}

#[test]
fn minimum_keeps_positive_zero_before_negative_zero() {
    let r = first_min_below(&bits(&[0.0, -0.0]), LARGEST_FINITE);
    assert_eq!(r, (Some(0), 0.0f32.to_bits()));
}

#[test]
fn maximum_takes_the_first_of_equal_values() {
    let r = first_max_above(&bits(&[-2.0, -0.5, -2.0, -0.5]), LOWEST_FINITE);
    assert_eq!(r, (Some(1), (-0.5f32).to_bits()));
}

#[test]
fn maximum_below_the_floor_is_none() {
    let r = first_max_above(&bits(&[f32::MIN, f32::NEG_INFINITY, f32::NAN]), LOWEST_FINITE);
    assert_eq!(r, (None, LOWEST_FINITE));
}
