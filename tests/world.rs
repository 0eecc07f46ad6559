use physics_engine::body::{is_static_inverse_mass, STATIC_INVERSE_MASS};
use physics_engine::shape::{edge_end, ShapeKind};
use physics_engine::world::collision_pairs;

#[test]
fn pairs_of_no_or_one_body() {
    assert!(collision_pairs(0).is_empty());
    assert!(collision_pairs(1).is_empty());
}

#[test]
fn pairs_of_four_bodies_in_scan_order() {
    assert_eq!(
        collision_pairs(4),
        vec![(0, 1), (0, 2), (0, 3), (1, 2), (1, 3), (2, 3)]
    );
}

#[test]
fn pair_count_is_n_choose_two() {
    for n in 0..20usize {
        assert_eq!(collision_pairs(n).len(), n * n.saturating_sub(1) / 2);
    }
}

#[test]
fn static_threshold_is_five_hundred_thousandths() {
    assert_eq!(STATIC_INVERSE_MASS, 0.00005f32.to_bits());
}

#[test]
fn zero_inverse_mass_is_static() {
    assert!(is_static_inverse_mass(0.0f32.to_bits()));
    assert!(is_static_inverse_mass((-0.0f32).to_bits()));
    assert!(is_static_inverse_mass(0.00001f32.to_bits()));
}

#[test]
fn finite_mass_is_dynamic() {
    assert!(!is_static_inverse_mass(1.0f32.to_bits()));
    assert!(!is_static_inverse_mass((1.0f32 / 5.0).to_bits()));
    assert!(!is_static_inverse_mass(0.00005f32.to_bits()));
    assert!(!is_static_inverse_mass(f32::NAN.to_bits()));
}

#[test]
fn edges_wrap_around() {
    assert_eq!(edge_end(0, 4), 1);
    assert_eq!(edge_end(3, 4), 0);
    assert_eq!(edge_end(0, 1), 0);
}

#[test]
fn only_circles_lack_vertices() {
    assert!(!ShapeKind::Circle.has_vertices());
    assert!(ShapeKind::Polygon.has_vertices());
    assert!(ShapeKind::Box.has_vertices());
}
