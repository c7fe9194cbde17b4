use fps_engine::vec3::Vec3;

#[test]
fn plus_and_minus_are_componentwise() {
    let a = Vec3::new(1, 2, 3);
    let b = Vec3::new(10, 20, 30);
    assert_eq!(a.plus(b), Vec3::new(11, 22, 33));
    assert_eq!(b.minus(a), Vec3::new(9, 18, 27));
    assert_eq!(a.negated(), Vec3::new(-1, -2, -3));
    assert_eq!(Vec3::new(i64::MAX, 0, i64::MIN).plus(Vec3::new(1, 0, -1)), Vec3::new(i64::MAX, 0, i64::MIN));
}

#[test]
fn scaled_multiplies_each_component() {
    let v = Vec3::new(1_000_000, -2_000_000, 500_000);
    assert_eq!(v.scaled(500_000), Vec3::new(500_000, -1_000_000, 250_000));
    assert_eq!(v.scaled(0), Vec3::new(0, 0, 0));
}

#[test]
fn dot_of_axes() {
    let x = Vec3::new(1_000_000, 0, 0);
    let y = Vec3::new(0, 1_000_000, 0);
    assert_eq!(x.dot(y), 0);
    assert_eq!(x.dot(x), 1_000_000);
    assert_eq!(Vec3::new(1_000_000, 2_000_000, 3_000_000).dot(Vec3::new(4_000_000, -5_000_000, 6_000_000)), 12_000_000);
}

#[test]
fn cross_of_axes_is_the_third_axis() {
    let x = Vec3::new(1_000_000, 0, 0);
    let y = Vec3::new(0, 1_000_000, 0);
    let z = Vec3::new(0, 0, 1_000_000);
    assert_eq!(x.cross(y), z);
    assert_eq!(y.cross(z), x);
    assert_eq!(z.cross(x), y);
    assert_eq!(y.cross(x), z.negated());
}

#[test]
fn horizontal_drops_the_height() {
    assert_eq!(Vec3::new(3, 4, 5).horizontal(), Vec3::new(3, 0, 5));
}

#[test]
fn length_rounds_down() {
    assert_eq!(Vec3::new(3_000_000, 4_000_000, 0).length(), 5_000_000);
    assert_eq!(Vec3::new(1, 1, 0).length(), 1);
    assert_eq!(Vec3::new(0, 0, 0).length(), 0);
    assert_eq!(Vec3::new(i64::MIN, i64::MIN, i64::MIN).length(), 15_975_348_984_942_515_101);
}

#[test]
fn normalized_has_length_one() {
    assert_eq!(Vec3::new(3_000_000, -4_000_000, 0).normalized(), Some(Vec3::new(600_000, -800_000, 0)));
    assert_eq!(Vec3::new(0, 0, -7).normalized(), Some(Vec3::new(0, 0, -1_000_000)));
    assert_eq!(Vec3::new(i64::MAX, 0, 0).normalized(), Some(Vec3::new(1_000_000, 0, 0)));
}

#[test]
fn the_zero_vector_has_no_direction() {
    assert_eq!(Vec3::new(0, 0, 0).normalized(), None);
}

#[test]
fn farther_than_is_strict() {
    let a = Vec3::new(0, 0, 0);
    assert!(!a.farther_than(Vec3::new(3_000, 4_000, 0), 5_000));
    assert!(a.farther_than(Vec3::new(3_000, 4_000, 1), 5_000));
    assert!(!a.farther_than(a, 0));
    assert!(a.farther_than(a, -1));
    assert!(Vec3::new(i64::MIN, 0, 0).farther_than(Vec3::new(i64::MAX, 0, 0), i64::MAX));
}

#[test]
fn rotated_y_by_a_quarter_turn() {
    let v = Vec3::new(1_000_000, 2_000_000, 3_000_000);
    assert_eq!(v.rotated_y(1_000_000, 0), v);
    assert_eq!(v.rotated_y(0, 1_000_000), Vec3::new(3_000_000, 2_000_000, -1_000_000));
    assert_eq!(v.rotated_y(-1_000_000, 0), Vec3::new(-1_000_000, 2_000_000, -3_000_000));
}
