use fps_engine::game::State;
use fps_engine::hull::{check_hull, is_inside, is_within, HullError, HULL_LIMIT};
use fps_engine::objects::{
    Collider, CollisionBox, CollisionRamp, ConvexPolyhedron, Cuboid, PhysicsObject, Shape, Yaw,
};
use fps_engine::vec3::Vec3;

const ONE: i64 = 1_000_000;

fn no_turn() -> Yaw {
    Yaw { angle: 0, cos: ONE, sin: 0 }
}

fn quarter_turn() -> Yaw {
    Yaw { angle: 1_570_796, cos: 0, sin: ONE }
}

fn tetrahedron() -> (Vec<Vec3>, Vec<[u32; 3]>) {
    (
        vec![
            Vec3::new(0, 0, 0),
            Vec3::new(ONE, 0, 0),
            Vec3::new(0, ONE, 0),
            Vec3::new(0, 0, ONE),
        ],
        vec![[0, 2, 1], [0, 1, 3], [0, 3, 2], [1, 2, 3]],
    )
}

#[test]
fn a_box_keeps_what_it_was_made_with() {
    let b = CollisionBox::new(Vec3::new(0, -500_000, 0), Vec3::new(10 * ONE, 500_000, 10 * ONE));
    assert_eq!(b.get_position(), Vec3::new(0, -500_000, 0));
    assert_eq!(b.half_extents(), Vec3::new(10 * ONE, 500_000, 10 * ONE));
    assert_eq!(b.collider().half_extents, Vec3::new(10 * ONE, 500_000, 10 * ONE));
    assert_eq!(*b.collider(), Cuboid::new(Vec3::new(10 * ONE, 500_000, 10 * ONE)));
    assert!(matches!(b.get_collider(), Collider::Cuboid(c) if c.half_extents == b.half_extents()));
}

#[test]
fn a_box_holds_its_interior_only() {
    let b = CollisionBox::new(Vec3::new(0, -500_000, 0), Vec3::new(10 * ONE, 500_000, 10 * ONE));
    assert!(b.contains_point(&Vec3::new(0, -1, 0)));
    assert!(b.contains_point(&Vec3::new(9_999_999, -999_999, -9_999_999)));
    assert!(!b.contains_point(&Vec3::new(0, 0, 0)));
    assert!(!b.contains_point(&Vec3::new(0, -ONE, 0)));
    assert!(!b.contains_point(&Vec3::new(10 * ONE, -500_000, 0)));
    assert!(!b.contains_point(&Vec3::new(0, 1, 0)));
    assert!(!b.contains_point(&Vec3::new(i64::MAX, i64::MIN, 0)));
}

#[test]
fn a_box_with_a_zero_extent_is_a_plane_that_holds_nothing() {
    let b = CollisionBox::new(Vec3::new(0, 0, 0), Vec3::new(ONE, 0, ONE));
    assert_eq!(b.half_extents(), Vec3::new(ONE, 0, ONE));
    assert!(!b.contains_point(&Vec3::new(0, 0, 0)));
}

#[test]
fn a_ramp_at_no_turn_has_the_corners_of_the_wedge() {
    let r = CollisionRamp::new(Vec3::new(0, ONE, -5 * ONE), no_turn(), Vec3::new(ONE, ONE, ONE)).unwrap();
    assert_eq!(r.get_position(), Vec3::new(0, ONE, -5 * ONE));
    assert_eq!(r.yaw(), no_turn());
    assert_eq!(r.half_extents(), Vec3::new(ONE, ONE, ONE));
    assert_eq!(
        *r.collider().points(),
        vec![
            Vec3::new(-ONE, -ONE, -ONE),
            Vec3::new(ONE, -ONE, -ONE),
            Vec3::new(ONE, -ONE, ONE),
            Vec3::new(-ONE, -ONE, ONE),
            Vec3::new(-ONE, ONE, ONE),
            Vec3::new(ONE, ONE, ONE),
        ]
    );
    assert_eq!(
        *r.collider().faces(),
        vec![[0, 2, 1], [0, 3, 2], [3, 2, 5], [3, 5, 4], [0, 5, 1], [0, 4, 5], [0, 3, 4], [1, 2, 5]]
    );
    assert!(matches!(r.get_collider(), Collider::ConvexPolyhedron(_)));
}

#[test]
fn a_ramp_turned_a_quarter_has_its_corners_turned() {
    let r = CollisionRamp::new(Vec3::new(ONE, ONE, 5 * ONE), quarter_turn(), Vec3::new(ONE, ONE, 2 * ONE)).unwrap();
    assert_eq!(
        *r.collider().points(),
        vec![
            Vec3::new(-2 * ONE, -ONE, ONE),
            Vec3::new(-2 * ONE, -ONE, -ONE),
            Vec3::new(2 * ONE, -ONE, -ONE),
            Vec3::new(2 * ONE, -ONE, ONE),
            Vec3::new(2 * ONE, ONE, ONE),
            Vec3::new(2 * ONE, ONE, -ONE),
        ]
    );
}

#[test]
fn a_ramp_turned_by_an_odd_angle_is_still_a_hull() {
    let yaw = Yaw { angle: 643_501, cos: 800_000, sin: 600_000 };
    let r = CollisionRamp::new(Vec3::new(0, 0, 0), yaw, Vec3::new(1_234_567, 777_777, 2_345_678));
    assert!(r.is_ok());
    let yaw = Yaw { angle: 1_000_000, cos: 540_302, sin: 841_471 };
    let r = CollisionRamp::new(Vec3::new(0, 0, 0), yaw, Vec3::new(ONE, ONE, 2 * ONE));
    assert!(r.is_ok());
}

#[test]
fn a_ramp_without_volume_is_refused() {
    let r = CollisionRamp::new(Vec3::new(0, 0, 0), no_turn(), Vec3::new(ONE, 0, ONE));
    assert_eq!(r.err(), Some(HullError::Degenerate));
    let r = CollisionRamp::new(Vec3::new(0, 0, 0), no_turn(), Vec3::new(0, 0, 0));
    assert_eq!(r.err(), Some(HullError::Degenerate));
    let collapsed = Yaw { angle: 0, cos: 0, sin: 0 };
    let r = CollisionRamp::new(Vec3::new(0, 0, 0), collapsed, Vec3::new(ONE, ONE, ONE));
    assert_eq!(r.err(), Some(HullError::Degenerate));
}

#[test]
fn a_ramp_beyond_the_limit_is_refused() {
    let r = CollisionRamp::new(Vec3::new(0, 0, 0), no_turn(), Vec3::new(HULL_LIMIT + 1, ONE, ONE));
    assert_eq!(r.err(), Some(HullError::OutOfRange));
    let r = CollisionRamp::new(Vec3::new(0, 0, 0), no_turn(), Vec3::new(HULL_LIMIT, HULL_LIMIT, HULL_LIMIT));
    assert!(r.is_ok());
}

#[test]
fn a_ramp_holds_what_lies_under_its_slope() {
    let r = CollisionRamp::new(Vec3::new(0, ONE, -5 * ONE), no_turn(), Vec3::new(ONE, ONE, ONE)).unwrap();
    // In the ramp's own space the slope is the plane y = z.
    assert!(r.contains_point(&Vec3::new(0, 500_000, -5 * ONE)));
    assert!(r.contains_point(&Vec3::new(0, ONE - 1, -5 * ONE)));
    assert!(!r.contains_point(&Vec3::new(0, ONE, -5 * ONE)));
    assert!(!r.contains_point(&Vec3::new(0, 1_500_000, -5 * ONE)));
    assert!(r.contains_point(&Vec3::new(0, 1_500_000, -4_400_000)));
    assert!(!r.contains_point(&Vec3::new(0, 0, -5 * ONE)));
    assert!(!r.contains_point(&Vec3::new(ONE, 500_000, -5 * ONE)));
    assert!(!r.contains_point(&Vec3::new(0, 500_000, -4 * ONE)));
    assert!(!r.contains_point(&Vec3::new(i64::MAX, i64::MAX, i64::MAX)));
    assert!(!r.contains_point(&Vec3::new(i64::MIN, 0, 0)));
}

#[test]
fn a_turned_ramp_holds_what_lies_under_its_turned_slope() {
    let r = CollisionRamp::new(Vec3::new(0, 0, 0), quarter_turn(), Vec3::new(ONE, ONE, ONE)).unwrap();
    // After a quarter turn the wedge rises toward +x.
    assert!(r.contains_point(&Vec3::new(500_000, 0, 0)));
    assert!(!r.contains_point(&Vec3::new(-500_000, 0, 0)));
}

#[test]
fn a_tetrahedron_is_a_hull() {
    let (points, faces) = tetrahedron();
    assert_eq!(check_hull(&points, &faces), Ok(()));
    let h = ConvexPolyhedron::from_convex_mesh(points.clone(), faces.clone()).ok().unwrap();
    assert_eq!(*h.points(), points);
    assert_eq!(*h.faces(), faces);
    assert!(h.contains_point(&Vec3::new(0, 0, 0), &Vec3::new(100_000, 100_000, 100_000)));
    assert!(!h.contains_point(&Vec3::new(0, 0, 0), &Vec3::new(400_000, 400_000, 400_000)));
    assert!(h.contains_point(&Vec3::new(5, 5, 5), &Vec3::new(100_005, 100_005, 100_005)));
}

#[test]
fn a_mesh_without_faces_is_refused() {
    let (points, _) = tetrahedron();
    assert_eq!(check_hull(&points, &vec![]), Err(HullError::Empty));
    assert_eq!(ConvexPolyhedron::from_convex_mesh(vec![], vec![]).err(), Some(HullError::Empty));
}

#[test]
fn a_mesh_with_a_wrong_index_is_refused() {
    let (points, mut faces) = tetrahedron();
    faces[3] = [1, 2, 4];
    assert_eq!(check_hull(&points, &faces), Err(HullError::BadIndex));
    faces[3] = [1, 2, 2];
    assert_eq!(check_hull(&points, &faces), Err(HullError::BadIndex));
}

#[test]
fn a_mesh_with_a_hole_is_refused() {
    let (points, mut faces) = tetrahedron();
    faces.pop();
    assert_eq!(check_hull(&points, &faces), Err(HullError::Open));
    let (points, mut faces) = tetrahedron();
    faces.push([1, 2, 3]);
    assert_eq!(check_hull(&points, &faces), Err(HullError::Open));
}

#[test]
fn a_mesh_with_a_flat_face_is_refused() {
    let (mut points, faces) = tetrahedron();
    points[3] = Vec3::new(ONE / 2, ONE / 2, 0);
    points[2] = Vec3::new(2 * ONE, 0, 0);
    assert_eq!(check_hull(&points, &faces), Err(HullError::Degenerate));
}

#[test]
fn a_mesh_with_a_dent_is_refused() {
    // Two pyramids on one base, the second apex inside the first.
    let points = vec![
        Vec3::new(0, 0, 0),
        Vec3::new(4 * ONE, 0, 0),
        Vec3::new(0, 0, 4 * ONE),
        Vec3::new(ONE, 4 * ONE, ONE),
        Vec3::new(ONE, ONE, ONE),
    ];
    let faces = vec![[0, 1, 3], [1, 2, 3], [2, 0, 3], [0, 1, 4], [1, 2, 4], [2, 0, 4]];
    assert_eq!(check_hull(&points, &faces), Err(HullError::NotConvex));
    // With the second apex below the base the mesh is convex.
    let mut points = points;
    points[4] = Vec3::new(ONE, -ONE, ONE);
    assert_eq!(check_hull(&points, &faces), Ok(()));
}

#[test]
fn a_mesh_beyond_the_limit_is_refused() {
    let (mut points, faces) = tetrahedron();
    points[1] = Vec3::new(HULL_LIMIT + 1, 0, 0);
    assert_eq!(check_hull(&points, &faces), Err(HullError::OutOfRange));
    assert!(is_within(&Vec3::new(HULL_LIMIT, -HULL_LIMIT, 0)));
    assert!(!is_within(&Vec3::new(0, -HULL_LIMIT - 1, 0)));
}

#[test]
fn the_first_defect_is_reported() {
    // Out of range and a wrong index at once: the range comes first.
    let (mut points, mut faces) = tetrahedron();
    points[1] = Vec3::new(HULL_LIMIT + 1, 0, 0);
    faces[0] = [0, 0, 1];
    assert_eq!(check_hull(&points, &faces), Err(HullError::OutOfRange));
}

#[test]
fn inside_is_strict_on_every_face() {
    let (points, faces) = tetrahedron();
    assert!(is_inside(&points, &faces, &Vec3::new(1, 1, 1)));
    assert!(!is_inside(&points, &faces, &Vec3::new(0, 1, 1)));
    assert!(!is_inside(&points, &faces, &Vec3::new(333_334, 333_333, 333_333)));
    assert!(is_inside(&points, &faces, &Vec3::new(333_333, 333_333, 333_333)));
    assert!(!is_inside(&points, &faces, &Vec3::new(-1, 1, 1)));
}

#[test]
fn a_shape_is_a_box_or_a_ramp() {
    let b = Shape::Box(CollisionBox::new(Vec3::new(5 * ONE, ONE, 5 * ONE), Vec3::new(2 * ONE, ONE, 2 * ONE)));
    let r = Shape::Ramp(CollisionRamp::new(Vec3::new(0, ONE, -5 * ONE), no_turn(), Vec3::new(ONE, ONE, ONE)).unwrap());
    assert_eq!(b.get_position(), Vec3::new(5 * ONE, ONE, 5 * ONE));
    assert_eq!(r.get_position(), Vec3::new(0, ONE, -5 * ONE));
    assert!(matches!(b.get_collider(), Collider::Cuboid(_)));
    assert!(matches!(r.get_collider(), Collider::ConvexPolyhedron(_)));
    assert!(b.contains_point(&Vec3::new(5 * ONE, ONE, 5 * ONE)));
    assert!(!b.contains_point(&Vec3::new(0, ONE, 0)));
    assert!(r.contains_point(&Vec3::new(0, 500_000, -5 * ONE)));
    assert!(!r.contains_point(&Vec3::new(0, 1_500_000, -5 * ONE)));
}

#[test]
fn a_scene_keeps_its_shapes_in_order() {
    let mut state = State::new();
    assert_eq!(state.objects.len(), 0);
    state.push(Shape::Box(CollisionBox::new(Vec3::new(0, -500_000, 0), Vec3::new(10 * ONE, 500_000, 10 * ONE))));
    state.push(Shape::Ramp(CollisionRamp::new(Vec3::new(0, ONE, -5 * ONE), no_turn(), Vec3::new(ONE, ONE, ONE)).unwrap()));
    assert_eq!(state.objects.len(), 2);
    assert!(matches!(state.objects[0], Shape::Box(_)));
    assert!(matches!(state.objects[1], Shape::Ramp(_)));
}
