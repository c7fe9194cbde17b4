use fps_engine::game::State;
use fps_engine::objects::{Collider, CollisionBox, CollisionRamp, PhysicsObject, Shape, Yaw};
use fps_engine::player::{
    Contact, Heading, Input, Player, CAPSULE_HALF_HEIGHT, CAPSULE_RADIUS, COMMIT_EPSILON,
};
use fps_engine::vec3::Vec3;
use nalgebra::{Isometry3, Point3, Vector3};
use parry3d::query::contact;
use parry3d::shape::{Capsule, ConvexPolyhedron, Cuboid};

const ONE: i64 = 1_000_000;

fn to_float(raw: i64) -> f32 {
    (raw as f64 / 1e6) as f32
}

fn to_raw(x: f32) -> i64 {
    (x as f64 * 1e6).round() as i64
}

fn raw_vec(x: f32, y: f32, z: f32) -> Vec3 {
    Vec3::new(to_raw(x), to_raw(y), to_raw(z))
}

fn heading_of(p: &Player) -> Heading {
    let theta = to_float(p.theta());
    let phi = to_float(p.phi());
    Heading {
        cos_yaw: to_raw(theta.cos()),
        sin_yaw: to_raw(theta.sin()),
        cos_pitch: to_raw(phi.cos()),
        sin_pitch: to_raw(phi.sin()),
    }
}

fn solid(shape: &Shape) -> Box<dyn parry3d::shape::Shape> {
    match shape.get_collider() {
        Collider::Cuboid(c) => Box::new(Cuboid::new(Vector3::new(
            to_float(c.half_extents.x),
            to_float(c.half_extents.y),
            to_float(c.half_extents.z),
        ))),
        Collider::ConvexPolyhedron(h) => {
            let points: Vec<Point3<f32>> = h
                .points()
                .iter()
                .map(|v| Point3::new(to_float(v.x), to_float(v.y), to_float(v.z)))
                .collect();
            Box::new(ConvexPolyhedron::from_convex_mesh(points, h.faces()).unwrap())
        }
    }
}

fn query(p: &Player, state: &State) -> Vec<Option<Contact>> {
    let capsule = Capsule::new_y(to_float(CAPSULE_HALF_HEIGHT), to_float(CAPSULE_RADIUS));
    let center = p.capsule_center();
    let at = Isometry3::translation(to_float(center.x), to_float(center.y), to_float(center.z));
    state
        .objects
        .iter()
        .map(|shape| {
            let pos = shape.get_position();
            let place = Isometry3::translation(to_float(pos.x), to_float(pos.y), to_float(pos.z));
            contact(&at, &capsule, &place, &*solid(shape), 0.0).unwrap().map(|c| Contact {
                point1: raw_vec(c.point1.x, c.point1.y, c.point1.z),
                point2: raw_vec(c.point2.x, c.point2.y, c.point2.z),
                normal1: raw_vec(c.normal1.x, c.normal1.y, c.normal1.z),
                normal2: raw_vec(c.normal2.x, c.normal2.y, c.normal2.z),
                dist: to_raw(c.dist),
            })
        })
        .collect()
}

fn frame(p: &mut Player, state: &State, dx: i64, input: &Input) {
    p.look(dx, 0);
    let h = heading_of(p);
    p.update(&h, input);
    let contacts = query(p, state);
    p.contact_pass(state, &contacts);
    p.commit();
}

fn idle() -> Input {
    Input { forward: false, backward: false, jump: false }
}

fn playground() -> State {
    let mut state = State::new();
    state.push(Shape::Box(CollisionBox::new(raw_vec(0., -0.5, 0.), raw_vec(10., 0.5, 10.))));
    state.push(Shape::Box(CollisionBox::new(raw_vec(5., 1., 5.), raw_vec(2., 1., 2.))));
    state.push(Shape::Ramp(
        CollisionRamp::new(raw_vec(0., 1., -5.), Yaw { angle: 0, cos: ONE, sin: 0 }, raw_vec(1., 1., 1.))
            .unwrap(),
    ));
    let quarter = std::f32::consts::FRAC_PI_2;
    state.push(Shape::Ramp(
        CollisionRamp::new(
            raw_vec(1., 1., 5.),
            Yaw { angle: to_raw(quarter), cos: to_raw(quarter.cos()), sin: to_raw(quarter.sin()) },
            raw_vec(1., 1., 2.),
        )
        .unwrap(),
    ));
    state
}

#[test]
fn the_narrow_phase_lands_the_character_on_the_floor() {
    let mut state = State::new();
    state.push(Shape::Box(CollisionBox::new(raw_vec(0., -0.5, 0.), raw_vec(10., 0.5, 10.))));
    let mut p = Player::new();
    assert_eq!(p.position(), raw_vec(0., 10., 0.));
    let mut grounded_steps = 0;
    for step in 0..300 {
        frame(&mut p, &state, 0, &idle());
        assert!(p.position().y >= 0, "below the floor at step {}: {}", step, p.position().y);
        if step >= 50 {
            assert!(p.position().y <= COMMIT_EPSILON, "step {}: {}", step, p.position().y);
            if p.is_on_ground() {
                grounded_steps += 1;
            }
        }
    }
    assert_eq!(p.position().x, 0);
    assert_eq!(p.position().z, 0);
    assert_eq!(grounded_steps, 250);
}

#[test]
fn the_narrow_phase_reports_the_floor_as_a_floor() {
    let mut state = State::new();
    state.push(Shape::Box(CollisionBox::new(raw_vec(0., -0.5, 0.), raw_vec(10., 0.5, 10.))));
    let mut p = Player::new();
    for (height, depth) in [(-0.2f32, 200_000i64), (-0.4, 400_000)] {
        p.place(raw_vec(0., height, 0.));
        let c = query(&p, &state)[0].unwrap();
        assert_eq!(c.normal2, Vec3::new(0, ONE, 0));
        assert!((c.dist + depth).abs() <= 2, "{}", c.dist);
        assert!(c.point2.y.abs() <= 2, "{}", c.point2.y);
        p.contact_pass(&state, &vec![Some(c)]);
        assert!(p.feet().y.abs() <= 2, "{}", p.feet().y);
        assert!(p.is_on_ground());
    }
    p.place(raw_vec(0., 0.3, 0.));
    assert_eq!(query(&p, &state), vec![None]);
}

#[test]
fn the_playground_is_a_valid_scene() {
    let state = playground();
    assert_eq!(state.objects.len(), 4);
    let mut p = Player::new();
    for _ in 0..100 {
        frame(&mut p, &state, 0, &idle());
    }
    assert!(p.is_on_ground());
    assert!(p.position().y.abs() <= COMMIT_EPSILON);
}

#[test]
fn walking_into_the_box_does_not_enter_it() {
    let state = playground();
    let mut p = Player::new();
    p.place(raw_vec(0., 0.5, 6.5));
    let walk = Input { forward: true, backward: false, jump: false };
    // The box spans x from 3 to 7 at z = 5; the character walks toward +x.
    for step in 0..100 {
        frame(&mut p, &state, 0, &walk);
        assert!(
            p.position().x <= 3 * ONE - CAPSULE_RADIUS + COMMIT_EPSILON + 100_000,
            "step {}: x = {}",
            step,
            p.position().x
        );
    }
    assert!(p.position().x > 2 * ONE);
}

#[test]
fn walking_up_the_ramp_climbs() {
    let state = playground();
    let mut p = Player::new();
    p.place(raw_vec(0., 0.2, -7.));
    let walk = Input { forward: true, backward: false, jump: false };
    // Three quarters of a turn: forward is toward +z, up the first ramp,
    // which rises from the floor at z = -6 to two units at z = -4.
    p.look(4_712_389, 0);
    let mut highest = 0;
    let mut grounded_on_the_slope = 0;
    for step in 0..60i64 {
        frame(&mut p, &state, 0, &walk);
        let at = p.position();
        assert!(at.y >= -COMMIT_EPSILON, "step {}: {:?}", step, at);
        assert_eq!(at.x, 0);
        assert_eq!(at.z, -7 * ONE + 100_000 * (step + 1));
        highest = highest.max(at.y);
        if p.is_on_ground() && at.y > 100_000 && at.z < -4 * ONE {
            grounded_on_the_slope += 1;
            // On the slope the feet are where the slope is, give or take
            // the rounding of the capsule against it.
            let slope_height = at.z + 6 * ONE;
            assert!((at.y - slope_height).abs() <= 150_000, "step {}: {:?}", step, at);
        }
    }
    assert!(highest >= 2 * ONE, "{}", highest);
    assert!(grounded_on_the_slope >= 10, "{}", grounded_on_the_slope);
}
