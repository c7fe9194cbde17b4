//! The character controller: orientation, desired velocity, contact
//! resolution and the commit of a step.
//!
//! One simulated step is `look`, then `update`, then `contact_pass` with
//! what the narrow phase found for the capsule placed at `capsule_center`
//! against every shape of the scene, then `commit`. The host performs the
//! narrow phase between those calls and supplies the sines and cosines of
//! the angles that `look` produced.
use crate::fixed::{add_sat, clamp, div_fx, mul_fx, neg_sat, sub_sat, UNIT};
use crate::game::State;
use crate::objects::{PhysicsObject, Shape};
use crate::vec3::Vec3;
use vstd::prelude::*;

verus! {

/// Distance covered in one step of walking.
pub const MOVE_SPEED: i64 = 100_000;

/// Downward speed gained in one step of free fall.
pub const GRAVITY: i64 = 8_000;

/// Upward speed that a jump sets.
pub const JUMP_IMPULSE: i64 = 150_000;

/// A contact whose normal rises above this is a floor.
pub const FLOOR_THRESHOLD: i64 = 500_000;

/// A step that moves the character no farther than this is not committed.
pub const COMMIT_EPSILON: i64 = 5_000;

/// A full turn.
pub const TWO_PI: i64 = 6_283_185;

/// The pitch stays this close to level: a quarter turn less a thousandth.
pub const PITCH_LIMIT: i64 = 1_569_796;

/// Height of the eye above the feet.
pub const EYE_HEIGHT: i64 = 1_000_000;

/// Radius of the character's capsule.
pub const CAPSULE_RADIUS: i64 = 250_000;

/// Half the length of the capsule's axis.
pub const CAPSULE_HALF_HEIGHT: i64 = 250_000;

/// Height of the capsule's centre above the feet.
pub const CAPSULE_OFFSET: i64 = 500_000;

/// The sine and the cosine of an eighth of a turn.
pub const FRAC_1_SQRT_2: i64 = 707_107;

/// The sines and cosines of the yaw and the pitch.
#[derive(Clone, Copy, Debug, PartialEq, Eq, Structural)]
pub struct Heading {
    pub cos_yaw: i64,
    pub sin_yaw: i64,
    pub cos_pitch: i64,
    pub sin_pitch: i64,
}

/// The keys of one step. `jump` is true in the one step in which the key
/// went down, not while it is held.
#[derive(Clone, Copy, Debug, PartialEq, Eq, Structural)]
pub struct Input {
    pub forward: bool,
    pub backward: bool,
    pub jump: bool,
}

/// How the capsule and one shape touch. Shape one is the capsule, shape two
/// the static shape; `normal2` points from the static shape toward the
/// capsule. A negative `dist` is the depth of an overlap.
#[derive(Clone, Copy, Debug, PartialEq, Eq, Structural)]
pub struct Contact {
    pub point1: Vec3,
    pub point2: Vec3,
    pub normal1: Vec3,
    pub normal2: Vec3,
    pub dist: i64,
}

/// Where the eye is, what it looks at, and which way is up.
#[derive(Clone, Copy, Debug, PartialEq, Eq, Structural)]
pub struct Camera {
    pub position: Vec3,
    pub target: Vec3,
    pub up: Vec3,
}

/// Everything the controller remembers between calls.
#[derive(Clone, Copy, Debug, PartialEq, Eq, Structural)]
pub struct PlayerState {
    /// The feet, as of the last committed step.
    pub position: Vec3,
    /// The yaw.
    pub theta: i64,
    /// The pitch.
    pub phi: i64,
    /// The direction of the look.
    pub target: Vec3,
    /// The normal of the supporting surface; straight up while airborne.
    pub normal: Vec3,
    pub velocity: Vec3,
    /// The candidate for the next position.
    pub new_position: Vec3,
    pub is_on_ground: bool,
}

/// The unit vector that points up.
pub open spec fn up() -> Vec3 {
    Vec3 { x: 0, y: UNIT, z: 0 }
}

/// The horizontal velocity that the keys ask for: the move speed along the
/// yaw, backward winning over forward, or nothing.
pub open spec fn drive(h: Heading, input: Input) -> (i64, i64) {
    if input.backward {
        (mul_fx(neg_sat(h.cos_yaw), MOVE_SPEED), mul_fx(h.sin_yaw, MOVE_SPEED))
    } else if input.forward {
        (mul_fx(h.cos_yaw, MOVE_SPEED), mul_fx(neg_sat(h.sin_yaw), MOVE_SPEED))
    } else {
        (0, 0)
    }
}

/// The vertical velocity that keeps a horizontal velocity in the plane of
/// the surface with normal `n`: `vx * (-n.x / n.y) + vz * (-n.z / n.y)`.
pub open spec fn slope_lock(vx: i64, vz: i64, n: Vec3) -> i64
    recommends
        n.y != 0,
{
    add_sat(mul_fx(vx, div_fx(neg_sat(n.x), n.y)), mul_fx(vz, div_fx(neg_sat(n.z), n.y)))
}

/// The look direction for a heading.
pub open spec fn look_direction(h: Heading) -> Vec3 {
    Vec3 {
        x: mul_fx(h.cos_pitch, h.cos_yaw),
        y: h.sin_pitch,
        z: mul_fx(neg_sat(h.cos_pitch), h.sin_yaw),
    }
}

/// How far a wall with normal `n` pushes a character that looks along
/// `target`: along the horizontal direction of `n`, by the move speed times
/// how directly the look opposes it, and not at all where it does not.
pub open spec fn deflection(n: Vec3, target: Vec3) -> Vec3 {
    match (n.horizontal().normalized(), target.horizontal().normalized()) {
        (Some(w), Some(t)) => {
            let k = w.dot(t.negated());
            if k > 0 {
                w.scaled(k).scaled(MOVE_SPEED)
            } else {
                Vec3::zero()
            }
        },
        _ => Vec3::zero(),
    }
}

impl PlayerState {
    /// What holds of the state at all times: the supporting normal is one
    /// of a floor (the slope lock divides by its vertical component), the
    /// yaw lies within a full turn and the pitch within its limit.
    pub open spec fn wf(self) -> bool {
        &&& self.normal.y > FLOOR_THRESHOLD
        &&& 0 <= self.theta < TWO_PI
        &&& -PITCH_LIMIT <= self.phi <= PITCH_LIMIT
    }

    /// The state in which every character starts: ten units above the
    /// origin, airborne and at rest.
    pub open spec fn initial() -> PlayerState {
        PlayerState {
            position: Vec3 { x: 0, y: 10_000_000, z: 0 },
            theta: 0,
            phi: 0,
            target: Vec3 { x: 0, y: 0, z: (-1_000_000) as i64 },
            normal: up(),
            velocity: Vec3::zero(),
            new_position: Vec3 { x: 0, y: 10_000_000, z: 0 },
            is_on_ground: false,
        }
    }

    /// The state after the pointer moved by `(dx, dy)`: the yaw wrapped
    /// into a full turn, the pitch clamped short of straight up and down.
    pub open spec fn looked(self, dx: i64, dy: i64) -> PlayerState {
        PlayerState {
            theta: ((self.theta + dx) % (TWO_PI as int)) as i64,
            phi: clamp(add_sat(self.phi, dy), (-PITCH_LIMIT) as i64, PITCH_LIMIT),
            ..self
        }
    }

    /// The state after the velocity of the step is set and the candidate
    /// position predicted.
    pub open spec fn advanced(self, h: Heading, input: Input) -> PlayerState {
        let normal = if self.is_on_ground {
            self.normal
        } else {
            up()
        };
        let (vx, vz) = drive(h, input);
        let vy = if self.is_on_ground {
            if input.jump {
                JUMP_IMPULSE
            } else {
                slope_lock(vx, vz, normal)
            }
        } else {
            sub_sat(self.velocity.y, GRAVITY)
        };
        let velocity = Vec3 { x: vx, y: vy, z: vz };
        PlayerState {
            target: look_direction(h),
            normal,
            velocity,
            new_position: self.position.plus(velocity),
            is_on_ground: false,
            ..self
        }
    }

    /// The state after the floor or wall rule is applied to one contact.
    pub open spec fn pushed(self, c: Contact) -> PlayerState {
        if c.normal2.y > FLOOR_THRESHOLD {
            PlayerState {
                new_position: Vec3 {
                    y: add_sat(self.new_position.y, mul_fx(c.normal2.y, neg_sat(c.dist))),
                    ..self.new_position
                },
                normal: c.normal2,
                is_on_ground: true,
                ..self
            }
        } else if c.dist < 0 {
            PlayerState {
                new_position: self.new_position.plus(deflection(c.normal2, self.target)),
                ..self
            }
        } else {
            self
        }
    }

    /// The state after the feet, found inside a shape, are put on its
    /// surface.
    pub open spec fn snapped(self, c: Contact) -> PlayerState {
        PlayerState {
            new_position: Vec3 { y: c.point2.y, ..self.new_position },
            velocity: Vec3 {
                y: if self.velocity.y < 0 {
                    0
                } else {
                    self.velocity.y
                },
                ..self.velocity
            },
            is_on_ground: true,
            ..self
        }
    }

    /// The state after one contact is resolved. `feet_inside` says whether
    /// the candidate position, as it was before this contact, lies inside
    /// the shape.
    pub open spec fn resolved(self, c: Contact, feet_inside: bool) -> PlayerState {
        if feet_inside {
            self.pushed(c).snapped(c)
        } else {
            self.pushed(c)
        }
    }

    /// The state after the contacts of the first `k` shapes are resolved,
    /// in the order of the scene. `contacts[i]` is what the narrow phase
    /// found for shape `i`; the feet are tested against each shape as the
    /// candidate stands when its turn comes.
    pub open spec fn passed(
        self,
        shapes: Seq<Shape>,
        contacts: Seq<Option<Contact>>,
        k: nat,
    ) -> PlayerState
        decreases k,
    {
        if k == 0 {
            self
        } else {
            let s = self.passed(shapes, contacts, (k - 1) as nat);
            match contacts[k - 1] {
                Some(c) => s.resolved(
                    c,
                    shapes[k - 1].spec_geometry().contains(
                        shapes[k - 1].spec_position(),
                        s.new_position,
                    ),
                ),
                None => s,
            }
        }
    }

    /// The state after the step is committed: the candidate becomes the
    /// position where it lies farther from it than the commit epsilon.
    pub open spec fn committed(self) -> PlayerState {
        if self.position.farther_than(self.new_position, COMMIT_EPSILON) {
            PlayerState { position: self.new_position, ..self }
        } else {
            self
        }
    }

    /// The centre of the capsule placed at the candidate position.
    pub open spec fn spec_capsule_center(self) -> Vec3 {
        Vec3 { y: add_sat(self.new_position.y, CAPSULE_OFFSET), ..self.new_position }
    }

    /// The camera for a heading. Its up vector comes from the yaw alone:
    /// the forward axis crossed with the axis an eighth of a turn before it.
    pub open spec fn spec_camera(self, h: Heading) -> Camera {
        let eye = Vec3 { x: 0, y: EYE_HEIGHT, z: 0 };
        let forward = Vec3 { x: h.cos_yaw, y: 0, z: h.sin_yaw };
        let right = Vec3 {
            x: add_sat(mul_fx(h.cos_yaw, FRAC_1_SQRT_2), mul_fx(h.sin_yaw, FRAC_1_SQRT_2)),
            y: 0,
            z: sub_sat(mul_fx(h.sin_yaw, FRAC_1_SQRT_2), mul_fx(h.cos_yaw, FRAC_1_SQRT_2)),
        };
        Camera {
            position: self.position.plus(eye),
            target: self.position.plus(self.target).plus(eye),
            up: right.cross(forward).negated(),
        }
    }
}

/// The character.
pub struct Player {
    state: PlayerState,
}

impl View for Player {
    type V = PlayerState;

    closed spec fn view(&self) -> PlayerState {
        self.state
    }
}

/// The yaw after a turn by `delta`, wrapped into a full turn.
fn wrap_angle(theta: i64, delta: i64) -> (r: i64)
    ensures
        r == (theta + delta) % (TWO_PI as int),
        0 <= r < TWO_PI,
{
    let turn: i128 = TWO_PI as i128;
    let m: i128 = (theta as i128 + delta as i128) % turn;
    if m < 0 {
        (m + turn) as i64
    } else {
        m as i64
    }
}

/// The wall deflection for a contact normal and a look direction.
fn deflect(n: Vec3, target: Vec3) -> (r: Vec3)
    ensures
        r == deflection(n, target),
{
    match (n.horizontal().normalized(), target.horizontal().normalized()) {
        (Some(w), Some(t)) => {
            let k = w.dot(t.negated());
            if k > 0 {
                w.scaled(k).scaled(MOVE_SPEED)
            } else {
                Vec3 { x: 0, y: 0, z: 0 }
            }
        },
        _ => Vec3 { x: 0, y: 0, z: 0 },
    }
}

impl Player {
    #[verifier::type_invariant]
    closed spec fn inv(self) -> bool {
        self.state.wf()
    }

    /// A character in the initial state.
    pub fn new() -> (p: Player)
        ensures
            p@ == PlayerState::initial(),
            p@.wf(),
    {
        Player {
            state: PlayerState {
                position: Vec3 { x: 0, y: 10_000_000, z: 0 },
                theta: 0,
                phi: 0,
                target: Vec3 { x: 0, y: 0, z: -1_000_000 },
                normal: Vec3 { x: 0, y: UNIT, z: 0 },
                velocity: Vec3 { x: 0, y: 0, z: 0 },
                new_position: Vec3 { x: 0, y: 10_000_000, z: 0 },
                is_on_ground: false,
            },
        }
    }

    /// The whole state, for the host to read.
    pub fn state(&self) -> (s: PlayerState)
        ensures
            s == self@,
            s.wf(),
    {
        proof {
            use_type_invariant(self);
        }
        self.state
    }

    /// The committed position of the feet.
    pub fn position(&self) -> (r: Vec3)
        ensures
            r == self@.position,
    {
        self.state.position
    }

    /// The yaw.
    pub fn theta(&self) -> (r: i64)
        ensures
            r == self@.theta,
    {
        self.state.theta
    }

    /// The pitch.
    pub fn phi(&self) -> (r: i64)
        ensures
            r == self@.phi,
    {
        self.state.phi
    }

    /// The direction of the look.
    pub fn target(&self) -> (r: Vec3)
        ensures
            r == self@.target,
    {
        self.state.target
    }

    /// Whether the last contact pass found support.
    pub fn is_on_ground(&self) -> (r: bool)
        ensures
            r == self@.is_on_ground,
    {
        self.state.is_on_ground
    }

    /// Moves the character to `position`, at rest and airborne: for the
    /// set-up of a scene.
    pub fn place(&mut self, position: Vec3)
        ensures
            final(self)@ == (PlayerState {
                position,
                new_position: position,
                velocity: Vec3::zero(),
                normal: up(),
                is_on_ground: false,
                ..old(self)@
            }),
    {
        let s = self.state;
        proof {
            use_type_invariant(&*self);
        }
        self.state = PlayerState {
            position,
            new_position: position,
            velocity: Vec3 { x: 0, y: 0, z: 0 },
            normal: Vec3 { x: 0, y: UNIT, z: 0 },
            is_on_ground: false,
            ..s
        };
    }

    /// Turns the look by the pointer's motion.
    pub fn look(&mut self, dx: i64, dy: i64)
        ensures
            final(self)@ == old(self)@.looked(dx, dy),
            0 <= final(self)@.theta < TWO_PI,
            -PITCH_LIMIT <= final(self)@.phi <= PITCH_LIMIT,
    {
        let s = self.state;
        proof {
            use_type_invariant(&*self);
        }
        self.state = PlayerState {
            theta: wrap_angle(s.theta, dx),
            phi: clamp(add_sat(s.phi, dy), -PITCH_LIMIT, PITCH_LIMIT),
            ..s
        };
    }

    /// Sets the velocity of the step from the keys, gravity and the
    /// supporting surface, clears the ground flag and predicts the
    /// candidate position. `heading` holds the sines and cosines of the
    /// current yaw and pitch.
    pub fn update(&mut self, heading: &Heading, input: &Input)
        ensures
            final(self)@ == old(self)@.advanced(*heading, *input),
            !final(self)@.is_on_ground,
    {
        let s = self.state;
        proof {
            use_type_invariant(&*self);
        }
        let normal = if s.is_on_ground {
            s.normal
        } else {
            Vec3 { x: 0, y: UNIT, z: 0 }
        };
        let mut vx: i64 = 0;
        let mut vz: i64 = 0;
        if input.backward {
            vx = mul_fx(neg_sat(heading.cos_yaw), MOVE_SPEED);
            vz = mul_fx(heading.sin_yaw, MOVE_SPEED);
        } else if input.forward {
            vx = mul_fx(heading.cos_yaw, MOVE_SPEED);
            vz = mul_fx(neg_sat(heading.sin_yaw), MOVE_SPEED);
        }
        let vy = if s.is_on_ground {
            if input.jump {
                JUMP_IMPULSE
            } else {
                add_sat(
                    mul_fx(vx, div_fx(neg_sat(normal.x), normal.y)),
                    mul_fx(vz, div_fx(neg_sat(normal.z), normal.y)),
                )
            }
        } else {
            sub_sat(s.velocity.y, GRAVITY)
        };
        let velocity = Vec3 { x: vx, y: vy, z: vz };
        self.state = PlayerState {
            target: Vec3 {
                x: mul_fx(heading.cos_pitch, heading.cos_yaw),
                y: heading.sin_pitch,
                z: mul_fx(neg_sat(heading.cos_pitch), heading.sin_yaw),
            },
            normal,
            velocity,
            new_position: s.position.plus(velocity),
            is_on_ground: false,
            ..s
        };
    }

    /// The centre of the capsule to test against the scene.
    pub fn capsule_center(&self) -> (r: Vec3)
        ensures
            r == self@.spec_capsule_center(),
    {
        let p = self.state.new_position;
        Vec3 { x: p.x, y: add_sat(p.y, CAPSULE_OFFSET), z: p.z }
    }

    /// The candidate position: the point to test for lying inside a shape
    /// before that shape's contact is handled.
    pub fn feet(&self) -> (r: Vec3)
        ensures
            r == self@.new_position,
    {
        self.state.new_position
    }

    /// Resolves one contact: a floor lifts the candidate out of the
    /// overlap and becomes the support; an overlapping wall deflects it; and
    /// feet inside the shape are put on its surface.
    pub fn handle_contact(&mut self, contact: &Contact, feet_inside: bool)
        ensures
            final(self)@ == old(self)@.resolved(*contact, feet_inside),
            final(self)@.is_on_ground == (old(self)@.is_on_ground || contact.normal2.y
                > FLOOR_THRESHOLD || feet_inside),
    {
        let mut s = self.state;
        proof {
            use_type_invariant(&*self);
        }
        let n = contact.normal2;
        if n.y > FLOOR_THRESHOLD {
            s.new_position.y = add_sat(s.new_position.y, mul_fx(n.y, neg_sat(contact.dist)));
            s.normal = n;
            s.is_on_ground = true;
        } else if contact.dist < 0 {
            s.new_position = s.new_position.plus(deflect(n, s.target));
        }
        if feet_inside {
            s.new_position.y = contact.point2.y;
            if s.velocity.y < 0 {
                s.velocity.y = 0;
            }
            s.is_on_ground = true;
        }
        self.state = s;
    }

    /// Resolves the contacts of a whole scene, shape by shape in the order
    /// of the scene. `contacts` holds, for each shape, what the narrow phase
    /// found for the capsule at `capsule_center`, or `None` where they do
    /// not touch.
    pub fn contact_pass(&mut self, state: &State, contacts: &Vec<Option<Contact>>)
        requires
            contacts@.len() == state.objects@.len(),
        ensures
            final(self)@ == old(self)@.passed(
                state.objects@,
                contacts@,
                state.objects@.len(),
            ),
    {
        let mut i: usize = 0;
        while i < state.objects.len()
            invariant
                i <= state.objects@.len(),
                contacts@.len() == state.objects@.len(),
                self@ == old(self)@.passed(state.objects@, contacts@, i as nat),
            decreases state.objects@.len() - i,
        {
            match &contacts[i] {
                Some(c) => {
                    let feet = self.feet();
                    let feet_inside = state.objects[i].contains_point(&feet);
                    self.handle_contact(c, feet_inside);
                },
                None => {},
            }
            i = i + 1;
        }
    }

    /// Ends the step: the candidate becomes the position unless it lies
    /// within the commit epsilon of it.
    pub fn commit(&mut self)
        ensures
            final(self)@ == old(self)@.committed(),
    {
        let s = self.state;
        proof {
            use_type_invariant(&*self);
        }
        if s.position.farther_than(s.new_position, COMMIT_EPSILON) {
            self.state = PlayerState { position: s.new_position, ..s };
        }
    }

    /// The camera for the current position and look.
    pub fn camera(&self, heading: &Heading) -> (c: Camera)
        ensures
            c == self@.spec_camera(*heading),
    {
        let s = self.state;
        let eye = Vec3 { x: 0, y: EYE_HEIGHT, z: 0 };
        let forward = Vec3 { x: heading.cos_yaw, y: 0, z: heading.sin_yaw };
        let right = Vec3 {
            x: add_sat(
                mul_fx(heading.cos_yaw, FRAC_1_SQRT_2),
                mul_fx(heading.sin_yaw, FRAC_1_SQRT_2),
            ),
            y: 0,
            z: sub_sat(
                mul_fx(heading.sin_yaw, FRAC_1_SQRT_2),
                mul_fx(heading.cos_yaw, FRAC_1_SQRT_2),
            ),
        };
        Camera {
            position: s.position.plus(eye),
            target: s.position.plus(s.target).plus(eye),
            up: right.cross(forward).negated(),
        }
    }
}

} // verus!
