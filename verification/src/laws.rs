//! What holds of the controller on every input.
use crate::fixed::{
    div_fx, lemma_div_fx_zero, lemma_mul_fx_sign, lemma_mul_fx_unit, lemma_mul_fx_zero, neg_sat,
    sub_sat, UNIT,
};
use crate::player::{
    deflection, slope_lock, up, Contact, Heading, Input, PlayerState, FLOOR_THRESHOLD, GRAVITY,
    JUMP_IMPULSE, MOVE_SPEED, PITCH_LIMIT, TWO_PI,
};
use crate::vec3::{lemma_normalized_sign, lemma_scaled_sign, Vec3};
use vstd::prelude::*;

verus! {

/// The input with no key down.
pub open spec fn idle() -> Input {
    Input { forward: false, backward: false, jump: false }
}

/// Whatever the pointer does, the yaw stays within a full turn and the
/// pitch short of straight up and down; nothing else changes.
pub proof fn lemma_look_stays_in_range(s: PlayerState, dx: i64, dy: i64)
    ensures
        0 <= s.looked(dx, dy).theta < TWO_PI,
        -PITCH_LIMIT <= s.looked(dx, dy).phi <= PITCH_LIMIT,
        s.looked(dx, dy) == (PlayerState {
            theta: s.looked(dx, dy).theta,
            phi: s.looked(dx, dy).phi,
            ..s
        }),
{
}

/// A pointer at rest leaves a yaw within a full turn and a pitch within
/// its limit as they are.
pub proof fn lemma_no_motion_keeps_the_look(s: PlayerState)
    requires
        0 <= s.theta < TWO_PI,
        -PITCH_LIMIT <= s.phi <= PITCH_LIMIT,
    ensures
        s.looked(0, 0) == s,
{
}

/// Every part of a step keeps the state well formed: the supporting
/// normal that of a floor, the yaw within a full turn, the pitch within its
/// limit.
pub proof fn lemma_step_keeps_the_state_well_formed(
    s: PlayerState,
    dx: i64,
    dy: i64,
    h: Heading,
    input: Input,
    c: Contact,
    feet_inside: bool,
)
    requires
        s.wf(),
    ensures
        s.looked(dx, dy).wf(),
        s.advanced(h, input).wf(),
        s.resolved(c, feet_inside).wf(),
        s.committed().wf(),
{
}

/// On level ground the slope lock gives no vertical velocity, whatever the
/// horizontal velocity.
pub proof fn lemma_flat_ground_is_level(vx: i64, vz: i64)
    ensures
        slope_lock(vx, vz, up()) == 0,
{
    lemma_div_fx_zero(UNIT);
    lemma_mul_fx_zero(vx);
    lemma_mul_fx_zero(vz);
}

/// A grounded character that does not jump moves in the plane of its
/// support: the vertical velocity of the step is the slope lock of the
/// horizontal one.
pub proof fn lemma_grounded_step_is_slope_locked(s: PlayerState, h: Heading, input: Input)
    requires
        s.is_on_ground,
        !input.jump,
    ensures
        s.advanced(h, input).velocity.y == slope_lock(
            s.advanced(h, input).velocity.x,
            s.advanced(h, input).velocity.z,
            s.normal,
        ),
{
}

/// A character at rest on a floor stays where it is: with no key down and
/// a floor contact of no overlap, a whole step leaves the position as it
/// was and the character supported and at rest, so the next step starts
/// from the same footing.
pub proof fn lemma_rest_is_stable(s: PlayerState, h: Heading, c: Contact, feet_inside: bool)
    requires
        s.wf(),
        s.is_on_ground,
        c.normal2.y > FLOOR_THRESHOLD,
        c.dist == 0,
        feet_inside ==> c.point2.y == s.position.y,
    ensures
        ({
            let r = s.advanced(h, idle()).resolved(c, feet_inside).committed();
            &&& r.position == s.position
            &&& r.new_position == s.position
            &&& r.velocity == Vec3::zero()
            &&& r.is_on_ground
            &&& r.wf()
        }),
{
    lemma_mul_fx_zero(div_fx(neg_sat(s.normal.x), s.normal.y));
    lemma_mul_fx_zero(div_fx(neg_sat(s.normal.z), s.normal.y));
    lemma_mul_fx_zero(c.normal2.y);
    assert(s.position.dist_sq(s.position) == 0) by (nonlinear_arith)
        requires
            s.position.dist_sq(s.position) == (s.position.x - s.position.x) * (s.position.x
                - s.position.x) + (s.position.y - s.position.y) * (s.position.y - s.position.y)
                + (s.position.z - s.position.z) * (s.position.z - s.position.z),
    ;
}

/// A floor holds the character up: where the candidate has sunk into a
/// level floor whose surface lies above the feet by the depth of the
/// contact, resolving the contact puts the feet on that surface and sets
/// the ground flag. The depth is one that an `i64` holds.
pub proof fn lemma_floor_supports(s: PlayerState, c: Contact, feet_inside: bool)
    requires
        c.normal2 == up(),
        i64::MIN < c.dist <= 0,
        c.point2.y == s.new_position.y - c.dist,
    ensures
        s.resolved(c, feet_inside).new_position.y == c.point2.y,
        s.resolved(c, feet_inside).new_position.x == s.new_position.x,
        s.resolved(c, feet_inside).new_position.z == s.new_position.z,
        s.resolved(c, feet_inside).is_on_ground,
        s.resolved(c, feet_inside).normal == up(),
{
    lemma_mul_fx_unit(neg_sat(c.dist));
}

/// A floor contact never lowers the candidate.
pub proof fn lemma_floor_never_lowers(s: PlayerState, c: Contact)
    requires
        c.normal2.y > FLOOR_THRESHOLD,
        c.dist <= 0,
    ensures
        s.pushed(c).new_position.y >= s.new_position.y,
{
    lemma_mul_fx_sign(neg_sat(c.dist), c.normal2.y);
    assert(c.normal2.y * neg_sat(c.dist) == neg_sat(c.dist) * c.normal2.y) by (nonlinear_arith);
}

/// No tunneling through a floor: a character whose feet are on or above
/// the surface of a level floor, and whose step would carry them below it,
/// ends the step with its feet on or above that surface, supported, where
/// the floor reports the contact.
pub proof fn lemma_no_floor_tunneling(
    s: PlayerState,
    h: Heading,
    input: Input,
    c: Contact,
    feet_inside: bool,
)
    requires
        s.position.y >= c.point2.y,
        c.normal2 == up(),
        i64::MIN < c.dist <= 0,
        c.point2.y == s.advanced(h, input).new_position.y - c.dist,
    ensures
        s.advanced(h, input).resolved(c, feet_inside).committed().position.y >= c.point2.y,
        s.advanced(h, input).resolved(c, feet_inside).committed().is_on_ground,
{
    lemma_floor_supports(s.advanced(h, input), c, feet_inside);
}

/// A wall pushes outward only: the deflection has no vertical part, and
/// along each horizontal axis it points the way the wall's normal does, so
/// it never carries the character further into the wall.
pub proof fn lemma_deflection_points_outward(n: Vec3, target: Vec3)
    ensures
        deflection(n, target).y == 0,
        deflection(n, target).x * n.x >= 0,
        deflection(n, target).z * n.z >= 0,
{
    let d = deflection(n, target);
    let nh = n.horizontal();
    let th = target.horizontal();
    if nh != Vec3::zero() && th != Vec3::zero() {
        lemma_normalized_sign(nh);
        lemma_normalized_sign(th);
        let w = nh.normalized()->0;
        let t = th.normalized()->0;
        let k = w.dot(t.negated());
        if k > 0 {
            lemma_scaled_sign(w, k);
            lemma_scaled_sign(w.scaled(k), MOVE_SPEED);
        }
    }
    assert(d.x * n.x >= 0) by (nonlinear_arith)
        requires
            n.x >= 0 ==> d.x >= 0,
            n.x <= 0 ==> d.x <= 0,
    ;
    assert(d.z * n.z >= 0) by (nonlinear_arith)
        requires
            n.z >= 0 ==> d.z >= 0,
            n.z <= 0 ==> d.z <= 0,
    ;
}

/// Resolving an overlapping wall contact moves the candidate, along each
/// horizontal axis, the way the wall's normal points or not at all, and
/// leaves its height alone.
pub proof fn lemma_wall_pushes_outward(s: PlayerState, c: Contact)
    requires
        c.normal2.y <= FLOOR_THRESHOLD,
        c.dist < 0,
    ensures
        s.pushed(c).new_position.y == s.new_position.y,
        (s.pushed(c).new_position.x - s.new_position.x) * c.normal2.x >= 0,
        (s.pushed(c).new_position.z - s.new_position.z) * c.normal2.z >= 0,
        (s.pushed(c).new_position.x - s.new_position.x) * c.normal2.x + (s.pushed(
            c,
        ).new_position.y - s.new_position.y) * c.normal2.y + (s.pushed(c).new_position.z
            - s.new_position.z) * c.normal2.z >= 0,
{
    lemma_deflection_points_outward(c.normal2, s.target);
    let d = deflection(c.normal2, s.target);
    let n = c.normal2;
    let mx = s.pushed(c).new_position.x - s.new_position.x;
    let my = s.pushed(c).new_position.y - s.new_position.y;
    let mz = s.pushed(c).new_position.z - s.new_position.z;
    assert(n.x > 0 ==> d.x >= 0) by (nonlinear_arith)
        requires
            d.x * n.x >= 0,
    ;
    assert(n.x < 0 ==> d.x <= 0) by (nonlinear_arith)
        requires
            d.x * n.x >= 0,
    ;
    assert(n.z > 0 ==> d.z >= 0) by (nonlinear_arith)
        requires
            d.z * n.z >= 0,
    ;
    assert(n.z < 0 ==> d.z <= 0) by (nonlinear_arith)
        requires
            d.z * n.z >= 0,
    ;
    assert(mx * n.x >= 0) by (nonlinear_arith)
        requires
            n.x > 0 ==> mx >= 0,
            n.x < 0 ==> mx <= 0,
    ;
    assert(mz * n.z >= 0) by (nonlinear_arith)
        requires
            n.z > 0 ==> mz >= 0,
            n.z < 0 ==> mz <= 0,
    ;
    assert(my * n.y == 0) by (nonlinear_arith)
        requires
            my == 0,
    ;
}

/// A jump needs ground: while airborne the jump key changes nothing.
pub proof fn lemma_jump_needs_ground(s: PlayerState, h: Heading, input: Input)
    requires
        !s.is_on_ground,
    ensures
        s.advanced(h, input) == s.advanced(h, Input { jump: !input.jump, ..input }),
        s.advanced(h, input).velocity.y == sub_sat(s.velocity.y, GRAVITY),
{
}

/// From the ground a jump sets the vertical velocity to the impulse.
pub proof fn lemma_jump_from_ground(s: PlayerState, h: Heading, input: Input)
    requires
        s.is_on_ground,
        input.jump,
    ensures
        s.advanced(h, input).velocity.y == JUMP_IMPULSE,
{
}

/// One press gives one impulse: every step clears the ground flag, so
/// until a contact restores it a further jump input only lets gravity act.
pub proof fn lemma_jump_fires_once(
    s: PlayerState,
    h1: Heading,
    h2: Heading,
    input1: Input,
    input2: Input,
)
    requires
        s.is_on_ground,
        input1.jump,
        input2.jump,
    ensures
        !s.advanced(h1, input1).is_on_ground,
        s.advanced(h1, input1).committed().advanced(h2, input2).velocity.y == JUMP_IMPULSE
            - GRAVITY,
{
}

/// The ground flag is derived in every step: `update` clears it, and after
/// the contacts it is set exactly where one of them was a floor or found the
/// feet inside a shape.
pub proof fn lemma_ground_flag_is_derived(
    s: PlayerState,
    h: Heading,
    input: Input,
    c: Contact,
    feet_inside: bool,
)
    ensures
        !s.advanced(h, input).is_on_ground,
        !s.advanced(h, input).committed().is_on_ground,
        s.advanced(h, input).resolved(c, feet_inside).is_on_ground == (c.normal2.y
            > FLOOR_THRESHOLD || feet_inside),
{
}

} // verus!
