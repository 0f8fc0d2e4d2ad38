//! Properties that hold of every tick and every sub-step.
use vstd::prelude::*;
use vstd::arithmetic::div_mod::{lemma_div_is_ordered, lemma_div_by_multiple};
use crate::fixed::{UNIT, Vector, div_trunc, clamp_i64, scaled};
use crate::input::MovementAction;
use crate::controller::{
    CharacterController, GroundHit, ProbeResult, classify_stage, grounded_stage, gravity_mode_stage,
    gravity_stage, tick_stage, action_step, movement_stage, jump_allowed, next_count, within_slope,
    lemma_movement_keeps_contact,
};
use crate::collision::{
    ContactManifold, Contacts, pushed_out, negated, manifold_stage, contacts_stage, collisions_stage,
    shared_contact, stops_fall,
};

verus! {

/// After classification a controller climbs only where it can climb, whatever
/// it climbed before, whatever the probes found and whatever was asked.
pub proof fn lemma_climbing_needs_overlap(c: CharacterController, probe: ProbeResult, actions: Seq<MovementAction>, dt: i64)
    ensures
        classify_stage(c, probe, actions).wf(),
        tick_stage(c, probe, actions, dt).wf(),
{
    lemma_movement_keeps_contact(
        gravity_stage(gravity_mode_stage(classify_stage(c, probe, actions)), dt),
        actions,
        dt,
    );
}

/// A controller that was airborne and is grounded after the next tick's
/// classification has its whole jump budget back.
pub proof fn lemma_landing_resets_jumps(c: CharacterController, probe: ProbeResult, actions: Seq<MovementAction>)
    requires
        !c.contact.grounded,
        classify_stage(c, probe, actions).contact.grounded,
    ensures
        classify_stage(c, probe, actions).movement.jump_count.current == 0,
{
}

/// A jump is taken, setting the vertical velocity to the impulse and counting
/// one more jump, exactly when the controller is grounded, climbing or has a
/// jump left; otherwise it changes nothing.
pub proof fn lemma_jump_gate(c: CharacterController, dt: i64)
    ensures
        jump_allowed(c) ==> {
            &&& action_step(c, MovementAction::Jump, dt).velocity.y == c.movement.jump_impulse.0
            &&& action_step(c, MovementAction::Jump, dt).movement.jump_count.current == next_count(c.movement.jump_count.current)
            &&& c.movement.jump_count.current < u32::MAX ==>
                action_step(c, MovementAction::Jump, dt).movement.jump_count.current == c.movement.jump_count.current + 1
        },
        !jump_allowed(c) ==> action_step(c, MovementAction::Jump, dt) == c,
{
}

/// A climbing controller ignores horizontal movement, and after a tick in
/// which it climbs its gravity is zero.
pub proof fn lemma_climbing_ignores_move(c: CharacterController, direction: i64, probe: ProbeResult, actions: Seq<MovementAction>, dt: i64)
    ensures
        c.contact.is_climbing ==> action_step(c, MovementAction::Move(direction), dt) == c,
        tick_stage(c, probe, actions, dt).contact.is_climbing ==> tick_stage(c, probe, actions, dt).gravity.0 == (Vector { x: 0, y: 0 }),
{
    lemma_movement_keeps_contact(
        gravity_stage(gravity_mode_stage(classify_stage(c, probe, actions)), dt),
        actions,
        dt,
    );
}

/// The push of one contact: `normal * depth`, truncated toward zero.
pub open spec fn push_of(n: int, d: int) -> int {
    div_trunc(n * d, UNIT as int)
}

/// The exact sum of the pushes of the penetrating contacts, per axis.
pub open spec fn correction(normal: Vector, penetrations: Seq<i64>) -> (int, int)
    decreases penetrations.len(),
{
    if penetrations.len() == 0 {
        (0, 0)
    } else {
        let c = correction(normal, penetrations.drop_last());
        let d = penetrations.last();
        if d > 0 {
            (c.0 + push_of(normal.x as int, d as int), c.1 + push_of(normal.y as int, d as int))
        } else {
            c
        }
    }
}

/// The sum of the positive penetration depths.
pub open spec fn positive_depth(penetrations: Seq<i64>) -> int
    decreases penetrations.len(),
{
    if penetrations.len() == 0 {
        0
    } else {
        positive_depth(penetrations.drop_last()) + if penetrations.last() > 0 { penetrations.last() as int } else { 0 }
    }
}

proof fn lemma_push_bound(n: int, d: int)
    requires
        -1000 <= n <= 1000,
        d > 0,
    ensures
        -d <= push_of(n, d) <= d,
{
    if n >= 0 {
        assert(0 <= n * d <= 1000 * d) by (nonlinear_arith)
            requires
                0 <= n <= 1000,
                d > 0,
        ;
        lemma_div_is_ordered(n * d, 1000 * d, 1000);
        lemma_div_by_multiple(d, 1000);
        assert(1000 * d == d * 1000) by (nonlinear_arith);
    } else {
        assert(0 < -(n * d) <= 1000 * d) by (nonlinear_arith)
            requires
                -1000 <= n < 0,
                d > 0,
        ;
        lemma_div_is_ordered(-(n * d), 1000 * d, 1000);
        lemma_div_by_multiple(d, 1000);
        assert(1000 * d == d * 1000) by (nonlinear_arith);
    }
}

/// Resolving a manifold moves the controller by exactly the sum of
/// `normal * depth` over its contacts with positive depth; the others add
/// nothing. This holds for a unit normal and as long as the position stays
/// representable.
pub proof fn lemma_push_out_is_sum(position: Vector, normal: Vector, penetrations: Seq<i64>)
    requires
        -(UNIT as int) <= normal.x <= UNIT,
        -(UNIT as int) <= normal.y <= UNIT,
        (if position.x >= 0 { position.x as int } else { -(position.x as int) }) + positive_depth(penetrations) <= i64::MAX,
        (if position.y >= 0 { position.y as int } else { -(position.y as int) }) + positive_depth(penetrations) <= i64::MAX,
    ensures
        pushed_out(position, normal, penetrations).x == position.x + correction(normal, penetrations).0,
        pushed_out(position, normal, penetrations).y == position.y + correction(normal, penetrations).1,
        -positive_depth(penetrations) <= correction(normal, penetrations).0 <= positive_depth(penetrations),
        -positive_depth(penetrations) <= correction(normal, penetrations).1 <= positive_depth(penetrations),
    decreases penetrations.len(),
{
    if penetrations.len() > 0 {
        let rest = penetrations.drop_last();
        let d = penetrations.last();
        lemma_push_out_is_sum(position, normal, rest);
        if d > 0 {
            lemma_push_bound(normal.x as int, d as int);
            lemma_push_bound(normal.y as int, d as int);
        }
    }
}

/// A contact on a walkable slope never leaves a falling controller falling,
/// and never turns its vertical velocity around: it only clamps it to zero.
pub proof fn lemma_slope_stops_fall(c: CharacterController, is_first: bool, m: ContactManifold)
    ensures
        stops_fall(c.movement.max_slope_angle, (if is_first { m.slope1 } else { m.slope2 }) as int, c.velocity.y as int)
            ==> manifold_stage(c, is_first, m).velocity.y == 0,
        c.velocity.y < 0 ==> manifold_stage(c, is_first, m).velocity.y == 0 || manifold_stage(c, is_first, m).velocity.y == c.velocity.y,
        c.velocity.y >= 0 ==> manifold_stage(c, is_first, m).velocity.y == c.velocity.y,
{
}

/// A controller that is airborne and whose ground probe finds a walkable hit
/// within its reach becomes grounded with its whole jump budget back.
pub proof fn lemma_landing_on_ground(c: CharacterController, h: GroundHit, max_distance: int)
    requires
        !c.contact.grounded,
        0 <= h.distance <= max_distance,
        within_slope(h.slope_angle as int, c.movement.max_slope_angle),
    ensures
        grounded_stage(c, Some(h), max_distance).contact.grounded,
        grounded_stage(c, Some(h), max_distance).movement.jump_count.current == 0,
{
}

/// A tick whose only action is an accepted jump sets the vertical velocity to
/// the impulse, leaves the horizontal one alone and counts one more jump.
pub proof fn lemma_single_jump(c: CharacterController, dt: i64)
    requires
        jump_allowed(c),
        c.movement.jump_count.current < u32::MAX,
    ensures
        movement_stage(c, seq![MovementAction::Jump], dt).velocity.y == c.movement.jump_impulse.0,
        movement_stage(c, seq![MovementAction::Jump], dt).velocity.x == c.velocity.x,
        movement_stage(c, seq![MovementAction::Jump], dt).movement.jump_count.current == c.movement.jump_count.current + 1,
{
    let s = seq![MovementAction::Jump];
    assert(s.drop_last() =~= Seq::<MovementAction>::empty());
    assert(movement_stage(c, s.drop_last(), dt) == c);
    assert(movement_stage(c, s, dt) == action_step(c, MovementAction::Jump, dt));
}

/// A climbing controller that climbs up at full strength stops moving
/// sideways and gains `acceleration * dt` of vertical velocity, truncated to
/// thousandths; whenever that gain is at least one thousandth, it rises.
pub proof fn lemma_climb_rises(c: CharacterController, dt: i64)
    requires
        c.contact.is_climbing,
        c.movement.acceleration.0 > 0,
        dt > 0,
    ensures
        movement_stage(c, seq![MovementAction::Climb(UNIT)], dt).velocity.x == 0,
        movement_stage(c, seq![MovementAction::Climb(UNIT)], dt).velocity.y
            == clamp_i64(c.velocity.y + scaled(c.movement.acceleration.0 as int, dt as int)),
        c.movement.acceleration.0 * dt >= UNIT && c.velocity.y < i64::MAX ==>
            movement_stage(c, seq![MovementAction::Climb(UNIT)], dt).velocity.y > c.velocity.y,
{
    let a = c.movement.acceleration.0 as int;
    let s = seq![MovementAction::Climb(UNIT)];
    assert(s.drop_last() =~= Seq::<MovementAction>::empty());
    assert(movement_stage(c, s.drop_last(), dt) == c);
    assert(movement_stage(c, s, dt) == action_step(c, MovementAction::Climb(UNIT), dt));
    lemma_div_by_multiple(a, 1000);
    assert(1000 * a == a * 1000) by (nonlinear_arith);
    assert(scaled(UNIT as int, a) == a);
    if a * dt >= 1000 {
        lemma_div_is_ordered(1000, a * dt, 1000);
        assert(a * dt > 0) by (nonlinear_arith)
            requires
                a > 0,
                dt > 0,
        ;
    }
}

/// Resolving a manifold moves the controller by exactly the sum of
/// `normal * depth` over its contacts with positive depth, for the normal
/// oriented for the controller's side; the others add nothing. This holds for
/// a unit normal and as long as the position stays representable.
pub proof fn lemma_resolve_manifold_is_sum(c: CharacterController, is_first: bool, m: ContactManifold)
    requires
        ({
            let n = if is_first { negated(m.normal1) } else { negated(m.normal2) };
            &&& -(UNIT as int) <= n.x <= UNIT
            &&& -(UNIT as int) <= n.y <= UNIT
        }),
        (if c.position.x >= 0 { c.position.x as int } else { -(c.position.x as int) }) + positive_depth(m.penetrations@) <= i64::MAX,
        (if c.position.y >= 0 { c.position.y as int } else { -(c.position.y as int) }) + positive_depth(m.penetrations@) <= i64::MAX,
    ensures
        ({
            let n = if is_first { negated(m.normal1) } else { negated(m.normal2) };
            &&& manifold_stage(c, is_first, m).position.x == c.position.x + correction(n, m.penetrations@).0
            &&& manifold_stage(c, is_first, m).position.y == c.position.y + correction(n, m.penetrations@).1
        }),
{
    let n = if is_first { negated(m.normal1) } else { negated(m.normal2) };
    lemma_push_out_is_sum(c.position, n, m.penetrations@);
}

/// A contact between two controllers belongs to neither: it changes nothing.
pub proof fn lemma_shared_contact_skipped(c: CharacterController, body: u64, pair: Contacts)
    requires
        shared_contact(pair),
    ensures
        contacts_stage(c, body, pair) == c,
{
}

/// A sub-step whose contacts are all between two controllers changes nothing.
pub proof fn lemma_shared_contacts_skipped(c: CharacterController, body: u64, cs: Seq<Contacts>)
    requires
        forall|i: int| 0 <= i < cs.len() ==> #[trigger] shared_contact(cs[i]),
    ensures
        collisions_stage(c, body, cs) == c,
    decreases cs.len(),
{
    if cs.len() > 0 {
        assert(shared_contact(cs[cs.len() - 1]));
        lemma_shared_contacts_skipped(c, body, cs.drop_last());
    }
}

} // verus!
