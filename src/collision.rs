//! Collision response for kinematic controllers, run once per physics
//! sub-step: penetrating contacts push the controller out along the contact
//! normal, and walkable slopes stop a fall.
use vstd::prelude::*;
use crate::fixed::{Vector, clamp_i64, scaled, sat_add, mul_fixed};
use crate::controller::{CharacterController, MaxSlopeAngle, within_slope, slope_is_walkable};

verus! {

/// The contact points between two shapes in one sub-step; all of them share
/// one normal.
#[derive(Clone, Debug)]
pub struct ContactManifold {
    /// The contact normal in world space, pointing out of the first body.
    pub normal1: Vector,
    /// The contact normal in world space, pointing out of the second body.
    pub normal2: Vector,
    /// The signed angle between `-normal1` and "up", in thousandths of a
    /// radian.
    pub slope1: i64,
    /// The signed angle between `-normal2` and "up", in thousandths of a
    /// radian.
    pub slope2: i64,
    /// The penetration depth of each contact point (fixed-point).
    pub penetrations: Vec<i64>,
}

/// The contact between two bodies that the physics engine reports.
#[derive(Clone, Debug)]
pub struct Contacts {
    pub entity1: u64,
    pub entity2: u64,
    /// The first body is a kinematic character controller.
    pub controller1: bool,
    /// The second body is a kinematic character controller.
    pub controller2: bool,
    /// The contact was generated in the current sub-step.
    pub during_current_substep: bool,
    pub manifolds: Vec<ContactManifold>,
}

/// A vector pointing the other way; components saturate.
pub open spec fn negated(v: Vector) -> Vector {
    Vector { x: clamp_i64(-(v.x as int)) as i64, y: clamp_i64(-(v.y as int)) as i64 }
}

/// The position after each penetrating contact, in order, has pushed it by
/// `normal * penetration`; contacts that do not penetrate are skipped.
pub open spec fn pushed_out(position: Vector, normal: Vector, penetrations: Seq<i64>) -> Vector
    decreases penetrations.len(),
{
    if penetrations.len() == 0 {
        position
    } else {
        let p = pushed_out(position, normal, penetrations.drop_last());
        let d = penetrations.last();
        if d > 0 {
            Vector {
                x: clamp_i64(p.x + scaled(normal.x as int, d as int)) as i64,
                y: clamp_i64(p.y + scaled(normal.y as int, d as int)) as i64,
            }
        } else {
            p
        }
    }
}

/// A contact on a walkable slope stops a fall: a configured limit, a slope
/// within it, and a negative vertical velocity.
pub open spec fn stops_fall(max_slope: Option<MaxSlopeAngle>, slope: int, vy: int) -> bool {
    max_slope is Some && within_slope(slope, max_slope) && vy < 0
}

/// The controller after one manifold, given which side of it the controller
/// is.
pub open spec fn manifold_stage(c: CharacterController, is_first: bool, m: ContactManifold) -> CharacterController {
    let normal = if is_first { negated(m.normal1) } else { negated(m.normal2) };
    let slope = if is_first { m.slope1 } else { m.slope2 };
    CharacterController {
        position: pushed_out(c.position, normal, m.penetrations@),
        velocity: Vector {
            x: c.velocity.x,
            y: if stops_fall(c.movement.max_slope_angle, slope as int, c.velocity.y as int) { 0 } else { c.velocity.y },
        },
        ..c
    }
}

/// The controller after a sequence of manifolds, in order.
pub open spec fn manifolds_stage(c: CharacterController, is_first: bool, ms: Seq<ContactManifold>) -> CharacterController
    decreases ms.len(),
{
    if ms.len() == 0 {
        c
    } else {
        manifold_stage(manifolds_stage(c, is_first, ms.drop_last()), is_first, ms.last())
    }
}

/// A contact that no single kinematic controller owns: both bodies are
/// controllers.
pub open spec fn shared_contact(pair: Contacts) -> bool {
    pair.controller1 && pair.controller2
}

/// The controller after one reported contact. A contact from an earlier
/// sub-step, one between two controllers, one that does not involve this body
/// on exactly one side, and any contact of a body that is not kinematic,
/// change nothing.
pub open spec fn contacts_stage(c: CharacterController, body: u64, pair: Contacts) -> CharacterController {
    if !pair.during_current_substep || !c.kinematic || shared_contact(pair) {
        c
    } else if pair.entity1 == body && pair.entity2 != body {
        manifolds_stage(c, true, pair.manifolds@)
    } else if pair.entity2 == body && pair.entity1 != body {
        manifolds_stage(c, false, pair.manifolds@)
    } else {
        c
    }
}

/// The controller after all the contacts of a sub-step, in order.
pub open spec fn collisions_stage(c: CharacterController, body: u64, cs: Seq<Contacts>) -> CharacterController
    decreases cs.len(),
{
    if cs.len() == 0 {
        c
    } else {
        contacts_stage(collisions_stage(c, body, cs.drop_last()), body, cs.last())
    }
}

fn negate(v: Vector) -> (r: Vector)
    ensures
        r == negated(v),
{
    let x: i64 = if v.x == i64::MIN { i64::MAX } else { -v.x };
    let y: i64 = if v.y == i64::MIN { i64::MAX } else { -v.y };
    Vector { x, y }
}

/// Pushes a position out along `normal` by every positive penetration.
pub fn push_out(position: Vector, normal: Vector, penetrations: &Vec<i64>) -> (r: Vector)
    ensures
        r == pushed_out(position, normal, penetrations@),
{
    let mut p = position;
    let mut i: usize = 0;
    while i < penetrations.len()
        invariant
            i <= penetrations@.len(),
            p == pushed_out(position, normal, penetrations@.take(i as int)),
        decreases penetrations@.len() - i,
    {
        let d = penetrations[i];
        if d > 0 {
            p = Vector { x: sat_add(p.x, mul_fixed(normal.x, d)), y: sat_add(p.y, mul_fixed(normal.y, d)) };
        }
        assert(penetrations@.take(i as int + 1).drop_last() =~= penetrations@.take(i as int));
        i = i + 1;
    }
    assert(penetrations@.take(penetrations@.len() as int) =~= penetrations@);
    p
}

impl CharacterController {
    /// Resolves one manifold in which this controller is the first body
    /// (`is_first`) or the second.
    pub fn resolve_manifold(&mut self, is_first: bool, m: &ContactManifold)
        ensures
            *final(self) == manifold_stage(*old(self), is_first, *m),
            old(self).velocity.y < 0 && stops_fall(old(self).movement.max_slope_angle, (if is_first { m.slope1 } else { m.slope2 }) as int, old(self).velocity.y as int)
                ==> final(self).velocity.y == 0,
            final(self).velocity.y >= old(self).velocity.y,
    {
        let normal = if is_first { negate(m.normal1) } else { negate(m.normal2) };
        let slope = if is_first { m.slope1 } else { m.slope2 };
        self.position = push_out(self.position, normal, &m.penetrations);
        let limited = match self.movement.max_slope_angle {
            Some(_) => slope_is_walkable(slope, self.movement.max_slope_angle),
            None => false,
        };
        if limited && self.velocity.y < 0 {
            self.velocity.y = 0;
        }
    }

    /// Runs collision response for one sub-step: `body` is this controller's
    /// body in the contact report.
    pub fn kinematic_controller_collisions(&mut self, body: u64, collisions: &Vec<Contacts>)
        ensures
            *final(self) == collisions_stage(*old(self), body, collisions@),
    {
        let mut i: usize = 0;
        while i < collisions.len()
            invariant
                i <= collisions@.len(),
                *self == collisions_stage(*old(self), body, collisions@.take(i as int)),
            decreases collisions@.len() - i,
        {
            let pair = &collisions[i];
            let side: Option<bool> = if !pair.during_current_substep || !self.kinematic
                || (pair.controller1 && pair.controller2) {
                None
            } else if pair.entity1 == body && pair.entity2 != body {
                Some(true)
            } else if pair.entity2 == body && pair.entity1 != body {
                Some(false)
            } else {
                None
            };
            match side {
                Some(is_first) => {
                    let ghost start = *self;
                    let mut j: usize = 0;
                    while j < pair.manifolds.len()
                        invariant
                            j <= pair.manifolds@.len(),
                            *self == manifolds_stage(start, is_first, pair.manifolds@.take(j as int)),
                        decreases pair.manifolds@.len() - j,
                    {
                        self.resolve_manifold(is_first, &pair.manifolds[j]);
                        assert(pair.manifolds@.take(j as int + 1).drop_last() =~= pair.manifolds@.take(j as int));
                        j = j + 1;
                    }
                    assert(pair.manifolds@.take(pair.manifolds@.len() as int) =~= pair.manifolds@);
                },
                None => {},
            }
            assert(collisions@.take(i as int + 1).drop_last() =~= collisions@.take(i as int));
            i = i + 1;
        }
        assert(collisions@.take(collisions@.len() as int) =~= collisions@);
    }
}

} // verus!
