//! The character controller: its components, the per-tick contact
//! classification, the gravity switch, the movement integrator and damping.
//!
//! Horizontal movement is momentum-based: `Move` accelerates the velocity,
//! which is never reset at the start of a tick, and damping alone slows it.
use vstd::prelude::*;
use crate::fixed::{Vector, clamp_i64, scaled, sat_add, mul_fixed};
use crate::input::MovementAction;

verus! {

/// The magnitude of the downward gravity applied to controllers that are not
/// climbing (fixed-point, units per second squared).
pub const GRAVITY: i64 = 1_000_000;

/// How far below the controller the ground probe looks (fixed-point).
pub const GROUND_PROBE_DISTANCE: i64 = 200;

/// The acceleration used for character movement.
#[derive(Clone, Copy, Debug, PartialEq, Eq, Structural)]
pub struct MovementAcceleration(pub i64);

/// The damping factor used for slowing down movement, fixed-point in
/// `(0, UNIT)`.
#[derive(Clone, Copy, Debug, PartialEq, Eq, Structural)]
pub struct MovementDampingFactor(pub i64);

/// The strength of a jump.
#[derive(Clone, Copy, Debug, PartialEq, Eq, Structural)]
pub struct JumpImpulse(pub i64);

/// The jumps taken since the controller last stood on the ground, and how
/// many it may take in the air.
#[derive(Clone, Copy, Debug, PartialEq, Eq, Structural)]
pub struct JumpCount {
    pub current: u32,
    pub max: u32,
}

impl JumpCount {
    /// A jump budget of `max` air jumps, none used yet.
    pub fn new(max: u32) -> (r: JumpCount)
        ensures
            r.current == 0,
            r.max == max,
    {
        JumpCount { current: 0, max }
    }
}

/// The gravitational acceleration used for a character controller.
#[derive(Clone, Copy, Debug, PartialEq, Eq, Structural)]
pub struct ControllerGravity(pub Vector);

/// The steepest slope, as an angle from "up" in thousandths of a radian,
/// that a controller can stand on.
#[derive(Clone, Copy, Debug, PartialEq, Eq, Structural)]
pub struct MaxSlopeAngle(pub i64);

/// The movement tuning of a controller.
#[derive(Clone, Copy, Debug, PartialEq, Eq, Structural)]
pub struct MovementBundle {
    pub acceleration: MovementAcceleration,
    pub damping: MovementDampingFactor,
    pub jump_impulse: JumpImpulse,
    pub jump_count: JumpCount,
    /// `None`: every slope is walkable.
    pub max_slope_angle: Option<MaxSlopeAngle>,
}

impl MovementBundle {
    /// Tuning with the given values and an unused jump budget.
    pub fn new(acceleration: i64, damping: i64, jump_impulse: i64, jump_count: u32, max_slope_angle: i64) -> (r: MovementBundle)
        ensures
            r.acceleration.0 == acceleration,
            r.damping.0 == damping,
            r.jump_impulse.0 == jump_impulse,
            r.jump_count.current == 0,
            r.jump_count.max == jump_count,
            r.max_slope_angle == Some(MaxSlopeAngle(max_slope_angle)),
    {
        MovementBundle {
            acceleration: MovementAcceleration(acceleration),
            damping: MovementDampingFactor(damping),
            jump_impulse: JumpImpulse(jump_impulse),
            jump_count: JumpCount::new(jump_count),
            max_slope_angle: Some(MaxSlopeAngle(max_slope_angle)),
        }
    }
}

impl Default for MovementBundle {
    /// Acceleration 30, damping 0.9, jump impulse 7, one air jump and a
    /// steepest slope of 0.45 pi.
    fn default() -> (r: MovementBundle)
        ensures
            r == MovementBundle::new_spec(30_000, 900, 7_000, 1, 1_414),
    {
        MovementBundle::new(30_000, 900, 7_000, 1, 1_414)
    }
}

impl MovementBundle {
    /// What `new` returns on the given values.
    pub open spec fn new_spec(acceleration: i64, damping: i64, jump_impulse: i64, jump_count: u32, max_slope_angle: i64) -> MovementBundle {
        MovementBundle {
            acceleration: MovementAcceleration(acceleration),
            damping: MovementDampingFactor(damping),
            jump_impulse: JumpImpulse(jump_impulse),
            jump_count: JumpCount { current: 0, max: jump_count },
            max_slope_angle: Some(MaxSlopeAngle(max_slope_angle)),
        }
    }
}

/// What a controller knows of its contacts this tick.
#[derive(Clone, Copy, Debug, PartialEq, Eq, Structural)]
pub struct ContactState {
    /// The ground probe found walkable ground.
    pub grounded: bool,
    /// The controller overlaps climbable geometry.
    pub can_climb: bool,
    /// The controller is climbing; never true while `can_climb` is false.
    pub is_climbing: bool,
}

/// The closest hit of the ground probe.
#[derive(Clone, Copy, Debug, PartialEq, Eq, Structural)]
pub struct GroundHit {
    /// How far the probe travelled before the hit (fixed-point).
    pub distance: i64,
    /// The signed angle between the hit's normal, turned to face away from
    /// the ground, and "up", in thousandths of a radian.
    pub slope_angle: i64,
}

/// What the spatial queries found for a controller this tick.
#[derive(Clone, Copy, Debug, PartialEq, Eq, Structural)]
pub struct ProbeResult {
    /// The closest ground hit within the probe's reach, if any.
    pub ground_hit: Option<GroundHit>,
    /// The controller's shape overlaps geometry tagged climbable.
    pub overlaps_climbable: bool,
}

/// A kinematic character controller and all of its state.
#[derive(Clone, Copy, Debug, PartialEq, Eq, Structural)]
pub struct CharacterController {
    pub position: Vector,
    pub velocity: Vector,
    pub gravity: ControllerGravity,
    pub movement: MovementBundle,
    pub contact: ContactState,
    /// The physics engine does not push this body out of contacts.
    pub kinematic: bool,
}

/// Whether an angle's magnitude is within a limit.
pub open spec fn within_slope(angle: int, max_slope: Option<MaxSlopeAngle>) -> bool {
    match max_slope {
        None => true,
        Some(m) => -(m.0 as int) <= angle <= m.0 as int,
    }
}

/// A ground hit makes the controller grounded: it lies within the probe's
/// reach and its slope is walkable.
pub open spec fn grounds(hit: Option<GroundHit>, max_distance: int, max_slope: Option<MaxSlopeAngle>) -> bool {
    match hit {
        None => false,
        Some(h) => 0 <= h.distance <= max_distance && within_slope(h.slope_angle as int, max_slope),
    }
}

/// Whether the controller wants to climb after a queue of actions: the last
/// `Climb` or `Jump` decides, and with neither the previous value stands.
pub open spec fn desired_climb(previous: bool, actions: Seq<MovementAction>) -> bool
    decreases actions.len(),
{
    if actions.len() == 0 {
        previous
    } else {
        match actions.last() {
            MovementAction::Climb(_) => true,
            MovementAction::Jump => false,
            MovementAction::Move(_) => desired_climb(previous, actions.drop_last()),
        }
    }
}

/// The gravity vector of a controller that is, or is not, climbing.
pub open spec fn gravity_for(is_climbing: bool) -> Vector {
    if is_climbing {
        Vector { x: 0, y: 0 }
    } else {
        Vector { x: 0, y: (-GRAVITY) as i64 }
    }
}

pub fn slope_is_walkable(angle: i64, max_slope: Option<MaxSlopeAngle>) -> (r: bool)
    ensures
        r == within_slope(angle as int, max_slope),
{
    match max_slope {
        None => true,
        Some(m) => {
            let a: i128 = angle as i128;
            let lim: i128 = m.0 as i128;
            -lim <= a && a <= lim
        },
    }
}

pub fn hit_grounds(hit: Option<GroundHit>, max_distance: i64, max_slope: Option<MaxSlopeAngle>) -> (r: bool)
    ensures
        r == grounds(hit, max_distance as int, max_slope),
{
    match hit {
        None => false,
        Some(h) => 0 <= h.distance && h.distance <= max_distance && slope_is_walkable(h.slope_angle, max_slope),
    }
}

/// The controller after the ground probe: `grounded` set, and the jump
/// budget reset when the controller lands, that is when `grounded` turns
/// true. While it stays on the ground the count of jumps stands, so a jump
/// taken from the ground is still counted on the next tick.
pub open spec fn grounded_stage(c: CharacterController, hit: Option<GroundHit>, max_distance: int) -> CharacterController {
    let g = grounds(hit, max_distance, c.movement.max_slope_angle);
    CharacterController {
        contact: ContactState { grounded: g, ..c.contact },
        movement: MovementBundle {
            jump_count: if g && !c.contact.grounded { JumpCount { current: 0, max: c.movement.jump_count.max } } else { c.movement.jump_count },
            ..c.movement
        },
        ..c
    }
}

/// The controller after the climbable-overlap probe.
pub open spec fn can_climb_stage(c: CharacterController, overlaps: bool) -> CharacterController {
    CharacterController {
        contact: ContactState { can_climb: overlaps, is_climbing: c.contact.is_climbing && overlaps, ..c.contact },
        ..c
    }
}

/// The controller after this tick's actions have set its climbing state.
pub open spec fn climbing_stage(c: CharacterController, actions: Seq<MovementAction>) -> CharacterController {
    CharacterController {
        contact: ContactState {
            is_climbing: desired_climb(c.contact.is_climbing, actions) && c.contact.can_climb,
            ..c.contact
        },
        ..c
    }
}

/// The whole contact classification of a tick.
pub open spec fn classify_stage(c: CharacterController, probe: ProbeResult, actions: Seq<MovementAction>) -> CharacterController {
    climbing_stage(
        can_climb_stage(grounded_stage(c, probe.ground_hit, GROUND_PROBE_DISTANCE as int), probe.overlaps_climbable),
        actions,
    )
}

/// The controller with its gravity set from its climbing state.
pub open spec fn gravity_mode_stage(c: CharacterController) -> CharacterController {
    CharacterController { gravity: ControllerGravity(gravity_for(c.contact.is_climbing)), ..c }
}

/// The controller after gravity has acted on its velocity for `dt`.
pub open spec fn gravity_stage(c: CharacterController, dt: i64) -> CharacterController {
    CharacterController {
        velocity: Vector {
            x: clamp_i64(c.velocity.x + scaled(c.gravity.0.x as int, dt as int)) as i64,
            y: clamp_i64(c.velocity.y + scaled(c.gravity.0.y as int, dt as int)) as i64,
        },
        ..c
    }
}

/// The velocity change that `direction` gives over `dt`.
pub open spec fn move_delta(direction: i64, acceleration: i64, dt: i64) -> int {
    scaled(scaled(direction as int, acceleration as int), dt as int)
}

/// A jump is permitted on the ground, while climbing, or with air jumps left.
pub open spec fn jump_allowed(c: CharacterController) -> bool {
    c.contact.grounded || c.contact.is_climbing || c.movement.jump_count.current < c.movement.jump_count.max
}

/// The jump counter after one more jump; it stays at the largest `u32`.
pub open spec fn next_count(n: u32) -> u32 {
    if n < u32::MAX {
        (n + 1) as u32
    } else {
        n
    }
}

/// The controller after one action.
pub open spec fn action_step(c: CharacterController, a: MovementAction, dt: i64) -> CharacterController {
    match a {
        MovementAction::Move(d) => {
            if c.contact.is_climbing {
                c
            } else {
                CharacterController {
                    velocity: Vector {
                        x: clamp_i64(c.velocity.x + move_delta(d, c.movement.acceleration.0, dt)) as i64,
                        y: c.velocity.y,
                    },
                    ..c
                }
            }
        },
        MovementAction::Jump => {
            if jump_allowed(c) {
                CharacterController {
                    velocity: Vector { x: c.velocity.x, y: c.movement.jump_impulse.0 },
                    movement: MovementBundle {
                        jump_count: JumpCount {
                            current: next_count(c.movement.jump_count.current),
                            max: c.movement.jump_count.max,
                        },
                        ..c.movement
                    },
                    ..c
                }
            } else {
                c
            }
        },
        MovementAction::Climb(d) => {
            if c.contact.is_climbing {
                CharacterController {
                    velocity: Vector {
                        x: 0,
                        y: clamp_i64(c.velocity.y + move_delta(d, c.movement.acceleration.0, dt)) as i64,
                    },
                    ..c
                }
            } else {
                c
            }
        },
    }
}

/// The controller after a queue of actions, taken in order.
pub open spec fn movement_stage(c: CharacterController, actions: Seq<MovementAction>, dt: i64) -> CharacterController
    decreases actions.len(),
{
    if actions.len() == 0 {
        c
    } else {
        action_step(movement_stage(c, actions.drop_last(), dt), actions.last(), dt)
    }
}

/// The controller after damping: the vertical axis decays while climbing,
/// the horizontal one otherwise.
pub open spec fn damping_stage(c: CharacterController) -> CharacterController {
    if c.contact.is_climbing {
        CharacterController {
            velocity: Vector { x: c.velocity.x, y: scaled(c.velocity.y as int, c.movement.damping.0 as int) as i64 },
            ..c
        }
    } else {
        CharacterController {
            velocity: Vector { x: scaled(c.velocity.x as int, c.movement.damping.0 as int) as i64, y: c.velocity.y },
            ..c
        }
    }
}

/// One whole tick of the controller.
pub open spec fn tick_stage(c: CharacterController, probe: ProbeResult, actions: Seq<MovementAction>, dt: i64) -> CharacterController {
    damping_stage(movement_stage(gravity_stage(gravity_mode_stage(classify_stage(c, probe, actions)), dt), actions, dt))
}

/// Actions change only velocity and the jump count.
pub proof fn lemma_movement_keeps_contact(c: CharacterController, actions: Seq<MovementAction>, dt: i64)
    ensures
        movement_stage(c, actions, dt).contact == c.contact,
        movement_stage(c, actions, dt).gravity == c.gravity,
        movement_stage(c, actions, dt).position == c.position,
    decreases actions.len(),
{
    if actions.len() > 0 {
        lemma_movement_keeps_contact(c, actions.drop_last(), dt);
    }
}

impl CharacterController {
    /// A controller is well formed when it climbs only where it can climb.
    pub open spec fn wf(&self) -> bool {
        self.contact.is_climbing ==> self.contact.can_climb
    }

    /// Sets `grounded` from the ground probe, and resets the jump budget when
    /// the controller lands.
    pub fn update_grounded(&mut self, hit: Option<GroundHit>, max_distance: i64)
        ensures
            *final(self) == grounded_stage(*old(self), hit, max_distance as int),
            final(self).contact.grounded == grounds(hit, max_distance as int, old(self).movement.max_slope_angle),
            !old(self).contact.grounded && final(self).contact.grounded ==> final(self).movement.jump_count.current == 0,
    {
        let g = hit_grounds(hit, max_distance, self.movement.max_slope_angle);
        if g && !self.contact.grounded {
            self.movement.jump_count.current = 0;
        }
        self.contact.grounded = g;
    }

    /// Sets `can_climb` from the climbable-overlap probe; losing the overlap
    /// ends any climb at once.
    pub fn check_can_climb(&mut self, overlaps_climbable: bool)
        ensures
            *final(self) == can_climb_stage(*old(self), overlaps_climbable),
            final(self).wf(),
    {
        self.contact.can_climb = overlaps_climbable;
        if !overlaps_climbable {
            self.contact.is_climbing = false;
        }
    }

    /// Updates `is_climbing` from this tick's actions, in order: a `Climb`
    /// asks to climb, a `Jump` asks to let go. The result is gated by
    /// `can_climb`.
    pub fn update_climbing(&mut self, actions: &Vec<MovementAction>)
        ensures
            *final(self) == climbing_stage(*old(self), actions@),
            final(self).wf(),
    {
        let mut desired = self.contact.is_climbing;
        let mut i: usize = 0;
        while i < actions.len()
            invariant
                i <= actions@.len(),
                desired == desired_climb(old(self).contact.is_climbing, actions@.take(i as int)),
            decreases actions@.len() - i,
        {
            match actions[i] {
                MovementAction::Climb(_) => desired = true,
                MovementAction::Jump => desired = false,
                MovementAction::Move(_) => {},
            }
            assert(actions@.take(i as int + 1).drop_last() =~= actions@.take(i as int));
            i = i + 1;
        }
        assert(actions@.take(actions@.len() as int) =~= actions@);
        self.contact.is_climbing = desired && self.contact.can_climb;
    }

    /// Classifies the controller's contacts for this tick from the probes
    /// and the tick's actions.
    pub fn classify(&mut self, probe: &ProbeResult, actions: &Vec<MovementAction>)
        ensures
            *final(self) == classify_stage(*old(self), *probe, actions@),
            final(self).wf(),
            final(self).contact.grounded == grounds(probe.ground_hit, GROUND_PROBE_DISTANCE as int, old(self).movement.max_slope_angle),
            !old(self).contact.grounded && final(self).contact.grounded ==> final(self).movement.jump_count.current == 0,
            final(self).contact.can_climb == probe.overlaps_climbable,
    {
        self.update_grounded(probe.ground_hit, GROUND_PROBE_DISTANCE);
        self.check_can_climb(probe.overlaps_climbable);
        self.update_climbing(actions);
    }

    /// Zero gravity while climbing, the fixed downward gravity otherwise.
    pub fn apply_gravity_mode(&mut self)
        ensures
            *final(self) == gravity_mode_stage(*old(self)),
    {
        if self.contact.is_climbing {
            self.gravity = ControllerGravity(Vector::zero());
        } else {
            self.gravity = ControllerGravity(Vector::new(0, -GRAVITY));
        }
    }

    /// Lets gravity act on the velocity for `dt` seconds (fixed-point).
    pub fn apply_gravity(&mut self, dt: i64)
        ensures
            *final(self) == gravity_stage(*old(self), dt),
    {
        let dx = mul_fixed(self.gravity.0.x, dt);
        let dy = mul_fixed(self.gravity.0.y, dt);
        self.velocity = Vector::new(sat_add(self.velocity.x, dx), sat_add(self.velocity.y, dy));
    }

    /// Applies one action to the velocity and the jump budget.
    pub fn apply_action(&mut self, action: MovementAction, dt: i64)
        ensures
            *final(self) == action_step(*old(self), action, dt),
            action == MovementAction::Jump && jump_allowed(*old(self)) ==> {
                &&& final(self).velocity.y == old(self).movement.jump_impulse.0
                &&& final(self).movement.jump_count.current == next_count(old(self).movement.jump_count.current)
            },
            action == MovementAction::Jump && !jump_allowed(*old(self)) ==> *final(self) == *old(self),
            (action is Move && old(self).contact.is_climbing) ==> *final(self) == *old(self),
    {
        match action {
            MovementAction::Move(d) => {
                if !self.contact.is_climbing {
                    let delta = mul_fixed(mul_fixed(d, self.movement.acceleration.0), dt);
                    self.velocity.x = sat_add(self.velocity.x, delta);
                }
            },
            MovementAction::Jump => {
                if self.contact.grounded || self.contact.is_climbing
                    || self.movement.jump_count.current < self.movement.jump_count.max {
                    self.velocity.y = self.movement.jump_impulse.0;
                    self.movement.jump_count.current = self.movement.jump_count.current.saturating_add(1);
                }
            },
            MovementAction::Climb(d) => {
                if self.contact.is_climbing {
                    let delta = mul_fixed(mul_fixed(d, self.movement.acceleration.0), dt);
                    self.velocity.x = 0;
                    self.velocity.y = sat_add(self.velocity.y, delta);
                }
            },
        }
    }

    /// Applies this tick's actions in order.
    pub fn movement(&mut self, actions: &Vec<MovementAction>, dt: i64)
        ensures
            *final(self) == movement_stage(*old(self), actions@, dt),
    {
        let mut i: usize = 0;
        while i < actions.len()
            invariant
                i <= actions@.len(),
                *self == movement_stage(*old(self), actions@.take(i as int), dt),
            decreases actions@.len() - i,
        {
            self.apply_action(actions[i], dt);
            assert(actions@.take(i as int + 1).drop_last() =~= actions@.take(i as int));
            i = i + 1;
        }
        assert(actions@.take(actions@.len() as int) =~= actions@);
    }

    /// Slows the axis that gravity does not drive: vertical while climbing,
    /// horizontal otherwise.
    pub fn apply_movement_damping(&mut self)
        ensures
            *final(self) == damping_stage(*old(self)),
    {
        if self.contact.is_climbing {
            self.velocity.y = mul_fixed(self.velocity.y, self.movement.damping.0);
        } else {
            self.velocity.x = mul_fixed(self.velocity.x, self.movement.damping.0);
        }
    }

    /// Runs one tick: classification, gravity switch, gravity, actions and
    /// damping, in that order.
    pub fn tick(&mut self, probe: &ProbeResult, actions: &Vec<MovementAction>, dt: i64)
        ensures
            *final(self) == tick_stage(*old(self), *probe, actions@, dt),
            final(self).wf(),
            final(self).contact.can_climb == probe.overlaps_climbable,
            final(self).contact.is_climbing ==> final(self).gravity.0 == (Vector { x: 0, y: 0 }),
    {
        self.classify(probe, actions);
        self.apply_gravity_mode();
        self.apply_gravity(dt);
        let ghost before = *self;
        self.movement(actions, dt);
        proof {
            lemma_movement_keeps_contact(before, actions@, dt);
        }
        self.apply_movement_damping();
    }
}

/// What a controller is spawned with: gravity and movement tuning.
#[derive(Clone, Copy, Debug, PartialEq, Eq, Structural)]
pub struct CharacterControllerBundle {
    pub gravity: ControllerGravity,
    pub movement: MovementBundle,
}

impl CharacterControllerBundle {
    /// A bundle with the given gravity and the default movement tuning.
    pub fn new(gravity: Vector) -> (r: CharacterControllerBundle)
        ensures
            r.gravity.0 == gravity,
            r.movement == MovementBundle::new_spec(30_000, 900, 7_000, 1, 1_414),
    {
        CharacterControllerBundle { gravity: ControllerGravity(gravity), movement: MovementBundle::default() }
    }

    /// The same bundle with other movement tuning.
    pub fn with_movement(self, acceleration: i64, damping: i64, jump_impulse: i64, jump_count: u32, max_slope_angle: i64) -> (r: CharacterControllerBundle)
        ensures
            r.gravity == self.gravity,
            r.movement == MovementBundle::new_spec(acceleration, damping, jump_impulse, jump_count, max_slope_angle),
    {
        CharacterControllerBundle {
            gravity: self.gravity,
            movement: MovementBundle::new(acceleration, damping, jump_impulse, jump_count, max_slope_angle),
        }
    }
}

impl CharacterController {
    /// A kinematic controller at rest at `position`, touching nothing.
    pub fn spawn(bundle: CharacterControllerBundle, position: Vector) -> (r: CharacterController)
        ensures
            r.position == position,
            r.velocity == (Vector { x: 0, y: 0 }),
            r.gravity == bundle.gravity,
            r.movement == bundle.movement,
            r.contact == (ContactState { grounded: false, can_climb: false, is_climbing: false }),
            r.kinematic,
            r.wf(),
    {
        CharacterController {
            position,
            velocity: Vector::zero(),
            gravity: bundle.gravity,
            movement: bundle.movement,
            contact: ContactState { grounded: false, can_climb: false, is_climbing: false },
            kinematic: true,
        }
    }
}

} // verus!
