use kinematic_controller::collision::{ContactManifold, Contacts};
use kinematic_controller::controller::{
    CharacterController, CharacterControllerBundle, ContactState, GroundHit, JumpCount, MaxSlopeAngle,
    MovementBundle, ProbeResult, GRAVITY, GROUND_PROBE_DISTANCE,
};
use kinematic_controller::fixed::{mul_fixed, sat_add, Vector, UNIT};
use kinematic_controller::input::{
    collect_input, gamepad_input, keyboard_input, GamepadState, KeyboardState, MovementAction,
};

fn controller(max_jumps: u32) -> CharacterController {
    let bundle = CharacterControllerBundle::new(Vector::new(0, -GRAVITY))
        .with_movement(30_000, 900, 7_000, max_jumps, 1_414);
    CharacterController::spawn(bundle, Vector::zero())
}

fn no_probe() -> ProbeResult {
    ProbeResult { ground_hit: None, overlaps_climbable: false }
}

#[test]
fn second_air_jump_is_rejected() {
    let mut c = controller(1);
    assert!(!c.contact.grounded);
    assert_eq!(c.movement.jump_count.current, 0);
    c.apply_action(MovementAction::Jump, 16);
    assert_eq!(c.velocity.y, 7_000);
    assert_eq!(c.movement.jump_count.current, 1);
    c.velocity.y = -100;
    c.apply_action(MovementAction::Jump, 16);
    assert_eq!(c.velocity.y, -100);
    assert_eq!(c.movement.jump_count.current, 1);
}

#[test]
fn two_jumps_in_one_tick_each_count() {
    let mut c = controller(1);
    let actions = vec![MovementAction::Jump, MovementAction::Jump];
    c.movement(&actions, 16);
    assert_eq!(c.velocity.y, 7_000);
    assert_eq!(c.movement.jump_count.current, 1);
}

#[test]
fn grounded_jump_ignores_budget() {
    let mut c = controller(0);
    c.contact.grounded = true;
    c.movement.jump_count.current = 3;
    c.apply_action(MovementAction::Jump, 16);
    assert_eq!(c.velocity.y, 7_000);
    assert_eq!(c.movement.jump_count.current, 4);
}

#[test]
fn climbing_starts_and_cancels_gravity() {
    let mut c = controller(1);
    c.velocity.x = 500;
    let probe = ProbeResult { ground_hit: None, overlaps_climbable: true };
    c.tick(&probe, &vec![MovementAction::Climb(UNIT)], 16);
    assert!(c.contact.can_climb);
    assert!(c.contact.is_climbing);
    assert_eq!(c.gravity.0, Vector::new(0, 0));
    assert_eq!(c.velocity.x, 0);
    // climb: 1.0 * 30.0 * 0.016 = 0.48, then damped by 0.9
    assert_eq!(c.velocity.y, 432);
    assert!(c.velocity.y > 0);
}

#[test]
fn losing_overlap_ends_climb() {
    let mut c = controller(1);
    let probe = ProbeResult { ground_hit: None, overlaps_climbable: true };
    c.tick(&probe, &vec![MovementAction::Climb(UNIT)], 16);
    assert!(c.contact.is_climbing);
    c.tick(&no_probe(), &vec![], 16);
    assert!(!c.contact.can_climb);
    assert!(!c.contact.is_climbing);
    assert_eq!(c.gravity.0, Vector::new(0, -GRAVITY));
}

#[test]
fn climbing_latch_carries_over_while_overlapping() {
    let mut c = controller(1);
    let probe = ProbeResult { ground_hit: None, overlaps_climbable: true };
    c.tick(&probe, &vec![MovementAction::Climb(UNIT)], 16);
    c.tick(&probe, &vec![MovementAction::Move(UNIT)], 16);
    assert!(c.contact.is_climbing);
    assert_eq!(c.velocity.x, 0);
    c.tick(&probe, &vec![MovementAction::Jump], 16);
    assert!(!c.contact.is_climbing);
}

#[test]
fn climb_intent_without_overlap_does_nothing() {
    let mut c = controller(1);
    c.update_climbing(&vec![MovementAction::Climb(UNIT)]);
    assert!(!c.contact.is_climbing);
}

#[test]
fn move_ignored_while_climbing() {
    let mut c = controller(1);
    c.contact = ContactState { grounded: false, can_climb: true, is_climbing: true };
    c.velocity.x = 123;
    c.apply_action(MovementAction::Move(UNIT), 16);
    assert_eq!(c.velocity.x, 123);
}

#[test]
fn ground_probe_respects_slope() {
    let mut c = controller(1);
    c.movement.jump_count.current = 1;
    c.update_grounded(Some(GroundHit { distance: 150, slope_angle: 100 }), 200);
    assert!(c.contact.grounded);
    assert_eq!(c.movement.jump_count.current, 0);
    c.movement.jump_count.current = 1;
    c.update_grounded(Some(GroundHit { distance: 150, slope_angle: 1_500 }), 200);
    assert!(!c.contact.grounded);
    assert_eq!(c.movement.jump_count.current, 1);
    c.update_grounded(Some(GroundHit { distance: 150, slope_angle: -1_000 }), 200);
    assert!(c.contact.grounded);
}

#[test]
fn ground_probe_without_slope_limit() {
    let mut c = controller(1);
    c.movement.max_slope_angle = None;
    c.update_grounded(Some(GroundHit { distance: 150, slope_angle: 3_000 }), 200);
    assert!(c.contact.grounded);
    c.update_grounded(None, 200);
    assert!(!c.contact.grounded);
    c.update_grounded(Some(GroundHit { distance: 250, slope_angle: 0 }), 200);
    assert!(!c.contact.grounded);
}

#[test]
fn landing_resets_jump_budget() {
    let mut c = controller(1);
    c.apply_action(MovementAction::Jump, 16);
    assert_eq!(c.movement.jump_count.current, 1);
    let probe = ProbeResult {
        ground_hit: Some(GroundHit { distance: 150, slope_angle: 0 }),
        overlaps_climbable: false,
    };
    c.classify(&probe, &vec![]);
    assert!(c.contact.grounded);
    assert_eq!(c.movement.jump_count.current, 0);
    assert_eq!(GROUND_PROBE_DISTANCE, 200);
}

#[test]
fn gravity_and_damping_values() {
    let mut c = controller(1);
    c.apply_gravity_mode();
    c.apply_gravity(16);
    assert_eq!(c.velocity.y, -16_000);
    c.velocity.x = 1_000;
    c.apply_movement_damping();
    assert_eq!(c.velocity.x, 900);
    assert_eq!(c.velocity.y, -16_000);
}

#[test]
fn move_accelerates_horizontally() {
    let mut c = controller(1);
    c.apply_action(MovementAction::Move(-UNIT), 16);
    assert_eq!(c.velocity.x, -480);
    c.apply_action(MovementAction::Move(500), 16);
    assert_eq!(c.velocity.x, -240);
}

#[test]
fn full_tick_moves_and_falls() {
    let mut c = controller(1);
    c.tick(&no_probe(), &vec![MovementAction::Move(UNIT)], 16);
    assert_eq!(c.velocity.x, 432);
    assert_eq!(c.velocity.y, -16_000);
    assert_eq!(c.gravity.0, Vector::new(0, -GRAVITY));
}

#[test]
fn fixed_point_arithmetic() {
    assert_eq!(mul_fixed(1_500, 2_000), 3_000);
    assert_eq!(mul_fixed(-1_999, 1), -1);
    assert_eq!(mul_fixed(1_999, 1), 1);
    assert_eq!(mul_fixed(i64::MAX, 2_000), i64::MAX);
    assert_eq!(sat_add(i64::MAX, 1), i64::MAX);
    assert_eq!(sat_add(i64::MIN, -1), i64::MIN);
    assert_eq!(sat_add(2, -5), -3);
}

#[test]
fn bundle_defaults() {
    let b = MovementBundle::default();
    assert_eq!(b.acceleration.0, 30_000);
    assert_eq!(b.damping.0, 900);
    assert_eq!(b.jump_impulse.0, 7_000);
    assert_eq!(b.jump_count, JumpCount::new(1));
    assert_eq!(b.max_slope_angle, Some(MaxSlopeAngle(1_414)));
    let c = controller(2);
    assert_eq!(c.movement.jump_count, JumpCount { current: 0, max: 2 });
    assert!(c.kinematic);
}

#[test]
fn keyboard_actions_in_order() {
    let keys = KeyboardState { left: false, right: true, jump_just_pressed: true, up: false, down: true };
    assert_eq!(
        keyboard_input(&keys),
        vec![MovementAction::Move(UNIT), MovementAction::Jump, MovementAction::Climb(-UNIT)]
    );
    let both = KeyboardState { left: true, right: true, jump_just_pressed: false, up: true, down: true };
    assert_eq!(keyboard_input(&both), vec![]);
}

#[test]
fn gamepad_actions_in_order() {
    let pads = vec![
        GamepadState { left_stick_x: Some(-250), south_just_pressed: false },
        GamepadState { left_stick_x: None, south_just_pressed: true },
    ];
    assert_eq!(gamepad_input(&pads), vec![MovementAction::Move(-250), MovementAction::Jump]);
    let keys = KeyboardState { left: true, right: false, jump_just_pressed: false, up: false, down: false };
    assert_eq!(
        collect_input(&keys, &pads),
        vec![MovementAction::Move(-UNIT), MovementAction::Move(-250), MovementAction::Jump]
    );
}

fn floor_manifold(penetrations: Vec<i64>) -> ContactManifold {
    ContactManifold {
        normal1: Vector::new(0, -UNIT),
        normal2: Vector::new(0, UNIT),
        slope1: 0,
        slope2: 3_142,
        penetrations,
    }
}

#[test]
fn penetrating_contacts_are_summed() {
    let mut c = controller(1);
    c.velocity.y = -500;
    let contacts = vec![Contacts {
        entity1: 7,
        entity2: 9,
        controller1: true,
        controller2: false,
        during_current_substep: true,
        manifolds: vec![floor_manifold(vec![50, -10, 0, 20])],
    }];
    c.kinematic_controller_collisions(7, &contacts);
    assert_eq!(c.position, Vector::new(0, 70));
    assert_eq!(c.velocity.y, 0);
}

#[test]
fn second_body_side_and_steep_slope() {
    let mut c = controller(1);
    c.velocity.y = -500;
    let contacts = vec![Contacts {
        entity1: 9,
        entity2: 7,
        controller1: false,
        controller2: true,
        during_current_substep: true,
        manifolds: vec![floor_manifold(vec![30])],
    }];
    c.kinematic_controller_collisions(7, &contacts);
    assert_eq!(c.position, Vector::new(0, -30));
    assert_eq!(c.velocity.y, -500);
}

#[test]
fn stale_or_foreign_contacts_are_skipped() {
    let mut c = controller(1);
    c.velocity.y = -500;
    let contacts = vec![
        Contacts { entity1: 7, entity2: 9, controller1: true, controller2: false, during_current_substep: false, manifolds: vec![floor_manifold(vec![50])] },
        Contacts { entity1: 3, entity2: 9, controller1: false, controller2: false, during_current_substep: true, manifolds: vec![floor_manifold(vec![50])] },
        Contacts { entity1: 7, entity2: 7, controller1: true, controller2: true, during_current_substep: true, manifolds: vec![floor_manifold(vec![50])] },
    ];
    c.kinematic_controller_collisions(7, &contacts);
    assert_eq!(c.position, Vector::new(0, 0));
    assert_eq!(c.velocity.y, -500);
    c.kinematic = false;
    c.kinematic_controller_collisions(7, &vec![Contacts {
        entity1: 7,
        entity2: 9,
        controller1: true,
        controller2: false,
        during_current_substep: true,
        manifolds: vec![floor_manifold(vec![50])],
    }]);
    assert_eq!(c.position, Vector::new(0, 0));
}

#[test]
fn rising_controller_keeps_velocity_on_slope() {
    let mut c = controller(1);
    c.velocity.y = 300;
    c.resolve_manifold(true, &floor_manifold(vec![10]));
    assert_eq!(c.velocity.y, 300);
    assert_eq!(c.position, Vector::new(0, 10));
}

#[test]
fn contact_between_two_controllers_is_skipped() {
    let mut c = controller(1);
    c.velocity.y = -500;
    let contacts = vec![Contacts {
        entity1: 1,
        entity2: 2,
        controller1: true,
        controller2: true,
        during_current_substep: true,
        manifolds: vec![floor_manifold(vec![50])],
    }];
    c.kinematic_controller_collisions(1, &contacts);
    assert_eq!(c.position, Vector::new(0, 0));
    assert_eq!(c.velocity.y, -500);
    c.kinematic_controller_collisions(2, &contacts);
    assert_eq!(c.position, Vector::new(0, 0));
    assert_eq!(c.velocity.y, -500);
}

#[test]
fn jump_from_ground_stays_counted_while_grounded() {
    let mut c = controller(1);
    let ground = ProbeResult {
        ground_hit: Some(GroundHit { distance: 100, slope_angle: 0 }),
        overlaps_climbable: false,
    };
    c.tick(&ground, &vec![MovementAction::Jump], 16);
    assert!(c.contact.grounded);
    assert_eq!(c.movement.jump_count.current, 1);
    c.tick(&ground, &vec![], 16);
    assert!(c.contact.grounded);
    assert_eq!(c.movement.jump_count.current, 1);
    c.tick(&no_probe(), &vec![], 16);
    c.tick(&ground, &vec![], 16);
    assert_eq!(c.movement.jump_count.current, 0);
}
