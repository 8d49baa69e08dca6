use platformer_core::actions::InputSnapshot;
use platformer_core::ground_detection::{
    CollisionEvent, GroundAttrs, GroundDetection, GroundSensor,
};
use platformer_core::jumping::{Dasher, Dashing, Jumper, Jumping};
use platformer_core::player::{
    advance_frame, handle_game_actions, resolve_movement, Character, ClimbDirection, MotionEvent,
    MovementDirection, RespawnCommand, CLIMB_SPEED, JUMP_SPEED, RUN_SPEED,
};
use platformer_core::timer_helpers::TimerHelper;
use platformer_core::vec2::Vec2i;

fn v(x: i64, y: i64) -> Vec2i {
    Vec2i { x, y }
}

fn jump_press() -> InputSnapshot {
    let mut input = InputSnapshot::released();
    input.jump_held = true;
    input.jump_just_pressed = true;
    input
}

#[test]
fn grounded_jump_press_starts_a_jump() {
    // Scenario: grounded, not jumping; a fresh jump press commands JUMP_SPEED
    // upward over a zero baseline, grants full charges, and announces it.
    let mut ch = Character::new();
    ch.ground_detection = GroundDetection::OnGround(7, GroundAttrs { is_platform: false });
    let (vel, events) = resolve_movement(&mut ch, &jump_press(), v(0, 0), v(0, 0));
    assert_eq!(vel, v(0, JUMP_SPEED));
    assert_eq!(ch.jumper, Jumper::Jumping(Jumping { jumps_left: 1 }));
    assert_eq!(events, vec![MotionEvent::Jumping]);
}

#[test]
fn air_jump_consumes_a_charge() {
    // Scenario: airborne mid-jump with one charge; the press spends it and
    // resets the vertical command to JUMP_SPEED.
    let mut ch = Character::new();
    ch.jumper = Jumper::Jumping(Jumping { jumps_left: 1 });
    let (vel, events) = resolve_movement(&mut ch, &jump_press(), v(0, -120), v(0, 0));
    assert_eq!(vel.y, JUMP_SPEED);
    assert_eq!(ch.jumper, Jumper::Jumping(Jumping { jumps_left: 0 }));
    // An air jump is not a fresh jump start: no event announced.
    assert_eq!(events, vec![]);
}

#[test]
fn chargeless_press_arms_the_buffer_and_landing_grants_it() {
    // Scenario: airborne, out of charges; the press changes no velocity but
    // arms the jump buffer; grounding on the next frame grants the jump.
    let mut ch = Character::new();
    ch.jumper = Jumper::Jumping(Jumping { jumps_left: 0 });
    let (vel, events) = resolve_movement(&mut ch, &jump_press(), v(0, -120), v(0, 0));
    assert_eq!(vel, v(0, -120));
    assert_eq!(ch.jumper, Jumper::Jumping(Jumping { jumps_left: 0 }));
    assert_eq!(events, vec![]);
    assert!(!ch.jump_buffer_timer.0.paused);
    assert!(!ch.jump_buffer_timer.0.finished);

    // The character lands before the buffer expires.
    ch.ground_detection = GroundDetection::OnGround(7, GroundAttrs { is_platform: false });
    let (vel2, events2) = resolve_movement(&mut ch, &InputSnapshot::released(), v(0, 0), v(0, 0));
    assert_eq!(vel2.y, JUMP_SPEED);
    assert_eq!(ch.jumper, Jumper::Jumping(Jumping { jumps_left: 1 }));
    assert_eq!(events2, vec![MotionEvent::Jumping]);
    // Consumed: the buffer is paused again, so the jump fires exactly once.
    assert!(ch.jump_buffer_timer.0.paused);
    let (vel3, _) = resolve_movement(&mut ch, &InputSnapshot::released(), v(0, 0), v(0, 0));
    assert_eq!(vel3.y, 0);
}

#[test]
fn expired_buffer_grants_no_jump() {
    let mut ch = Character::new();
    ch.jumper = Jumper::Jumping(Jumping { jumps_left: 0 });
    resolve_movement(&mut ch, &jump_press(), v(0, -120), v(0, 0));
    // More time passes than the buffer holds.
    ch.jump_buffer_timer.0.tick(150);
    assert!(ch.jump_buffer_timer.0.finished);
    ch.ground_detection = GroundDetection::OnGround(7, GroundAttrs { is_platform: false });
    let (vel, _) = resolve_movement(&mut ch, &InputSnapshot::released(), v(0, 0), v(0, 0));
    assert_eq!(vel.y, 0);
    assert_eq!(ch.jumper, Jumper::NotJumping);
}

#[test]
fn platform_velocity_is_inherited_exactly() {
    // Scenario: standing on a platform moving at (50, 0) with no input; the
    // command matches the baseline exactly and idle is announced.
    let mut ch = Character::new();
    ch.ground_detection = GroundDetection::OnGround(3, GroundAttrs { is_platform: true });
    let (vel, events) = resolve_movement(&mut ch, &InputSnapshot::released(), v(0, 0), v(50, 0));
    assert_eq!(vel, v(50, 0));
    assert_eq!(events, vec![MotionEvent::Idle]);
    assert_eq!(ch.jumper, Jumper::NotJumping);
}

#[test]
fn ordinary_ground_gives_a_zero_baseline() {
    // The stood-on entity's velocity is ignored unless it is a platform.
    let mut ch = Character::new();
    ch.ground_detection = GroundDetection::OnGround(3, GroundAttrs { is_platform: false });
    let (vel, _) = resolve_movement(&mut ch, &InputSnapshot::released(), v(0, 0), v(50, 0));
    assert_eq!(vel, v(0, 0));
}

#[test]
fn running_adds_run_speed_to_the_baseline() {
    let mut ch = Character::new();
    ch.ground_detection = GroundDetection::OnGround(3, GroundAttrs { is_platform: true });
    let mut input = InputSnapshot::released();
    input.right_held = true;
    let (vel, events) = resolve_movement(&mut ch, &input, v(0, 0), v(50, 0));
    assert_eq!(vel.x, 50 + RUN_SPEED);
    assert_eq!(events, vec![MotionEvent::Running(MovementDirection::Right)]);
    assert_eq!(ch.movement_direction, MovementDirection::Right);
    assert!(!ch.facing_left);

    let mut input_left = InputSnapshot::released();
    input_left.left_held = true;
    let (vel2, events2) = resolve_movement(&mut ch, &input_left, v(0, 0), v(50, 0));
    assert_eq!(vel2.x, 50 - RUN_SPEED);
    assert_eq!(events2, vec![MotionEvent::Running(MovementDirection::Left)]);
    assert!(ch.facing_left);
}

#[test]
fn opposing_holds_cancel_the_run() {
    let mut ch = Character::new();
    ch.ground_detection = GroundDetection::OnGround(3, GroundAttrs { is_platform: false });
    let mut input = InputSnapshot::released();
    input.left_held = true;
    input.right_held = true;
    let (vel, events) = resolve_movement(&mut ch, &input, v(0, 0), v(0, 0));
    assert_eq!(vel.x, 0);
    // Both held: no running event, and the rightward hold wins the facing.
    assert_eq!(events, vec![MotionEvent::Idle]);
    assert_eq!(ch.movement_direction, MovementDirection::Right);
}

#[test]
fn fresh_up_press_on_a_ladder_engages_climbing() {
    // Scenario: overlapping a ladder, not climbing; a fresh up press engages
    // the climb and drives the vertical command at CLIMB_SPEED.
    let mut ch = Character::new();
    ch.climber.intersecting_climbables.push(42);
    let mut input = InputSnapshot::released();
    input.up_held = true;
    input.up_just_pressed = true;
    let (vel, events) = resolve_movement(&mut ch, &input, v(0, -80), v(0, 0));
    assert!(ch.climber.climbing);
    assert_eq!(vel.y, CLIMB_SPEED);
    assert_eq!(events, vec![MotionEvent::Climbing(ClimbDirection::Up)]);

    // Leaving the ladder disengages even though up is still held.
    ch.climber.intersecting_climbables.clear();
    let mut held = InputSnapshot::released();
    held.up_held = true;
    let (vel2, _) = resolve_movement(&mut ch, &held, v(0, -80), v(0, 0));
    assert!(!ch.climber.climbing);
    assert_eq!(vel2.y, -80);
}

#[test]
fn holding_up_without_a_fresh_edge_never_engages_climbing() {
    let mut ch = Character::new();
    ch.climber.intersecting_climbables.push(42);
    let mut held = InputSnapshot::released();
    held.up_held = true;
    let (vel, _) = resolve_movement(&mut ch, &held, v(0, -80), v(0, 0));
    assert!(!ch.climber.climbing);
    assert_eq!(vel.y, -80);
}

#[test]
fn climbing_cancels_to_the_baseline_with_no_net_hold() {
    let mut ch = Character::new();
    ch.climber.intersecting_climbables.push(42);
    ch.climber.climbing = true;
    let (vel, _) = resolve_movement(&mut ch, &InputSnapshot::released(), v(0, -80), v(0, 0));
    assert!(ch.climber.climbing);
    assert_eq!(vel.y, 0);
}

#[test]
fn jump_press_while_climbing_starts_a_jump_and_disengages() {
    // A settled character hanging on a ladder: the press counts like a
    // grounded jump and climbing is forced off.
    let mut ch = Character::new();
    ch.climber.intersecting_climbables.push(42);
    ch.climber.climbing = true;
    let (vel, events) = resolve_movement(&mut ch, &jump_press(), v(0, 0), v(0, 0));
    assert_eq!(vel.y, JUMP_SPEED);
    assert_eq!(ch.jumper, Jumper::Jumping(Jumping { jumps_left: 1 }));
    assert!(!ch.climber.climbing);
    assert_eq!(events, vec![MotionEvent::Jumping]);
}

#[test]
fn jump_press_mid_jump_while_climbing_is_ignored() {
    let mut ch = Character::new();
    ch.climber.intersecting_climbables.push(42);
    ch.climber.climbing = true;
    ch.jumper = Jumper::Jumping(Jumping { jumps_left: 1 });
    let (vel, events) = resolve_movement(&mut ch, &jump_press(), v(0, -60), v(0, 0));
    // The climb drive owns the vertical command; no charge is spent and no
    // buffer is armed.
    assert_eq!(vel.y, 0);
    assert_eq!(ch.jumper, Jumper::Jumping(Jumping { jumps_left: 1 }));
    assert!(ch.jump_buffer_timer.0.paused);
    assert_eq!(events, vec![]);
}

#[test]
fn coyote_press_within_grace_counts_as_grounded() {
    let mut ch = Character::new();
    // The falling edge armed the grace window; 100 ms have passed.
    ch.coyote_timer.restart();
    ch.coyote_timer.0.tick(100);
    let (vel, events) = resolve_movement(&mut ch, &jump_press(), v(0, -30), v(0, 0));
    assert_eq!(vel.y, JUMP_SPEED);
    assert_eq!(ch.jumper, Jumper::Jumping(Jumping { jumps_left: 1 }));
    assert_eq!(events, vec![MotionEvent::Jumping]);
    // Accepting the jump consumes the grace.
    assert!(ch.coyote_timer.0.paused);
}

#[test]
fn coyote_press_after_grace_does_nothing() {
    let mut ch = Character::new();
    ch.coyote_timer.restart();
    ch.coyote_timer.0.tick(250);
    let (vel, events) = resolve_movement(&mut ch, &jump_press(), v(0, -30), v(0, 0));
    assert_eq!(vel, v(0, -30));
    assert_eq!(ch.jumper, Jumper::NotJumping);
    assert_eq!(events, vec![]);
}

#[test]
fn settled_state_does_not_oscillate() {
    // Grounded, not jumping, velocity at the baseline: frames with no input
    // keep the state settled and the command at the baseline.
    let mut ch = Character::new();
    ch.ground_detection = GroundDetection::OnGround(3, GroundAttrs { is_platform: false });
    for _ in 0..5 {
        let (vel, events) = resolve_movement(&mut ch, &InputSnapshot::released(), v(0, 0), v(0, 0));
        assert_eq!(vel, v(0, 0));
        assert_eq!(ch.jumper, Jumper::NotJumping);
        assert_eq!(ch.dasher, Dasher::NotDashing);
        assert_eq!(events, vec![MotionEvent::Idle]);
    }
}

#[test]
fn dash_press_adds_the_dash_vector() {
    let mut ch = Character::new();
    let mut input = InputSnapshot::released();
    input.dash_just_pressed = true;
    input.up_held = true;
    input.right_held = true;
    let (vel, events) = resolve_movement(&mut ch, &input, v(0, -30), v(0, 0));
    // Up-right diagonal, unnormalised: 400 on each axis over the commands so far.
    assert_eq!(vel.x, RUN_SPEED + 400);
    assert_eq!(vel.y, -30 + 400);
    assert_eq!(ch.dasher, Dasher::Dashing(Dashing { dashs_left: 1 }));
    assert_eq!(
        events,
        vec![
            MotionEvent::Running(MovementDirection::Right),
            MotionEvent::Dashing
        ]
    );
}

#[test]
fn dash_with_nothing_held_goes_the_way_the_character_faces() {
    let mut ch = Character::new();
    ch.facing_left = true;
    let mut input = InputSnapshot::released();
    input.dash_just_pressed = true;
    let (vel, _) = resolve_movement(&mut ch, &input, v(0, 0), v(0, 0));
    assert_eq!(vel.x, -400);
    assert_eq!(vel.y, 0);
}

#[test]
fn dash_is_refused_while_climbing_and_without_charges() {
    let mut ch = Character::new();
    ch.climber.intersecting_climbables.push(42);
    ch.climber.climbing = true;
    let mut input = InputSnapshot::released();
    input.dash_just_pressed = true;
    let (vel, events) = resolve_movement(&mut ch, &input, v(0, 0), v(0, 0));
    assert_eq!(vel.x, 0);
    assert_eq!(ch.dasher, Dasher::NotDashing);
    assert_eq!(events, vec![]);

    let mut ch2 = Character::new();
    ch2.dasher = Dasher::Dashing(Dashing { dashs_left: 0 });
    let (vel2, _) = resolve_movement(&mut ch2, &input, v(0, -30), v(0, 0));
    assert_eq!(vel2, v(0, -30));
    assert_eq!(ch2.dasher, Dasher::Dashing(Dashing { dashs_left: 0 }));
}

#[test]
fn respawn_actions_map_to_commands() {
    let mut level = InputSnapshot::released();
    level.respawn_level_just_pressed = true;
    assert_eq!(handle_game_actions(&level), Some(RespawnCommand::RespawnLevel));

    let mut world = InputSnapshot::released();
    world.respawn_world_just_pressed = true;
    assert_eq!(handle_game_actions(&world), Some(RespawnCommand::RespawnWorld));

    // A level respawn wins a same-frame conflict; nothing pressed asks nothing.
    let mut both = InputSnapshot::released();
    both.respawn_level_just_pressed = true;
    both.respawn_world_just_pressed = true;
    assert_eq!(handle_game_actions(&both), Some(RespawnCommand::RespawnLevel));
    assert_eq!(handle_game_actions(&InputSnapshot::released()), None);
}

#[test]
fn a_full_tick_lands_on_a_moving_platform() {
    let mut ch = Character::new();
    let mut sensor = GroundSensor::new(1, 2);
    let collidables = vec![10];
    let platforms = vec![10];
    let events_in = vec![CollisionEvent::Started(10, 2)];
    let (vel, events) = advance_frame(
        &mut ch,
        &mut sensor,
        &events_in,
        &collidables,
        &platforms,
        &InputSnapshot::released(),
        v(0, 0),
        v(50, 0),
        16,
    );
    assert_eq!(
        ch.ground_detection,
        GroundDetection::OnGround(10, GroundAttrs { is_platform: true })
    );
    assert!(ch.was_on_ground);
    assert_eq!(vel, v(50, 0));
    assert_eq!(events, vec![MotionEvent::Idle]);

    // Next tick the platform contact stops: the coyote window arms.
    let gone = vec![CollisionEvent::Stopped(10, 2)];
    advance_frame(
        &mut ch,
        &mut sensor,
        &gone,
        &collidables,
        &platforms,
        &InputSnapshot::released(),
        v(50, 0),
        v(0, 0),
        16,
    );
    assert_eq!(ch.ground_detection, GroundDetection::NotOnGround);
    assert!(!ch.was_on_ground);
    assert!(!ch.coyote_timer.0.paused);
    assert_eq!(ch.coyote_timer.0.elapsed_ms, 0);
}
