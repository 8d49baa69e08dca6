use platformer_core::actions::{InputSnapshot, PlatformerAction};
use platformer_core::climbing::{update_climbable_overlap, update_climbing, Climber};
use platformer_core::ground_detection::CollisionEvent;
use platformer_core::jumping::{DashDirection, Dasher, Jumper};
use platformer_core::spike::detect_spike;
use platformer_core::vec2::Vec2i;

const CHARACTER: u64 = 1;

#[test]
fn climbable_overlap_follows_contact_events() {
    let mut climber = Climber::new();
    let climbables = vec![40, 41];
    let events = vec![
        CollisionEvent::Started(40, CHARACTER),
        CollisionEvent::Started(CHARACTER, 41),
        CollisionEvent::Started(40, CHARACTER),
        CollisionEvent::Stopped(41, CHARACTER),
    ];
    update_climbable_overlap(&mut climber, &events, &climbables, CHARACTER);
    assert_eq!(climber.intersecting_climbables, vec![40]);
    assert!(climber.overlaps_climbable());

    let leave = vec![CollisionEvent::Stopped(40, CHARACTER)];
    update_climbable_overlap(&mut climber, &leave, &climbables, CHARACTER);
    assert!(!climber.overlaps_climbable());
}

#[test]
fn climb_engagement_is_edge_triggered() {
    let mut climber = Climber::new();
    climber.intersecting_climbables.push(40);
    // A held key without a fresh edge does not engage.
    update_climbing(&mut climber, false, false);
    assert!(!climber.climbing);
    // A fresh down press does.
    update_climbing(&mut climber, false, true);
    assert!(climber.climbing);
    // Engagement persists without further edges while the overlap lasts.
    update_climbing(&mut climber, false, false);
    assert!(climber.climbing);
    // Losing the overlap force-disengages, whatever is pressed.
    climber.intersecting_climbables.clear();
    update_climbing(&mut climber, true, true);
    assert!(!climber.climbing);
}

#[test]
fn spike_contact_is_detected_in_either_order() {
    let detectors = vec![CHARACTER];
    let spikes = vec![60];
    let hit1 = vec![CollisionEvent::Started(CHARACTER, 60)];
    let hit2 = vec![CollisionEvent::Started(60, CHARACTER)];
    assert!(detect_spike(&hit1, &detectors, &spikes));
    assert!(detect_spike(&hit2, &detectors, &spikes));

    // A stopped contact or an unrelated entity is no hit.
    let stopped = vec![CollisionEvent::Stopped(CHARACTER, 60)];
    let unrelated = vec![CollisionEvent::Started(CHARACTER, 61)];
    assert!(!detect_spike(&stopped, &detectors, &spikes));
    assert!(!detect_spike(&unrelated, &detectors, &spikes));
    assert!(!detect_spike(&vec![], &detectors, &spikes));
}

#[test]
fn input_snapshot_answers_held_and_just_pressed_per_action() {
    let mut input = InputSnapshot::released();
    input.jump_held = true;
    input.dash_just_pressed = true;
    assert!(input.pressed(PlatformerAction::Jump));
    assert!(!input.just_pressed(PlatformerAction::Jump));
    assert!(input.just_pressed(PlatformerAction::Dash));
    assert!(!input.pressed(PlatformerAction::Dash));
    assert!(!input.pressed(PlatformerAction::Left));
    assert!(!input.pressed(PlatformerAction::Right));
    assert!(!input.pressed(PlatformerAction::Up));
    assert!(!input.pressed(PlatformerAction::Down));
    assert!(!input.just_pressed(PlatformerAction::RespawnLevel));
    assert!(!input.just_pressed(PlatformerAction::RespawnWorld));
}

#[test]
fn dash_direction_prefers_diagonals() {
    assert!(matches!(
        DashDirection::make(true, true, false, false, false),
        DashDirection::UpRight
    ));
    assert!(matches!(
        DashDirection::make(false, true, true, false, false),
        DashDirection::DownRight
    ));
    assert!(matches!(
        DashDirection::make(false, false, true, true, false),
        DashDirection::DownLeft
    ));
    assert!(matches!(
        DashDirection::make(true, false, false, true, false),
        DashDirection::UpLeft
    ));
    assert!(matches!(
        DashDirection::make(true, false, false, false, false),
        DashDirection::Up
    ));
    assert!(matches!(
        DashDirection::make(false, false, true, false, false),
        DashDirection::Down
    ));
}

#[test]
fn dash_direction_defaults_to_the_facing() {
    assert!(matches!(
        DashDirection::make(false, false, false, false, true),
        DashDirection::Left
    ));
    assert!(matches!(
        DashDirection::make(false, false, false, false, false),
        DashDirection::Right
    ));
}

#[test]
fn dash_vectors_are_unit_ish() {
    assert_eq!(DashDirection::Up.to_vec(), Vec2i { x: 0, y: 1 });
    assert_eq!(DashDirection::Down.to_vec(), Vec2i { x: 0, y: -1 });
    assert_eq!(DashDirection::Left.to_vec(), Vec2i { x: -1, y: 0 });
    assert_eq!(DashDirection::Right.to_vec(), Vec2i { x: 1, y: 0 });
    assert_eq!(DashDirection::UpRight.to_vec(), Vec2i { x: 1, y: 1 });
    assert_eq!(DashDirection::DownRight.to_vec(), Vec2i { x: 1, y: -1 });
    assert_eq!(DashDirection::DownLeft.to_vec(), Vec2i { x: -1, y: -1 });
    assert_eq!(DashDirection::UpLeft.to_vec(), Vec2i { x: -1, y: 1 });
}

#[test]
fn charge_states_report_and_build_as_named() {
    assert!(!Jumper::mk_not_jumping().is_jumping());
    assert!(Jumper::mk_jumping().is_jumping());
    assert!(!Dasher::mk_not_dashing().is_dashing());
    assert!(Dasher::mk_dashing().is_dashing());
    assert_eq!(Jumper::default(), Jumper::NotJumping);
    assert_eq!(Dasher::default(), Dasher::NotDashing);
}
