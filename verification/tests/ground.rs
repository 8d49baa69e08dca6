use platformer_core::ground_detection::{
    ground_detection, ground_sensor_placement, update_on_ground, ColliderShape, CollisionEvent,
    CoyoteTimer, GroundAttrs, GroundDetection, GroundEntry, GroundSensor, SensorPlacement,
    SubShape, SubShapeView,
};
use platformer_core::jumping::{Jumper, Jumping};

const CHARACTER: u64 = 1;
const SENSOR: u64 = 2;

#[test]
fn overlap_set_follows_matched_start_stop_pairs() {
    let mut sensor = GroundSensor::new(CHARACTER, SENSOR);
    let collidables = vec![10, 11];
    let platforms = vec![11];
    let events = vec![
        CollisionEvent::Started(10, SENSOR),
        CollisionEvent::Started(11, SENSOR),
        CollisionEvent::Stopped(10, SENSOR),
    ];
    ground_detection(&mut sensor, &events, &collidables, &platforms);
    assert_eq!(sensor.intersecting_ground_entities.len(), 1);
    assert_eq!(
        sensor.intersecting_ground_entities[0],
        GroundEntry { entity: 11, is_platform: true }
    );
}

#[test]
fn duplicate_starts_are_never_recorded_twice() {
    let mut sensor = GroundSensor::new(CHARACTER, SENSOR);
    let collidables = vec![10];
    let platforms = vec![];
    let events = vec![
        CollisionEvent::Started(10, SENSOR),
        CollisionEvent::Started(10, SENSOR),
    ];
    ground_detection(&mut sensor, &events, &collidables, &platforms);
    assert_eq!(sensor.intersecting_ground_entities.len(), 1);
    // A stop with no matching start leaves nothing dangling either.
    let more = vec![
        CollisionEvent::Stopped(10, SENSOR),
        CollisionEvent::Stopped(10, SENSOR),
    ];
    ground_detection(&mut sensor, &more, &collidables, &platforms);
    assert_eq!(sensor.intersecting_ground_entities.len(), 0);
}

#[test]
fn events_of_other_entities_are_ignored() {
    let mut sensor = GroundSensor::new(CHARACTER, SENSOR);
    let collidables = vec![10];
    let platforms = vec![];
    let events = vec![
        // Not a collidable at all:
        CollisionEvent::Started(99, SENSOR),
        // A collidable touching some other sensor:
        CollisionEvent::Started(10, 77),
    ];
    ground_detection(&mut sensor, &events, &collidables, &platforms);
    assert_eq!(sensor.intersecting_ground_entities.len(), 0);
}

#[test]
fn sensor_order_is_symmetric_in_the_event() {
    let mut sensor = GroundSensor::new(CHARACTER, SENSOR);
    let collidables = vec![10];
    let platforms = vec![];
    // The sensor may be named first or second.
    let events = vec![CollisionEvent::Started(SENSOR, 10)];
    ground_detection(&mut sensor, &events, &collidables, &platforms);
    assert_eq!(sensor.intersecting_ground_entities.len(), 1);
    assert_eq!(sensor.intersecting_ground_entities[0].entity, 10);
}

#[test]
fn detection_reports_ground_iff_overlap_nonempty() {
    let mut sensor = GroundSensor::new(CHARACTER, SENSOR);
    let mut detection = GroundDetection::NotOnGround;
    let mut coyote = CoyoteTimer::default();
    let jumper = Jumper::NotJumping;

    ground_detection(
        &mut sensor,
        &vec![CollisionEvent::Started(10, SENSOR)],
        &vec![10],
        &vec![10],
    );
    update_on_ground(&mut detection, &mut coyote, &sensor, false, &jumper);
    assert!(detection.on_ground());
    assert_eq!(
        detection,
        GroundDetection::OnGround(10, GroundAttrs { is_platform: true })
    );

    ground_detection(
        &mut sensor,
        &vec![CollisionEvent::Stopped(10, SENSOR)],
        &vec![10],
        &vec![10],
    );
    update_on_ground(&mut detection, &mut coyote, &sensor, true, &jumper);
    assert!(!detection.on_ground());
}

#[test]
fn coyote_timer_armed_exactly_on_falling_edge() {
    let sensor = GroundSensor::new(CHARACTER, SENSOR);
    let mut detection = GroundDetection::OnGround(10, GroundAttrs { is_platform: false });
    let mut coyote = CoyoteTimer::default();
    assert!(coyote.0.paused);

    // Falling edge while not jumping: armed.
    update_on_ground(&mut detection, &mut coyote, &sensor, true, &Jumper::NotJumping);
    assert!(!coyote.0.paused);
    assert_eq!(coyote.0.elapsed_ms, 0);

    // No edge (already airborne): left alone.
    let mut coyote2 = CoyoteTimer::default();
    update_on_ground(&mut detection, &mut coyote2, &sensor, false, &Jumper::NotJumping);
    assert!(coyote2.0.paused);

    // Falling edge mid-jump: not armed.
    let mut coyote3 = CoyoteTimer::default();
    let jumping = Jumper::Jumping(Jumping { jumps_left: 1 });
    update_on_ground(&mut detection, &mut coyote3, &sensor, true, &jumping);
    assert!(coyote3.0.paused);
}

#[test]
fn placement_for_a_simple_box() {
    let shape = ColliderShape::Cuboid { half_x: 12, half_y: 8 };
    assert_eq!(
        ground_sensor_placement(&shape),
        Some(SensorPlacement { half_x: 6, half_y: 2, offset_y: -8 })
    );
}

#[test]
fn placement_picks_the_lowest_box_of_a_compound() {
    let shape = ColliderShape::Compound(vec![
        SubShape { x: 0, y: 2, shape: SubShapeView::Cuboid { half_x: 6, half_y: 2 } },
        SubShape { x: 0, y: -4, shape: SubShapeView::Cuboid { half_x: 6, half_y: 4 } },
    ]);
    assert_eq!(
        ground_sensor_placement(&shape),
        Some(SensorPlacement { half_x: 3, half_y: 2, offset_y: -8 })
    );
}

#[test]
fn placement_tie_goes_to_the_first_lowest_box() {
    let shape = ColliderShape::Compound(vec![
        SubShape { x: 0, y: -4, shape: SubShapeView::Cuboid { half_x: 10, half_y: 1 } },
        SubShape { x: 0, y: -4, shape: SubShapeView::Cuboid { half_x: 20, half_y: 9 } },
    ]);
    assert_eq!(
        ground_sensor_placement(&shape),
        Some(SensorPlacement { half_x: 5, half_y: 2, offset_y: -5 })
    );
}

#[test]
fn placement_skips_non_box_children() {
    let shape = ColliderShape::Compound(vec![
        SubShape { x: 0, y: -9, shape: SubShapeView::Other },
        SubShape { x: 0, y: 3, shape: SubShapeView::Cuboid { half_x: 4, half_y: 2 } },
    ]);
    assert_eq!(
        ground_sensor_placement(&shape),
        Some(SensorPlacement { half_x: 2, half_y: 2, offset_y: 1 })
    );
}

#[test]
fn no_placement_without_a_usable_box() {
    assert_eq!(ground_sensor_placement(&ColliderShape::Other), None);
    let empty = ColliderShape::Compound(vec![]);
    assert_eq!(ground_sensor_placement(&empty), None);
    let no_box = ColliderShape::Compound(vec![SubShape {
        x: 0,
        y: 0,
        shape: SubShapeView::Other,
    }]);
    assert_eq!(ground_sensor_placement(&no_box), None);
}
