//! Ground sensing: from collision start/stop events to a grounded state, with
//! the coyote grace window armed on the grounded-to-airborne edge.
//!
//! A `GroundSensor` is an auxiliary collision shape parented beneath a
//! character.  The physics collaborator reports which entities start and stop
//! touching it; the sensor keeps the set of entities currently overlapping,
//! each recorded with a flag saying whether it is a moving platform.  From
//! that overlap set, `update_on_ground` derives the `GroundDetection` relation
//! and arms the coyote timer exactly when the character leaves the ground
//! without jumping.

use vstd::pervasive::VecAdditionalExecFns;
use vstd::prelude::*;

use crate::jumping::Jumper;
use crate::timer_helpers::{Timer, TimerHelper, TimerMode};

verus! {

/// How long the coyote grace window lasts, in milliseconds.
pub const COYOTE_GRACE_MS: u64 = 200;

/// Half-height of the ground-sensor collider, in world units.
pub const DETECTOR_HALF_HEIGHT: i64 = 2;

/// Bound on collider coordinates and half-extents, in world units.
pub const COORD_LIMIT: i64 = 1_000_000_000;

/// A discrete contact notification from the physics collaborator, naming the
/// two colliding entities.
#[derive(Clone, Copy, Debug, PartialEq, Eq, Structural)]
pub enum CollisionEvent {
    Started(u64, u64),
    Stopped(u64, u64),
}

/// One entity currently overlapping the ground sensor, with whether it is a
/// moving platform (whose velocity the character inherits).
#[derive(Clone, Copy, Debug, PartialEq, Eq, Structural)]
pub struct GroundEntry {
    pub entity: u64,
    pub is_platform: bool,
}

/// The overlap set of a character's ground sensor.
pub struct GroundSensor {
    /// The character whose grounded state this sensor feeds.
    pub ground_detection_entity: u64,
    /// The sensor's own identity, as named in collision events.
    pub sensor_entity: u64,
    /// The ground-candidate entities currently overlapping the sensor.
    pub intersecting_ground_entities: Vec<GroundEntry>,
}

/// Whether some entry of `s` records entity `e`.
pub open spec fn has_entity(s: Seq<GroundEntry>, e: u64) -> bool {
    exists|i: int| 0 <= i < s.len() && s[i].entity == e
}

/// No entity is recorded twice.
pub open spec fn distinct_entities(s: Seq<GroundEntry>) -> bool {
    forall|i: int, j: int| 0 <= i < j < s.len() ==> s[i].entity != s[j].entity
}

/// The overlap set as a relation from entity identity to its platform flag.
pub open spec fn sensor_map(s: Seq<GroundEntry>) -> Map<u64, bool>
    decreases s.len(),
{
    if s.len() <= 0 {
        Map::empty()
    } else {
        sensor_map(s.drop_last()).insert(s.last().entity, s.last().is_platform)
    }
}

proof fn lemma_sensor_map_dom(s: Seq<GroundEntry>)
    ensures
        forall|e: u64| #[trigger] sensor_map(s).dom().contains(e) <==> has_entity(s, e),
    decreases s.len(),
{
    if s.len() > 0 {
        lemma_sensor_map_dom(s.drop_last());
        assert(sensor_map(s) == sensor_map(s.drop_last()).insert(
            s.last().entity,
            s.last().is_platform,
        ));
        assert forall|e: u64| #[trigger] sensor_map(s).dom().contains(e) <==> has_entity(s, e) by {
            if sensor_map(s).dom().contains(e) {
                if e == s.last().entity {
                    assert(s[s.len() - 1].entity == e);
                } else {
                    assert(sensor_map(s.drop_last()).dom().contains(e));
                    assert(has_entity(s.drop_last(), e));
                    let i = choose|i: int|
                        0 <= i < s.drop_last().len() && s.drop_last()[i].entity == e;
                    assert(s.drop_last()[i] == s[i]);
                    assert(s[i].entity == e);
                }
            }
            if has_entity(s, e) {
                let i = choose|i: int| 0 <= i < s.len() && s[i].entity == e;
                if i < s.len() - 1 {
                    assert(s.drop_last()[i] == s[i]);
                    assert(has_entity(s.drop_last(), e));
                    assert(sensor_map(s.drop_last()).dom().contains(e));
                } else {
                    assert(e == s.last().entity);
                }
            }
        }
    }
}

proof fn lemma_distinct_drop_last(s: Seq<GroundEntry>)
    requires
        distinct_entities(s),
        s.len() > 0,
    ensures
        distinct_entities(s.drop_last()),
        !has_entity(s.drop_last(), s.last().entity),
{
    assert forall|i: int, j: int| 0 <= i < j < s.drop_last().len() implies s.drop_last()[i].entity
        != s.drop_last()[j].entity by {
        assert(s[i] == s.drop_last()[i]);
        assert(s[j] == s.drop_last()[j]);
    }
    assert forall|i: int| 0 <= i < s.drop_last().len() implies s.drop_last()[i].entity != s.last().entity by {
        assert(s[i] == s.drop_last()[i]);
        assert(s[i].entity != s[s.len() - 1].entity);
    }
}

proof fn lemma_sensor_map_push(s: Seq<GroundEntry>, en: GroundEntry)
    ensures
        sensor_map(s.push(en)) == sensor_map(s).insert(en.entity, en.is_platform),
{
    assert(s.push(en).drop_last() =~= s);
    assert(s.push(en).last() == en);
}

proof fn lemma_sensor_map_update(s: Seq<GroundEntry>, i: int, en: GroundEntry)
    requires
        0 <= i < s.len(),
        distinct_entities(s),
        s[i].entity == en.entity,
    ensures
        sensor_map(s.update(i, en)) == sensor_map(s).insert(en.entity, en.is_platform),
    decreases s.len(),
{
    let t = s.update(i, en);
    lemma_distinct_drop_last(s);
    if i == s.len() - 1 {
        assert(t.drop_last() =~= s.drop_last());
        assert(t.last() == en);
        assert(sensor_map(s.drop_last()).insert(s.last().entity, s.last().is_platform).insert(
            en.entity,
            en.is_platform,
        ) =~= sensor_map(s.drop_last()).insert(en.entity, en.is_platform));
    } else {
        assert(t.drop_last() =~= s.drop_last().update(i, en));
        assert(t.last() == s.last());
        lemma_sensor_map_update(s.drop_last(), i, en);
        // The updated key differs from the last entry's key, so the two
        // inserts commute.
        assert(s[i].entity != s.last().entity);
        assert(sensor_map(s.drop_last()).insert(en.entity, en.is_platform).insert(
            s.last().entity,
            s.last().is_platform,
        ) =~= sensor_map(s.drop_last()).insert(s.last().entity, s.last().is_platform).insert(
            en.entity,
            en.is_platform,
        ));
    }
}

proof fn lemma_sensor_map_remove(s: Seq<GroundEntry>, i: int)
    requires
        0 <= i < s.len(),
        distinct_entities(s),
    ensures
        sensor_map(s.remove(i)) == sensor_map(s).remove(s[i].entity),
    decreases s.len(),
{
    let t = s.remove(i);
    lemma_distinct_drop_last(s);
    lemma_sensor_map_dom(s.drop_last());
    if i == s.len() - 1 {
        assert(t =~= s.drop_last());
        // The removed key is absent from the rest, so removing it undoes the
        // insert exactly.
        assert(!sensor_map(s.drop_last()).dom().contains(s.last().entity));
        assert(sensor_map(s.drop_last()).insert(s.last().entity, s.last().is_platform).remove(
            s[i].entity,
        ) =~= sensor_map(s.drop_last()));
    } else {
        assert(t.len() == s.len() - 1);
        assert(t.drop_last() =~= s.drop_last().remove(i));
        assert(t.last() == s.last());
        lemma_sensor_map_remove(s.drop_last(), i);
        assert(s[i] == s.drop_last()[i]);
        assert(s[i].entity != s.last().entity);
        assert(sensor_map(s.drop_last()).remove(s[i].entity).insert(
            s.last().entity,
            s.last().is_platform,
        ) =~= sensor_map(s.drop_last()).insert(s.last().entity, s.last().is_platform).remove(
            s[i].entity,
        ));
    }
}

impl GroundSensor {
    /// The overlap set never records an entity twice.
    pub open spec fn wf(self) -> bool {
        distinct_entities(self.intersecting_ground_entities@)
    }

    /// The overlap relation this sensor currently holds.
    pub open spec fn contents(self) -> Map<u64, bool> {
        sensor_map(self.intersecting_ground_entities@)
    }

    /// A fresh sensor with an empty overlap set.
    pub fn new(ground_detection_entity: u64, sensor_entity: u64) -> (s: GroundSensor)
        ensures
            s.wf(),
            s.ground_detection_entity == ground_detection_entity,
            s.sensor_entity == sensor_entity,
            s.contents() == Map::<u64, bool>::empty(),
            s.intersecting_ground_entities@.len() == 0,
    {
        GroundSensor {
            ground_detection_entity,
            sensor_entity,
            intersecting_ground_entities: Vec::new(),
        }
    }
}

/// Whether `v` holds `x`.
fn contains_u64(v: &Vec<u64>, x: u64) -> (r: bool)
    ensures
        r == v@.contains(x),
{
    let mut i: usize = 0;
    while i < v.len()
        invariant
            i <= v.len(),
            forall|j: int| 0 <= j < i ==> v@[j] != x,
        decreases v.len() - i,
    {
        if v[i] == x {
            assert(v@[i as int] == x);
            return true;
        }
        i += 1;
    }
    false
}

/// The first entry recording `e`, if any.
fn find_entity(v: &Vec<GroundEntry>, e: u64) -> (r: Option<usize>)
    ensures
        match r {
            Some(i) => i < v@.len() && v@[i as int].entity == e,
            None => !has_entity(v@, e),
        },
{
    let mut i: usize = 0;
    while i < v.len()
        invariant
            i <= v.len(),
            forall|j: int| 0 <= j < i ==> v@[j].entity != e,
        decreases v.len() - i,
    {
        if v[i].entity == e {
            return Some(i);
        }
        i += 1;
    }
    None
}

/// Record `entity` as overlapping, with its platform flag.
fn insert_ground(sensor: &mut GroundSensor, entity: u64, is_platform: bool)
    requires
        old(sensor).wf(),
    ensures
        final(sensor).wf(),
        final(sensor).ground_detection_entity == old(sensor).ground_detection_entity,
        final(sensor).sensor_entity == old(sensor).sensor_entity,
        final(sensor).contents() == old(sensor).contents().insert(entity, is_platform),
{
    let ghost s0 = sensor.intersecting_ground_entities@;
    let en = GroundEntry { entity, is_platform };
    match find_entity(&sensor.intersecting_ground_entities, entity) {
        Some(i) => {
            sensor.intersecting_ground_entities.set(i, en);
            proof {
                lemma_sensor_map_update(s0, i as int, en);
                assert forall|a: int, b: int|
                    0 <= a < b < sensor.intersecting_ground_entities@.len() implies sensor
                    .intersecting_ground_entities@[a].entity != sensor
                    .intersecting_ground_entities@[b].entity by {
                    assert(s0[a].entity != s0[b].entity);
                }
            }
        }
        None => {
            sensor.intersecting_ground_entities.push(en);
            proof {
                lemma_sensor_map_push(s0, en);
                assert forall|a: int, b: int|
                    0 <= a < b < sensor.intersecting_ground_entities@.len() implies sensor
                    .intersecting_ground_entities@[a].entity != sensor
                    .intersecting_ground_entities@[b].entity by {
                    if b < s0.len() {
                        assert(s0[a].entity != s0[b].entity);
                    } else {
                        assert(s0[a].entity != entity);
                    }
                }
            }
        }
    }
}

/// Drop `entity` from the overlap set, if present.
fn remove_ground(sensor: &mut GroundSensor, entity: u64)
    requires
        old(sensor).wf(),
    ensures
        final(sensor).wf(),
        final(sensor).ground_detection_entity == old(sensor).ground_detection_entity,
        final(sensor).sensor_entity == old(sensor).sensor_entity,
        final(sensor).contents() == old(sensor).contents().remove(entity),
{
    let ghost s0 = sensor.intersecting_ground_entities@;
    match find_entity(&sensor.intersecting_ground_entities, entity) {
        Some(i) => {
            sensor.intersecting_ground_entities.remove(i);
            proof {
                lemma_sensor_map_remove(s0, i as int);
                s0.remove_ensures(i as int);
                assert forall|a: int, b: int|
                    0 <= a < b < sensor.intersecting_ground_entities@.len() implies sensor
                    .intersecting_ground_entities@[a].entity != sensor
                    .intersecting_ground_entities@[b].entity by {
                    let sa = sensor.intersecting_ground_entities@[a];
                    let sb = sensor.intersecting_ground_entities@[b];
                    let ia: int = if a < i { a } else { a + 1 };
                    let ib: int = if b < i { b } else { b + 1 };
                    assert(sa == s0[ia]);
                    assert(sb == s0[ib]);
                    assert(s0[ia].entity != s0[ib].entity);
                }
            }
        }
        None => {
            proof {
                lemma_sensor_map_dom(s0);
                assert(sensor_map(s0).remove(entity) =~= sensor_map(s0));
            }
        }
    }
}

/// What one collision event does to the overlap relation: a started contact
/// between the sensor and a collidable records that collidable (flagged as a
/// platform or not), a stopped contact removes it, and anything else leaves
/// the relation untouched.
pub open spec fn spec_apply_event(
    m: Map<u64, bool>,
    ev: CollisionEvent,
    sensor_id: u64,
    collidables: Seq<u64>,
    platforms: Seq<u64>,
) -> Map<u64, bool> {
    match ev {
        CollisionEvent::Started(e1, e2) => if collidables.contains(e1) {
            if e2 == sensor_id {
                m.insert(e1, platforms.contains(e1))
            } else {
                m
            }
        } else if collidables.contains(e2) {
            if e1 == sensor_id {
                m.insert(e2, platforms.contains(e2))
            } else {
                m
            }
        } else {
            m
        },
        CollisionEvent::Stopped(e1, e2) => if collidables.contains(e1) {
            if e2 == sensor_id {
                m.remove(e1)
            } else {
                m
            }
        } else if collidables.contains(e2) {
            if e1 == sensor_id {
                m.remove(e2)
            } else {
                m
            }
        } else {
            m
        },
    }
}

/// The overlap relation after a whole queue of events, oldest first.
pub open spec fn spec_apply_events(
    m: Map<u64, bool>,
    evs: Seq<CollisionEvent>,
    sensor_id: u64,
    collidables: Seq<u64>,
    platforms: Seq<u64>,
) -> Map<u64, bool>
    decreases evs.len(),
{
    if evs.len() <= 0 {
        m
    } else {
        spec_apply_event(
            spec_apply_events(m, evs.drop_last(), sensor_id, collidables, platforms),
            evs.last(),
            sensor_id,
            collidables,
            platforms,
        )
    }
}

/// Apply one collision event to the sensor's overlap set.  `collidables`
/// names the solid, non-sensor entities; `platforms` the entities whose
/// velocity a standing character inherits.
pub fn process_collision_event(
    sensor: &mut GroundSensor,
    event: &CollisionEvent,
    collidables: &Vec<u64>,
    platforms: &Vec<u64>,
)
    requires
        old(sensor).wf(),
    ensures
        final(sensor).wf(),
        final(sensor).ground_detection_entity == old(sensor).ground_detection_entity,
        final(sensor).sensor_entity == old(sensor).sensor_entity,
        final(sensor).contents() == spec_apply_event(
            old(sensor).contents(),
            *event,
            old(sensor).sensor_entity,
            collidables@,
            platforms@,
        ),
{
    match event {
        CollisionEvent::Started(e1, e2) => {
            if contains_u64(collidables, *e1) {
                if *e2 == sensor.sensor_entity {
                    let plat = contains_u64(platforms, *e1);
                    insert_ground(sensor, *e1, plat);
                }
            } else if contains_u64(collidables, *e2) {
                if *e1 == sensor.sensor_entity {
                    let plat = contains_u64(platforms, *e2);
                    insert_ground(sensor, *e2, plat);
                }
            }
        }
        CollisionEvent::Stopped(e1, e2) => {
            if contains_u64(collidables, *e1) {
                if *e2 == sensor.sensor_entity {
                    remove_ground(sensor, *e1);
                }
            } else if contains_u64(collidables, *e2) {
                if *e1 == sensor.sensor_entity {
                    remove_ground(sensor, *e2);
                }
            }
        }
    }
}

/// Drain a frame's queued collision events into the sensor's overlap set, in
/// order of arrival.
pub fn ground_detection(
    sensor: &mut GroundSensor,
    events: &Vec<CollisionEvent>,
    collidables: &Vec<u64>,
    platforms: &Vec<u64>,
)
    requires
        old(sensor).wf(),
    ensures
        final(sensor).wf(),
        final(sensor).ground_detection_entity == old(sensor).ground_detection_entity,
        final(sensor).sensor_entity == old(sensor).sensor_entity,
        final(sensor).contents() == spec_apply_events(
            old(sensor).contents(),
            events@,
            old(sensor).sensor_entity,
            collidables@,
            platforms@,
        ),
{
    let ghost m0 = old(sensor).contents();
    let ghost sid = old(sensor).sensor_entity;
    let mut i: usize = 0;
    while i < events.len()
        invariant
            i <= events.len(),
            sensor.wf(),
            sensor.ground_detection_entity == old(sensor).ground_detection_entity,
            sensor.sensor_entity == sid,
            sensor.contents() == spec_apply_events(
                m0,
                events@.subrange(0, i as int),
                sid,
                collidables@,
                platforms@,
            ),
        decreases events.len() - i,
    {
        process_collision_event(sensor, &events[i], collidables, platforms);
        proof {
            let pre = events@.subrange(0, i as int);
            let post = events@.subrange(0, i + 1);
            assert(post.drop_last() =~= pre);
            assert(post.last() == events@[i as int]);
        }
        i += 1;
    }
    proof {
        assert(events@.subrange(0, events@.len() as int) =~= events@);
    }
}

/// Cached attributes of the ground entity a character stands on.
#[derive(Clone, Copy, Debug, PartialEq, Eq, Structural)]
pub struct GroundAttrs {
    /// Whether the ground is a moving platform whose velocity is inherited.
    pub is_platform: bool,
}

/// The grounded relation derived from the ground sensor: either airborne, or
/// standing on a particular ground entity (held by identity, never owned).
#[derive(Clone, Copy, Debug, PartialEq, Eq, Structural)]
pub enum GroundDetection {
    OnGround(u64, GroundAttrs),
    NotOnGround,
}

impl GroundDetection {
    /// Whether the character currently touches any ground.
    pub fn on_ground(&self) -> (r: bool)
        ensures
            r == (*self is OnGround),
    {
        match self {
            GroundDetection::OnGround(_, _) => true,
            GroundDetection::NotOnGround => false,
        }
    }
}

impl Default for GroundDetection {
    /// A character starts airborne until its sensor reports contact.
    fn default() -> (r: Self)
        ensures
            r == GroundDetection::NotOnGround,
    {
        GroundDetection::NotOnGround
    }
}

/// The coyote grace window: armed when the character walks off a ledge, it
/// lets a jump press shortly after leaving the ground still count as a
/// grounded jump.  Paused by default.
#[derive(Clone, Copy, Debug, PartialEq, Eq, Structural)]
pub struct CoyoteTimer(pub Timer);

impl Default for CoyoteTimer {
    /// A paused one-shot countdown over the grace duration.
    fn default() -> (r: Self)
        ensures
            r.0 == (Timer {
                duration_ms: COYOTE_GRACE_MS,
                elapsed_ms: 0,
                mode: TimerMode::Once,
                paused: true,
                finished: false,
            }),
            r.0.wf(),
    {
        let mut t = Timer::new(COYOTE_GRACE_MS, TimerMode::Once);
        t.pause();
        CoyoteTimer(t)
    }
}

impl TimerHelper for CoyoteTimer {
    open spec fn timer(&self) -> Timer {
        self.0
    }

    fn restart(&mut self) {
        self.0.reset();
        self.0.unpause();
    }

    fn is_stopped(&self) -> (r: bool) {
        self.0.paused || self.0.finished
    }
}

/// The grounded relation an overlap set yields: standing on the overlap set's
/// first entry if there is one, else airborne.  Contact with several grounds
/// is treated equivalently; which one is named is arbitrary.
pub open spec fn spec_detection_of(s: Seq<GroundEntry>) -> GroundDetection {
    if s.len() > 0 {
        GroundDetection::OnGround(s[0].entity, GroundAttrs { is_platform: s[0].is_platform })
    } else {
        GroundDetection::NotOnGround
    }
}

/// Whether this frame arms the coyote grace window: the character was on the
/// ground last frame, the sensor now reports no contact, and no jump is in
/// progress.
pub open spec fn spec_coyote_armed(
    s: Seq<GroundEntry>,
    was_on_ground: bool,
    jumper: Jumper,
) -> bool {
    s.len() == 0 && was_on_ground && !(jumper is Jumping)
}

/// Recompute the grounded relation from the sensor's overlap set, arming the
/// coyote timer exactly on the grounded-to-airborne edge of a character that
/// is not mid-jump.
pub fn update_on_ground(
    detection: &mut GroundDetection,
    coyote_timer: &mut CoyoteTimer,
    sensor: &GroundSensor,
    was_on_ground: bool,
    jumper: &Jumper,
)
    ensures
        *final(detection) == spec_detection_of(sensor.intersecting_ground_entities@),
        final(coyote_timer).0 == if spec_coyote_armed(
            sensor.intersecting_ground_entities@,
            was_on_ground,
            *jumper,
        ) {
            crate::timer_helpers::spec_restarted(old(coyote_timer).0)
        } else {
            old(coyote_timer).0
        },
{
    if sensor.intersecting_ground_entities.len() > 0 {
        let first = sensor.intersecting_ground_entities[0];
        *detection = GroundDetection::OnGround(
            first.entity,
            GroundAttrs { is_platform: first.is_platform },
        );
    } else {
        *detection = GroundDetection::NotOnGround;
        if was_on_ground && !jumper.is_jumping() {
            coyote_timer.restart();
        }
    }
}

/// Whether, after the events so far, `e` has a started contact with the
/// sensor that no later stopped contact has undone.
pub open spec fn spec_touching(
    evs: Seq<CollisionEvent>,
    sensor_id: u64,
    collidables: Seq<u64>,
    e: u64,
) -> bool
    decreases evs.len(),
{
    if evs.len() <= 0 {
        false
    } else {
        let prev = spec_touching(evs.drop_last(), sensor_id, collidables, e);
        match evs.last() {
            CollisionEvent::Started(e1, e2) => if collidables.contains(e1) {
                if e2 == sensor_id && e1 == e {
                    true
                } else {
                    prev
                }
            } else if collidables.contains(e2) {
                if e1 == sensor_id && e2 == e {
                    true
                } else {
                    prev
                }
            } else {
                prev
            },
            CollisionEvent::Stopped(e1, e2) => if collidables.contains(e1) {
                if e2 == sensor_id && e1 == e {
                    false
                } else {
                    prev
                }
            } else if collidables.contains(e2) {
                if e1 == sensor_id && e2 == e {
                    false
                } else {
                    prev
                }
            } else {
                prev
            },
        }
    }
}

/// Grounded invariant.  For every sequence of collision start/stop events
/// processed from an empty overlap set, the overlap relation holds exactly
/// those collidable entities whose contact with the sensor started and has
/// not since stopped — an entity is never recorded twice and never left
/// dangling past its stop event — and the derived grounded relation reports
/// contact precisely when that overlap relation is non-empty.
pub proof fn lemma_ground_invariant(
    evs: Seq<CollisionEvent>,
    sensor_id: u64,
    collidables: Seq<u64>,
    platforms: Seq<u64>,
)
    ensures
        forall|e: u64|
            #[trigger] spec_apply_events(
                Map::<u64, bool>::empty(),
                evs,
                sensor_id,
                collidables,
                platforms,
            ).dom().contains(e) <==> spec_touching(evs, sensor_id, collidables, e),
    decreases evs.len(),
{
    if evs.len() > 0 {
        lemma_ground_invariant(evs.drop_last(), sensor_id, collidables, platforms);
        let prev = spec_apply_events(
            Map::<u64, bool>::empty(),
            evs.drop_last(),
            sensor_id,
            collidables,
            platforms,
        );
        let cur = spec_apply_events(Map::<u64, bool>::empty(), evs, sensor_id, collidables, platforms);
        assert(cur == spec_apply_event(prev, evs.last(), sensor_id, collidables, platforms));
        assert forall|e: u64| #[trigger] cur.dom().contains(e) <==> spec_touching(
            evs,
            sensor_id,
            collidables,
            e,
        ) by {
            assert(prev.dom().contains(e) <==> spec_touching(
                evs.drop_last(),
                sensor_id,
                collidables,
                e,
            ));
        }
    }
}

/// A sub-shape of a compound collider as the sensor placement reads it: a
/// box, or something the placement cannot use.
#[derive(Clone, Copy, Debug, PartialEq, Eq, Structural)]
pub enum SubShapeView {
    Cuboid { half_x: i64, half_y: i64 },
    Other,
}

/// One child of a compound collider: its offset within the compound and its
/// shape.
#[derive(Clone, Copy, Debug, PartialEq, Eq, Structural)]
pub struct SubShape {
    pub x: i64,
    pub y: i64,
    pub shape: SubShapeView,
}

/// A character's main collider as the sensor placement reads it.
pub enum ColliderShape {
    Cuboid { half_x: i64, half_y: i64 },
    Compound(Vec<SubShape>),
    Other,
}

/// Where the ground sensor goes: a box of the given half-extents, centred
/// `offset_y` below/above the character's origin.
#[derive(Clone, Copy, Debug, PartialEq, Eq, Structural)]
pub struct SensorPlacement {
    pub half_x: i64,
    pub half_y: i64,
    pub offset_y: i64,
}

/// Half-extents are non-negative and all coordinates stay within the world
/// bound.
pub open spec fn sub_shape_wf(s: SubShape) -> bool {
    &&& -COORD_LIMIT <= s.x <= COORD_LIMIT
    &&& -COORD_LIMIT <= s.y <= COORD_LIMIT
    &&& (s.shape matches SubShapeView::Cuboid { half_x, half_y } ==> 0 <= half_x <= COORD_LIMIT
        && 0 <= half_y <= COORD_LIMIT)
}

/// Well-formedness of a collider shape handed to the sensor placement.
pub open spec fn shape_wf(shape: ColliderShape) -> bool {
    match shape {
        ColliderShape::Cuboid { half_x, half_y } => 0 <= half_x <= COORD_LIMIT && 0 <= half_y
            <= COORD_LIMIT,
        ColliderShape::Compound(subs) => forall|i: int|
            0 <= i < subs@.len() ==> sub_shape_wf(#[trigger] subs@[i]),
        ColliderShape::Other => true,
    }
}

/// The index of the box child chosen among the first `n` children of a
/// compound: the first one whose vertical offset is lowest.
pub open spec fn spec_best_cuboid(subs: Seq<SubShape>, n: int) -> Option<int>
    decreases n,
{
    if n <= 0 {
        None
    } else {
        let prev = spec_best_cuboid(subs, n - 1);
        if subs[n - 1].shape is Cuboid {
            match prev {
                None => Some(n - 1),
                Some(i) => if subs[n - 1].y < subs[i].y {
                    Some(n - 1)
                } else {
                    prev
                },
            }
        } else {
            prev
        }
    }
}

/// The chosen child is a box whose vertical offset is minimal among all box
/// children, and the earliest such child; when no child is a box, nothing is
/// chosen.
pub proof fn lemma_best_cuboid_props(subs: Seq<SubShape>, n: int)
    requires
        0 <= n <= subs.len(),
    ensures
        match spec_best_cuboid(subs, n) {
            None => forall|j: int| 0 <= j < n ==> !(#[trigger] subs[j].shape is Cuboid),
            Some(i) => {
                &&& 0 <= i < n
                &&& subs[i].shape is Cuboid
                &&& forall|j: int|
                    0 <= j < n && #[trigger] subs[j].shape is Cuboid ==> subs[i].y <= subs[j].y
                &&& forall|j: int|
                    0 <= j < i && #[trigger] subs[j].shape is Cuboid ==> subs[i].y < subs[j].y
            },
        },
    decreases n,
{
    if n > 0 {
        lemma_best_cuboid_props(subs, n - 1);
    }
}

/// Compute where the ground sensor goes under a character with the given main
/// collider: a thin box half as wide as the character's box, sitting at the
/// bottom of it.  For a compound collider the box child with the lowest
/// vertical offset is the reference; a shape with no usable box yields no
/// placement at all (such a character never registers as grounded).
pub fn ground_sensor_placement(shape: &ColliderShape) -> (r: Option<SensorPlacement>)
    requires
        shape_wf(*shape),
    ensures
        (shape matches ColliderShape::Cuboid { half_x, half_y } ==> r matches Some(p)
            && p.half_x == half_x as int / 2 && p.half_y == DETECTOR_HALF_HEIGHT && p.offset_y
            == -(half_y as int)),
        (*shape is Other ==> r is None),
        (shape matches ColliderShape::Compound(subs) ==> match spec_best_cuboid(
            subs@,
            subs@.len() as int,
        ) {
            None => r is None,
            Some(i) => {
                &&& (subs@[i].shape matches SubShapeView::Cuboid { half_x, half_y }
                    && r matches Some(p) && p.half_x == half_x as int / 2 && p.half_y
                    == DETECTOR_HALF_HEIGHT && p.offset_y == -(half_y as int) + subs@[i].y)
            },
        }),
{
    match shape {
        ColliderShape::Cuboid { half_x, half_y } => Some(SensorPlacement {
            half_x: *half_x / 2,
            half_y: DETECTOR_HALF_HEIGHT,
            offset_y: -*half_y,
        }),
        ColliderShape::Other => None,
        ColliderShape::Compound(subs) => {
            let mut best: Option<usize> = None;
            let mut i: usize = 0;
            while i < subs.len()
                invariant
                    i <= subs.len(),
                    forall|k: int| 0 <= k < subs@.len() ==> sub_shape_wf(#[trigger] subs@[k]),
                    match best {
                        None => spec_best_cuboid(subs@, i as int) is None,
                        Some(b) => b < i && spec_best_cuboid(subs@, i as int) == Some(b as int),
                    },
                decreases subs.len() - i,
            {
                let is_cuboid = match subs[i].shape {
                    SubShapeView::Cuboid { .. } => true,
                    SubShapeView::Other => false,
                };
                if is_cuboid {
                    match best {
                        None => {
                            best = Some(i);
                        }
                        Some(b) => {
                            if subs[i].y < subs[b].y {
                                best = Some(i);
                            }
                        }
                    }
                }
                i += 1;
            }
            match best {
                None => None,
                Some(b) => {
                    proof {
                        lemma_best_cuboid_props(subs@, subs@.len() as int);
                    }
                    let sub = subs[b];
                    match sub.shape {
                        SubShapeView::Cuboid { half_x, half_y } => Some(SensorPlacement {
                            half_x: half_x / 2,
                            half_y: DETECTOR_HALF_HEIGHT,
                            offset_y: -half_y + sub.y,
                        }),
                        SubShapeView::Other => {
                            proof {
                                assert(false);
                            }
                            None
                        }
                    }
                }
            }
        }
    }
}

/// The coyote window is armed exactly on the falling edge: a character that
/// was on the ground, now senses no contact, and is not mid-jump has its
/// grace timer restarted by `update_on_ground` — and a restarted timer is
/// running, not stopped.
pub proof fn lemma_coyote_armed_on_falling_edge(
    s: Seq<GroundEntry>,
    was_on_ground: bool,
    jumper: Jumper,
    t: Timer,
)
    requires
        s.len() == 0,
        was_on_ground,
        !(jumper is Jumping),
    ensures
        spec_coyote_armed(s, was_on_ground, jumper),
        !crate::timer_helpers::spec_restarted(t).spec_stopped(),
{
}

/// The grounded relation reports contact exactly when the overlap set is
/// non-empty.
pub proof fn lemma_on_ground_iff_overlap(s: Seq<GroundEntry>)
    ensures
        (spec_detection_of(s) is OnGround) <==> sensor_map(s).dom() != Set::<u64>::empty(),
{
    lemma_sensor_map_dom(s);
    if s.len() > 0 {
        assert(has_entity(s, s[0].entity));
        assert(sensor_map(s).dom().contains(s[0].entity));
    } else {
        assert(sensor_map(s).dom() =~= Set::<u64>::empty());
    }
}

} // verus!
