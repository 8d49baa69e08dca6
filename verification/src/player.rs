//! The movement resolver: once per simulation step it reads the input
//! snapshot, grounded state, climbing state, charge states and grace timers,
//! and produces the character's commanded velocity together with the motion
//! events the presentation layer consumes.
//!
//! The steps run in a fixed order, and later steps may override earlier ones
//! within the same frame: baseline from the platform stood on, horizontal
//! run, climb engagement and drive, buffered-jump consumption, fresh
//! jump-press handling, dash-press handling, charge settling, and finally the
//! idle notification.  All velocity commands are platform-relative offsets
//! added to the baseline, so standing on a moving platform carries the
//! character along; comparisons against the baseline are exact by design.
//! Each step has a specification function of its own, named after it; the
//! resolver's contract is stated over those.

use vstd::prelude::*;

use crate::actions::InputSnapshot;
use crate::climbing::{spec_climb_engaged, update_climbing, Climber};
use crate::ground_detection::{
    ground_detection, spec_apply_events, spec_coyote_armed, spec_detection_of, update_on_ground,
    CollisionEvent, CoyoteTimer, GroundDetection, GroundSensor, COYOTE_GRACE_MS,
};
use crate::jumping::{
    spec_dash_direction, spec_dash_vector_x, spec_dash_vector_y, DashDirection, Dasher, Dashing,
    JumpBufferTimer, Jumper, Jumping, EXTRA_DASH_CHARGES, EXTRA_JUMP_CHARGES, JUMP_BUFFER_MS,
};
use crate::timer_helpers::{
    spec_paused, spec_restarted, spec_sum, spec_ticked, spec_ticked_all, Timer, TimerHelper,
    TimerMode,
};
use crate::vec2::Vec2i;

verus! {

/// Horizontal run speed, in world units per second.
pub const RUN_SPEED: i64 = 200;

/// Vertical climb speed, in world units per second.
pub const CLIMB_SPEED: i64 = 150;

/// Upward speed commanded by a jump, in world units per second.
pub const JUMP_SPEED: i64 = 450;

/// Speed added along the dash direction, in world units per second.
pub const DASH_SPEED: i64 = 400;

/// Bound on the velocities handed to the resolver, in world units per second.
pub const VEL_LIMIT: i64 = 1_000_000_000;

/// The direction the character faces, as driven by the horizontal holds.
#[derive(Clone, Copy, Debug, PartialEq, Eq, Structural)]
pub enum MovementDirection {
    Neutral,
    Right,
    Left,
}

impl Default for MovementDirection {
    /// A character faces nowhere in particular until it moves.
    fn default() -> (r: Self)
        ensures
            r == MovementDirection::Neutral,
    {
        MovementDirection::Neutral
    }
}

/// The direction of a climb, for the climbing motion event.
#[derive(Clone, Copy, Debug, PartialEq, Eq, Structural)]
pub enum ClimbDirection {
    Up,
    Down,
}

/// A semantic motion signal for the presentation layer, decoupled from the
/// physics state.  Several may be emitted for one character in one frame;
/// the last one emitted wins.
#[derive(Clone, Copy, Debug, PartialEq, Eq, Structural)]
pub enum MotionEvent {
    Idle,
    Running(MovementDirection),
    Climbing(ClimbDirection),
    Jumping,
    Dashing,
}

/// A level or world respawn requested by the player.
#[derive(Clone, Copy, Debug, PartialEq, Eq, Structural)]
pub enum RespawnCommand {
    RespawnLevel,
    RespawnWorld,
}

/// Everything the resolver owns about one character, aggregated into one
/// record passed by reference.
pub struct Character {
    /// The grounded relation derived from the ground sensor.
    pub ground_detection: GroundDetection,
    /// The previous frame's grounded boolean, for the coyote falling edge.
    pub was_on_ground: bool,
    /// Climbable overlap and climb engagement.
    pub climber: Climber,
    /// Jump charge state.
    pub jumper: Jumper,
    /// Dash charge state.
    pub dasher: Dasher,
    /// The coyote grace window.
    pub coyote_timer: CoyoteTimer,
    /// The pre-landing jump buffer.
    pub jump_buffer_timer: JumpBufferTimer,
    /// The net horizontal hold of this frame.
    pub movement_direction: MovementDirection,
    /// Whether the character faces left (kept across frames with no hold).
    pub facing_left: bool,
}

impl Character {
    /// Overlap sets hold no duplicates, charges are never negative, and the
    /// timers are well formed.
    pub open spec fn wf(self) -> bool {
        &&& self.climber.wf()
        &&& self.jumper.wf()
        &&& self.dasher.wf()
        &&& self.coyote_timer.0.wf()
        &&& self.jump_buffer_timer.0.wf()
    }

    /// A freshly spawned character: airborne, settled, not climbing, both
    /// grace timers paused at zero.
    pub fn new() -> (c: Character)
        ensures
            c.wf(),
            c.ground_detection == GroundDetection::NotOnGround,
            !c.was_on_ground,
            !c.climber.climbing,
            c.climber.intersecting_climbables@.len() == 0,
            c.jumper == Jumper::NotJumping,
            c.dasher == Dasher::NotDashing,
            c.coyote_timer.0 == (Timer {
                duration_ms: COYOTE_GRACE_MS,
                elapsed_ms: 0,
                mode: TimerMode::Once,
                paused: true,
                finished: false,
            }),
            c.jump_buffer_timer.0 == (Timer {
                duration_ms: JUMP_BUFFER_MS,
                elapsed_ms: 0,
                mode: TimerMode::Once,
                paused: true,
                finished: false,
            }),
            c.movement_direction == MovementDirection::Neutral,
            !c.facing_left,
    {
        Character {
            ground_detection: GroundDetection::NotOnGround,
            was_on_ground: false,
            climber: Climber::new(),
            jumper: Jumper::NotJumping,
            dasher: Dasher::NotDashing,
            coyote_timer: CoyoteTimer::default(),
            jump_buffer_timer: JumpBufferTimer::default(),
            movement_direction: MovementDirection::Neutral,
            facing_left: false,
        }
    }
}

/// A net rightward hold: right held and left not.
pub open spec fn spec_net_right(input: InputSnapshot) -> bool {
    input.right_held && !input.left_held
}

/// A net leftward hold.
pub open spec fn spec_net_left(input: InputSnapshot) -> bool {
    input.left_held && !input.right_held
}

/// A net upward hold.
pub open spec fn spec_net_up(input: InputSnapshot) -> bool {
    input.up_held && !input.down_held
}

/// A net downward hold.
pub open spec fn spec_net_down(input: InputSnapshot) -> bool {
    input.down_held && !input.up_held
}

/// Whether the character currently touches ground.
pub open spec fn spec_grounded(ch: Character) -> bool {
    ch.ground_detection is OnGround
}

/// Step 1, horizontal part: the baseline is the stood-on platform's velocity,
/// zero when airborne or standing on ordinary ground.
pub open spec fn spec_baseline_x(ch: Character, ground_velocity: Vec2i) -> int {
    match ch.ground_detection {
        GroundDetection::OnGround(_, attrs) => if attrs.is_platform {
            ground_velocity.x as int
        } else {
            0
        },
        GroundDetection::NotOnGround => 0,
    }
}

/// Step 1, vertical part: the vertical baseline, by the same rule.
pub open spec fn spec_baseline_y(ch: Character, ground_velocity: Vec2i) -> int {
    match ch.ground_detection {
        GroundDetection::OnGround(_, attrs) => if attrs.is_platform {
            ground_velocity.y as int
        } else {
            0
        },
        GroundDetection::NotOnGround => 0,
    }
}

/// This frame's movement direction: the held side, rightward winning a
/// conflict, neutral when neither side is held.
pub open spec fn spec_movement_direction(input: InputSnapshot) -> MovementDirection {
    if input.right_held {
        MovementDirection::Right
    } else if input.left_held {
        MovementDirection::Left
    } else {
        MovementDirection::Neutral
    }
}

/// The facing after this frame: holds turn the character, no hold keeps the
/// previous facing.
pub open spec fn spec_facing_left(input: InputSnapshot, prev: bool) -> bool {
    if input.right_held {
        false
    } else if input.left_held {
        true
    } else {
        prev
    }
}

/// Step 2: a net horizontal hold runs at `RUN_SPEED` relative to the
/// baseline; both or neither held commands the baseline itself.
pub open spec fn spec_vx_run(ch: Character, input: InputSnapshot, ground_velocity: Vec2i) -> int {
    spec_baseline_x(ch, ground_velocity) + if spec_net_right(input) {
        RUN_SPEED as int
    } else if spec_net_left(input) {
        -(RUN_SPEED as int)
    } else {
        0
    }
}

/// Step 3: whether climbing is engaged this frame — edge-triggered on a
/// fresh up/down press, forced off without a climbable overlap.
pub open spec fn spec_climbing_engaged(ch: Character, input: InputSnapshot) -> bool {
    spec_climb_engaged(ch.climber, input.up_just_pressed, input.down_just_pressed)
}

/// Step 3: while climbing, the vertical command is driven directly by the
/// net vertical hold at `CLIMB_SPEED` over the baseline (cancelling to the
/// baseline when both or neither is held); otherwise the incoming vertical
/// velocity passes through.
pub open spec fn spec_vy_climb(
    ch: Character,
    input: InputSnapshot,
    velocity: Vec2i,
    ground_velocity: Vec2i,
) -> int {
    if spec_climbing_engaged(ch, input) {
        spec_baseline_y(ch, ground_velocity) + if spec_net_up(input) {
            CLIMB_SPEED as int
        } else if spec_net_down(input) {
            -(CLIMB_SPEED as int)
        } else {
            0
        }
    } else {
        velocity.y as int
    }
}

/// Step 4: whether landing consumes an active jump buffer this frame.
pub open spec fn spec_buffer_consumed(ch: Character) -> bool {
    spec_grounded(ch) && !ch.jump_buffer_timer.0.spec_stopped()
}

/// The jump state once a buffered jump, if any, has been granted.
pub open spec fn spec_jumper_after_buffer(ch: Character) -> Jumper {
    if spec_buffer_consumed(ch) {
        Jumper::Jumping(Jumping { jumps_left: EXTRA_JUMP_CHARGES })
    } else {
        ch.jumper
    }
}

/// Step 5: a fresh jump press starts a jump when none is in progress and the
/// character is grounded, climbing, or within the coyote grace.
pub open spec fn spec_fresh_jump(ch: Character, input: InputSnapshot) -> bool {
    &&& input.jump_just_pressed
    &&& spec_jumper_after_buffer(ch) is NotJumping
    &&& (spec_grounded(ch) || spec_climbing_engaged(ch, input)
        || !ch.coyote_timer.0.spec_stopped())
}

/// Step 5: a fresh jump press mid-jump, not climbing, with a charge left, is
/// an air jump.
pub open spec fn spec_air_jump(ch: Character, input: InputSnapshot) -> bool {
    &&& input.jump_just_pressed
    &&& !spec_climbing_engaged(ch, input)
    &&& (spec_jumper_after_buffer(ch) matches Jumper::Jumping(j) && j.jumps_left > 0)
}

/// Step 5: a fresh jump press mid-jump, not climbing, out of charges, arms
/// the jump buffer instead.
pub open spec fn spec_buffer_armed(ch: Character, input: InputSnapshot) -> bool {
    &&& input.jump_just_pressed
    &&& !spec_climbing_engaged(ch, input)
    &&& (spec_jumper_after_buffer(ch) matches Jumper::Jumping(j) && j.jumps_left <= 0)
}

/// One air-jump charge consumed.
pub open spec fn spec_consume_jump(j: Jumper) -> Jumper {
    match j {
        Jumper::Jumping(jj) => Jumper::Jumping(Jumping { jumps_left: (jj.jumps_left - 1) as i8 }),
        Jumper::NotJumping => Jumper::NotJumping,
    }
}

/// The jump state after the jump-press step.
pub open spec fn spec_jumper_after_press(ch: Character, input: InputSnapshot) -> Jumper {
    if spec_fresh_jump(ch, input) {
        Jumper::Jumping(Jumping { jumps_left: EXTRA_JUMP_CHARGES })
    } else if spec_air_jump(ch, input) {
        spec_consume_jump(spec_jumper_after_buffer(ch))
    } else {
        spec_jumper_after_buffer(ch)
    }
}

/// Climb engagement after the jump-press step: a fresh jump start disengages
/// climbing.
pub open spec fn spec_climbing_final(ch: Character, input: InputSnapshot) -> bool {
    if spec_fresh_jump(ch, input) {
        false
    } else {
        spec_climbing_engaged(ch, input)
    }
}

/// The coyote timer after this frame's resolution: consumed (paused) the
/// instant a fresh jump is accepted, untouched otherwise.
pub open spec fn spec_coyote_final(ch: Character, input: InputSnapshot) -> Timer {
    if spec_fresh_jump(ch, input) {
        spec_paused(ch.coyote_timer.0)
    } else {
        ch.coyote_timer.0
    }
}

/// The jump buffer after this frame's resolution: consumed (paused) by a
/// buffered jump on landing, rearmed by a chargeless press, untouched
/// otherwise.
pub open spec fn spec_buffer_final(ch: Character, input: InputSnapshot) -> Timer {
    let after_landing = if spec_buffer_consumed(ch) {
        spec_paused(ch.jump_buffer_timer.0)
    } else {
        ch.jump_buffer_timer.0
    };
    if spec_buffer_armed(ch, input) {
        spec_restarted(after_landing)
    } else {
        after_landing
    }
}

/// The vertical command once jumps are resolved: any jump granted this frame
/// (buffered, fresh or air) commands `JUMP_SPEED` over the baseline.
pub open spec fn spec_vy_jump(
    ch: Character,
    input: InputSnapshot,
    velocity: Vec2i,
    ground_velocity: Vec2i,
) -> int {
    if spec_buffer_consumed(ch) || spec_fresh_jump(ch, input) || spec_air_jump(ch, input) {
        spec_baseline_y(ch, ground_velocity) + JUMP_SPEED as int
    } else {
        spec_vy_climb(ch, input, velocity, ground_velocity)
    }
}

/// Step 6: a fresh dash press is legal only with a charge available and
/// never while climbing.
pub open spec fn spec_dash_allowed(ch: Character, input: InputSnapshot) -> bool {
    &&& input.dash_just_pressed
    &&& !spec_climbing_final(ch, input)
    &&& match ch.dasher {
        Dasher::NotDashing => true,
        Dasher::Dashing(d) => d.dashs_left > 0,
    }
}

/// The dash direction of this frame, from the directional holds and the
/// facing after the horizontal step.
pub open spec fn spec_frame_dash_direction(ch: Character, input: InputSnapshot) -> DashDirection {
    spec_dash_direction(
        input.up_held,
        input.right_held,
        input.down_held,
        input.left_held,
        spec_facing_left(input, ch.facing_left),
    )
}

/// A dash activation: starting at the full extra charges, or consuming one.
pub open spec fn spec_activate_dash(d: Dasher) -> Dasher {
    match d {
        Dasher::NotDashing => Dasher::Dashing(Dashing { dashs_left: EXTRA_DASH_CHARGES }),
        Dasher::Dashing(dd) => Dasher::Dashing(Dashing { dashs_left: (dd.dashs_left - 1) as i8 }),
    }
}

/// The horizontal command of this frame: the run command, plus the dash
/// direction scaled by `DASH_SPEED` when a dash fires.
pub open spec fn spec_vx_final(ch: Character, input: InputSnapshot, ground_velocity: Vec2i) -> int {
    if spec_dash_allowed(ch, input) {
        spec_vx_run(ch, input, ground_velocity) + spec_dash_vector_x(
            spec_frame_dash_direction(ch, input),
        ) * DASH_SPEED
    } else {
        spec_vx_run(ch, input, ground_velocity)
    }
}

/// The vertical command of this frame, dash included.
pub open spec fn spec_vy_final(
    ch: Character,
    input: InputSnapshot,
    velocity: Vec2i,
    ground_velocity: Vec2i,
) -> int {
    if spec_dash_allowed(ch, input) {
        spec_vy_jump(ch, input, velocity, ground_velocity) + spec_dash_vector_y(
            spec_frame_dash_direction(ch, input),
        ) * DASH_SPEED
    } else {
        spec_vy_jump(ch, input, velocity, ground_velocity)
    }
}

/// Step 7: the jump state settles back to inactive once the vertical command
/// is exactly at the baseline on the ground with no fresh jump press.
pub open spec fn spec_jumper_final(
    ch: Character,
    input: InputSnapshot,
    velocity: Vec2i,
    ground_velocity: Vec2i,
) -> Jumper {
    if spec_grounded(ch) && spec_vy_final(ch, input, velocity, ground_velocity) == spec_baseline_y(
        ch,
        ground_velocity,
    ) && !input.jump_just_pressed {
        Jumper::NotJumping
    } else {
        spec_jumper_after_press(ch, input)
    }
}

/// Step 7: the dash state settles by the symmetric rule, over both axes.
pub open spec fn spec_dasher_final(
    ch: Character,
    input: InputSnapshot,
    velocity: Vec2i,
    ground_velocity: Vec2i,
) -> Dasher {
    if spec_grounded(ch) && spec_vx_final(ch, input, ground_velocity) == spec_baseline_x(
        ch,
        ground_velocity,
    ) && spec_vy_final(ch, input, velocity, ground_velocity) == spec_baseline_y(
        ch,
        ground_velocity,
    ) && !input.dash_just_pressed {
        Dasher::NotDashing
    } else if spec_dash_allowed(ch, input) {
        spec_activate_dash(ch.dasher)
    } else {
        ch.dasher
    }
}

/// Step 8: the idle event fires when nothing is held or freshly pressed, the
/// character is neither climbing nor mid-jump, and the command sits exactly
/// at the baseline on both axes.
pub open spec fn spec_idle(
    ch: Character,
    input: InputSnapshot,
    velocity: Vec2i,
    ground_velocity: Vec2i,
) -> bool {
    &&& !spec_net_right(input)
    &&& !spec_net_left(input)
    &&& !input.jump_just_pressed
    &&& !spec_climbing_final(ch, input)
    &&& !(spec_jumper_final(ch, input, velocity, ground_velocity) is Jumping)
    &&& spec_vx_final(ch, input, ground_velocity) == spec_baseline_x(ch, ground_velocity)
    &&& spec_vy_final(ch, input, velocity, ground_velocity) == spec_baseline_y(ch, ground_velocity)
}

/// The running event of step 2, if any.
pub open spec fn spec_run_events(input: InputSnapshot) -> Seq<MotionEvent> {
    if spec_net_right(input) {
        seq![MotionEvent::Running(MovementDirection::Right)]
    } else if spec_net_left(input) {
        seq![MotionEvent::Running(MovementDirection::Left)]
    } else {
        Seq::<MotionEvent>::empty()
    }
}

/// The climbing event of step 3, if any: emitted while climbing with a net
/// vertical hold.
pub open spec fn spec_climb_events(ch: Character, input: InputSnapshot) -> Seq<MotionEvent> {
    if spec_climbing_engaged(ch, input) && spec_net_up(input) {
        seq![MotionEvent::Climbing(ClimbDirection::Up)]
    } else if spec_climbing_engaged(ch, input) && spec_net_down(input) {
        seq![MotionEvent::Climbing(ClimbDirection::Down)]
    } else {
        Seq::<MotionEvent>::empty()
    }
}

/// The jumping event of step 4, if a buffered jump fires.
pub open spec fn spec_buffer_events(ch: Character) -> Seq<MotionEvent> {
    if spec_buffer_consumed(ch) {
        seq![MotionEvent::Jumping]
    } else {
        Seq::<MotionEvent>::empty()
    }
}

/// The jumping event of step 5, if a fresh jump starts.
pub open spec fn spec_press_events(ch: Character, input: InputSnapshot) -> Seq<MotionEvent> {
    if spec_fresh_jump(ch, input) {
        seq![MotionEvent::Jumping]
    } else {
        Seq::<MotionEvent>::empty()
    }
}

/// The dashing event of step 6, if a dash fires.
pub open spec fn spec_dash_events(ch: Character, input: InputSnapshot) -> Seq<MotionEvent> {
    if spec_dash_allowed(ch, input) {
        seq![MotionEvent::Dashing]
    } else {
        Seq::<MotionEvent>::empty()
    }
}

/// The idle event of step 8, if nothing suppressed it.
pub open spec fn spec_idle_events(
    ch: Character,
    input: InputSnapshot,
    velocity: Vec2i,
    ground_velocity: Vec2i,
) -> Seq<MotionEvent> {
    if spec_idle(ch, input, velocity, ground_velocity) {
        seq![MotionEvent::Idle]
    } else {
        Seq::<MotionEvent>::empty()
    }
}

/// Every motion event of the frame, in emission order.
pub open spec fn spec_frame_events(
    ch: Character,
    input: InputSnapshot,
    velocity: Vec2i,
    ground_velocity: Vec2i,
) -> Seq<MotionEvent> {
    spec_run_events(input) + spec_climb_events(ch, input) + spec_buffer_events(ch)
        + spec_press_events(ch, input) + spec_dash_events(ch, input) + spec_idle_events(
        ch,
        input,
        velocity,
        ground_velocity,
    )
}

/// Steps 2 and 3: horizontal run, facing, climb engagement and climb drive.
/// Returns the horizontal and vertical commands so far.
fn steps_run_climb(
    ch: &mut Character,
    input: &InputSnapshot,
    base: Vec2i,
    vel_y: i64,
    events: &mut Vec<MotionEvent>,
) -> (v: (i64, i64))
    requires
        -VEL_LIMIT <= base.x <= VEL_LIMIT,
        -VEL_LIMIT <= base.y <= VEL_LIMIT,
        -VEL_LIMIT <= vel_y <= VEL_LIMIT,
    ensures
        v.0 == base.x + if spec_net_right(*input) {
            RUN_SPEED as int
        } else if spec_net_left(*input) {
            -(RUN_SPEED as int)
        } else {
            0
        },
        v.1 == if spec_climbing_engaged(*old(ch), *input) {
            base.y + if spec_net_up(*input) {
                CLIMB_SPEED as int
            } else if spec_net_down(*input) {
                -(CLIMB_SPEED as int)
            } else {
                0
            }
        } else {
            vel_y as int
        },
        -VEL_LIMIT - RUN_SPEED <= v.0 <= VEL_LIMIT + RUN_SPEED,
        -VEL_LIMIT - CLIMB_SPEED <= v.1 <= VEL_LIMIT + CLIMB_SPEED,
        final(ch).climber.climbing == spec_climbing_engaged(*old(ch), *input),
        final(ch).climber.intersecting_climbables == old(ch).climber.intersecting_climbables,
        final(ch).movement_direction == spec_movement_direction(*input),
        final(ch).facing_left == spec_facing_left(*input, old(ch).facing_left),
        final(ch).ground_detection == old(ch).ground_detection,
        final(ch).was_on_ground == old(ch).was_on_ground,
        final(ch).jumper == old(ch).jumper,
        final(ch).dasher == old(ch).dasher,
        final(ch).coyote_timer == old(ch).coyote_timer,
        final(ch).jump_buffer_timer == old(ch).jump_buffer_timer,
        final(events)@ == old(events)@ + spec_run_events(*input) + spec_climb_events(*old(ch), *input),
{
    let ghost ch0 = *old(ch);
    let ghost evs0 = events@;
    // Step 2: horizontal run and facing.
    let net_right = input.right_held && !input.left_held;
    let net_left = input.left_held && !input.right_held;
    let vx: i64 = if net_right {
        base.x + RUN_SPEED
    } else if net_left {
        base.x - RUN_SPEED
    } else {
        base.x
    };
    if net_right {
        events.push(MotionEvent::Running(MovementDirection::Right));
    } else if net_left {
        events.push(MotionEvent::Running(MovementDirection::Left));
    }
    proof {
        assert(events@ =~= evs0 + spec_run_events(*input));
    }
    ch.movement_direction = if input.right_held {
        MovementDirection::Right
    } else if input.left_held {
        MovementDirection::Left
    } else {
        MovementDirection::Neutral
    };
    ch.facing_left = if input.right_held {
        false
    } else if input.left_held {
        true
    } else {
        ch.facing_left
    };
    // Step 3: climb engagement and climb drive.
    update_climbing(&mut ch.climber, input.up_just_pressed, input.down_just_pressed);
    let net_up = input.up_held && !input.down_held;
    let net_down = input.down_held && !input.up_held;
    let mut vy: i64 = vel_y;
    if ch.climber.climbing {
        vy = if net_up {
            base.y + CLIMB_SPEED
        } else if net_down {
            base.y - CLIMB_SPEED
        } else {
            base.y
        };
        if net_up {
            events.push(MotionEvent::Climbing(ClimbDirection::Up));
        } else if net_down {
            events.push(MotionEvent::Climbing(ClimbDirection::Down));
        }
    }
    proof {
        assert(events@ =~= evs0 + spec_run_events(*input) + spec_climb_events(ch0, *input));
    }
    (vx, vy)
}

/// Steps 4 and 5: the buffered jump on landing, then the fresh jump press.
/// `ch0` is the character as it stood at the start of the frame.  Returns the
/// vertical command so far.
fn steps_jump(
    ch: &mut Character,
    input: &InputSnapshot,
    grounded: bool,
    base_y: i64,
    vy_in: i64,
    events: &mut Vec<MotionEvent>,
    Ghost(ch0): Ghost<Character>,
) -> (vy: i64)
    requires
        ch0.wf(),
        old(ch).jumper == ch0.jumper,
        old(ch).coyote_timer == ch0.coyote_timer,
        old(ch).jump_buffer_timer == ch0.jump_buffer_timer,
        old(ch).climber.climbing == spec_climbing_engaged(ch0, *input),
        grounded == spec_grounded(ch0),
        -VEL_LIMIT <= base_y <= VEL_LIMIT,
        -VEL_LIMIT - CLIMB_SPEED <= vy_in <= VEL_LIMIT + CLIMB_SPEED,
    ensures
        final(ch).jumper == spec_jumper_after_press(ch0, *input),
        final(ch).climber.climbing == spec_climbing_final(ch0, *input),
        final(ch).climber.intersecting_climbables == old(ch).climber.intersecting_climbables,
        final(ch).coyote_timer.0 == spec_coyote_final(ch0, *input),
        final(ch).jump_buffer_timer.0 == spec_buffer_final(ch0, *input),
        final(ch).dasher == old(ch).dasher,
        final(ch).ground_detection == old(ch).ground_detection,
        final(ch).was_on_ground == old(ch).was_on_ground,
        final(ch).movement_direction == old(ch).movement_direction,
        final(ch).facing_left == old(ch).facing_left,
        vy == if spec_buffer_consumed(ch0) || spec_fresh_jump(ch0, *input) || spec_air_jump(
            ch0,
            *input,
        ) {
            base_y + JUMP_SPEED as int
        } else {
            vy_in as int
        },
        -VEL_LIMIT - JUMP_SPEED <= vy <= VEL_LIMIT + JUMP_SPEED,
        final(events)@ == old(events)@ + spec_buffer_events(ch0) + spec_press_events(ch0, *input),
{
    let ghost evs0 = events@;
    let mut vy: i64 = vy_in;
    // Step 4: buffered jump consumed on landing, before fresh-press handling
    // so it cannot be double-counted against a same-frame press.
    if grounded && !ch.jump_buffer_timer.is_stopped() {
        ch.jump_buffer_timer.0.pause();
        vy = base_y + JUMP_SPEED;
        ch.jumper = Jumper::Jumping(Jumping { jumps_left: EXTRA_JUMP_CHARGES });
        events.push(MotionEvent::Jumping);
    }
    proof {
        assert(ch.jumper == spec_jumper_after_buffer(ch0));
        assert(events@ =~= evs0 + spec_buffer_events(ch0));
    }
    // Step 5: fresh jump press.
    if input.jump_just_pressed {
        let climbing_now = ch.climber.climbing;
        match ch.jumper {
            Jumper::NotJumping => {
                if grounded || climbing_now || !ch.coyote_timer.is_stopped() {
                    ch.coyote_timer.0.pause();
                    vy = base_y + JUMP_SPEED;
                    ch.jumper = Jumper::Jumping(Jumping { jumps_left: EXTRA_JUMP_CHARGES });
                    ch.climber.climbing = false;
                    events.push(MotionEvent::Jumping);
                }
            }
            Jumper::Jumping(j) => {
                if !climbing_now {
                    if j.jumps_left > 0 {
                        ch.jumper = Jumper::Jumping(Jumping { jumps_left: j.jumps_left - 1 });
                        vy = base_y + JUMP_SPEED;
                    } else {
                        ch.jump_buffer_timer.restart();
                    }
                }
            }
        }
    }
    proof {
        assert(events@ =~= evs0 + spec_buffer_events(ch0) + spec_press_events(ch0, *input));
    }
    vy
}

/// Steps 6 to 8: the fresh dash press, the charge settling at the baseline,
/// and the idle notification.  `ch0` is the character as it stood at the
/// start of the frame.  Returns the commanded velocity of the frame.
fn steps_dash_settle_idle(
    ch: &mut Character,
    input: &InputSnapshot,
    grounded: bool,
    base: Vec2i,
    vx_in: i64,
    vy_in: i64,
    events: &mut Vec<MotionEvent>,
    Ghost(ch0): Ghost<Character>,
    Ghost(velocity): Ghost<Vec2i>,
    Ghost(ground_velocity): Ghost<Vec2i>,
) -> (v: (i64, i64))
    requires
        ch0.wf(),
        old(ch).dasher == ch0.dasher,
        old(ch).jumper == spec_jumper_after_press(ch0, *input),
        old(ch).climber.climbing == spec_climbing_final(ch0, *input),
        old(ch).facing_left == spec_facing_left(*input, ch0.facing_left),
        grounded == spec_grounded(ch0),
        base.x == spec_baseline_x(ch0, ground_velocity),
        base.y == spec_baseline_y(ch0, ground_velocity),
        vx_in == spec_vx_run(ch0, *input, ground_velocity),
        vy_in == spec_vy_jump(ch0, *input, velocity, ground_velocity),
        -VEL_LIMIT - RUN_SPEED <= vx_in <= VEL_LIMIT + RUN_SPEED,
        -VEL_LIMIT - JUMP_SPEED <= vy_in <= VEL_LIMIT + JUMP_SPEED,
    ensures
        v.0 == spec_vx_final(ch0, *input, ground_velocity),
        v.1 == spec_vy_final(ch0, *input, velocity, ground_velocity),
        final(ch).jumper == spec_jumper_final(ch0, *input, velocity, ground_velocity),
        final(ch).dasher == spec_dasher_final(ch0, *input, velocity, ground_velocity),
        final(ch).climber == old(ch).climber,
        final(ch).coyote_timer == old(ch).coyote_timer,
        final(ch).jump_buffer_timer == old(ch).jump_buffer_timer,
        final(ch).ground_detection == old(ch).ground_detection,
        final(ch).was_on_ground == old(ch).was_on_ground,
        final(ch).movement_direction == old(ch).movement_direction,
        final(ch).facing_left == old(ch).facing_left,
        final(events)@ == old(events)@ + spec_dash_events(ch0, *input) + spec_idle_events(
            ch0,
            *input,
            velocity,
            ground_velocity,
        ),
{
    let ghost evs0 = events@;
    let mut vx: i64 = vx_in;
    let mut vy: i64 = vy_in;
    // Step 6: fresh dash press.
    if input.dash_just_pressed && !ch.climber.climbing {
        let can_dash = match ch.dasher {
            Dasher::NotDashing => true,
            Dasher::Dashing(d) => d.dashs_left > 0,
        };
        if can_dash {
            let dir = DashDirection::make(
                input.up_held,
                input.right_held,
                input.down_held,
                input.left_held,
                ch.facing_left,
            );
            let dv = dir.to_vec();
            proof {
                assert(dir == spec_frame_dash_direction(ch0, *input));
                assert(-1 <= dv.x <= 1 && -1 <= dv.y <= 1);
            }
            vx = vx + dv.x * DASH_SPEED;
            vy = vy + dv.y * DASH_SPEED;
            ch.dasher = match ch.dasher {
                Dasher::NotDashing => Dasher::Dashing(Dashing { dashs_left: EXTRA_DASH_CHARGES }),
                Dasher::Dashing(d) => Dasher::Dashing(Dashing { dashs_left: d.dashs_left - 1 }),
            };
            events.push(MotionEvent::Dashing);
        }
    }
    proof {
        assert(vx == spec_vx_final(ch0, *input, ground_velocity));
        assert(vy == spec_vy_final(ch0, *input, velocity, ground_velocity));
        assert(events@ =~= evs0 + spec_dash_events(ch0, *input));
    }
    // Step 7: settle the charge states at the baseline.
    if grounded && vy == base.y && !input.jump_just_pressed {
        ch.jumper = Jumper::NotJumping;
    }
    if grounded && vx == base.x && vy == base.y && !input.dash_just_pressed {
        ch.dasher = Dasher::NotDashing;
    }
    // Step 8: idle, emitted last.
    let net_right = input.right_held && !input.left_held;
    let net_left = input.left_held && !input.right_held;
    if !net_right && !net_left && !input.jump_just_pressed && !ch.climber.climbing
        && !ch.jumper.is_jumping() && vx == base.x && vy == base.y {
        events.push(MotionEvent::Idle);
    }
    proof {
        assert(events@ =~= evs0 + spec_dash_events(ch0, *input) + spec_idle_events(
            ch0,
            *input,
            velocity,
            ground_velocity,
        ));
    }
    (vx, vy)
}

/// Run the per-frame movement resolution for one character.
///
/// `velocity` is the character's current velocity as the physics collaborator
/// reports it; `ground_velocity` is the current velocity of the ground entity
/// stood on (ignored unless that ground is a platform).  Returns the
/// commanded velocity and the motion events of this frame, in emission order.
pub fn resolve_movement(
    ch: &mut Character,
    input: &InputSnapshot,
    velocity: Vec2i,
    ground_velocity: Vec2i,
) -> (r: (Vec2i, Vec<MotionEvent>))
    requires
        old(ch).wf(),
        -VEL_LIMIT <= velocity.x <= VEL_LIMIT,
        -VEL_LIMIT <= velocity.y <= VEL_LIMIT,
        -VEL_LIMIT <= ground_velocity.x <= VEL_LIMIT,
        -VEL_LIMIT <= ground_velocity.y <= VEL_LIMIT,
    ensures
        final(ch).wf(),
        final(ch).ground_detection == old(ch).ground_detection,
        final(ch).was_on_ground == old(ch).was_on_ground,
        final(ch).climber.intersecting_climbables == old(ch).climber.intersecting_climbables,
        final(ch).climber.climbing == spec_climbing_final(*old(ch), *input),
        final(ch).jumper == spec_jumper_final(*old(ch), *input, velocity, ground_velocity),
        final(ch).dasher == spec_dasher_final(*old(ch), *input, velocity, ground_velocity),
        final(ch).coyote_timer.0 == spec_coyote_final(*old(ch), *input),
        final(ch).jump_buffer_timer.0 == spec_buffer_final(*old(ch), *input),
        final(ch).movement_direction == spec_movement_direction(*input),
        final(ch).facing_left == spec_facing_left(*input, old(ch).facing_left),
        r.0.x == spec_vx_final(*old(ch), *input, ground_velocity),
        r.0.y == spec_vy_final(*old(ch), *input, velocity, ground_velocity),
        r.1@ == spec_frame_events(*old(ch), *input, velocity, ground_velocity),
{
    let ghost ch0 = *old(ch);
    let grounded = ch.ground_detection.on_ground();
    // Step 1: baseline.
    let base = match ch.ground_detection {
        GroundDetection::OnGround(_, attrs) => if attrs.is_platform {
            ground_velocity
        } else {
            Vec2i { x: 0, y: 0 }
        },
        GroundDetection::NotOnGround => Vec2i { x: 0, y: 0 },
    };
    proof {
        assert(base.x == spec_baseline_x(ch0, ground_velocity));
        assert(base.y == spec_baseline_y(ch0, ground_velocity));
    }
    let mut events: Vec<MotionEvent> = Vec::new();
    let (vx0, vy0) = steps_run_climb(ch, input, base, velocity.y, &mut events);
    let vy1 = steps_jump(ch, input, grounded, base.y, vy0, &mut events, Ghost(ch0));
    let v = steps_dash_settle_idle(
        ch,
        input,
        grounded,
        base,
        vx0,
        vy1,
        &mut events,
        Ghost(ch0),
        Ghost(velocity),
        Ghost(ground_velocity),
    );
    proof {
        assert(Seq::<MotionEvent>::empty() + spec_run_events(*input) =~= spec_run_events(*input));
        assert(events@ == spec_frame_events(ch0, *input, velocity, ground_velocity));
    }
    (Vec2i { x: v.0, y: v.1 }, events)
}

/// Coyote grace.  Take a character whose grace timer was armed some frames
/// ago (restarted, then ticked by any sequence of frame deltas) and that is
/// now airborne, over no climbable, settled, with a fresh jump press and no
/// dash press.  While the ticks since arming total less than the grace
/// duration, the press is accepted exactly as a grounded jump: `JUMP_SPEED`
/// commanded vertically and a fresh jump state with full charges.  Once they
/// reach the duration, the press does nothing: the vertical command and the
/// jump state are unchanged.
pub proof fn lemma_coyote_window(
    ch: Character,
    input: InputSnapshot,
    velocity: Vec2i,
    ground_velocity: Vec2i,
    armed_timer: Timer,
    deltas: Seq<u64>,
)
    requires
        ch.coyote_timer.0 == spec_ticked_all(spec_restarted(armed_timer), deltas),
        armed_timer.duration_ms == COYOTE_GRACE_MS,
        armed_timer.mode is Once,
        ch.ground_detection is NotOnGround,
        !ch.climber.spec_overlapping(),
        ch.jumper is NotJumping,
        input.jump_just_pressed,
        !input.dash_just_pressed,
    ensures
        spec_sum(deltas) < COYOTE_GRACE_MS ==> {
            &&& spec_fresh_jump(ch, input)
            &&& spec_vy_final(ch, input, velocity, ground_velocity) == JUMP_SPEED as int
            &&& spec_jumper_final(ch, input, velocity, ground_velocity) == Jumper::Jumping(
                Jumping { jumps_left: EXTRA_JUMP_CHARGES },
            )
        },
        spec_sum(deltas) >= COYOTE_GRACE_MS ==> {
            &&& !spec_fresh_jump(ch, input)
            &&& spec_vy_final(ch, input, velocity, ground_velocity) == velocity.y
            &&& spec_jumper_final(ch, input, velocity, ground_velocity) == ch.jumper
        },
{
    crate::timer_helpers::lemma_once_timer_elapsed(armed_timer, deltas);
}

/// Jump buffer.  A fresh jump press while airborne, not climbing and out of
/// charges arms the buffer (leaves it restarted and running).  If the
/// character then grounds while the ticks since arming total less than the
/// buffer duration, the landing frame consumes the buffer and grants exactly
/// one jump — full charges, `JUMP_SPEED` over the baseline — and leaves the
/// buffer stopped, so no later frame grants it again.  If the ticks have
/// reached the duration by the landing frame, no buffered jump is granted.
pub proof fn lemma_jump_buffer(
    armed: Character,
    input_arm: InputSnapshot,
    landing: Character,
    input_land: InputSnapshot,
    velocity: Vec2i,
    ground_velocity: Vec2i,
    deltas: Seq<u64>,
)
    requires
        armed.ground_detection is NotOnGround,
        !spec_climbing_engaged(armed, input_arm),
        armed.jumper == Jumper::Jumping(Jumping { jumps_left: 0 }),
        input_arm.jump_just_pressed,
        armed.jump_buffer_timer.0.duration_ms == JUMP_BUFFER_MS,
        armed.jump_buffer_timer.0.mode is Once,
        landing.jump_buffer_timer.0 == spec_ticked_all(spec_buffer_final(armed, input_arm), deltas),
        landing.ground_detection is OnGround,
    ensures
        spec_buffer_armed(armed, input_arm),
        !spec_buffer_final(armed, input_arm).spec_stopped(),
        spec_sum(deltas) < JUMP_BUFFER_MS ==> {
            &&& spec_buffer_consumed(landing)
            &&& spec_jumper_after_buffer(landing) == Jumper::Jumping(
                Jumping { jumps_left: EXTRA_JUMP_CHARGES },
            )
            &&& spec_vy_jump(landing, input_land, velocity, ground_velocity) == spec_baseline_y(
                landing,
                ground_velocity,
            ) + JUMP_SPEED as int
            &&& spec_buffer_final(landing, input_land).spec_stopped()
        },
        spec_sum(deltas) >= JUMP_BUFFER_MS ==> !spec_buffer_consumed(landing),
{
    assert(spec_buffer_final(armed, input_arm) == spec_restarted(armed.jump_buffer_timer.0));
    crate::timer_helpers::lemma_once_timer_elapsed(armed.jump_buffer_timer.0, deltas);
}

/// Idempotent settling.  A grounded character whose jump state is inactive,
/// whose vertical velocity sits exactly at the baseline, and whose jump
/// buffer is stopped, stays that way under a frame with no input at all: the
/// jump state remains inactive, the commanded velocity is exactly the
/// baseline on both axes, and both grace timers are untouched — so the same
/// holds of every following no-input frame, with no oscillation.
pub proof fn lemma_settle_idempotent(ch: Character, velocity: Vec2i, ground_velocity: Vec2i)
    requires
        ch.jumper is NotJumping,
        spec_grounded(ch),
        ch.jump_buffer_timer.0.spec_stopped(),
        velocity.y == spec_baseline_y(ch, ground_velocity),
    ensures
        ({
            let input = InputSnapshot::spec_released();
            &&& spec_jumper_final(ch, input, velocity, ground_velocity) == Jumper::NotJumping
            &&& spec_vx_final(ch, input, ground_velocity) == spec_baseline_x(ch, ground_velocity)
            &&& spec_vy_final(ch, input, velocity, ground_velocity) == spec_baseline_y(
                ch,
                ground_velocity,
            )
            &&& spec_coyote_final(ch, input) == ch.coyote_timer.0
            &&& spec_buffer_final(ch, input) == ch.jump_buffer_timer.0
        }),
{
}

/// One whole simulation tick for one character, as a strict two-phase step.
///
/// First the grace timers tick (ticking a paused timer is a no-op), then the
/// frame's queued collision events are drained into the ground sensor, then
/// the grounded relation is recomputed (arming the coyote window on the
/// grounded-to-airborne edge), then the movement resolver runs, and finally
/// this frame's grounded boolean is remembered for the next frame's edge
/// detection.  The contract names the mid-frame character — ground state and
/// timers updated, everything else as it stood — and states the resolver's
/// outcome over it.
pub fn advance_frame(
    ch: &mut Character,
    sensor: &mut GroundSensor,
    collision_events: &Vec<CollisionEvent>,
    collidables: &Vec<u64>,
    platforms: &Vec<u64>,
    input: &InputSnapshot,
    velocity: Vec2i,
    ground_velocity: Vec2i,
    delta_ms: u64,
) -> (r: (Vec2i, Vec<MotionEvent>))
    requires
        old(ch).wf(),
        old(sensor).wf(),
        -VEL_LIMIT <= velocity.x <= VEL_LIMIT,
        -VEL_LIMIT <= velocity.y <= VEL_LIMIT,
        -VEL_LIMIT <= ground_velocity.x <= VEL_LIMIT,
        -VEL_LIMIT <= ground_velocity.y <= VEL_LIMIT,
    ensures
        final(ch).wf(),
        final(sensor).wf(),
        final(sensor).ground_detection_entity == old(sensor).ground_detection_entity,
        final(sensor).sensor_entity == old(sensor).sensor_entity,
        final(sensor).contents() == spec_apply_events(
            old(sensor).contents(),
            collision_events@,
            old(sensor).sensor_entity,
            collidables@,
            platforms@,
        ),
        ({
            let coyote_ticked = spec_ticked(old(ch).coyote_timer.0, delta_ms);
            let buffer_ticked = spec_ticked(old(ch).jump_buffer_timer.0, delta_ms);
            let ground_now = spec_detection_of(final(sensor).intersecting_ground_entities@);
            let armed = spec_coyote_armed(
                final(sensor).intersecting_ground_entities@,
                old(ch).was_on_ground,
                old(ch).jumper,
            );
            let ch_mid = Character {
                ground_detection: ground_now,
                coyote_timer: CoyoteTimer(
                    if armed {
                        spec_restarted(coyote_ticked)
                    } else {
                        coyote_ticked
                    },
                ),
                jump_buffer_timer: JumpBufferTimer(buffer_ticked),
                ..*old(ch)
            };
            &&& final(ch).ground_detection == ground_now
            &&& final(ch).was_on_ground == (ground_now is OnGround)
            &&& final(ch).climber.intersecting_climbables == old(
                ch,
            ).climber.intersecting_climbables
            &&& final(ch).climber.climbing == spec_climbing_final(ch_mid, *input)
            &&& final(ch).jumper == spec_jumper_final(ch_mid, *input, velocity, ground_velocity)
            &&& final(ch).dasher == spec_dasher_final(ch_mid, *input, velocity, ground_velocity)
            &&& final(ch).coyote_timer.0 == spec_coyote_final(ch_mid, *input)
            &&& final(ch).jump_buffer_timer.0 == spec_buffer_final(ch_mid, *input)
            &&& final(ch).movement_direction == spec_movement_direction(*input)
            &&& final(ch).facing_left == spec_facing_left(*input, old(ch).facing_left)
            &&& r.0.x == spec_vx_final(ch_mid, *input, ground_velocity)
            &&& r.0.y == spec_vy_final(ch_mid, *input, velocity, ground_velocity)
            &&& r.1@ == spec_frame_events(ch_mid, *input, velocity, ground_velocity)
        }),
{
    // Tick both grace timers once per frame, unconditionally.
    ch.coyote_timer.0.tick(delta_ms);
    ch.jump_buffer_timer.0.tick(delta_ms);
    // Phase one: drain every queued collision event, then recompute the
    // grounded relation from the settled overlap set.
    ground_detection(sensor, collision_events, collidables, platforms);
    update_on_ground(
        &mut ch.ground_detection,
        &mut ch.coyote_timer,
        sensor,
        ch.was_on_ground,
        &ch.jumper,
    );
    // Phase two: resolve movement against the fresh grounded state, then
    // remember it for the next frame's falling-edge detection.
    let r = resolve_movement(ch, input, velocity, ground_velocity);
    let grounded_now = ch.ground_detection.on_ground();
    ch.was_on_ground = grounded_now;
    r
}

/// Turn the respawn actions of this frame's input into the command to the
/// level-flow collaborator: a fresh level-respawn press wins over a fresh
/// world-respawn press, and anything else asks for nothing.
pub fn handle_game_actions(input: &InputSnapshot) -> (r: Option<RespawnCommand>)
    ensures
        r == if input.respawn_level_just_pressed {
            Some(RespawnCommand::RespawnLevel)
        } else if input.respawn_world_just_pressed {
            Some(RespawnCommand::RespawnWorld)
        } else {
            None::<RespawnCommand>
        },
{
    if input.respawn_level_just_pressed {
        Some(RespawnCommand::RespawnLevel)
    } else if input.respawn_world_just_pressed {
        Some(RespawnCommand::RespawnWorld)
    } else {
        None
    }
}

} // verus!
