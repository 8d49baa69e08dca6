//! Jump and dash charge state, the pre-landing jump buffer, and the eight-way
//! dash direction.
//!
//! `Jumper` and `Dasher` are tagged states: either inactive, or active with a
//! count of extra charges remaining.  The movement resolver consumes them to
//! gate jump and dash legality; they settle back to the inactive state once
//! the character's velocity has returned to the platform-relative baseline on
//! the ground.

use vstd::prelude::*;

use crate::timer_helpers::{Timer, TimerHelper, TimerMode};
use crate::vec2::Vec2i;

verus! {

/// Extra (in-air) jump charges granted by a fresh jump start.
pub const EXTRA_JUMP_CHARGES: i8 = 1;

/// Extra dash charges granted by a fresh dash activation.
pub const EXTRA_DASH_CHARGES: i8 = 1;

/// How long an early jump press is remembered before landing, in milliseconds.
pub const JUMP_BUFFER_MS: u64 = 100;

/// Charges left while a jump is in progress.
#[derive(Clone, Copy, Debug, PartialEq, Eq, Structural)]
pub struct Jumping {
    pub jumps_left: i8,
}

/// Whether the character is mid-jump, and how many air jumps remain.
#[derive(Clone, Copy, Debug, PartialEq, Eq, Structural)]
pub enum Jumper {
    NotJumping,
    Jumping(Jumping),
}

impl Jumper {
    /// A charge count never goes negative.
    pub open spec fn wf(self) -> bool {
        self matches Jumper::Jumping(j) ==> j.jumps_left >= 0
    }

    /// Whether a jump is in progress.
    pub fn is_jumping(&self) -> (r: bool)
        ensures
            r == (*self is Jumping),
    {
        match self {
            Jumper::NotJumping => false,
            Jumper::Jumping(_) => true,
        }
    }

    /// The state entered on a fresh, valid jump start: mid-jump with the full
    /// count of extra charges.
    pub fn mk_jumping() -> (r: Self)
        ensures
            r == Jumper::Jumping(Jumping { jumps_left: EXTRA_JUMP_CHARGES }),
    {
        Jumper::Jumping(Jumping { jumps_left: EXTRA_JUMP_CHARGES })
    }

    /// The settled state.
    pub fn mk_not_jumping() -> (r: Self)
        ensures
            r == Jumper::NotJumping,
    {
        Jumper::NotJumping
    }
}

impl Default for Jumper {
    /// A character starts out settled.
    fn default() -> (r: Self)
        ensures
            r == Jumper::NotJumping,
    {
        Jumper::NotJumping
    }
}

/// Charges left while a dash is in progress.
#[derive(Clone, Copy, Debug, PartialEq, Eq, Structural)]
pub struct Dashing {
    pub dashs_left: i8,
}

/// Whether the character is mid-dash, and how many extra dashes remain.
#[derive(Clone, Copy, Debug, PartialEq, Eq, Structural)]
pub enum Dasher {
    NotDashing,
    Dashing(Dashing),
}

impl Dasher {
    /// A charge count never goes negative.
    pub open spec fn wf(self) -> bool {
        self matches Dasher::Dashing(d) ==> d.dashs_left >= 0
    }

    /// Whether a dash is in progress.
    pub fn is_dashing(&self) -> (r: bool)
        ensures
            r == (*self is Dashing),
    {
        match self {
            Dasher::NotDashing => false,
            Dasher::Dashing(_) => true,
        }
    }

    /// The state entered on a fresh dash activation: mid-dash with the full
    /// count of extra charges.
    pub fn mk_dashing() -> (r: Self)
        ensures
            r == Dasher::Dashing(Dashing { dashs_left: EXTRA_DASH_CHARGES }),
    {
        Dasher::Dashing(Dashing { dashs_left: EXTRA_DASH_CHARGES })
    }

    /// The settled state.
    pub fn mk_not_dashing() -> (r: Self)
        ensures
            r == Dasher::NotDashing,
    {
        Dasher::NotDashing
    }
}

impl Default for Dasher {
    /// A character starts out settled.
    fn default() -> (r: Self)
        ensures
            r == Dasher::NotDashing,
    {
        Dasher::NotDashing
    }
}

/// The pre-landing grace window: an early jump press while airborne and out of
/// charges is remembered here and granted on touchdown.  Paused by default.
#[derive(Clone, Copy, Debug, PartialEq, Eq, Structural)]
pub struct JumpBufferTimer(pub Timer);

impl Default for JumpBufferTimer {
    /// A paused one-shot countdown over the buffer duration.
    fn default() -> (r: Self)
        ensures
            r.0 == (Timer {
                duration_ms: JUMP_BUFFER_MS,
                elapsed_ms: 0,
                mode: TimerMode::Once,
                paused: true,
                finished: false,
            }),
            r.0.wf(),
    {
        let mut t = Timer::new(JUMP_BUFFER_MS, TimerMode::Once);
        t.pause();
        JumpBufferTimer(t)
    }
}

impl TimerHelper for JumpBufferTimer {
    open spec fn timer(&self) -> Timer {
        self.0
    }

    fn restart(&mut self) {
        self.0.reset();
        self.0.unpause();
    }

    fn is_stopped(&self) -> (r: bool) {
        self.0.paused || self.0.finished
    }
}

/// One of the eight compass directions a dash can take.
#[derive(Clone, Copy, Debug, PartialEq, Eq, Structural)]
pub enum DashDirection {
    Up,
    Down,
    Right,
    Left,
    UpRight,
    DownRight,
    DownLeft,
    UpLeft,
}

/// The direction a dash takes for the given directional holds and facing:
/// diagonal combinations win over single axes, and with nothing held the dash
/// goes the way the character faces.
pub open spec fn spec_dash_direction(
    pressed_up: bool,
    pressed_right: bool,
    pressed_down: bool,
    pressed_left: bool,
    is_flipped: bool,
) -> DashDirection {
    if pressed_up && pressed_right {
        DashDirection::UpRight
    } else if pressed_down && pressed_right {
        DashDirection::DownRight
    } else if pressed_down && pressed_left {
        DashDirection::DownLeft
    } else if pressed_up && pressed_left {
        DashDirection::UpLeft
    } else if pressed_up {
        DashDirection::Up
    } else if pressed_right {
        DashDirection::Right
    } else if pressed_down {
        DashDirection::Down
    } else if pressed_left {
        DashDirection::Left
    } else if is_flipped {
        DashDirection::Left
    } else {
        DashDirection::Right
    }
}

/// The horizontal component of a dash direction's unit-ish vector: -1, 0 or 1.
pub open spec fn spec_dash_vector_x(d: DashDirection) -> int {
    match d {
        DashDirection::Up => 0,
        DashDirection::Down => 0,
        DashDirection::Right => 1,
        DashDirection::Left => -1,
        DashDirection::UpRight => 1,
        DashDirection::DownRight => 1,
        DashDirection::DownLeft => -1,
        DashDirection::UpLeft => -1,
    }
}

/// The vertical component of a dash direction's unit-ish vector: -1, 0 or 1.
/// Diagonals keep both components (no normalisation).
pub open spec fn spec_dash_vector_y(d: DashDirection) -> int {
    match d {
        DashDirection::Up => 1,
        DashDirection::Down => -1,
        DashDirection::Right => 0,
        DashDirection::Left => 0,
        DashDirection::UpRight => 1,
        DashDirection::DownRight => -1,
        DashDirection::DownLeft => -1,
        DashDirection::UpLeft => 1,
    }
}

impl DashDirection {
    /// Pick the dash direction from the four directional holds and the
    /// character's facing.
    pub fn make(
        pressed_up: bool,
        pressed_right: bool,
        pressed_down: bool,
        pressed_left: bool,
        is_flipped: bool,
    ) -> (r: Self)
        ensures
            r == spec_dash_direction(pressed_up, pressed_right, pressed_down, pressed_left, is_flipped),
    {
        if pressed_up && pressed_right {
            DashDirection::UpRight
        } else if pressed_down && pressed_right {
            DashDirection::DownRight
        } else if pressed_down && pressed_left {
            DashDirection::DownLeft
        } else if pressed_up && pressed_left {
            DashDirection::UpLeft
        } else if pressed_up {
            DashDirection::Up
        } else if pressed_right {
            DashDirection::Right
        } else if pressed_down {
            DashDirection::Down
        } else if pressed_left {
            DashDirection::Left
        } else if is_flipped {
            DashDirection::Left
        } else {
            DashDirection::Right
        }
    }

    /// The direction as a vector of components in -1, 0, 1.
    pub fn to_vec(self) -> (r: Vec2i)
        ensures
            r.x == spec_dash_vector_x(self),
            r.y == spec_dash_vector_y(self),
    {
        match self {
            DashDirection::Up => Vec2i { x: 0, y: 1 },
            DashDirection::Down => Vec2i { x: 0, y: -1 },
            DashDirection::Right => Vec2i { x: 1, y: 0 },
            DashDirection::Left => Vec2i { x: -1, y: 0 },
            DashDirection::UpRight => Vec2i { x: 1, y: 1 },
            DashDirection::DownRight => Vec2i { x: 1, y: -1 },
            DashDirection::DownLeft => Vec2i { x: -1, y: -1 },
            DashDirection::UpLeft => Vec2i { x: -1, y: 1 },
        }
    }
}

} // verus!
