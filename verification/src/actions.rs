//! Logical player actions and the per-frame input snapshot.
//!
//! The input collaborator polls the keyboard once per frame and hands the core
//! a snapshot exposing, for every logical action, both a "held" query and a
//! "just pressed this frame" query.  Fresh edges and holds are deliberately
//! distinct: several transitions (climb engagement, jump starts) fire on edges
//! only.

use vstd::prelude::*;

verus! {

/// The logical actions a player can perform.
#[derive(Clone, Copy, Debug, PartialEq, Eq, Hash, Structural)]
pub enum PlatformerAction {
    Right,
    Left,
    Down,
    Up,
    Jump,
    Dash,
    RespawnLevel,
    RespawnWorld,
}

/// One frame's input state: a held flag and a just-pressed flag per action.
#[derive(Clone, Copy, Debug, PartialEq, Eq, Structural)]
pub struct InputSnapshot {
    pub right_held: bool,
    pub left_held: bool,
    pub down_held: bool,
    pub up_held: bool,
    pub jump_held: bool,
    pub dash_held: bool,
    pub respawn_level_held: bool,
    pub respawn_world_held: bool,
    pub right_just_pressed: bool,
    pub left_just_pressed: bool,
    pub down_just_pressed: bool,
    pub up_just_pressed: bool,
    pub jump_just_pressed: bool,
    pub dash_just_pressed: bool,
    pub respawn_level_just_pressed: bool,
    pub respawn_world_just_pressed: bool,
}

impl InputSnapshot {
    /// The snapshot of a frame with no input at all.
    pub open spec fn spec_released() -> InputSnapshot {
        InputSnapshot {
            right_held: false,
            left_held: false,
            down_held: false,
            up_held: false,
            jump_held: false,
            dash_held: false,
            respawn_level_held: false,
            respawn_world_held: false,
            right_just_pressed: false,
            left_just_pressed: false,
            down_just_pressed: false,
            up_just_pressed: false,
            jump_just_pressed: false,
            dash_just_pressed: false,
            respawn_level_just_pressed: false,
            respawn_world_just_pressed: false,
        }
    }

    /// A snapshot with every action released.
    pub fn released() -> (r: InputSnapshot)
        ensures
            r == InputSnapshot::spec_released(),
    {
        InputSnapshot {
            right_held: false,
            left_held: false,
            down_held: false,
            up_held: false,
            jump_held: false,
            dash_held: false,
            respawn_level_held: false,
            respawn_world_held: false,
            right_just_pressed: false,
            left_just_pressed: false,
            down_just_pressed: false,
            up_just_pressed: false,
            jump_just_pressed: false,
            dash_just_pressed: false,
            respawn_level_just_pressed: false,
            respawn_world_just_pressed: false,
        }
    }

    /// Whether `action` is held this frame.
    pub open spec fn spec_pressed(self, action: PlatformerAction) -> bool {
        match action {
            PlatformerAction::Right => self.right_held,
            PlatformerAction::Left => self.left_held,
            PlatformerAction::Down => self.down_held,
            PlatformerAction::Up => self.up_held,
            PlatformerAction::Jump => self.jump_held,
            PlatformerAction::Dash => self.dash_held,
            PlatformerAction::RespawnLevel => self.respawn_level_held,
            PlatformerAction::RespawnWorld => self.respawn_world_held,
        }
    }

    /// Whether `action` was freshly pressed this frame.
    pub open spec fn spec_just_pressed(self, action: PlatformerAction) -> bool {
        match action {
            PlatformerAction::Right => self.right_just_pressed,
            PlatformerAction::Left => self.left_just_pressed,
            PlatformerAction::Down => self.down_just_pressed,
            PlatformerAction::Up => self.up_just_pressed,
            PlatformerAction::Jump => self.jump_just_pressed,
            PlatformerAction::Dash => self.dash_just_pressed,
            PlatformerAction::RespawnLevel => self.respawn_level_just_pressed,
            PlatformerAction::RespawnWorld => self.respawn_world_just_pressed,
        }
    }

    /// The "held" query for `action`.
    pub fn pressed(&self, action: PlatformerAction) -> (r: bool)
        ensures
            r == self.spec_pressed(action),
    {
        match action {
            PlatformerAction::Right => self.right_held,
            PlatformerAction::Left => self.left_held,
            PlatformerAction::Down => self.down_held,
            PlatformerAction::Up => self.up_held,
            PlatformerAction::Jump => self.jump_held,
            PlatformerAction::Dash => self.dash_held,
            PlatformerAction::RespawnLevel => self.respawn_level_held,
            PlatformerAction::RespawnWorld => self.respawn_world_held,
        }
    }

    /// The "just pressed this frame" query for `action`.
    pub fn just_pressed(&self, action: PlatformerAction) -> (r: bool)
        ensures
            r == self.spec_just_pressed(action),
    {
        match action {
            PlatformerAction::Right => self.right_just_pressed,
            PlatformerAction::Left => self.left_just_pressed,
            PlatformerAction::Down => self.down_just_pressed,
            PlatformerAction::Up => self.up_just_pressed,
            PlatformerAction::Jump => self.jump_just_pressed,
            PlatformerAction::Dash => self.dash_just_pressed,
            PlatformerAction::RespawnLevel => self.respawn_level_just_pressed,
            PlatformerAction::RespawnWorld => self.respawn_world_just_pressed,
        }
    }
}

} // verus!
