//! Plane vectors with integer components.
//!
//! Velocities and offsets are carried as whole world units per second, so the
//! exact-equality comparisons that the movement resolver relies on (commanded
//! velocity against the platform baseline) are well defined.

use vstd::prelude::*;

verus! {

/// A two-dimensional vector of whole units.
#[derive(Clone, Copy, Debug, PartialEq, Eq, Structural)]
pub struct Vec2i {
    pub x: i64,
    pub y: i64,
}

} // verus!
