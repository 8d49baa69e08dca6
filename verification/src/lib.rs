//! Frame-stepped character-control core for a 2D side-scrolling platformer.
//!
//! The library turns per-frame input snapshots, collision start/stop events and
//! physics state into a commanded velocity and a stream of motion events.  It
//! reconciles three timing domains — input polling, physics simulation and
//! event-driven collision notification — into deterministic transitions:
//! ground sensing, coyote time, jump buffering, air-jump and dash charges,
//! climbing, and moving-platform velocity inheritance.
//!
//! The physics engine, input device handling and rendering are collaborators
//! that live outside this crate: they deliver plain values (entity identities,
//! event lists, velocities in whole units per second, frame deltas in
//! milliseconds) and receive plain values back.

pub mod actions;
pub mod climbing;
pub mod ground_detection;
pub mod jumping;
pub mod player;
pub mod spike;
pub mod timer_helpers;
pub mod vec2;
