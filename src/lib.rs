//! Movement and pickup rules of a small 2D platformer's player character.
//!
//! The library decides; the engine around it integrates velocities, sweeps the
//! collider and renders. Each tick the engine hands the library the held keys
//! and the result of the last sweep, and gets back what to do with the
//! character's velocity.

pub mod direction;
pub mod level;
pub mod pickup;
pub mod player;

