//! Movement-and-collision core of a side-scrolling platformer.
//!
//! Coordinates, velocities and accelerations are fixed-point `i64` values in
//! milliunits: 1000 fixed-point steps per world unit, so a 40.0-unit tile has
//! `scale == 40_000`. Time deltas are given in milliseconds. This keeps every
//! formula of the engine exact integer arithmetic.

pub mod camera;
pub mod collider;
pub mod libs;
pub mod object;
pub mod player;
pub mod scene;
