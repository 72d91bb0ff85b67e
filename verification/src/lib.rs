//! Runtime core of a small top-down 2D game: a fixed-timestep loop that turns
//! key state into a direction intent, integrates the player position, and
//! resolves axis-aligned bounding-box collisions against static obstacles.
//!
//! All coordinates are integers counted in sixtieths of a world unit. At the
//! fixed 60 Hz update rate a speed of `s` world units per second moves the
//! player exactly `s` sixtieths per tick, so every position a tick can produce
//! is represented exactly.

pub mod geom;
pub mod input;
pub mod motion;
pub mod rng;
pub mod sched;
pub mod world;
pub mod laws;
