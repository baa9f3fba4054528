//! Core model of a small mining platformer: a procedurally generated tile
//! grid with a scroll-bounded viewport, a player integrated by discrete-time
//! physics, a world that owns both, and the menu navigation state that gates
//! the simulation.
//!
//! All world coordinates use fixed-point integers: positions are measured in
//! micro-units (one millionth of a world unit), velocities in milli-units per
//! second, and time steps in milliseconds. One milli-unit per second is
//! exactly one micro-unit per millisecond, so Euler integration over a time
//! step is the exact product `velocity * dt` with no rounding.

pub mod context;
pub mod grid;
pub mod player;
pub mod rng;
pub mod tile;
pub mod utilities;
pub mod world;
