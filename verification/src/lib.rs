//! Core simulation of a small 2D arcade shooter.
//!
//! A player ship moves inside a bounded viewport, fires bullets upward on a
//! cooldown, and destroys asteroids that descend from above. All geometry is
//! carried in fixed-point integers: positions in microunits (one world unit
//! is `SCALE` microunits) and time in microseconds, so that every update rule
//! can be stated and proved exactly.
//!
//! The engine around the game (windowing, rendering, input polling) is not
//! part of this crate; a host hands each frame's elapsed time, key edges and
//! viewport half-extents to [`world::frame`] and reads the world back.

pub mod geom;
pub mod input;
mod rng;
pub mod timer;
pub mod world;
