//! Deterministic fixed-point core of a top-down arena combat simulation.
//!
//! Lengths, coordinates and amounts are integers in thousandths of a unit,
//! ratios are in thousandths of the whole, angles in millionths of a radian
//! and time in nanoseconds.

pub mod angle;
pub mod components;
pub mod constants;
pub mod encounter;
pub mod fixed;
pub mod geometry;
pub mod projectiles;
pub mod resources;
pub mod states;
pub mod systems;
pub mod timer;
