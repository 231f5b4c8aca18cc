//! Movement of the player and the shield that follows its aim.

pub mod player_movement;
pub mod shield_system;
