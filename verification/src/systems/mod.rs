//! The steps of a simulation tick.

pub mod boss_systems;
pub mod boundary;
pub mod movement;
pub mod pause_systems;
pub mod player_death;
pub mod weapon_systems;

pub use boss_systems::{
    boss_collision_damage, boss_dash_movement, boss_player_collision, boss_rotation_animation,
    mine_boss_ai, Contact, Guard,
};
pub use boundary::{
    enforce_boss_boundaries, enforce_boundaries, update_edge_warnings, EdgeType,
};
pub use movement::player_movement::{
    manage_player_invulnerability, player_face_mouse, player_movement, DashReport,
};
pub use movement::shield_system::{animate_shield, handle_shield_input, IndicatorChange};
pub use pause_systems::{handle_pause_input, reset_pause_state, update_pause_timer, ClockChange};
pub use player_death::check_player_death;
pub use weapon_systems::{
    projectile_boss_collision_system, projectile_lifetime_system, projectile_movement_system,
    weapon_firing_system, Aim, ProjectileBundle,
};
