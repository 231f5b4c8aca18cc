//! Abilities of the player and the adversary.

pub mod boss;
pub mod player;
pub mod weapon;

pub use boss::{BossSkills, MineBossBundle, RotationAnimation};
pub use player::{PlayerBundle, PlayerDash, PlayerStatsBundle, Shield};
pub use weapon::{Projectile, Weapon, WeaponBundle};
