//! Passive attribute records of an actor.

pub mod collider;
pub mod collision_damage;
pub mod energy;
pub mod health;
pub mod invulnerability;
pub mod speed;

pub use collider::Collider;
pub use collision_damage::CollisionDamage;
pub use energy::{Energy, EnergyChange};
pub use health::{Health, HealthChange};
pub use invulnerability::Invulnerability;
pub use speed::Speed;
