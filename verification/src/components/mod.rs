//! The records that make up an actor.

pub mod attributes;
pub mod entities;
