//! Fixed parameters of the arena.

pub mod boundaries;

pub use boundaries::GameBoundaries;
