//! Core of a turn-based adventure game: clamped resource stats, chance and
//! damage formulas, procedural monster ("anomaly") generation with rewards,
//! combat participants, and the turn-based battle state machine with its
//! controller decisions.
//!
//! All randomness flows through a single uniform draw, and every random entry
//! point has a deterministic counterpart that takes the drawn values as
//! arguments, so that every game rule is a proved function of plain values.

pub mod anomalies;
pub mod battle;
pub mod classes;
pub mod color;
pub mod common;
pub mod controller;
pub mod cooldown;
pub mod emoji;
pub mod errors;
pub mod fighter;
pub mod math;
pub mod regions;
pub mod rng;
pub mod user_model;

pub use common::Probability;
pub use common::Stat;
pub use emoji::Emoji;
