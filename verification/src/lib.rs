//! Unique, fixed-width identifiers at little cost: twelve characters of
//! entropy, drawn rarely, then a counter in ten base-62 digits that moves on
//! by a random increment. When the counter's space is used up, prefix,
//! counter and increment are drawn anew.
//!
//! `alphabet` and `base62` hold the encoding, `state` the model of a
//! generator and of one step, `generator` the generator itself, and
//! `theorems` what follows for every run of steps.

pub mod alphabet;
pub mod base62;
pub mod generator;
pub mod state;
pub mod text;
pub mod theorems;
mod sources;

pub use generator::NUID;
pub use state::{Draws, TOTAL_LEN};
