//! A multi-party fair card draw.
//!
//! Parties commit to random 32-bit contributions by signing them, every
//! commitment is checked before the contributions are combined into one
//! shared seed, each party then evaluates a verifiable random function
//! over that seed, and the draw is resolved by a total order over the
//! derived cards with a deterministic tie-break.

pub mod crypto;
pub mod domain;
pub mod encoding;
pub mod errors;
pub mod player;
pub mod round;
