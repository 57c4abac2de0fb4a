//! Settlement core for an oracle-driven matchmaking function.
//!
//! The crate turns a decoded settlement request into a cryptographically
//! sourced bounded random draw and a byte-exact instruction payload for the
//! receiving on-chain program. Entropy and the instruction discriminator come
//! from outside crates behind narrow trusted wrappers; everything that
//! computes on their results is verified.

pub mod instruction;
pub mod orchestrator;
pub mod rng;
