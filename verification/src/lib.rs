//! A gated token-reward distributor: an authority locks a pool of tokens
//! under a derived authority, and holders of eligible assets claim a fixed
//! reward once per asset.
//!
//! The library decides and does nothing else. An operation is given the
//! accounts as they stand, the time and the rent rule's minimum, and
//! answers with a plan: the requests to hand to the token program and the
//! system program, the bytes to store, and the result to report. Whoever
//! runs the distributor carries the plan out.

pub mod address;
pub mod error;
pub mod wire;
pub mod state;
pub mod account;
pub mod utils;
pub mod programs;
pub mod authority;
pub mod instruction;
pub mod token;
pub mod system;
pub mod metadata;
pub mod plan;
pub mod processor;
pub mod laws;
