//! Resolves the address of a named sub-contract inside an on-chain registry,
//! obtains that contract's interface definition through a two-tier
//! cache-or-fetch pipeline, and computes a human-readable countdown to the
//! next scheduled price checkpoint.

pub mod address;
pub mod cache;
pub mod countdown;
pub mod errors;
pub mod interface;
pub mod orchestrator;
pub mod registry;
pub mod render;
pub mod resolver;
