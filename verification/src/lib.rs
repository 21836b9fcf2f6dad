//! Verified building blocks for Solana program audit harnesses: instruction
//! layout for a fuzz target and a proof-of-concept exploit, the addresses
//! they target, and the invariant checked after each transaction.

pub mod bytes;
pub mod keys;
pub mod instruction;
pub mod fuzz;
pub mod poc;
