//! Verified core of a bonding-curve launch pool: the pool's recorded state,
//! the checks and state changes of each instruction, and the derivation of
//! the pool authority's signer seeds.
pub mod error;
pub mod instructions;
pub mod laws;
pub mod state;

pub use error::ErrorCode;
