//! Instruction-processing core of an NFT staking and reward protocol.
//!
//! The library decides: it validates the accounts that a caller hands in,
//! decodes and encodes the stored records, and returns the list of effects
//! (record writes, token transfers, account creations) that the host must
//! apply as one atomic transaction. It performs none of them itself.
pub mod address;
pub mod codec;
pub mod error;
pub mod handlers;
pub mod key;
pub mod laws;
pub mod provenance;
pub use handlers::process_instruction;
