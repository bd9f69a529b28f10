//! Proof-backed escrow registry on a Soroban ledger.
//!
//! Creators register funding projects under a commitment hash; a single
//! configured oracle may later submit the matching proof, which moves the
//! project to its terminal state. Every operation is stated over a
//! mathematical view of the contract's persistent storage and proved against
//! it.

pub mod host;
pub mod registry;
pub mod rules;
pub mod storage;
pub mod types;
