//! Core of an account-based blockchain with confidential transfers:
//! transaction verification, a deterministic contract host environment,
//! and a topoheight-versioned storage abstraction.

pub mod bytes;
pub mod contract;
pub mod crypto;
pub mod host;
pub mod proofs;
pub mod random;
pub mod state;
pub mod verify;
pub mod transaction;
pub mod transcript;
pub mod wire;
pub mod versioned;
