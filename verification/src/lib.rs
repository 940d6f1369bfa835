//! Privacy-preserving payroll settlement: salary commitments, one-time
//! nullifiers, proof-gated batch payments and scoped audit keys, modelled as
//! state machines over plain values.

pub mod address;
pub mod audit;
pub mod auth;
pub mod commitment;
pub mod crypto;
pub mod decimal;
pub mod encoding;
pub mod enrollment;
pub mod laws;
pub mod payroll;
pub mod proof_bytes;
pub mod proof_verifier;
pub mod pubkey;
pub mod reconcile;
pub mod registry;
pub mod rpc;
pub mod store;
pub mod text;
pub mod token;
