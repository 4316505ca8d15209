//! Token lifecycle for a vault-synchronization service: signed-token
//! issuance, per-request validation, explicit revocation, and time-based
//! pruning of the revocation set.

pub mod auth;
pub mod errors;
pub mod gate;
pub mod jwt;
pub mod models;
pub mod sched;
pub mod store;
