//! Identity and session subsystem for a small content-managed web product:
//! password and OAuth identity resolution and merging, email-verification
//! and password-reset lifecycles, signed session tokens, and role-based
//! authorization gating. Every operation carries a contract checked by
//! Verus; the store invariant (`store::AuthStore::wf`) and the single-use
//! guarantees (`laws`) are proved, not assumed.

pub mod auth_api;
pub mod codes;
pub mod config;
pub mod dates;
pub mod errors;
pub mod gate;
pub mod homepage;
pub mod internal_api;
pub mod jwt;
pub mod laws;
pub mod password;
pub mod store;
pub mod text;
pub mod token_hash;
pub mod users_api;
