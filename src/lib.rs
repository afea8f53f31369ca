//! Password changes and password recovery through single-use, time-limited
//! reset tokens, with revocation of every session after a credential change.
pub mod error;
pub mod hashing;
pub mod laws;
pub mod policy;
pub mod resets;
pub mod service;
pub mod sessions;
pub mod store;
