//! A single-tenant content ledger: an owner-curated blog whose posts,
//! comments and donation records are appended, counted and selectively
//! deleted under strict ownership rules.
//!
//! The ledger itself is pure state-transition logic: the host environment
//! supplies the acting caller's identity, the current timestamp and the
//! value transfer for donations, and hands them to the ledger as plain
//! arguments.

pub mod blog;
pub mod counts;
pub mod donation;
pub mod errors;
pub mod identity;
pub mod laws;
pub mod post;
