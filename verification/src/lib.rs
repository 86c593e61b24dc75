//! A small orchestration layer around a zero-knowledge proof backend.
//!
//! Raw byte data is encoded into field-element records and stored in a
//! monotonically indexed ledger; a key pair is derived once for a fixed
//! arithmetic relation, after which non-interactive proofs over circuit
//! instances can be issued and checked.

pub mod backend;
pub mod circuit;
pub mod codec;
pub mod ledger;
pub mod session;
