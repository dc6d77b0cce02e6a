//! Record lifecycle of a rice supply-chain ledger: where a transaction record
//! lives, how it is laid out, and how it is created, reused and patched.
//!
//! - [`address`]: the address of a record, derived from its owner and nonce.
//! - [`account`]: the record and what each kind of write does to it.
//! - [`layout`]: the bytes of a record in its slot.
//! - [`store`]: the keyed store of fixed-capacity slots.
//! - [`instructions`]: create, reuse and patch, run against a store.
//! - [`laws`]: what holds of every record and every ledger.
//! - [`error`]: why an instruction is refused.

pub mod account;
pub mod address;
pub mod error;
pub mod instructions;
pub mod laws;
pub mod layout;
pub mod store;
