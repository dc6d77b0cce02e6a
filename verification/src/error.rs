//! Failure classes reported by the ledger instructions.

use vstd::prelude::*;

verus! {

/// Why an instruction was rejected. Every failure aborts the whole
/// instruction: the store is left exactly as it was.
#[derive(Clone, Copy, Debug, PartialEq, Eq, Structural)]
pub enum ErrorCode {
    /// The supplied address, or the bump stored in the record, disagrees with
    /// the canonical derivation for the signer and the record's nonce.
    InvalidNonce,
    /// No bump yields an address that the program controls.
    BumpNotFound,
    /// A reuse was asked for an address at which nothing was ever created.
    AccountNotInitialized,
    /// A create was asked for an address that already holds a slot.
    AccountAlreadyInUse,
    /// A patch was asked by someone other than the record's bound authority.
    Unauthorized,
    /// A patch was asked for an address that holds no record.
    TransactionNotFound,
    /// The bytes do not fit the slot's capacity, or the slot's bytes are not a
    /// record of the recognised layout.
    InvalidTransactionData,
}

} // verus!
