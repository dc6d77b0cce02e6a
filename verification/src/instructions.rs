//! The three instructions of the ledger: create a record, reuse it, patch it.
//! Each runs against an explicit store and either takes effect in full or
//! leaves the store as it was.

use vstd::prelude::*;
use crate::account::{TransactionAccount, TransactionData};
use crate::address::{self, derivation_view, derived, Address};
use crate::error::ErrorCode;
use crate::layout::{decode, decoded, encode, encoded};
use crate::store::{overwritten, settled, written, zeros, Ledger, RecordStore};

verus! {

/// The accounts of a create: the slot to allocate and the signer that pays
/// for it and owns the record.
#[derive(Clone, Copy, Debug, PartialEq, Eq)]
pub struct CreateTransaction {
    pub transaction: Address,
    pub authority: Address,
}

/// The accounts of a reuse: the record's slot and the signer.
#[derive(Clone, Copy, Debug, PartialEq, Eq)]
pub struct AddTransaction {
    pub transaction: Address,
    pub authority: Address,
}

/// The accounts of a patch: the record's slot and the signer.
#[derive(Clone, Copy, Debug, PartialEq, Eq)]
pub struct UpdateTransaction {
    pub transaction: Address,
    pub authority: Address,
}

/// Whether `derivation` names exactly `address` and `bump`.
pub open spec fn agrees(derivation: (Seq<u8>, u8), address: Seq<u8>, bump: u8) -> bool {
    derivation.0 == address && derivation.1 == bump
}

/// A create, given the derivation for the signer and `nonce`: the slot must
/// be the derived address and must be free; the new record is a blank one
/// after its first write.
pub open spec fn create_with(
    ledger: Ledger,
    ctx: CreateTransaction,
    derivation: Option<(Seq<u8>, u8)>,
    nonce: u8,
    data: TransactionData,
    now: i64,
) -> Result<Ledger, ErrorCode> {
    match derivation {
        None => Err(ErrorCode::BumpNotFound),
        Some((address, bump)) => if address != ctx.transaction@ {
            Err(ErrorCode::InvalidNonce)
        } else if ledger.contains_key(address) {
            Err(ErrorCode::AccountAlreadyInUse)
        } else {
            Ok(
                ledger.insert(
                    address,
                    encoded(TransactionAccount::blank().created(bump, nonce, data, now)),
                ),
            )
        },
    }
}

/// What a create makes of `ledger`.
pub open spec fn create_outcome(
    ledger: Ledger,
    ctx: CreateTransaction,
    nonce: u8,
    data: TransactionData,
    now: i64,
) -> Result<Ledger, ErrorCode> {
    create_with(ledger, ctx, derived(ctx.authority@, nonce), nonce, data, now)
}

/// A reuse of `record`, read from the slot, given the derivation for the
/// signer and the record's nonce: the slot must exist, the derivation must
/// name the slot and the stored bump, and the rewritten record must fit.
pub open spec fn add_with(
    ledger: Ledger,
    ctx: AddTransaction,
    record: TransactionAccount,
    derivation: Option<(Seq<u8>, u8)>,
    data: TransactionData,
    now: i64,
) -> Result<Ledger, ErrorCode> {
    if !ledger.contains_key(ctx.transaction@) {
        Err(ErrorCode::AccountNotInitialized)
    } else {
        match derivation {
            None => Err(ErrorCode::BumpNotFound),
            Some(pair) => if !agrees(pair, ctx.transaction@, record.bump) {
                Err(ErrorCode::InvalidNonce)
            } else {
                written(ledger, ctx.transaction@, encoded(record.recorded(data, now)))
            },
        }
    }
}

/// What a reuse makes of `ledger`.
pub open spec fn add_outcome(
    ledger: Ledger,
    ctx: AddTransaction,
    data: TransactionData,
    now: i64,
) -> Result<Ledger, ErrorCode> {
    if !ledger.contains_key(ctx.transaction@) {
        Err(ErrorCode::AccountNotInitialized)
    } else {
        match decoded(ledger[ctx.transaction@]) {
            None => Err(ErrorCode::InvalidTransactionData),
            Some(record) => add_with(
                ledger,
                ctx,
                record,
                derived(ctx.authority@, record.nonce),
                data,
                now,
            ),
        }
    }
}

/// A patch of `record`, read from the slot, given the derivation for the
/// signer and the record's nonce: the slot must exist, the signer must be
/// the one the record is bound to, and the rewritten record must fit.
pub open spec fn update_with(
    ledger: Ledger,
    ctx: UpdateTransaction,
    record: TransactionAccount,
    derivation: Option<(Seq<u8>, u8)>,
    quantity: Option<u64>,
    unit_price: Option<u64>,
    payment_reference: Option<u8>,
    now: i64,
) -> Result<Ledger, ErrorCode> {
    if !ledger.contains_key(ctx.transaction@) {
        Err(ErrorCode::TransactionNotFound)
    } else {
        match derivation {
            None => Err(ErrorCode::BumpNotFound),
            Some(pair) => if !agrees(pair, ctx.transaction@, record.bump) {
                Err(ErrorCode::Unauthorized)
            } else {
                written(
                    ledger,
                    ctx.transaction@,
                    encoded(record.patched(quantity, unit_price, payment_reference, now)),
                )
            },
        }
    }
}

/// What a patch makes of `ledger`.
pub open spec fn update_outcome(
    ledger: Ledger,
    ctx: UpdateTransaction,
    quantity: Option<u64>,
    unit_price: Option<u64>,
    payment_reference: Option<u8>,
    now: i64,
) -> Result<Ledger, ErrorCode> {
    if !ledger.contains_key(ctx.transaction@) {
        Err(ErrorCode::TransactionNotFound)
    } else {
        match decoded(ledger[ctx.transaction@]) {
            None => Err(ErrorCode::InvalidTransactionData),
            Some(record) => update_with(
                ledger,
                ctx,
                record,
                derived(ctx.authority@, record.nonce),
                quantity,
                unit_price,
                payment_reference,
                now,
            ),
        }
    }
}

/// The record that `ledger` holds at `address`: `None` where no slot is
/// allocated there or its bytes are not a record.
pub open spec fn record_of(ledger: Ledger, address: Seq<u8>) -> Option<TransactionAccount> {
    if ledger.contains_key(address) {
        decoded(ledger[address])
    } else {
        None
    }
}

/// The full field set of a write, from its parts.
pub open spec fn transaction_data(
    from_actor_id: u64,
    to_actor_id: u64,
    quantity: u64,
    unit_price: u64,
    payment_reference: u8,
    batch_id: u64,
    moisture: u64,
    status: u8,
    is_test: u8,
) -> TransactionData {
    TransactionData {
        from_actor_id,
        to_actor_id,
        quantity,
        unit_price,
        payment_reference,
        batch_id,
        moisture,
        status,
        is_test,
    }
}

/// Looks a record up by its address.
pub fn lookup(store: &RecordStore, address: &Address) -> (record: Option<TransactionAccount>)
    ensures
        record == record_of(store@, address@),
{
    match store.read(address) {
        None => None,
        Some(bytes) => decode(bytes.as_slice()),
    }
}

/// Create, once the address has been derived: allocates the slot at the
/// derived address and writes the first full record, or fails and leaves the
/// store untouched.
pub fn create_with_derivation(
    store: &mut RecordStore,
    ctx: CreateTransaction,
    derivation: Option<(Address, u8)>,
    nonce: u8,
    data: &TransactionData,
    now: i64,
) -> (result: Result<(), ErrorCode>)
    ensures
        settled(
            create_with(old(store)@, ctx, derivation_view(derivation), nonce, *data, now),
            old(store)@,
            final(store)@,
            result,
        ),
{
    match derivation {
        None => Err(ErrorCode::BumpNotFound),
        Some((address, bump)) => {
            if !address.same(&ctx.transaction) {
                return Err(ErrorCode::InvalidNonce);
            }
            match store.allocate(&ctx.transaction, TransactionAccount::SPACE) {
                Err(e) => Err(e),
                Ok(()) => {
                    let mut record = TransactionAccount::zeroed();
                    record.record_create(bump, nonce, data, now);
                    let bytes = encode(&record);
                    proof {
                        let fresh = zeros(TransactionAccount::SPACE as nat);
                        assert(overwritten(fresh, bytes@) =~= bytes@);
                        assert(old(store)@.insert(address@, fresh).insert(address@, bytes@)
                            =~= old(store)@.insert(address@, bytes@));
                    }
                    store.write(&ctx.transaction, bytes.as_slice())
                },
            }
        },
    }
}

/// First phase. Allocates the record of `ctx.authority` under `nonce` at its
/// derived address and writes every field, with the counter at 1. Fails with
/// `BumpNotFound` where no address can be derived, `InvalidNonce` where
/// `ctx.transaction` is not the derived address, and `AccountAlreadyInUse`
/// where the address already holds a slot.
pub fn create_transaction(
    store: &mut RecordStore,
    ctx: CreateTransaction,
    from_actor_id: u64,
    to_actor_id: u64,
    quantity: u64,
    unit_price: u64,
    payment_reference: u8,
    nonce: u8,
    batch_id: u64,
    moisture: u64,
    status: u8,
    is_test: u8,
    now: i64,
) -> (result: Result<(), ErrorCode>)
    ensures
        settled(
            create_outcome(
                old(store)@,
                ctx,
                nonce,
                transaction_data(
                    from_actor_id,
                    to_actor_id,
                    quantity,
                    unit_price,
                    payment_reference,
                    batch_id,
                    moisture,
                    status,
                    is_test,
                ),
                now,
            ),
            old(store)@,
            final(store)@,
            result,
        ),
{
    let data = TransactionData {
        from_actor_id,
        to_actor_id,
        quantity,
        unit_price,
        payment_reference,
        batch_id,
        moisture,
        status,
        is_test,
    };
    let derivation = address::derive(&ctx.authority, nonce);
    create_with_derivation(store, ctx, derivation, nonce, &data, now)
}

/// Reuse, once the record has been read and its address derived: checks the
/// derivation against the slot and the stored bump, then writes the record
/// with every mutable field replaced; or fails and leaves the store
/// untouched.
pub fn add_with_derivation(
    store: &mut RecordStore,
    ctx: AddTransaction,
    record: TransactionAccount,
    derivation: Option<(Address, u8)>,
    data: &TransactionData,
    now: i64,
) -> (result: Result<(), ErrorCode>)
    ensures
        settled(
            add_with(old(store)@, ctx, record, derivation_view(derivation), *data, now),
            old(store)@,
            final(store)@,
            result,
        ),
{
    if !store.contains(&ctx.transaction) {
        return Err(ErrorCode::AccountNotInitialized);
    }
    match derivation {
        None => Err(ErrorCode::BumpNotFound),
        Some((address, bump)) => {
            if !address.same(&ctx.transaction) || bump != record.bump {
                return Err(ErrorCode::InvalidNonce);
            }
            let mut next = record;
            next.record_add(data, now);
            let bytes = encode(&next);
            store.write(&ctx.transaction, bytes.as_slice())
        },
    }
}

/// Second phase. Overwrites every mutable field of the record at
/// `ctx.transaction` and counts the write; nothing is allocated. Fails with
/// `AccountNotInitialized` where the address holds no slot,
/// `InvalidTransactionData` where the slot holds no record, `BumpNotFound`
/// where no address can be derived, and `InvalidNonce` where the derivation
/// for the signer and the stored nonce is not this slot with the stored bump.
pub fn add_transaction(
    store: &mut RecordStore,
    ctx: AddTransaction,
    from_actor_id: u64,
    to_actor_id: u64,
    quantity: u64,
    unit_price: u64,
    payment_reference: u8,
    batch_id: u64,
    moisture: u64,
    status: u8,
    is_test: u8,
    now: i64,
) -> (result: Result<(), ErrorCode>)
    ensures
        settled(
            add_outcome(
                old(store)@,
                ctx,
                transaction_data(
                    from_actor_id,
                    to_actor_id,
                    quantity,
                    unit_price,
                    payment_reference,
                    batch_id,
                    moisture,
                    status,
                    is_test,
                ),
                now,
            ),
            old(store)@,
            final(store)@,
            result,
        ),
{
    let data = TransactionData {
        from_actor_id,
        to_actor_id,
        quantity,
        unit_price,
        payment_reference,
        batch_id,
        moisture,
        status,
        is_test,
    };
    let record = match store.read(&ctx.transaction) {
        None => {
            return Err(ErrorCode::AccountNotInitialized);
        },
        Some(bytes) => match decode(bytes.as_slice()) {
            None => {
                return Err(ErrorCode::InvalidTransactionData);
            },
            Some(record) => record,
        },
    };
    let derivation = address::derive(&ctx.authority, record.nonce);
    add_with_derivation(store, ctx, record, derivation, &data, now)
}

/// Patch, once the record has been read and its address derived: checks that
/// the signer is the one the record is bound to, then writes the record with
/// the present fields replaced; or fails and leaves the store untouched.
pub fn update_with_derivation(
    store: &mut RecordStore,
    ctx: UpdateTransaction,
    record: TransactionAccount,
    derivation: Option<(Address, u8)>,
    quantity: Option<u64>,
    unit_price: Option<u64>,
    payment_reference: Option<u8>,
    now: i64,
) -> (result: Result<(), ErrorCode>)
    ensures
        settled(
            update_with(
                old(store)@,
                ctx,
                record,
                derivation_view(derivation),
                quantity,
                unit_price,
                payment_reference,
                now,
            ),
            old(store)@,
            final(store)@,
            result,
        ),
{
    if !store.contains(&ctx.transaction) {
        return Err(ErrorCode::TransactionNotFound);
    }
    match derivation {
        None => Err(ErrorCode::BumpNotFound),
        Some((address, bump)) => {
            if !address.same(&ctx.transaction) || bump != record.bump {
                return Err(ErrorCode::Unauthorized);
            }
            let mut next = record;
            next.record_update(quantity, unit_price, payment_reference, now);
            let bytes = encode(&next);
            store.write(&ctx.transaction, bytes.as_slice())
        },
    }
}

/// Patch. Replaces the fields that are present in the record at
/// `ctx.transaction` and refreshes its time; counter, nonce and bump stay.
/// Fails with `TransactionNotFound` where the address holds no slot,
/// `InvalidTransactionData` where the slot holds no record, `BumpNotFound`
/// where no address can be derived, and `Unauthorized` where the derivation
/// for the signer and the stored nonce is not this slot with the stored bump.
pub fn update_transaction(
    store: &mut RecordStore,
    ctx: UpdateTransaction,
    quantity: Option<u64>,
    unit_price: Option<u64>,
    payment_reference: Option<u8>,
    now: i64,
) -> (result: Result<(), ErrorCode>)
    ensures
        settled(
            update_outcome(old(store)@, ctx, quantity, unit_price, payment_reference, now),
            old(store)@,
            final(store)@,
            result,
        ),
{
    let record = match store.read(&ctx.transaction) {
        None => {
            return Err(ErrorCode::TransactionNotFound);
        },
        Some(bytes) => match decode(bytes.as_slice()) {
            None => {
                return Err(ErrorCode::InvalidTransactionData);
            },
            Some(record) => record,
        },
    };
    let derivation = address::derive(&ctx.authority, record.nonce);
    update_with_derivation(
        store,
        ctx,
        record,
        derivation,
        quantity,
        unit_price,
        payment_reference,
        now,
    )
}

} // verus!
