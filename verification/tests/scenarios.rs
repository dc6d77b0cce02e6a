use rice_supply_chain::account::TransactionAccount;
use rice_supply_chain::address::{self, Address};
use rice_supply_chain::error::ErrorCode;
use rice_supply_chain::instructions::{
    add_transaction, create_transaction, lookup, update_transaction, AddTransaction,
    CreateTransaction, UpdateTransaction,
};
use rice_supply_chain::store::RecordStore;

const T0: i64 = 1_700_000_000;

fn owner(seed: u8) -> Address {
    Address::new([seed; 32])
}

fn slot_of(authority: &Address, nonce: u8) -> (Address, u8) {
    address::derive(authority, nonce).expect("derivation")
}

fn created(store: &mut RecordStore, authority: Address, nonce: u8) -> Address {
    let (transaction, _) = slot_of(&authority, nonce);
    let ctx = CreateTransaction { transaction, authority };
    assert_eq!(create_transaction(store, ctx, 1, 2, 100, 10, 3, nonce, 44, 13, 1, 0, T0), Ok(()));
    transaction
}

fn record_at(store: &RecordStore, at: &Address) -> TransactionAccount {
    lookup(store, at).expect("record")
}

#[test]
fn create_writes_first_record() {
    let mut store = RecordStore::new();
    let authority = owner(7);
    let (transaction, bump) = slot_of(&authority, 5);
    let ctx = CreateTransaction { transaction, authority };
    assert_eq!(create_transaction(&mut store, ctx, 1, 2, 100, 10, 0, 5, 0, 0, 0, 0, T0), Ok(()));
    let record = record_at(&store, &transaction);
    assert_eq!(
        record,
        TransactionAccount {
            from_actor_id: 1,
            to_actor_id: 2,
            quantity: 100,
            unit_price: 10,
            payment_reference: 0,
            timestamp: T0,
            bump,
            nonce: 5,
            transaction_count: 1,
            batch_id: 0,
            moisture: 0,
            status: 0,
            is_test: 0,
        }
    );
    assert_eq!(store.read(&transaction).expect("slot").len(), TransactionAccount::SPACE);
}

#[test]
fn three_adds_reach_count_four() {
    let mut store = RecordStore::new();
    let authority = owner(7);
    let transaction = created(&mut store, authority, 5);
    let ctx = AddTransaction { transaction, authority };
    for step in 0..3 {
        assert_eq!(add_transaction(&mut store, ctx, 1, 2, 90, 11, 3, 44, 13, 1, 0, T0 + 1 + step), Ok(()));
    }
    let record = record_at(&store, &transaction);
    assert_eq!(record.transaction_count, 4);
    assert_eq!(record.quantity, 90);
    assert_eq!(record.unit_price, 11);
    assert_eq!(record.nonce, 5);
    assert_eq!(record.timestamp, T0 + 3);
}

#[test]
fn update_patches_price_only() {
    let mut store = RecordStore::new();
    let authority = owner(7);
    let transaction = created(&mut store, authority, 5);
    let reuse = AddTransaction { transaction, authority };
    for _ in 0..3 {
        assert_eq!(add_transaction(&mut store, reuse, 1, 2, 90, 11, 3, 44, 13, 1, 0, T0 + 1), Ok(()));
    }
    let before = record_at(&store, &transaction);
    let patch = UpdateTransaction { transaction, authority };
    assert_eq!(update_transaction(&mut store, patch, None, Some(12), None, T0 + 9), Ok(()));
    let after = record_at(&store, &transaction);
    assert_eq!(after.quantity, 90);
    assert_eq!(after.unit_price, 12);
    assert_eq!(after.transaction_count, 4);
    assert_eq!(after, TransactionAccount { unit_price: 12, timestamp: T0 + 9, ..before });
}

#[test]
fn add_without_create_fails_and_allocates_nothing() {
    let mut store = RecordStore::new();
    created(&mut store, owner(7), 5);
    let stranger = owner(8);
    let (transaction, _) = slot_of(&stranger, 5);
    let ctx = AddTransaction { transaction, authority: stranger };
    assert_eq!(
        add_transaction(&mut store, ctx, 1, 2, 90, 11, 3, 44, 13, 1, 0, T0 + 1),
        Err(ErrorCode::AccountNotInitialized)
    );
    assert!(!store.contains(&transaction));
    assert_eq!(lookup(&store, &transaction), None);
}

#[test]
fn second_create_fails_and_keeps_first_record() {
    let mut store = RecordStore::new();
    let authority = owner(7);
    let transaction = created(&mut store, authority, 5);
    let first = record_at(&store, &transaction);
    let bytes = store.read(&transaction).expect("slot").clone();
    let ctx = CreateTransaction { transaction, authority };
    assert_eq!(
        create_transaction(&mut store, ctx, 9, 9, 9, 9, 9, 5, 9, 9, 9, 9, T0 + 50),
        Err(ErrorCode::AccountAlreadyInUse)
    );
    assert_eq!(record_at(&store, &transaction), first);
    assert_eq!(store.read(&transaction).expect("slot"), &bytes);
}

#[test]
fn counter_is_adds_plus_one() {
    for k in [0u64, 1, 2, 10, 37] {
        let mut store = RecordStore::new();
        let authority = owner(21);
        let transaction = created(&mut store, authority, 0);
        let ctx = AddTransaction { transaction, authority };
        for step in 0..k {
            assert_eq!(add_transaction(&mut store, ctx, 1, 2, step, 11, 3, 44, 13, 1, 0, T0), Ok(()));
        }
        assert_eq!(record_at(&store, &transaction).transaction_count, k + 1);
    }
}

#[test]
fn patch_leaves_other_fields_and_counter() {
    for price in [0u64, 10, u64::MAX] {
        let mut store = RecordStore::new();
        let authority = owner(3);
        let (transaction, _) = slot_of(&authority, 1);
        let ctx = CreateTransaction { transaction, authority };
        assert_eq!(create_transaction(&mut store, ctx, 1, 2, 100, price, 3, 1, 44, 13, 1, 0, T0), Ok(()));
        let before = record_at(&store, &transaction);
        let patch = UpdateTransaction { transaction, authority };
        assert_eq!(update_transaction(&mut store, patch, Some(50), None, None, T0 + 1), Ok(()));
        let after = record_at(&store, &transaction);
        assert_eq!(after.quantity, 50);
        assert_eq!(after.unit_price, price);
        assert_eq!(after.transaction_count, before.transaction_count);
        assert_eq!(after, TransactionAccount { quantity: 50, timestamp: T0 + 1, ..before });
    }
}

#[test]
fn patch_with_nothing_present_refreshes_time_only() {
    let mut store = RecordStore::new();
    let authority = owner(3);
    let transaction = created(&mut store, authority, 2);
    let before = record_at(&store, &transaction);
    let patch = UpdateTransaction { transaction, authority };
    assert_eq!(update_transaction(&mut store, patch, None, None, None, -5), Ok(()));
    assert_eq!(record_at(&store, &transaction), TransactionAccount { timestamp: -5, ..before });
}

#[test]
fn patch_replaces_every_present_field() {
    let mut store = RecordStore::new();
    let authority = owner(3);
    let transaction = created(&mut store, authority, 2);
    let before = record_at(&store, &transaction);
    let patch = UpdateTransaction { transaction, authority };
    assert_eq!(update_transaction(&mut store, patch, Some(7), Some(8), Some(9), T0 + 2), Ok(()));
    assert_eq!(
        record_at(&store, &transaction),
        TransactionAccount { quantity: 7, unit_price: 8, payment_reference: 9, timestamp: T0 + 2, ..before }
    );
}

#[test]
fn records_of_different_nonces_are_independent() {
    let mut store = RecordStore::new();
    let authority = owner(7);
    let a = created(&mut store, authority, 0);
    let b = created(&mut store, authority, 1);
    assert_ne!(a, b);
    let ctx = AddTransaction { transaction: b, authority };
    assert_eq!(add_transaction(&mut store, ctx, 5, 6, 7, 8, 9, 10, 11, 12, 13, T0 + 4), Ok(()));
    assert_eq!(record_at(&store, &a).transaction_count, 1);
    assert_eq!(record_at(&store, &a).nonce, 0);
    assert_eq!(record_at(&store, &b).transaction_count, 2);
    assert_eq!(record_at(&store, &b).nonce, 1);
    assert_eq!(record_at(&store, &b).is_test, 13);
}

#[test]
fn capacity_stays_after_every_write() {
    let mut store = RecordStore::new();
    let authority = owner(7);
    let transaction = created(&mut store, authority, 5);
    let reuse = AddTransaction { transaction, authority };
    let patch = UpdateTransaction { transaction, authority };
    assert_eq!(add_transaction(&mut store, reuse, 1, 2, u64::MAX, u64::MAX, 255, u64::MAX, u64::MAX, 255, 255, i64::MAX), Ok(()));
    assert_eq!(store.read(&transaction).expect("slot").len(), TransactionAccount::SPACE);
    assert_eq!(update_transaction(&mut store, patch, Some(u64::MAX), None, None, i64::MIN), Ok(()));
    assert_eq!(store.read(&transaction).expect("slot").len(), TransactionAccount::SPACE);
    assert_eq!(record_at(&store, &transaction).timestamp, i64::MIN);
}

#[test]
fn patches_between_adds_never_count() {
    let mut store = RecordStore::new();
    let authority = owner(9);
    let transaction = created(&mut store, authority, 3);
    let (_, bump) = slot_of(&authority, 3);
    let reuse = AddTransaction { transaction, authority };
    let patch = UpdateTransaction { transaction, authority };
    assert_eq!(update_transaction(&mut store, patch, Some(1), None, None, T0 + 1), Ok(()));
    assert_eq!(add_transaction(&mut store, reuse, 1, 2, 90, 11, 3, 44, 13, 1, 0, T0 + 2), Ok(()));
    assert_eq!(update_transaction(&mut store, patch, None, Some(2), None, T0 + 3), Ok(()));
    assert_eq!(update_transaction(&mut store, patch, None, None, Some(3), T0 + 4), Ok(()));
    assert_eq!(add_transaction(&mut store, reuse, 5, 6, 7, 8, 9, 10, 11, 12, 13, T0 + 5), Ok(()));
    assert_eq!(update_transaction(&mut store, patch, Some(70), None, None, T0 + 6), Ok(()));
    assert_eq!(
        record_at(&store, &transaction),
        TransactionAccount {
            from_actor_id: 5,
            to_actor_id: 6,
            quantity: 70,
            unit_price: 8,
            payment_reference: 9,
            timestamp: T0 + 6,
            bump,
            nonce: 3,
            transaction_count: 3,
            batch_id: 10,
            moisture: 11,
            status: 12,
            is_test: 13,
        }
    );
    assert_eq!(store.read(&transaction).expect("slot").len(), TransactionAccount::SPACE);
}
