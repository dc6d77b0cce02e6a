use rice_supply_chain::account::{TransactionAccount, TransactionData};

fn data() -> TransactionData {
    TransactionData {
        from_actor_id: 1,
        to_actor_id: 2,
        quantity: 100,
        unit_price: 10,
        payment_reference: 3,
        batch_id: 44,
        moisture: 13,
        status: 1,
        is_test: 0,
    }
}

#[test]
fn zeroed_record_is_all_zero() {
    let record = TransactionAccount::zeroed();
    assert_eq!(
        record,
        TransactionAccount {
            from_actor_id: 0,
            to_actor_id: 0,
            quantity: 0,
            unit_price: 0,
            payment_reference: 0,
            timestamp: 0,
            bump: 0,
            nonce: 0,
            transaction_count: 0,
            batch_id: 0,
            moisture: 0,
            status: 0,
            is_test: 0,
        }
    );
}

#[test]
fn first_write_takes_bump_and_nonce() {
    let mut record = TransactionAccount::zeroed();
    record.record_create(253, 5, &data(), 1000);
    assert_eq!(
        record,
        TransactionAccount {
            from_actor_id: 1,
            to_actor_id: 2,
            quantity: 100,
            unit_price: 10,
            payment_reference: 3,
            timestamp: 1000,
            bump: 253,
            nonce: 5,
            transaction_count: 1,
            batch_id: 44,
            moisture: 13,
            status: 1,
            is_test: 0,
        }
    );
}

#[test]
fn first_phase_on_a_used_record_keeps_bump_and_nonce() {
    let mut record = TransactionAccount::zeroed();
    record.record_create(253, 5, &data(), 1000);
    record.record_create(1, 9, &data(), 2000);
    assert_eq!(record.bump, 253);
    assert_eq!(record.nonce, 5);
    assert_eq!(record.transaction_count, 2);
    assert_eq!(record.timestamp, 2000);
}

#[test]
fn nonce_zero_record_with_writes_is_not_taken_for_unused() {
    let mut record = TransactionAccount::zeroed();
    record.record_create(253, 0, &data(), 1000);
    assert_eq!((record.bump, record.nonce, record.transaction_count), (253, 0, 1));
    record.record_create(7, 9, &data(), 2000);
    assert_eq!((record.bump, record.nonce, record.transaction_count), (253, 0, 2));
}

#[test]
fn nonce_zero_record_without_writes_looks_unused() {
    let mut record = TransactionAccount { bump: 200, quantity: 55, ..TransactionAccount::zeroed() };
    record.record_create(7, 9, &data(), 2000);
    assert_eq!((record.bump, record.nonce, record.transaction_count), (7, 9, 1));
    let mut counted = TransactionAccount { bump: 200, nonce: 0, transaction_count: 3, ..TransactionAccount::zeroed() };
    counted.record_create(7, 9, &data(), 2000);
    assert_eq!((counted.bump, counted.nonce, counted.transaction_count), (200, 0, 4));
    let mut numbered = TransactionAccount { bump: 200, nonce: 4, ..TransactionAccount::zeroed() };
    numbered.record_create(7, 9, &data(), 2000);
    assert_eq!((numbered.bump, numbered.nonce, numbered.transaction_count), (200, 4, 1));
}

#[test]
fn full_write_replaces_every_mutable_field() {
    let mut record = TransactionAccount {
        from_actor_id: 91,
        to_actor_id: 92,
        quantity: 93,
        unit_price: 94,
        payment_reference: 95,
        timestamp: 96,
        bump: 97,
        nonce: 98,
        transaction_count: 99,
        batch_id: 100,
        moisture: 101,
        status: 102,
        is_test: 103,
    };
    record.record_add(&data(), -7);
    assert_eq!(
        record,
        TransactionAccount {
            from_actor_id: 1,
            to_actor_id: 2,
            quantity: 100,
            unit_price: 10,
            payment_reference: 3,
            timestamp: -7,
            bump: 97,
            nonce: 98,
            transaction_count: 100,
            batch_id: 44,
            moisture: 13,
            status: 1,
            is_test: 0,
        }
    );
}

#[test]
fn counter_stops_at_the_ceiling() {
    let mut record = TransactionAccount { transaction_count: u64::MAX - 1, nonce: 1, ..TransactionAccount::zeroed() };
    record.record_add(&data(), 1);
    assert_eq!(record.transaction_count, u64::MAX);
    record.record_add(&data(), 2);
    assert_eq!(record.transaction_count, u64::MAX);
    record.record_create(1, 2, &data(), 3);
    assert_eq!(record.transaction_count, u64::MAX);
}

#[test]
fn patch_touches_only_what_is_present() {
    let before = TransactionAccount {
        from_actor_id: 91,
        to_actor_id: 92,
        quantity: 100,
        unit_price: 94,
        payment_reference: 95,
        timestamp: 96,
        bump: 97,
        nonce: 98,
        transaction_count: 99,
        batch_id: 100,
        moisture: 101,
        status: 102,
        is_test: 103,
    };
    let mut record = before;
    record.record_update(Some(50), None, None, 200);
    assert_eq!(record, TransactionAccount { quantity: 50, timestamp: 200, ..before });
    let mut record = before;
    record.record_update(None, Some(12), None, 201);
    assert_eq!(record, TransactionAccount { unit_price: 12, timestamp: 201, ..before });
    let mut record = before;
    record.record_update(None, None, Some(0), 202);
    assert_eq!(record, TransactionAccount { payment_reference: 0, timestamp: 202, ..before });
    let mut record = before;
    record.record_update(None, None, None, 203);
    assert_eq!(record, TransactionAccount { timestamp: 203, ..before });
}
