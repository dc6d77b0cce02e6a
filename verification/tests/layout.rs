use anchor_lang::prelude::borsh;
use rice_supply_chain::account::TransactionAccount;
use rice_supply_chain::layout::{decode, encode};
use sha2::{Digest, Sha256};

fn sample() -> TransactionAccount {
    TransactionAccount {
        from_actor_id: 1,
        to_actor_id: 2,
        quantity: 100,
        unit_price: 10,
        payment_reference: 3,
        timestamp: 1_700_000_000,
        bump: 254,
        nonce: 5,
        transaction_count: 4,
        batch_id: 0x0102030405060708,
        moisture: 13,
        status: 1,
        is_test: 0,
    }
}

#[test]
fn space_is_the_sum_of_the_fields() {
    assert_eq!(TransactionAccount::SPACE, 77);
}

#[test]
fn encode_gives_the_exact_bytes() {
    let expected: Vec<u8> = vec![
        146, 125, 253, 167, 250, 226, 175, 123, // header
        1, 0, 0, 0, 0, 0, 0, 0, // from_actor_id
        2, 0, 0, 0, 0, 0, 0, 0, // to_actor_id
        100, 0, 0, 0, 0, 0, 0, 0, // quantity
        10, 0, 0, 0, 0, 0, 0, 0, // unit_price
        3, // payment_reference
        0x00, 0xf1, 0x53, 0x65, 0, 0, 0, 0, // timestamp
        254, // bump
        5, // nonce
        4, 0, 0, 0, 0, 0, 0, 0, // transaction_count
        8, 7, 6, 5, 4, 3, 2, 1, // batch_id
        13, 0, 0, 0, 0, 0, 0, 0, // moisture
        1, // status
        0, // is_test
    ];
    assert_eq!(encode(&sample()), expected);
    assert_eq!(expected.len(), TransactionAccount::SPACE);
}

#[test]
fn header_is_the_hash_of_the_record_kind() {
    let digest = Sha256::digest(b"account:TransactionAccount");
    assert_eq!(&encode(&sample())[..8], &digest[..8]);
}

#[test]
fn fields_are_laid_out_as_borsh_does() {
    for record in [
        sample(),
        TransactionAccount::zeroed(),
        TransactionAccount {
            from_actor_id: u64::MAX,
            to_actor_id: u64::MAX - 1,
            quantity: 1 << 63,
            unit_price: 0xdead_beef,
            payment_reference: 255,
            timestamp: i64::MIN,
            bump: 255,
            nonce: 255,
            transaction_count: u64::MAX,
            batch_id: 77,
            moisture: 1 << 40,
            status: 128,
            is_test: 1,
        },
        TransactionAccount { timestamp: -1, ..sample() },
    ] {
        let fields = borsh::to_vec(&(
            record.from_actor_id,
            record.to_actor_id,
            record.quantity,
            record.unit_price,
            record.payment_reference,
            record.timestamp,
            record.bump,
            record.nonce,
            record.transaction_count,
            record.batch_id,
            record.moisture,
            record.status,
            record.is_test,
        ))
        .expect("borsh");
        let bytes = encode(&record);
        assert_eq!(bytes.len(), TransactionAccount::SPACE);
        assert_eq!(&bytes[8..], &fields[..]);
        assert_eq!(decode(&bytes), Some(record));
    }
}

#[test]
fn decode_ignores_what_follows_the_record() {
    let mut bytes = encode(&sample());
    bytes.extend_from_slice(&[1, 2, 3, 4]);
    assert_eq!(decode(&bytes), Some(sample()));
}

#[test]
fn decode_refuses_short_bytes() {
    let bytes = encode(&sample());
    assert_eq!(decode(&bytes[..TransactionAccount::SPACE - 1]), None);
    assert_eq!(decode(&bytes[..8]), None);
    assert_eq!(decode(&[]), None);
}

#[test]
fn decode_refuses_another_header() {
    for i in 0..8 {
        let mut bytes = encode(&sample());
        bytes[i] ^= 1;
        assert_eq!(decode(&bytes), None);
    }
    assert_eq!(decode(&[0u8; 77]), None);
}

#[test]
fn negative_times_survive_the_layout() {
    for stamp in [i64::MIN, -1_700_000_000, -1, 0, 1, i64::MAX] {
        let record = TransactionAccount { timestamp: stamp, ..sample() };
        assert_eq!(decode(&encode(&record)), Some(record));
    }
}
