//! The byte layout of a record in its slot: an eight-byte header that names
//! the record kind, then every field in declaration order, integers
//! little-endian.

use vstd::prelude::*;
use vstd::bytes::{
    lemma_auto_spec_u64_to_from_le_bytes, spec_u64_from_le_bytes, spec_u64_to_le_bytes,
    u64_from_le_bytes, u64_to_le_bytes,
};
use vstd::slice::slice_subrange;
use crate::account::TransactionAccount;

verus! {

/// The header that marks a slot as holding a transaction record.
pub open spec fn discriminator() -> Seq<u8> {
    seq![146u8, 125u8, 253u8, 167u8, 250u8, 226u8, 175u8, 123u8]
}

/// The bytes of `record` as its slot holds them.
pub open spec fn encoded(record: TransactionAccount) -> Seq<u8> {
    discriminator() + spec_u64_to_le_bytes(record.from_actor_id) + spec_u64_to_le_bytes(
        record.to_actor_id,
    ) + spec_u64_to_le_bytes(record.quantity) + spec_u64_to_le_bytes(record.unit_price)
        + seq![record.payment_reference] + spec_u64_to_le_bytes(record.timestamp as u64)
        + seq![record.bump] + seq![record.nonce] + spec_u64_to_le_bytes(record.transaction_count)
        + spec_u64_to_le_bytes(record.batch_id) + spec_u64_to_le_bytes(record.moisture)
        + seq![record.status] + seq![record.is_test]
}

/// Whether `bytes` are long enough for a record and open with its header.
pub open spec fn recognised(bytes: Seq<u8>) -> bool {
    bytes.len() >= TransactionAccount::SPACE && bytes.subrange(0, 8) == discriminator()
}

/// The record that a slot holding `bytes` stands for, or `None` where the
/// bytes are not of the recognised layout. Bytes past the record are ignored.
pub open spec fn decoded(bytes: Seq<u8>) -> Option<TransactionAccount> {
    if recognised(bytes) {
        Some(
            TransactionAccount {
                from_actor_id: spec_u64_from_le_bytes(bytes.subrange(8, 16)),
                to_actor_id: spec_u64_from_le_bytes(bytes.subrange(16, 24)),
                quantity: spec_u64_from_le_bytes(bytes.subrange(24, 32)),
                unit_price: spec_u64_from_le_bytes(bytes.subrange(32, 40)),
                payment_reference: bytes[40],
                timestamp: spec_u64_from_le_bytes(bytes.subrange(41, 49)) as i64,
                bump: bytes[49],
                nonce: bytes[50],
                transaction_count: spec_u64_from_le_bytes(bytes.subrange(51, 59)),
                batch_id: spec_u64_from_le_bytes(bytes.subrange(59, 67)),
                moisture: spec_u64_from_le_bytes(bytes.subrange(67, 75)),
                status: bytes[75],
                is_test: bytes[76],
            },
        )
    } else {
        None
    }
}

/// An encoded record fills its slot exactly, and decoding gives the record
/// back whatever bytes follow it.
pub proof fn lemma_decode_encoded(record: TransactionAccount, rest: Seq<u8>)
    ensures
        encoded(record).len() == TransactionAccount::SPACE,
        decoded(encoded(record) + rest) == Some(record),
{
    lemma_auto_spec_u64_to_from_le_bytes();
    let bytes = encoded(record) + rest;
    let stamp = record.timestamp;
    assert((stamp as u64) as i64 == stamp) by (bit_vector);
    assert(bytes.subrange(0, 8) =~= discriminator());
    assert(bytes.subrange(8, 16) =~= spec_u64_to_le_bytes(record.from_actor_id));
    assert(bytes.subrange(16, 24) =~= spec_u64_to_le_bytes(record.to_actor_id));
    assert(bytes.subrange(24, 32) =~= spec_u64_to_le_bytes(record.quantity));
    assert(bytes.subrange(32, 40) =~= spec_u64_to_le_bytes(record.unit_price));
    assert(bytes.subrange(41, 49) =~= spec_u64_to_le_bytes(record.timestamp as u64));
    assert(bytes.subrange(51, 59) =~= spec_u64_to_le_bytes(record.transaction_count));
    assert(bytes.subrange(59, 67) =~= spec_u64_to_le_bytes(record.batch_id));
    assert(bytes.subrange(67, 75) =~= spec_u64_to_le_bytes(record.moisture));
}

/// Lays `record` out as the bytes of its slot.
pub fn encode(record: &TransactionAccount) -> (bytes: Vec<u8>)
    ensures
        bytes@ == encoded(*record),
        bytes@.len() == TransactionAccount::SPACE,
{
    let mut out: Vec<u8> = vec![146u8, 125u8, 253u8, 167u8, 250u8, 226u8, 175u8, 123u8];
    assert(out@ =~= discriminator());
    let mut word = u64_to_le_bytes(record.from_actor_id);
    out.append(&mut word);
    let mut word = u64_to_le_bytes(record.to_actor_id);
    out.append(&mut word);
    let mut word = u64_to_le_bytes(record.quantity);
    out.append(&mut word);
    let mut word = u64_to_le_bytes(record.unit_price);
    out.append(&mut word);
    out.push(record.payment_reference);
    let mut word = u64_to_le_bytes(#[verifier::truncate] (record.timestamp as u64));
    out.append(&mut word);
    out.push(record.bump);
    out.push(record.nonce);
    let mut word = u64_to_le_bytes(record.transaction_count);
    out.append(&mut word);
    let mut word = u64_to_le_bytes(record.batch_id);
    out.append(&mut word);
    let mut word = u64_to_le_bytes(record.moisture);
    out.append(&mut word);
    out.push(record.status);
    out.push(record.is_test);
    proof {
        lemma_auto_spec_u64_to_from_le_bytes();
        assert(out@ =~= encoded(*record));
    }
    out
}

/// Reads the record that `bytes` stand for; `None` where they are too short
/// or do not open with the record header.
pub fn decode(bytes: &[u8]) -> (record: Option<TransactionAccount>)
    ensures
        record == decoded(bytes@),
{
    if bytes.len() < TransactionAccount::SPACE {
        return None;
    }
    let header = [146u8, 125u8, 253u8, 167u8, 250u8, 226u8, 175u8, 123u8];
    let mut i: usize = 0;
    while i < 8
        invariant
            i <= 8,
            bytes@.len() >= 77,
            header@ =~= discriminator(),
            forall|j: int| 0 <= j < i ==> bytes@[j] == header@[j],
        decreases 8 - i,
    {
        if bytes[i] != header[i] {
            assert(bytes@.subrange(0, 8)[i as int] != discriminator()[i as int]);
            return None;
        }
        i += 1;
    }
    assert(bytes@.subrange(0, 8) =~= discriminator());
    let stamp = u64_from_le_bytes(slice_subrange(bytes, 41, 49));
    Some(
        TransactionAccount {
            from_actor_id: u64_from_le_bytes(slice_subrange(bytes, 8, 16)),
            to_actor_id: u64_from_le_bytes(slice_subrange(bytes, 16, 24)),
            quantity: u64_from_le_bytes(slice_subrange(bytes, 24, 32)),
            unit_price: u64_from_le_bytes(slice_subrange(bytes, 32, 40)),
            payment_reference: bytes[40],
            timestamp: #[verifier::truncate] (stamp as i64),
            bump: bytes[49],
            nonce: bytes[50],
            transaction_count: u64_from_le_bytes(slice_subrange(bytes, 51, 59)),
            batch_id: u64_from_le_bytes(slice_subrange(bytes, 59, 67)),
            moisture: u64_from_le_bytes(slice_subrange(bytes, 67, 75)),
            status: bytes[75],
            is_test: bytes[76],
        },
    )
}

} // verus!
