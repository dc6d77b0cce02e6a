//! The transaction record and the three ways a write changes it.

use vstd::prelude::*;

verus! {

/// One persisted transfer of rice between two actors, with its bookkeeping.
#[derive(Clone, Copy, Debug, PartialEq, Eq, Structural)]
pub struct TransactionAccount {
    pub from_actor_id: u64,
    pub to_actor_id: u64,
    pub quantity: u64,
    pub unit_price: u64,
    pub payment_reference: u8,
    /// Wall-clock time of the last write.
    pub timestamp: i64,
    /// Bump of the canonical address, fixed when the record is created.
    pub bump: u8,
    /// Distinguishes the records of one owner, fixed when the record is created.
    pub nonce: u8,
    /// Number of full writes so far; it stops at the integer ceiling.
    pub transaction_count: u64,
    pub batch_id: u64,
    pub moisture: u64,
    pub status: u8,
    pub is_test: u8,
}

/// The fields that a full write replaces.
#[derive(Clone, Copy, Debug, PartialEq, Eq, Structural)]
pub struct TransactionData {
    pub from_actor_id: u64,
    pub to_actor_id: u64,
    pub quantity: u64,
    pub unit_price: u64,
    pub payment_reference: u8,
    pub batch_id: u64,
    pub moisture: u64,
    pub status: u8,
    pub is_test: u8,
}

/// The counter after one more full write: one higher, unless it already
/// stands at the ceiling.
pub open spec fn next_count(count: u64) -> u64 {
    if count == u64::MAX {
        u64::MAX
    } else {
        (count + 1) as u64
    }
}

impl TransactionAccount {
    /// Bytes that one record takes in its slot: the header and every field.
    pub const SPACE: usize = 8  // header
        + 8  // from_actor_id
        + 8  // to_actor_id
        + 8  // quantity
        + 8  // unit_price
        + 1  // payment_reference
        + 8  // timestamp
        + 1  // bump
        + 1  // nonce
        + 8  // transaction_count
        + 8  // batch_id
        + 8  // moisture
        + 1  // status
        + 1;  // is_test

    /// What a freshly allocated slot reads as.
    pub open spec fn blank() -> TransactionAccount {
        TransactionAccount {
            from_actor_id: 0,
            to_actor_id: 0,
            quantity: 0,
            unit_price: 0,
            payment_reference: 0,
            timestamp: 0,
            bump: 0,
            nonce: 0,
            transaction_count: 0,
            batch_id: 0,
            moisture: 0,
            status: 0,
            is_test: 0,
        }
    }

    /// Whether the record looks unused. A record created under nonce 0 whose
    /// counter is still 0 looks the same as a blank slot.
    pub open spec fn first_use(self) -> bool {
        self.nonce == 0 && self.transaction_count == 0
    }

    /// The record after a full write of `data` at time `now`.
    pub open spec fn recorded(self, data: TransactionData, now: i64) -> TransactionAccount {
        TransactionAccount {
            from_actor_id: data.from_actor_id,
            to_actor_id: data.to_actor_id,
            quantity: data.quantity,
            unit_price: data.unit_price,
            payment_reference: data.payment_reference,
            timestamp: now,
            bump: self.bump,
            nonce: self.nonce,
            transaction_count: next_count(self.transaction_count),
            batch_id: data.batch_id,
            moisture: data.moisture,
            status: data.status,
            is_test: data.is_test,
        }
    }

    /// The record after the first phase: `bump` and `nonce` are taken only
    /// where the record looks unused, then `data` is written in full.
    pub open spec fn created(
        self,
        bump: u8,
        nonce: u8,
        data: TransactionData,
        now: i64,
    ) -> TransactionAccount {
        if self.first_use() {
            (TransactionAccount { bump, nonce, ..self }).recorded(data, now)
        } else {
            self.recorded(data, now)
        }
    }

    /// The record after a patch: each field that is present replaces the
    /// stored one, each absent field stays, and the time is refreshed.
    pub open spec fn patched(
        self,
        quantity: Option<u64>,
        unit_price: Option<u64>,
        payment_reference: Option<u8>,
        now: i64,
    ) -> TransactionAccount {
        TransactionAccount {
            quantity: match quantity {
                Some(q) => q,
                None => self.quantity,
            },
            unit_price: match unit_price {
                Some(p) => p,
                None => self.unit_price,
            },
            payment_reference: match payment_reference {
                Some(r) => r,
                None => self.payment_reference,
            },
            timestamp: now,
            ..self
        }
    }

    /// A record as a freshly allocated slot holds it: every field zero.
    pub fn zeroed() -> (record: TransactionAccount)
        ensures
            record == TransactionAccount::blank(),
    {
        TransactionAccount {
            from_actor_id: 0,
            to_actor_id: 0,
            quantity: 0,
            unit_price: 0,
            payment_reference: 0,
            timestamp: 0,
            bump: 0,
            nonce: 0,
            transaction_count: 0,
            batch_id: 0,
            moisture: 0,
            status: 0,
            is_test: 0,
        }
    }

    /// Second phase, and the body of the first: replaces every mutable field
    /// with `data`, sets the time and counts the write.
    pub fn record_add(&mut self, data: &TransactionData, now: i64)
        ensures
            *final(self) == old(self).recorded(*data, now),
    {
        self.from_actor_id = data.from_actor_id;
        self.to_actor_id = data.to_actor_id;
        self.quantity = data.quantity;
        self.unit_price = data.unit_price;
        self.payment_reference = data.payment_reference;
        self.batch_id = data.batch_id;
        self.moisture = data.moisture;
        self.status = data.status;
        self.is_test = data.is_test;
        self.timestamp = now;
        self.transaction_count = self.transaction_count.saturating_add(1);
    }

    /// First phase: takes `bump` and `nonce` where the record looks unused,
    /// then writes `data` in full.
    pub fn record_create(&mut self, bump: u8, nonce: u8, data: &TransactionData, now: i64)
        ensures
            *final(self) == old(self).created(bump, nonce, *data, now),
    {
        if self.nonce == 0 && self.transaction_count == 0 {
            self.bump = bump;
            self.nonce = nonce;
        }
        self.record_add(data, now);
    }

    /// Patch: replaces the fields that are present and refreshes the time.
    /// Counter, nonce and bump are never touched.
    pub fn record_update(
        &mut self,
        quantity: Option<u64>,
        unit_price: Option<u64>,
        payment_reference: Option<u8>,
        now: i64,
    )
        ensures
            *final(self) == old(self).patched(quantity, unit_price, payment_reference, now),
    {
        if let Some(q) = quantity {
            self.quantity = q;
        }
        if let Some(p) = unit_price {
            self.unit_price = p;
        }
        if let Some(r) = payment_reference {
            self.payment_reference = r;
        }
        self.timestamp = now;
    }
}

} // verus!
