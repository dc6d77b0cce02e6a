//! What holds of every record and every ledger, whatever the inputs.

use vstd::prelude::*;
use crate::account::{next_count, TransactionAccount, TransactionData};
use crate::address::{derivation_view, derived, Address};
use crate::error::ErrorCode;
use crate::instructions::{
    add_outcome, create_outcome, record_of, update_outcome, AddTransaction, CreateTransaction,
    UpdateTransaction,
};
use crate::layout::{decoded, encoded, lemma_decode_encoded, recognised};
use crate::store::{written, Ledger};

verus! {

/// The counter after `writes` more full writes: it climbs by one each time
/// and stops at the ceiling.
pub open spec fn counted(count: u64, writes: nat) -> u64 {
    if count + writes <= u64::MAX {
        (count + writes) as u64
    } else {
        u64::MAX
    }
}

/// The accounts of a reuse of the record that a create with `ctx` made.
pub open spec fn reuse_of(ctx: CreateTransaction) -> AddTransaction {
    AddTransaction { transaction: ctx.transaction, authority: ctx.authority }
}

/// The accounts of a patch of the record that a create with `ctx` made.
pub open spec fn patch_of(ctx: CreateTransaction) -> UpdateTransaction {
    UpdateTransaction { transaction: ctx.transaction, authority: ctx.authority }
}

/// What a run of reuses, all with the accounts `ctx`, makes of `ledger`. The
/// run stops at the first reuse that fails.
pub open spec fn add_many(
    ledger: Ledger,
    ctx: AddTransaction,
    writes: Seq<(TransactionData, i64)>,
) -> Result<Ledger, ErrorCode>
    decreases writes.len(),
{
    if writes.len() == 0 {
        Ok(ledger)
    } else {
        match add_many(ledger, ctx, writes.drop_last()) {
            Err(e) => Err(e),
            Ok(before) => add_outcome(before, ctx, writes.last().0, writes.last().1),
        }
    }
}

/// One write to a record that exists: a reuse or a patch.
pub enum Write {
    Add { data: TransactionData, now: i64 },
    Patch {
        quantity: Option<u64>,
        unit_price: Option<u64>,
        payment_reference: Option<u8>,
        now: i64,
    },
}

/// What one write by the signer of `ctx`, on the slot of `ctx`, makes of
/// `ledger`.
pub open spec fn write_outcome(ledger: Ledger, ctx: CreateTransaction, write: Write) -> Result<
    Ledger,
    ErrorCode,
> {
    match write {
        Write::Add { data, now } => add_outcome(ledger, reuse_of(ctx), data, now),
        Write::Patch { quantity, unit_price, payment_reference, now } => update_outcome(
            ledger,
            patch_of(ctx),
            quantity,
            unit_price,
            payment_reference,
            now,
        ),
    }
}

/// What a run of writes makes of `ledger`. The run stops at the first write
/// that fails.
pub open spec fn write_many(ledger: Ledger, ctx: CreateTransaction, writes: Seq<Write>) -> Result<
    Ledger,
    ErrorCode,
>
    decreases writes.len(),
{
    if writes.len() == 0 {
        Ok(ledger)
    } else {
        match write_many(ledger, ctx, writes.drop_last()) {
            Err(e) => Err(e),
            Ok(before) => write_outcome(before, ctx, writes.last()),
        }
    }
}

/// How many of `writes` are reuses.
pub open spec fn reuses_in(writes: Seq<Write>) -> nat
    decreases writes.len(),
{
    if writes.len() == 0 {
        0
    } else {
        reuses_in(writes.drop_last()) + if writes.last() is Add {
            1nat
        } else {
            0nat
        }
    }
}

/// Determinism: whatever two derivations for the same owner and nonce
/// return, they are the same address and the same bump, or both nothing.
pub proof fn lemma_derive_deterministic(
    owner: Address,
    nonce: u8,
    first: Option<(Address, u8)>,
    second: Option<(Address, u8)>,
)
    requires
        derivation_view(first) == derived(owner@, nonce),
        derivation_view(second) == derived(owner@, nonce),
    ensures
        (first is Some) == (second is Some),
        first is Some ==> first->Some_0.0@ == second->Some_0.0@ && first->Some_0.1
            == second->Some_0.1,
{
}

/// A full write replaces every mutable field, sets the time, and counts
/// itself; nonce and bump stay, and the counter never goes down.
pub proof fn lemma_full_write(record: TransactionAccount, data: TransactionData, now: i64)
    ensures
        record.recorded(data, now).nonce == record.nonce,
        record.recorded(data, now).bump == record.bump,
        record.recorded(data, now).timestamp == now,
        record.recorded(data, now).transaction_count == next_count(record.transaction_count),
        record.recorded(data, now).transaction_count >= record.transaction_count,
        record.transaction_count < u64::MAX ==> record.recorded(data, now).transaction_count
            == record.transaction_count + 1,
        record.recorded(data, now).from_actor_id == data.from_actor_id,
        record.recorded(data, now).to_actor_id == data.to_actor_id,
        record.recorded(data, now).quantity == data.quantity,
        record.recorded(data, now).unit_price == data.unit_price,
        record.recorded(data, now).payment_reference == data.payment_reference,
        record.recorded(data, now).batch_id == data.batch_id,
        record.recorded(data, now).moisture == data.moisture,
        record.recorded(data, now).status == data.status,
        record.recorded(data, now).is_test == data.is_test,
{
}

/// The first write to a blank slot stores the bump and the nonce and leaves
/// the counter at 1. On a record that does not look unused the first phase
/// is a plain full write: bump and nonce stay.
pub proof fn lemma_first_write(
    record: TransactionAccount,
    bump: u8,
    nonce: u8,
    data: TransactionData,
    now: i64,
)
    ensures
        TransactionAccount::blank().created(bump, nonce, data, now).transaction_count == 1,
        TransactionAccount::blank().created(bump, nonce, data, now).bump == bump,
        TransactionAccount::blank().created(bump, nonce, data, now).nonce == nonce,
        record.first_use() ==> record.created(bump, nonce, data, now) == (TransactionAccount {
            bump,
            nonce,
            ..record
        }).recorded(data, now),
        !record.first_use() ==> record.created(bump, nonce, data, now) == record.recorded(
            data,
            now,
        ),
{
}

/// Patch isolation: a patch changes the fields that are present and the
/// time, and nothing else. An absent field keeps its stored value; counter,
/// nonce, bump and the fields no patch can name are never touched.
pub proof fn lemma_patch_isolation(
    record: TransactionAccount,
    quantity: Option<u64>,
    unit_price: Option<u64>,
    payment_reference: Option<u8>,
    now: i64,
)
    ensures
        ({
            let after = record.patched(quantity, unit_price, payment_reference, now);
            &&& after.quantity == if let Some(q) = quantity { q } else { record.quantity }
            &&& after.unit_price == if let Some(p) = unit_price { p } else { record.unit_price }
            &&& after.payment_reference == if let Some(r) = payment_reference {
                r
            } else {
                record.payment_reference
            }
            &&& after.timestamp == now
            &&& after.transaction_count == record.transaction_count
            &&& after.nonce == record.nonce
            &&& after.bump == record.bump
            &&& after.from_actor_id == record.from_actor_id
            &&& after.to_actor_id == record.to_actor_id
            &&& after.batch_id == record.batch_id
            &&& after.moisture == record.moisture
            &&& after.status == record.status
            &&& after.is_test == record.is_test
        }),
{
}

/// Capacity enforcement: bytes longer than the slot they are written to are
/// refused, nothing is cut short, and a write that fits changes neither the
/// slot's capacity nor any other slot.
pub proof fn lemma_capacity(ledger: Ledger, address: Seq<u8>, bytes: Seq<u8>)
    requires
        ledger.contains_key(address),
    ensures
        bytes.len() > ledger[address].len() ==> written(ledger, address, bytes) == Err::<
            Ledger,
            ErrorCode,
        >(ErrorCode::InvalidTransactionData),
        bytes.len() <= ledger[address].len() ==> written(ledger, address, bytes) is Ok && ({
            let after = written(ledger, address, bytes)->Ok_0;
            &&& after.dom() == ledger.dom()
            &&& after[address].len() == ledger[address].len()
            &&& after[address].take(bytes.len() as int) == bytes
            &&& after[address].skip(bytes.len() as int) == ledger[address].skip(bytes.len() as int)
            &&& forall|other: Seq<u8>| other != address && ledger.contains_key(other)
                ==> after[other] == ledger[other]
        }),
{
    if bytes.len() <= ledger[address].len() {
        let after = written(ledger, address, bytes)->Ok_0;
        assert(after.dom() =~= ledger.dom());
        assert(after[address].take(bytes.len() as int) =~= bytes);
        assert(after[address].skip(bytes.len() as int) =~= ledger[address].skip(
            bytes.len() as int,
        ));
    }
}

/// A slot too small for a record holds none, so a reuse or a patch of it is
/// refused with `InvalidTransactionData`.
pub proof fn lemma_small_slot(
    ledger: Ledger,
    reuse: AddTransaction,
    data: TransactionData,
    patch: UpdateTransaction,
    quantity: Option<u64>,
    unit_price: Option<u64>,
    payment_reference: Option<u8>,
    now: i64,
)
    ensures
        ledger.contains_key(reuse.transaction@) && ledger[reuse.transaction@].len()
            < TransactionAccount::SPACE ==> add_outcome(ledger, reuse, data, now) == Err::<
            Ledger,
            ErrorCode,
        >(ErrorCode::InvalidTransactionData),
        ledger.contains_key(patch.transaction@) && ledger[patch.transaction@].len()
            < TransactionAccount::SPACE ==> update_outcome(
            ledger,
            patch,
            quantity,
            unit_price,
            payment_reference,
            now,
        ) == Err::<Ledger, ErrorCode>(ErrorCode::InvalidTransactionData),
{
}

/// Ordering: a reuse or a patch of an address at which nothing was created
/// fails, with `AccountNotInitialized` and `TransactionNotFound`, whoever
/// signs it and whatever it carries.
pub proof fn lemma_nothing_before_create(
    ledger: Ledger,
    reuse: AddTransaction,
    data: TransactionData,
    patch: UpdateTransaction,
    quantity: Option<u64>,
    unit_price: Option<u64>,
    payment_reference: Option<u8>,
    now: i64,
)
    ensures
        !ledger.contains_key(reuse.transaction@) ==> add_outcome(ledger, reuse, data, now) == Err::<
            Ledger,
            ErrorCode,
        >(ErrorCode::AccountNotInitialized),
        !ledger.contains_key(patch.transaction@) ==> update_outcome(
            ledger,
            patch,
            quantity,
            unit_price,
            payment_reference,
            now,
        ) == Err::<Ledger, ErrorCode>(ErrorCode::TransactionNotFound),
{
}

/// Only the bound signer writes: a reuse or a patch succeeds only where the
/// derivation for its signer and the stored nonce is the slot itself with the
/// stored bump. Any other signer is refused, with `InvalidNonce` and
/// `Unauthorized`, or with `BumpNotFound` where nothing can be derived.
pub proof fn lemma_bound_signer(
    ledger: Ledger,
    record: TransactionAccount,
    reuse: AddTransaction,
    data: TransactionData,
    patch: UpdateTransaction,
    quantity: Option<u64>,
    unit_price: Option<u64>,
    payment_reference: Option<u8>,
    now: i64,
)
    ensures
        record_of(ledger, reuse.transaction@) == Some(record) && derived(
            reuse.authority@,
            record.nonce,
        ) != Some((reuse.transaction@, record.bump)) ==> add_outcome(ledger, reuse, data, now)
            == Err::<Ledger, ErrorCode>(
            if derived(reuse.authority@, record.nonce) is None {
                ErrorCode::BumpNotFound
            } else {
                ErrorCode::InvalidNonce
            },
        ),
        record_of(ledger, patch.transaction@) == Some(record) && derived(
            patch.authority@,
            record.nonce,
        ) != Some((patch.transaction@, record.bump)) ==> update_outcome(
            ledger,
            patch,
            quantity,
            unit_price,
            payment_reference,
            now,
        ) == Err::<Ledger, ErrorCode>(
            if derived(patch.authority@, record.nonce) is None {
                ErrorCode::BumpNotFound
            } else {
                ErrorCode::Unauthorized
            },
        ),
{
}

/// A create that succeeds allocates exactly one slot, at the address derived
/// for the signer and the nonce, of exactly the record's size, and touches no
/// other slot. The record in it carries the derived bump, the nonce, the
/// data, and a counter of 1.
pub proof fn lemma_create(
    ledger: Ledger,
    ctx: CreateTransaction,
    nonce: u8,
    data: TransactionData,
    now: i64,
)
    requires
        create_outcome(ledger, ctx, nonce, data, now) is Ok,
    ensures
        ({
            let after = create_outcome(ledger, ctx, nonce, data, now)->Ok_0;
            let at = ctx.transaction@;
            &&& derived(ctx.authority@, nonce) matches Some(pair)
            &&& pair.0 == at
            &&& !ledger.contains_key(at)
            &&& after.dom() == ledger.dom().insert(at)
            &&& after[at].len() == TransactionAccount::SPACE
            &&& forall|other: Seq<u8>| ledger.contains_key(other) ==> after[other] == ledger[other]
            &&& record_of(after, at) == Some(
                TransactionAccount::blank().created(pair.1, nonce, data, now),
            )
            &&& record_of(after, at)->Some_0.transaction_count == 1
            &&& record_of(after, at)->Some_0.nonce == nonce
            &&& record_of(after, at)->Some_0.bump == pair.1
        }),
{
    let after = create_outcome(ledger, ctx, nonce, data, now)->Ok_0;
    let pair = derived(ctx.authority@, nonce)->Some_0;
    let record = TransactionAccount::blank().created(pair.1, nonce, data, now);
    lemma_decode_encoded(record, Seq::<u8>::empty());
    assert(encoded(record) + Seq::<u8>::empty() =~= encoded(record));
    assert(after.dom() =~= ledger.dom().insert(ctx.transaction@));
}

/// A create on an address that holds a slot fails with `AccountAlreadyInUse`
/// whenever the address is the one derived for the signer and the nonce.
pub proof fn lemma_create_twice(
    ledger: Ledger,
    ctx: CreateTransaction,
    nonce: u8,
    data: TransactionData,
    now: i64,
)
    requires
        ledger.contains_key(ctx.transaction@),
        derived(ctx.authority@, nonce) matches Some(pair) && pair.0 == ctx.transaction@,
    ensures
        create_outcome(ledger, ctx, nonce, data, now) == Err::<Ledger, ErrorCode>(
            ErrorCode::AccountAlreadyInUse,
        ),
{
}

/// A reuse that succeeds rewrites the one record: every other slot, the set
/// of slots and every capacity stay; the record keeps its nonce and bump,
/// takes the data and the time, and its counter goes up by one, or stays at
/// the ceiling.
pub proof fn lemma_add(ledger: Ledger, ctx: AddTransaction, data: TransactionData, now: i64)
    requires
        add_outcome(ledger, ctx, data, now) is Ok,
    ensures
        ({
            let after = add_outcome(ledger, ctx, data, now)->Ok_0;
            let at = ctx.transaction@;
            &&& record_of(ledger, at) matches Some(before)
            &&& derived(ctx.authority@, before.nonce) == Some((at, before.bump))
            &&& record_of(after, at) == Some(before.recorded(data, now))
            &&& record_of(after, at)->Some_0.nonce == before.nonce
            &&& record_of(after, at)->Some_0.bump == before.bump
            &&& record_of(after, at)->Some_0.transaction_count == next_count(
                before.transaction_count,
            )
            &&& after.dom() == ledger.dom()
            &&& after[at].len() == ledger[at].len()
            &&& forall|other: Seq<u8>| other != at && ledger.contains_key(other) ==> after[other]
                == ledger[other]
        }),
{
    let at = ctx.transaction@;
    let before = decoded(ledger[at])->Some_0;
    let bytes = encoded(before.recorded(data, now));
    let rest = ledger[at].skip(bytes.len() as int);
    lemma_decode_encoded(before.recorded(data, now), rest);
    let after = add_outcome(ledger, ctx, data, now)->Ok_0;
    assert(after.dom() =~= ledger.dom());
}

/// A patch that succeeds rewrites the one record: every other slot, the set
/// of slots and every capacity stay; the record is the stored one with the
/// present fields replaced and the time refreshed.
pub proof fn lemma_update(
    ledger: Ledger,
    ctx: UpdateTransaction,
    quantity: Option<u64>,
    unit_price: Option<u64>,
    payment_reference: Option<u8>,
    now: i64,
)
    requires
        update_outcome(ledger, ctx, quantity, unit_price, payment_reference, now) is Ok,
    ensures
        ({
            let after = update_outcome(
                ledger,
                ctx,
                quantity,
                unit_price,
                payment_reference,
                now,
            )->Ok_0;
            let at = ctx.transaction@;
            &&& record_of(ledger, at) matches Some(before)
            &&& derived(ctx.authority@, before.nonce) == Some((at, before.bump))
            &&& record_of(after, at) == Some(
                before.patched(quantity, unit_price, payment_reference, now),
            )
            &&& record_of(after, at)->Some_0.transaction_count == before.transaction_count
            &&& record_of(after, at)->Some_0.nonce == before.nonce
            &&& record_of(after, at)->Some_0.bump == before.bump
            &&& after.dom() == ledger.dom()
            &&& after[at].len() == ledger[at].len()
            &&& forall|other: Seq<u8>| other != at && ledger.contains_key(other) ==> after[other]
                == ledger[other]
        }),
{
    let at = ctx.transaction@;
    let before = decoded(ledger[at])->Some_0;
    let next = before.patched(quantity, unit_price, payment_reference, now);
    let bytes = encoded(next);
    let rest = ledger[at].skip(bytes.len() as int);
    lemma_decode_encoded(next, rest);
    let after = update_outcome(ledger, ctx, quantity, unit_price, payment_reference, now)->Ok_0;
    assert(after.dom() =~= ledger.dom());
}

/// Once a slot holds a record whose nonce and bump are the derivation of the
/// signer, every reuse by that signer succeeds, and after `writes` of them the
/// counter stands `writes` higher, or at the ceiling; nonce and bump are
/// still the same, and the record carries what the last reuse wrote.
pub proof fn lemma_adds_count(
    ledger: Ledger,
    ctx: AddTransaction,
    writes: Seq<(TransactionData, i64)>,
)
    requires
        record_of(ledger, ctx.transaction@) matches Some(start) && derived(
            ctx.authority@,
            start.nonce,
        ) == Some((ctx.transaction@, start.bump)),
    ensures
        add_many(ledger, ctx, writes) matches Ok(after) && record_of(
            after,
            ctx.transaction@,
        ) matches Some(record) && {
            let start = record_of(ledger, ctx.transaction@)->Some_0;
            &&& record.transaction_count == counted(start.transaction_count, writes.len())
            &&& record.nonce == start.nonce
            &&& record.bump == start.bump
            &&& after.dom() == ledger.dom()
            &&& writes.len() > 0 ==> record == (TransactionAccount {
                transaction_count: record.transaction_count,
                ..start.recorded(writes.last().0, writes.last().1)
            })
        },
    decreases writes.len(),
{
    let at = ctx.transaction@;
    if writes.len() == 0 {
        assert(ledger.dom() =~= ledger.dom());
    } else {
        lemma_adds_count(ledger, ctx, writes.drop_last());
        let before = add_many(ledger, ctx, writes.drop_last())->Ok_0;
        assert(add_outcome(before, ctx, writes.last().0, writes.last().1) is Ok) by {
            let stored = record_of(before, at)->Some_0;
            lemma_decode_encoded(
                stored.recorded(writes.last().0, writes.last().1),
                Seq::<u8>::empty(),
            );
            assert(recognised(before[at]));
        }
        lemma_add(before, ctx, writes.last().0, writes.last().1);
    }
}

/// Counter monotonicity: after a create and `writes` reuses by the same
/// signer on the same address, every one of them succeeds and the counter is
/// `writes + 1`, short of the ceiling.
pub proof fn lemma_count_after_create(
    ledger: Ledger,
    ctx: CreateTransaction,
    nonce: u8,
    data: TransactionData,
    now: i64,
    writes: Seq<(TransactionData, i64)>,
)
    requires
        create_outcome(ledger, ctx, nonce, data, now) is Ok,
    ensures
        add_many(
            create_outcome(ledger, ctx, nonce, data, now)->Ok_0,
            reuse_of(ctx),
            writes,
        ) matches Ok(after) && record_of(after, ctx.transaction@) matches Some(record) && {
            &&& record.transaction_count == counted(1, writes.len())
            &&& writes.len() + 1 <= u64::MAX ==> record.transaction_count == writes.len() + 1
            &&& record.nonce == nonce
        },
{
    lemma_create(ledger, ctx, nonce, data, now);
    let created = create_outcome(ledger, ctx, nonce, data, now)->Ok_0;
    lemma_adds_count(created, reuse_of(ctx), writes);
}

/// The life of a record: after its create, every reuse and every patch by
/// its signer succeeds, in whatever order they come. The record never moves
/// and never changes its nonce or bump, its slot never changes its size, no
/// slot is added, and the counter is one more than the number of reuses,
/// short of the ceiling: patches never count.
pub proof fn lemma_history(
    ledger: Ledger,
    ctx: CreateTransaction,
    nonce: u8,
    data: TransactionData,
    now: i64,
    writes: Seq<Write>,
)
    requires
        create_outcome(ledger, ctx, nonce, data, now) is Ok,
    ensures
        write_many(create_outcome(ledger, ctx, nonce, data, now)->Ok_0, ctx, writes) matches Ok(
            after,
        ) && record_of(after, ctx.transaction@) matches Some(record) && {
            &&& record.transaction_count == counted(1, reuses_in(writes))
            &&& record.nonce == nonce
            &&& derived(ctx.authority@, nonce) == Some((ctx.transaction@, record.bump))
            &&& after.dom() == ledger.dom().insert(ctx.transaction@)
            &&& after[ctx.transaction@].len() == TransactionAccount::SPACE
            &&& forall|other: Seq<u8>| ledger.contains_key(other) ==> after[other] == ledger[other]
        },
    decreases writes.len(),
{
    let at = ctx.transaction@;
    let created = create_outcome(ledger, ctx, nonce, data, now)->Ok_0;
    lemma_create(ledger, ctx, nonce, data, now);
    if writes.len() > 0 {
        lemma_history(ledger, ctx, nonce, data, now, writes.drop_last());
        let before = write_many(created, ctx, writes.drop_last())->Ok_0;
        let stored = record_of(before, at)->Some_0;
        assert(recognised(before[at]));
        match writes.last() {
            Write::Add { data, now } => {
                lemma_decode_encoded(stored.recorded(data, now), Seq::<u8>::empty());
                lemma_add(before, reuse_of(ctx), data, now);
            },
            Write::Patch { quantity, unit_price, payment_reference, now } => {
                lemma_decode_encoded(
                    stored.patched(quantity, unit_price, payment_reference, now),
                    Seq::<u8>::empty(),
                );
                lemma_update(before, patch_of(ctx), quantity, unit_price, payment_reference, now);
            },
        }
    }
}

} // verus!
