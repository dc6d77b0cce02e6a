//! The keyed store that stands for the ledger: fixed-capacity slots of raw
//! bytes, each found by its address.

use vstd::prelude::*;
use crate::address::Address;
use crate::error::ErrorCode;

verus! {

/// What a store holds, as a map from an address to the bytes of its slot.
pub type Ledger = Map<Seq<u8>, Seq<u8>>;

/// One allocated slot. Its capacity is the length of `data`.
struct Slot {
    address: Address,
    data: Vec<u8>,
}

/// The slots of a ledger. Nothing is ever removed, and no slot changes its
/// capacity.
pub struct RecordStore {
    slots: Vec<Slot>,
}

/// `n` zero bytes: what a freshly allocated slot of capacity `n` holds.
pub open spec fn zeros(n: nat) -> Seq<u8> {
    Seq::new(n, |i: int| 0u8)
}

/// The bytes of a slot after `bytes` were written at its start: the rest of
/// the slot stays as it was.
pub open spec fn overwritten(slot: Seq<u8>, bytes: Seq<u8>) -> Seq<u8> {
    bytes + slot.skip(bytes.len() as int)
}

/// What `ledger` becomes when a slot of `space` zero bytes is allocated at
/// `address`, or why it cannot be.
pub open spec fn allocated(ledger: Ledger, address: Seq<u8>, space: nat) -> Result<
    Ledger,
    ErrorCode,
> {
    if ledger.contains_key(address) {
        Err(ErrorCode::AccountAlreadyInUse)
    } else {
        Ok(ledger.insert(address, zeros(space)))
    }
}

/// What `ledger` becomes when `bytes` are written into the slot at `address`,
/// or why they cannot be.
pub open spec fn written(ledger: Ledger, address: Seq<u8>, bytes: Seq<u8>) -> Result<
    Ledger,
    ErrorCode,
> {
    if !ledger.contains_key(address) {
        Err(ErrorCode::AccountNotInitialized)
    } else if bytes.len() > ledger[address].len() {
        Err(ErrorCode::InvalidTransactionData)
    } else {
        Ok(ledger.insert(address, overwritten(ledger[address], bytes)))
    }
}

/// Whether a step that was to turn `before` into `outcome` ended as it
/// should: on success the store holds the new ledger, on failure the error
/// is reported and the store holds what it held.
pub open spec fn settled(
    outcome: Result<Ledger, ErrorCode>,
    before: Ledger,
    after: Ledger,
    result: Result<(), ErrorCode>,
) -> bool {
    match outcome {
        Ok(ledger) => result is Ok && after == ledger,
        Err(e) => result == Err::<(), ErrorCode>(e) && after == before,
    }
}

/// Whether `i` is the first slot of `slots` that has the address `a`.
spec fn first_at(slots: Seq<Slot>, a: Seq<u8>, i: int) -> bool {
    &&& 0 <= i < slots.len()
    &&& slots[i].address@ == a
    &&& forall|j: int| 0 <= j < i ==> (#[trigger] slots[j]).address@ != a
}

/// Whether no slot of `slots` has the address `a`.
spec fn absent(slots: Seq<Slot>, a: Seq<u8>) -> bool {
    forall|j: int| 0 <= j < slots.len() ==> (#[trigger] slots[j]).address@ != a
}

/// The ledger that `slots` stand for. Were an address to occur twice, its
/// first slot would count.
spec fn ledger_of(slots: Seq<Slot>) -> Ledger {
    Map::new(
        |a: Seq<u8>| exists|i: int| first_at(slots, a, i),
        |a: Seq<u8>| slots[choose|i: int| first_at(slots, a, i)].data@,
    )
}

/// The first slot with an address is the one the ledger shows for it.
proof fn lemma_found(slots: Seq<Slot>, a: Seq<u8>, i: int)
    requires
        first_at(slots, a, i),
    ensures
        ledger_of(slots).contains_key(a),
        ledger_of(slots)[a] == slots[i].data@,
{
    let k = choose|k: int| first_at(slots, a, k);
    assert(first_at(slots, a, k));
    if k < i {
        assert(slots[k].address@ != a);
    }
    if i < k {
        assert(slots[i].address@ != a);
    }
}

/// An address that no slot has is not in the ledger.
proof fn lemma_absent(slots: Seq<Slot>, a: Seq<u8>)
    requires
        absent(slots, a),
    ensures
        !ledger_of(slots).contains_key(a),
{
    if exists|i: int| first_at(slots, a, i) {
        let i = choose|i: int| first_at(slots, a, i);
        assert(slots[i].address@ != a);
    }
}

/// A slot pushed under a new address adds that one entry to the ledger.
proof fn lemma_pushed(slots: Seq<Slot>, slot: Slot)
    requires
        absent(slots, slot.address@),
    ensures
        ledger_of(slots.push(slot)) == ledger_of(slots).insert(slot.address@, slot.data@),
{
    let after = slots.push(slot);
    let a = slot.address@;
    assert(first_at(after, a, slots.len() as int)) by {
        assert forall|j: int| 0 <= j < slots.len() implies (#[trigger] after[j]).address@ != a by {
            assert(after[j] == slots[j]);
        }
    }
    lemma_found(after, a, slots.len() as int);
    let before_map = ledger_of(slots);
    let after_map = ledger_of(after);
    assert forall|b: Seq<u8>| b != a && #[trigger] before_map.contains_key(b) implies {
        &&& after_map.contains_key(b)
        &&& after_map[b] == before_map[b]
    } by {
        let i = choose|i: int| first_at(slots, b, i);
        assert(first_at(after, b, i)) by {
            assert(after[i] == slots[i]);
            assert forall|j: int| 0 <= j < i implies (#[trigger] after[j]).address@ != b by {
                assert(after[j] == slots[j]);
            }
        }
        lemma_found(slots, b, i);
        lemma_found(after, b, i);
    }
    assert forall|b: Seq<u8>| b != a && #[trigger] after_map.contains_key(
        b,
    ) implies before_map.contains_key(b) by {
        let i = choose|i: int| first_at(after, b, i);
        assert(i < slots.len());
        assert(first_at(slots, b, i)) by {
            assert(after[i] == slots[i]);
            assert forall|j: int| 0 <= j < i implies (#[trigger] slots[j]).address@ != b by {
                assert(after[j] == slots[j]);
            }
        }
    }
    assert(after_map =~= before_map.insert(a, slot.data@));
}

/// Replacing the first slot of an address by one of the same address changes
/// that one entry of the ledger.
proof fn lemma_replaced(slots: Seq<Slot>, i: int, slot: Slot)
    requires
        first_at(slots, slot.address@, i),
    ensures
        ledger_of(slots.update(i, slot)) == ledger_of(slots).insert(slot.address@, slot.data@),
{
    let after = slots.update(i, slot);
    let a = slot.address@;
    assert forall|b: Seq<u8>, k: int| first_at(slots, b, k) == first_at(after, b, k) by {
        if 0 <= k < slots.len() {
            assert(after[k].address@ == slots[k].address@);
            if first_at(slots, b, k) {
                assert forall|j: int| 0 <= j < k implies (#[trigger] after[j]).address@ != b by {
                    assert(after[j].address@ == slots[j].address@);
                }
            }
            if first_at(after, b, k) {
                assert forall|j: int| 0 <= j < k implies (#[trigger] slots[j]).address@ != b by {
                    assert(after[j].address@ == slots[j].address@);
                }
            }
        }
    }
    lemma_found(after, a, i);
    assert forall|b: Seq<u8>| b != a && ledger_of(slots).contains_key(b) implies ledger_of(
        after,
    )[b] == ledger_of(slots)[b] by {
        let k = choose|k: int| first_at(slots, b, k);
        assert(first_at(after, b, k));
        lemma_found(slots, b, k);
        lemma_found(after, b, k);
        assert(k != i);
    }
    assert(ledger_of(after) =~= ledger_of(slots).insert(a, slot.data@));
}

impl View for RecordStore {
    type V = Ledger;

    closed spec fn view(&self) -> Ledger {
        ledger_of(self.slots@)
    }
}

impl RecordStore {
    /// A store with no slot.
    pub fn new() -> (store: RecordStore)
        ensures
            store@ == Map::<Seq<u8>, Seq<u8>>::empty(),
    {
        let store = RecordStore { slots: Vec::new() };
        assert(store@ =~= Map::<Seq<u8>, Seq<u8>>::empty());
        store
    }

    /// The first slot that has `address`, if any.
    fn find(&self, address: &Address) -> (found: Option<usize>)
        ensures
            match found {
                Some(i) => first_at(self.slots@, address@, i as int),
                None => absent(self.slots@, address@),
            },
    {
        let mut i: usize = 0;
        while i < self.slots.len()
            invariant
                i <= self.slots@.len(),
                forall|j: int| 0 <= j < i ==> (#[trigger] self.slots@[j]).address@ != address@,
            decreases self.slots@.len() - i,
        {
            if self.slots[i].address.same(address) {
                return Some(i);
            }
            i += 1;
        }
        None
    }

    /// Whether a slot is allocated at `address`.
    pub fn contains(&self, address: &Address) -> (present: bool)
        ensures
            present == self@.contains_key(address@),
    {
        match self.find(address) {
            Some(i) => {
                proof {
                    lemma_found(self.slots@, address@, i as int);
                }
                true
            },
            None => {
                proof {
                    lemma_absent(self.slots@, address@);
                }
                false
            },
        }
    }

    /// The bytes of the slot at `address`, or `None` where none is allocated.
    pub fn read(&self, address: &Address) -> (bytes: Option<&Vec<u8>>)
        ensures
            match bytes {
                Some(data) => self@.contains_key(address@) && data@ == self@[address@],
                None => !self@.contains_key(address@),
            },
    {
        match self.find(address) {
            Some(i) => {
                proof {
                    lemma_found(self.slots@, address@, i as int);
                }
                Some(&self.slots[i].data)
            },
            None => {
                proof {
                    lemma_absent(self.slots@, address@);
                }
                None
            },
        }
    }

    /// Allocates a slot of `space` zero bytes at `address`. An address that
    /// already holds a slot is refused with `AccountAlreadyInUse`, and the
    /// store stays as it was.
    pub fn allocate(&mut self, address: &Address, space: usize) -> (result: Result<(), ErrorCode>)
        ensures
            settled(
                allocated(old(self)@, address@, space as nat),
                old(self)@,
                final(self)@,
                result,
            ),
    {
        match self.find(address) {
            Some(i) => {
                proof {
                    lemma_found(self.slots@, address@, i as int);
                }
                Err(ErrorCode::AccountAlreadyInUse)
            },
            None => {
                let mut data: Vec<u8> = Vec::new();
                let mut k: usize = 0;
                while k < space
                    invariant
                        k <= space,
                        data@ == zeros(k as nat),
                    decreases space - k,
                {
                    data.push(0u8);
                    assert(data@ =~= zeros((k + 1) as nat));
                    k += 1;
                }
                let slot = Slot { address: *address, data };
                proof {
                    lemma_absent(self.slots@, address@);
                    lemma_pushed(self.slots@, slot);
                }
                self.slots.push(slot);
                Ok(())
            },
        }
    }

    /// Writes `bytes` at the start of the slot at `address`; the rest of the
    /// slot and its capacity stay. Where no slot is allocated the write
    /// fails with `AccountNotInitialized`; where `bytes` are longer than the
    /// slot it fails with `InvalidTransactionData`. A failed write leaves
    /// the store as it was.
    pub fn write(&mut self, address: &Address, bytes: &[u8]) -> (result: Result<(), ErrorCode>)
        ensures
            settled(written(old(self)@, address@, bytes@), old(self)@, final(self)@, result),
    {
        match self.find(address) {
            None => {
                proof {
                    lemma_absent(self.slots@, address@);
                }
                Err(ErrorCode::AccountNotInitialized)
            },
            Some(i) => {
                proof {
                    lemma_found(self.slots@, address@, i as int);
                }
                let capacity = self.slots[i].data.len();
                if bytes.len() > capacity {
                    return Err(ErrorCode::InvalidTransactionData);
                }
                let mut data: Vec<u8> = Vec::new();
                let mut k: usize = 0;
                while k < capacity
                    invariant
                        i < self.slots@.len(),
                        capacity == self.slots@[i as int].data@.len(),
                        bytes@.len() <= capacity,
                        k <= capacity,
                        data@ == overwritten(self.slots@[i as int].data@, bytes@).take(k as int),
                    decreases capacity - k,
                {
                    let byte = if k < bytes.len() {
                        bytes[k]
                    } else {
                        self.slots[i].data[k]
                    };
                    data.push(byte);
                    assert(data@ =~= overwritten(self.slots@[i as int].data@, bytes@).take(
                        k + 1,
                    ));
                    k += 1;
                }
                assert(data@ =~= overwritten(self.slots@[i as int].data@, bytes@));
                let slot = Slot { address: self.slots[i].address, data };
                proof {
                    lemma_replaced(self.slots@, i as int, slot);
                }
                self.slots.set(i, slot);
                Ok(())
            },
        }
    }
}

} // verus!
