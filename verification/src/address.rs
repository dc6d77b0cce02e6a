//! Where a record lives: the address derived from its owner and its nonce.

use vstd::prelude::*;

verus! {

/// A 32-byte ledger address. Owners, the program and record slots are all
/// named by one.
#[derive(Clone, Copy, Debug, PartialEq, Eq)]
pub struct Address {
    pub bytes: [u8; 32],
}

impl View for Address {
    type V = Seq<u8>;

    open spec fn view(&self) -> Seq<u8> {
        self.bytes@
    }
}

/// The seed that opens every record derivation: the ASCII text `tx`.
pub open spec fn record_tag() -> Seq<u8> {
    seq![0x74u8, 0x78u8]
}

/// The address of the program that owns every record.
pub open spec fn program_id_bytes() -> Seq<u8> {
    seq![
        226u8, 128u8, 151u8, 110u8, 255u8, 93u8, 107u8, 122u8,
        173u8, 157u8, 201u8, 41u8, 78u8, 117u8, 84u8, 92u8,
        125u8, 206u8, 51u8, 110u8, 43u8, 175u8, 228u8, 180u8,
        50u8, 172u8, 237u8, 69u8, 220u8, 141u8, 92u8, 121u8,
    ]
}

/// The seeds of the record that `owner` keeps under `nonce`.
pub open spec fn record_seeds(owner: Seq<u8>, nonce: u8) -> Seq<Seq<u8>> {
    seq![record_tag(), owner, seq![nonce]]
}

/// The program-derived address for `seeds` under `program_id` together with
/// its bump, or `None` where the search for one comes back empty.
pub uninterp spec fn program_address(seeds: Seq<Seq<u8>>, program_id: Seq<u8>) -> Option<(Seq<u8>, u8)>;

/// The canonical address and bump of the record that `owner` keeps under
/// `nonce`.
pub open spec fn derived(owner: Seq<u8>, nonce: u8) -> Option<(Seq<u8>, u8)> {
    program_address(record_seeds(owner, nonce), program_id_bytes())
}

impl Address {
    /// The address with the given bytes.
    pub fn new(bytes: [u8; 32]) -> (address: Address)
        ensures
            address@ == bytes@,
            address.bytes == bytes,
    {
        Address { bytes }
    }

    /// Whether the two addresses hold the same 32 bytes.
    pub fn same(&self, other: &Address) -> (equal: bool)
        ensures
            equal == (self@ == other@),
    {
        let mut i: usize = 0;
        while i < 32
            invariant
                i <= 32,
                forall|j: int| 0 <= j < i ==> self.bytes@[j] == other.bytes@[j],
            decreases 32 - i,
        {
            if self.bytes[i] != other.bytes[i] {
                return false;
            }
            i += 1;
        }
        assert(self.bytes@ =~= other.bytes@);
        true
    }

    /// The 32 bytes as a vector.
    pub fn to_vec(&self) -> (bytes: Vec<u8>)
        ensures
            bytes@ == self@,
    {
        let mut out: Vec<u8> = Vec::new();
        let mut i: usize = 0;
        while i < 32
            invariant
                i <= 32,
                out@ == self.bytes@.take(i as int),
            decreases 32 - i,
        {
            out.push(self.bytes[i]);
            i += 1;
        }
        out
    }
}

/// The address of the program that owns every record.
pub fn program_id() -> (id: Address)
    ensures
        id@ == program_id_bytes(),
{
    let id = Address {
        bytes: [
            226, 128, 151, 110, 255, 93, 107, 122, 173, 157, 201, 41, 78, 117, 84, 92,
            125, 206, 51, 110, 43, 175, 228, 180, 50, 172, 237, 69, 220, 141, 92, 121,
        ],
    };
    assert(id@ =~= program_id_bytes());
    id
}

/// Calls `Pubkey::try_find_program_address` of `anchor_lang`, which hashes the
/// seeds, a bump and the program id and returns the first address, counting
/// the bump down from 255, that lies off the curve. Trusted, not proved: the
/// call computes a function of the seeds and the program id alone, so what it
/// returns is `program_address` of them, and its `None` is that function's
/// `None`.
#[verifier::external_body]
fn find_program_address(seeds: &Vec<Vec<u8>>, program_id: &Address) -> (found: Option<
    (Address, u8),
>)
    ensures
        match found {
            Some((address, bump)) => program_address(seeds.deep_view(), program_id@) == Some(
                (address@, bump),
            ),
            None => program_address(seeds.deep_view(), program_id@) is None,
        },
{
    let parts: Vec<&[u8]> = seeds.iter().map(|seed| seed.as_slice()).collect();
    let program = anchor_lang::prelude::Pubkey::new_from_array(program_id.bytes);
    anchor_lang::prelude::Pubkey::try_find_program_address(&parts, &program).map(
        |(key, bump)| (Address { bytes: key.to_bytes() }, bump),
    )
}

/// A derivation as contracts speak of it: the address by its bytes.
pub open spec fn derivation_view(derivation: Option<(Address, u8)>) -> Option<(Seq<u8>, u8)> {
    match derivation {
        Some((address, bump)) => Some((address@, bump)),
        None => None,
    }
}

/// Derives the canonical address and bump of the record that `owner` keeps
/// under `nonce`: the result is a function of the owner's bytes and the nonce
/// alone, so every call with them gives the same pair. `None` when the bump
/// space holds no valid address.
pub fn derive(owner: &Address, nonce: u8) -> (derivation: Option<(Address, u8)>)
    ensures
        derivation_view(derivation) == derived(owner@, nonce),
{
    let mut tag: Vec<u8> = Vec::new();
    tag.push(0x74);
    tag.push(0x78);
    let mut last: Vec<u8> = Vec::new();
    last.push(nonce);
    let mut seeds: Vec<Vec<u8>> = Vec::new();
    seeds.push(tag);
    seeds.push(owner.to_vec());
    seeds.push(last);
    assert(seeds.deep_view() =~~= record_seeds(owner@, nonce));
    let program = program_id();
    find_program_address(&seeds, &program)
}

} // verus!
