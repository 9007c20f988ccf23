use vstd::prelude::*;
use anchor_lang::prelude::Pubkey;

verus! {

broadcast use vstd::array::group_array_axioms;

/// A 32-byte account identity on the ledger.
#[derive(Clone, Copy, Debug, PartialEq, Eq)]
pub struct Address {
    pub bytes: [u8; 32],
}

impl View for Address {
    type V = Seq<u8>;

    open spec fn view(&self) -> Seq<u8> {
        self.bytes@
    }
}

impl Address {
    pub fn new(bytes: [u8; 32]) -> (r: Address)
        ensures
            r.bytes == bytes,
    {
        Address { bytes }
    }

    /// The identity's bytes.
    pub fn to_vec(&self) -> (r: Vec<u8>)
        ensures
            r@ == self@,
    {
        let mut r: Vec<u8> = Vec::new();
        let mut i: usize = 0;
        while i < 32
            invariant
                i <= 32,
                self@.len() == 32,
                r@ == self@.take(i as int),
            decreases 32 - i,
        {
            r.push(self.bytes[i]);
            i = i + 1;
            assert(r@ =~= self@.take(i as int));
        }
        assert(self@.take(32) =~= self@);
        r
    }

    /// Compares two identities byte by byte.
    pub fn same_as(&self, other: &Address) -> (r: bool)
        ensures
            r == (self@ == other@),
    {
        let mut i: usize = 0;
        while i < 32
            invariant
                i <= 32,
                self@.len() == 32,
                other@.len() == 32,
                forall|j: int| 0 <= j < i ==> self@[j] == other@[j],
            decreases 32 - i,
        {
            if self.bytes[i] != other.bytes[i] {
                return false;
            }
            i = i + 1;
        }
        assert(self@ =~= other@);
        true
    }
}

/// The address and bump seed that the ledger's program-address search yields for
/// `seeds` under `program_id`, or `None` when the search finds no off-curve address
/// (or the seeds break the ledger's limits on their number and length).
pub uninterp spec fn program_address_of(seeds: Seq<Seq<u8>>, program_id: Seq<u8>) -> Option<(Seq<u8>, u8)>;

/// Relies on `Pubkey::try_find_program_address` (solana-address, re-exported by
/// anchor-lang): its result depends on the seeds and the program id alone, and it
/// returns `None` rather than panicking when no bump seed is found.
#[verifier::external_body]
fn try_find_program_address(seeds: &Vec<Vec<u8>>, program_id: &Address) -> (r: Option<(Address, u8)>)
    ensures
        program_address_of(views_of(seeds@), program_id@) == (match r {
            Some(p) => Some((p.0@, p.1)),
            None => None,
        }),
{
    let slices: Vec<&[u8]> = seeds.iter().map(|s| s.as_slice()).collect();
    Pubkey::try_find_program_address(&slices, &Pubkey::new_from_array(program_id.bytes))
        .map(|(k, b)| (Address { bytes: k.to_bytes() }, b))
}

/// The byte contents of a list of byte vectors.
pub open spec fn views_of(v: Seq<Vec<u8>>) -> Seq<Seq<u8>> {
    v.map_values(|b: Vec<u8>| b@)
}

/// The seed tag of registration records: the bytes of "entangler".
pub open spec fn entangler_tag() -> Seq<u8> {
    seq![101u8, 110, 116, 97, 110, 103, 108, 101, 114]
}

/// The seed tag of escrow vaults: the bytes of "storage".
pub open spec fn storage_tag() -> Seq<u8> {
    seq![115u8, 116, 111, 114, 97, 103, 101]
}

/// Derives the program address for a namespace tag followed by some identities.
pub open spec fn derive_spec(program_id: Seq<u8>, tag: Seq<u8>, ids: Seq<Seq<u8>>) -> Option<(Seq<u8>, u8)> {
    program_address_of(seq![tag].add(ids), program_id)
}

fn tag_bytes(storage: bool) -> (r: Vec<u8>)
    ensures
        r@ == (if storage { storage_tag() } else { entangler_tag() }),
{
    let r = if storage {
        vec![115u8, 116, 111, 114, 97, 103, 101]
    } else {
        vec![101u8, 110, 116, 97, 110, 103, 108, 101, 114]
    };
    assert(r@ =~= (if storage { storage_tag() } else { entangler_tag() }));
    r
}

/// Derives the address of a registration (`storage == false`, tag "entangler") or
/// of an escrow vault (`storage == true`, tag "storage") from its identities, with
/// its bump seed.
pub fn derive_address(program_id: &Address, storage: bool, ids: &Vec<Vec<u8>>) -> (r: Option<(Address, u8)>)
    ensures
        derive_spec(program_id@, if storage { storage_tag() } else { entangler_tag() }, views_of(ids@))
            == (match r {
            Some(p) => Some((p.0@, p.1)),
            None => None,
        }),
{
    let mut seeds: Vec<Vec<u8>> = Vec::new();
    seeds.push(tag_bytes(storage));
    let mut i: usize = 0;
    while i < ids.len()
        invariant
            i <= ids.len(),
            seeds@.len() == i + 1,
            seeds@[0]@ == (if storage { storage_tag() } else { entangler_tag() }),
            forall|j: int| 0 <= j < i ==> #[trigger] seeds@[j + 1]@ == ids@[j]@,
        decreases ids.len() - i,
    {
        seeds.push(ids[i].clone());
        i = i + 1;
    }
    let ghost tagged = seq![if storage { storage_tag() } else { entangler_tag() }].add(views_of(ids@));
    assert forall|k: int| 0 <= k < seeds@.len() implies #[trigger] views_of(seeds@)[k] == tagged[k] by {
        if k > 0 {
            assert(seeds@[(k - 1) + 1]@ == ids@[k - 1]@);
        }
    }
    assert(views_of(seeds@) =~= tagged);
    try_find_program_address(&seeds, program_id)
}

} // verus!
