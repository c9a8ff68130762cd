//! Account identities and program-derived authorities.
use anchor_lang::solana_program::pubkey::Pubkey;
use vstd::prelude::*;

verus! {

/// A 32-byte account identity.
#[derive(Clone, Copy, Debug, PartialEq, Eq)]
pub struct Key {
    pub bytes: [u8; 32],
}

impl Key {
    /// The identity as a sequence of bytes.
    pub open spec fn view(&self) -> Seq<u8> {
        self.bytes@
    }

    pub fn new(bytes: [u8; 32]) -> (k: Key)
        ensures
            k.bytes == bytes,
    {
        Key { bytes }
    }

    /// Whether two identities are the same.
    pub fn same(&self, other: &Key) -> (r: bool)
        ensures
            r == (self@ == other@),
    {
        let mut i: usize = 0;
        while i < 32
            invariant
                0 <= i <= 32,
                self@.len() == 32,
                other@.len() == 32,
                forall|j: int| 0 <= j < i ==> self@[j] == other@[j],
            decreases 32 - i,
        {
            if self.bytes[i] != other.bytes[i] {
                return false;
            }
            i = i + 1;
        }
        assert(self@ =~= other@);
        true
    }
}

/// The address that the runtime derives from `seeds` under `program`, or
/// `None` where the derived bytes lie on the curve or the seeds are too many
/// or too long.
pub uninterp spec fn program_address(seeds: Seq<Seq<u8>>, program: Seq<u8>) -> Option<Seq<u8>>;

/// The address and bump that the runtime's search finds for `seeds` under
/// `program`, or `None` where no bump gives an address.
pub uninterp spec fn found_address(seeds: Seq<Seq<u8>>, program: Seq<u8>) -> Option<(Seq<u8>, u8)>;

/// The byte sequences that a list of seeds holds.
pub open spec fn seeds_view(seeds: Seq<Vec<u8>>) -> Seq<Seq<u8>> {
    seeds.map_values(|v: Vec<u8>| v@)
}

/// The seeds of an authority: a domain tag and the identity it belongs to.
pub open spec fn authority_seeds(tag: Seq<u8>, owner: Seq<u8>) -> Seq<Seq<u8>> {
    seq![tag, owner]
}

/// Whether `authority` is the address derived from `tag`, `owner` and the
/// nonce `bump` under `program`.
pub open spec fn derives(tag: Seq<u8>, owner: Seq<u8>, bump: u8, program: Seq<u8>, authority: Seq<u8>) -> bool {
    program_address(authority_seeds(tag, owner).push(seq![bump]), program) == Some(authority)
}

/// Relies on `Pubkey::create_program_address`: the address derived from the
/// seeds under the program, which is `Err` where it lies on the curve or the
/// seeds break the runtime's limits.
#[verifier::external_body]
fn create_address(seeds: &Vec<Vec<u8>>, program: &Key) -> (r: Option<Key>)
    ensures
        r is None <==> program_address(seeds_view(seeds@), program@) is None,
        r matches Some(k) ==> program_address(seeds_view(seeds@), program@) == Some(k@),
{
    let s: Vec<&[u8]> = seeds.iter().map(|v| v.as_slice()).collect();
    let p = Pubkey::new_from_array(program.bytes);
    Pubkey::create_program_address(&s, &p).ok().map(|a| Key { bytes: a.to_bytes() })
}

/// Relies on `Pubkey::try_find_program_address`: it searches the bumps from
/// 255 down and returns the first for which `create_program_address`, on the
/// seeds with the bump appended, gives an address, together with that address.
#[verifier::external_body]
fn find_address(seeds: &Vec<Vec<u8>>, program: &Key) -> (r: Option<(Key, u8)>)
    ensures
        r is None <==> found_address(seeds_view(seeds@), program@) is None,
        r matches Some((k, b)) ==> found_address(seeds_view(seeds@), program@) == Some((k@, b)),
        r matches Some((k, b)) ==> program_address(seeds_view(seeds@).push(seq![b]), program@)
            == Some(k@),
{
    let s: Vec<&[u8]> = seeds.iter().map(|v| v.as_slice()).collect();
    let p = Pubkey::new_from_array(program.bytes);
    Pubkey::try_find_program_address(&s, &p).map(|(a, b)| (Key { bytes: a.to_bytes() }, b))
}

/// The bytes of a key, as a vector.
fn key_bytes(k: &Key) -> (r: Vec<u8>)
    ensures
        r@ == k@,
{
    let mut r: Vec<u8> = Vec::new();
    let mut i: usize = 0;
    while i < 32
        invariant
            0 <= i <= 32,
            k@.len() == 32,
            r@ == k@.subrange(0, i as int),
        decreases 32 - i,
    {
        r.push(k.bytes[i]);
        i = i + 1;
    }
    assert(r@ =~= k@);
    r
}

/// The seed list `[tag, owner]`.
fn make_seeds(tag: &Vec<u8>, owner: &Key) -> (r: Vec<Vec<u8>>)
    ensures
        seeds_view(r@) == authority_seeds(tag@, owner@),
{
    let mut r: Vec<Vec<u8>> = Vec::new();
    r.push(tag.clone());
    r.push(key_bytes(owner));
    assert(seeds_view(r@) =~= authority_seeds(tag@, owner@));
    r
}

/// Derives the authority of `owner` under the domain `tag`: its address and
/// the nonce that proves it.
pub fn derive_authority(tag: &Vec<u8>, owner: &Key, program: &Key) -> (r: Option<(Key, u8)>)
    ensures
        r is None <==> found_address(authority_seeds(tag@, owner@), program@) is None,
        r matches Some((k, b)) ==> found_address(authority_seeds(tag@, owner@), program@)
            == Some((k@, b)),
        r matches Some((k, b)) ==> derives(tag@, owner@, b, program@, k@),
{
    let seeds = make_seeds(tag, owner);
    find_address(&seeds, program)
}

/// Whether `authority` is the authority of `owner` under `tag`, proved by
/// the nonce `bump`.
pub fn verify_authority(tag: &Vec<u8>, owner: &Key, bump: u8, program: &Key, authority: &Key) -> (r: bool)
    ensures
        r == derives(tag@, owner@, bump, program@, authority@),
{
    let mut seeds = make_seeds(tag, owner);
    let mut b: Vec<u8> = Vec::new();
    b.push(bump);
    seeds.push(b);
    assert(seeds_view(seeds@) =~= authority_seeds(tag@, owner@).push(seq![bump]));
    match create_address(&seeds, program) {
        Some(k) => k.same(authority),
        None => false,
    }
}

} // verus!
