//! The seeded hash family that turns an item into 32-bit hashes.

use vstd::prelude::*;

verus! {

/// The digest that `fxhash::hash` gives to the pair of a seed and an item.
///
/// The digest depends on the pair alone: the Fx hasher starts from a
/// constant state, keeps no seed of its own and reads nothing else. (Its
/// arithmetic follows the target's word size and byte order, which are
/// fixed for a build of the library.)
pub uninterp spec fn fx_digest(seed: usize, item: Seq<u8>) -> usize;

/// The low 32 bits of a digest.
pub open spec fn low_half(digest: usize) -> u32 {
    (digest as int % 0x1_0000_0000) as u32
}

/// The 32-bit hash of `item` under `seed`: the low 32 bits of the digest of
/// the pair.
pub open spec fn seeded_hash(item: Seq<u8>, seed: usize) -> u32 {
    low_half(fx_digest(seed, item))
}

/// The hashes of `item` under the seeds `0`, `1`, ..., `k - 1`, in that
/// order.
pub open spec fn item_hashes(item: Seq<u8>, k: nat) -> Seq<u32> {
    Seq::new(k, |seed: int| seeded_hash(item, seed as usize))
}

/// `fxhash::hash` on the pair `(seed, item)`: a default Fx hasher is fed the
/// seed and then the item, and the state it ends in is the digest. Nothing
/// is claimed of the digest but that the pair determines it; the call does
/// not panic.
#[verifier::external_body]
fn fx_hash_pair(seed: usize, item: &[u8]) -> (digest: usize)
    ensures
        digest == fx_digest(seed, item@),
{
    fxhash::hash(&(seed, item))
}

/// Cuts a digest down to its low 32 bits.
pub fn truncate_digest(digest: usize) -> (hash: u32)
    ensures
        hash == low_half(digest),
{
    let wide: u64 = digest as u64;
    (wide % 0x1_0000_0000) as u32
}

/// Hashes `item` under `seed` to 32 bits.
pub fn hash_with_seed(item: &[u8], seed: usize) -> (hash: u32)
    ensures
        hash == seeded_hash(item@, seed),
{
    truncate_digest(fx_hash_pair(seed, item))
}

/// Hashes `item` under each of the first `k` seeds.
pub fn get_hashes(item: &[u8], k: usize) -> (result: Vec<u32>)
    ensures
        result@ == item_hashes(item@, k as nat),
{
    let mut result: Vec<u32> = Vec::new();
    let mut seed: usize = 0;
    while seed < k
        invariant
            seed <= k,
            result@ == item_hashes(item@, seed as nat),
        decreases k - seed,
    {
        let hash: u32 = hash_with_seed(item, seed);
        result.push(hash);
        seed = seed + 1;
    }
    result
}

} // verus!
