//! The mathematical model of a filter.

use vstd::prelude::*;
use crate::hashing::item_hashes;
use crate::sizing::valid_dimensions;

verus! {

/// A bit sequence after the bits at `positions` are set: a bit holds `true`
/// when it did before or when its index is among `positions`.
pub open spec fn set_positions(bits: Seq<bool>, positions: Seq<int>) -> Seq<bool> {
    Seq::new(bits.len(), |i: int| bits[i] || positions.contains(i))
}

/// What a filter is, mathematically: a hash count and a sequence of bits.
pub struct FilterModel {
    /// The number of hash functions applied to each item.
    pub k: nat,
    /// The bit array; its length is the filter's `m`.
    pub bits: Seq<bool>,
}

impl FilterModel {
    /// The filter's dimensions are valid: `0 < k < m`.
    pub open spec fn well_formed(self) -> bool {
        valid_dimensions(self.k, self.bits.len())
    }

    /// The filter of `k` hash functions over `m` cleared bits.
    pub open spec fn empty(k: nat, m: nat) -> FilterModel {
        FilterModel { k, bits: Seq::new(m, |i: int| false) }
    }

    /// The bit position that a hash selects: the hash modulo the length of
    /// the bit array.
    pub open spec fn position(self, hash: u32) -> int {
        hash as int % self.bits.len() as int
    }

    /// The bit positions that a sequence of hashes selects, one for each.
    pub open spec fn positions(self, hashes: Seq<u32>) -> Seq<int> {
        Seq::new(hashes.len(), |j: int| self.position(hashes[j]))
    }

    /// The filter after the positions of `hashes` are set: every other bit
    /// is as before, and the hash count is unchanged.
    pub open spec fn insert_hashes(self, hashes: Seq<u32>) -> FilterModel {
        FilterModel { k: self.k, bits: set_positions(self.bits, self.positions(hashes)) }
    }

    /// Whether every position of `hashes` is set.
    pub open spec fn contains_hashes(self, hashes: Seq<u32>) -> bool {
        forall|j: int| 0 <= j < hashes.len() ==> self.bits[#[trigger] self.positions(hashes)[j]]
    }

    /// The bit positions of `item`: those of its hashes under the seeds
    /// `0`, ..., `k - 1`.
    pub open spec fn indices(self, item: Seq<u8>) -> Seq<int> {
        self.positions(item_hashes(item, self.k))
    }

    /// The filter after `item` is inserted: the item's positions are set.
    pub open spec fn insert(self, item: Seq<u8>) -> FilterModel {
        self.insert_hashes(item_hashes(item, self.k))
    }

    /// Whether the filter reports `item` as possibly present: every one of
    /// the item's positions is set.
    pub open spec fn contains(self, item: Seq<u8>) -> bool {
        self.contains_hashes(item_hashes(item, self.k))
    }

    /// The filter reached from a fresh one of `k` hash functions over `m`
    /// bits by inserting `items` in order.
    pub open spec fn after_inserting(k: nat, m: nat, items: Seq<Seq<u8>>) -> FilterModel
        decreases items.len(),
    {
        if items.len() == 0 {
            FilterModel::empty(k, m)
        } else {
            FilterModel::after_inserting(k, m, items.drop_last()).insert(items.last())
        }
    }
}

/// Setting one more position is one more single-bit update.
pub proof fn lemma_set_positions_step(bits: Seq<bool>, positions: Seq<int>, n: int)
    requires
        0 <= n < positions.len(),
        0 <= positions[n] < bits.len(),
    ensures
        set_positions(bits, positions.take(n + 1)) == set_positions(bits, positions.take(n)).update(
            positions[n],
            true,
        ),
{
    let shorter = positions.take(n);
    let longer = positions.take(n + 1);
    assert forall|i: int| longer.contains(i) == (shorter.contains(i) || i == positions[n]) by {
        if i == positions[n] {
            assert(longer[n] == i);
        }
    }
}

} // verus!
