//! The filter itself: construction, insertion and lookup.

use vstd::prelude::*;
use crate::bit_store::{bits_of, ones, BitArray, MAX_BITS};
use crate::error::InvalidParameter;
use crate::hashing::get_hashes;
use crate::model::{lemma_set_positions_step, set_positions, FilterModel};
use crate::sizing::{dimension_verdict, valid_dimensions, validate_exact_dimensions};

verus! {

/// A Bloom filter over byte-string items.
///
/// Its dimensions are fixed when it is built and always satisfy
/// `0 < k < m`: every method says so of the filter's model.
pub struct BloomFilter {
    bit_vec: BitArray,
    k: usize,
}

impl View for BloomFilter {
    type V = FilterModel;

    closed spec fn view(&self) -> FilterModel {
        FilterModel { k: self.k as nat, bits: bits_of(self.bit_vec) }
    }
}

impl BloomFilter {
    #[verifier::type_invariant]
    spec fn dimensions_valid(self) -> bool {
        valid_dimensions(self.k as nat, bits_of(self.bit_vec).len())
    }

    /// The number of hash functions applied to each item.
    pub fn k(&self) -> (k: usize)
        ensures
            k == self@.k,
            self@.well_formed(),
    {
        proof {
            use_type_invariant(self);
        }
        self.k
    }

    /// The number of bits in the filter's array.
    pub fn len(&self) -> (m: usize)
        ensures
            m == self@.bits.len(),
            self@.well_formed(),
    {
        proof {
            use_type_invariant(self);
        }
        self.bit_vec.len()
    }

    /// The number of bits that are set.
    pub fn count_ones(&self) -> (count: usize)
        ensures
            count == ones(self@.bits).len(),
            self@.well_formed(),
    {
        proof {
            use_type_invariant(self);
        }
        self.bit_vec.count_ones()
    }

    /// The bit array, copied out bit by bit.
    pub fn bits(&self) -> (bits: Vec<bool>)
        ensures
            bits@ == self@.bits,
            self@.well_formed(),
    {
        proof {
            use_type_invariant(self);
        }
        let m: usize = self.bit_vec.len();
        let mut bits: Vec<bool> = Vec::new();
        let mut i: usize = 0;
        while i < m
            invariant
                i <= m,
                m == self@.bits.len(),
                bits@ == self@.bits.take(i as int),
            decreases m - i,
        {
            bits.push(self.bit_vec.get(i));
            i = i + 1;
        }
        bits
    }

    /// Inserts `item`: sets the bit positions of its `k` hashes and changes
    /// nothing else.
    pub fn add(&mut self, item: &[u8])
        ensures
            final(self)@ == old(self)@.insert(item@),
            final(self)@.well_formed(),
    {
        let item_hashes = get_hashes(item, self.k);
        self.add_hashes(item_hashes.as_slice());
    }

    /// Looks `item` up: `true` when every bit position of its `k` hashes is
    /// set, so that the item was possibly inserted; `false` when one is
    /// not, so that it never was.
    pub fn test(&self, item: &[u8]) -> (present: bool)
        ensures
            present == self@.contains(item@),
            self@.well_formed(),
    {
        let item_hashes = get_hashes(item, self.k);
        self.test_hashes(item_hashes.as_slice())
    }

    /// Sets the bit that each of `hashes` selects, `hash mod m`, and changes
    /// nothing else.
    pub fn add_hashes(&mut self, hashes: &[u32])
        ensures
            final(self)@ == old(self)@.insert_hashes(hashes@),
            final(self)@.well_formed(),
    {
        proof {
            use_type_invariant(&*self);
        }
        let ghost before = self@;
        let ghost positions = before.positions(hashes@);
        let m: usize = self.bit_vec.len();
        let mut i: usize = 0;
        while i < hashes.len()
            invariant
                i <= hashes.len(),
                positions == before.positions(hashes@),
                self@.k == before.k,
                m == before.bits.len(),
                0 < before.k < m,
                self@.bits == set_positions(before.bits, positions.take(i as int)),
            decreases hashes.len() - i,
        {
            let index: usize = hashes[i] as usize % m;
            proof {
                lemma_set_positions_step(before.bits, positions, i as int);
            }
            self.bit_vec.set(index, true);
            i = i + 1;
        }
        assert(positions.take(i as int) =~= positions);
    }

    /// Whether the bit that each of `hashes` selects, `hash mod m`, is set.
    pub fn test_hashes(&self, hashes: &[u32]) -> (all_set: bool)
        ensures
            all_set == self@.contains_hashes(hashes@),
            self@.well_formed(),
    {
        proof {
            use_type_invariant(self);
        }
        let m: usize = self.bit_vec.len();
        let mut i: usize = 0;
        while i < hashes.len()
            invariant
                i <= hashes.len(),
                m == self@.bits.len(),
                self@.well_formed(),
                forall|j: int| 0 <= j < i ==> self@.bits[#[trigger] self@.positions(hashes@)[j]],
            decreases hashes.len() - i,
        {
            let index: usize = hashes[i] as usize % m;
            if !self.bit_vec.get(index) {
                assert(!self@.bits[self@.positions(hashes@)[i as int]]);
                return false;
            }
            i = i + 1;
        }
        true
    }
}

/// Builds an empty filter of `k` hash functions over `m` bits, or says why
/// the dimensions are rejected: the filter is built exactly when
/// `0 < k < m`.
///
/// The bit array cannot be longer than [`MAX_BITS`].
pub fn new_exact(k: usize, m: usize) -> (result: Result<BloomFilter, InvalidParameter>)
    requires
        m <= MAX_BITS,
    ensures
        match result {
            Ok(filter) => valid_dimensions(k as nat, m as nat) && filter@ == FilterModel::empty(
                k as nat,
                m as nat,
            ),
            Err(reason) => dimension_verdict(k, m) == Err::<(), InvalidParameter>(reason),
        },
{
    match validate_exact_dimensions(k, m) {
        Ok(()) => Ok(BloomFilter { bit_vec: BitArray::zeroed(m), k }),
        Err(reason) => Err(reason),
    }
}

} // verus!
