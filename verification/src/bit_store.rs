//! The bit array behind a filter.

use vstd::prelude::*;
use bitvec::order::Lsb0;
use bitvec::vec::BitVec;

verus! {

/// A fixed-length array of bits, kept in a `bitvec::vec::BitVec`.
///
/// The array is opaque to proofs: what it holds is [`bits_of`], and the
/// methods below say what each call of the bit vector does to that
/// sequence. Their contracts are trusted, not proved.
#[verifier::external_body]
pub struct BitArray {
    store: BitVec<usize, Lsb0>,
}

/// The longest bit array there can be: `usize::MAX >> 3` bits, the longest
/// span that a `BitVec` can describe.
pub const MAX_BITS: usize = usize::MAX / 8;

/// The bits an array holds, in index order.
pub uninterp spec fn bits_of(array: BitArray) -> Seq<bool>;

/// The positions of a bit sequence that hold `true`.
pub open spec fn ones(bits: Seq<bool>) -> Set<int> {
    Set::new(|i: int| 0 <= i < bits.len() && bits[i])
}

impl BitArray {
    /// `BitVec::repeat(false, len)`: a fresh array of `len` bits, all of them
    /// cleared. The call panics when `len` exceeds [`MAX_BITS`]; `requires`
    /// leaves that out.
    #[verifier::external_body]
    pub(crate) fn zeroed(len: usize) -> (array: BitArray)
        requires
            len <= MAX_BITS,
        ensures
            bits_of(array) == Seq::new(len as nat, |i: int| false),
    {
        BitArray { store: BitVec::repeat(false, len) }
    }

    /// `BitSlice::len`: the number of bits in the array.
    #[verifier::external_body]
    pub(crate) fn len(&self) -> (len: usize)
        ensures
            len == bits_of(*self).len(),
    {
        self.store.len()
    }

    /// `BitSlice::set`: writes `value` into the bit at `index` and leaves
    /// every other bit, and the length, as they were. The call panics only
    /// when `index` is out of bounds; `requires` leaves that out, so the
    /// call does not unwind.
    #[verifier::external_body]
    pub(crate) fn set(&mut self, index: usize, value: bool)
        requires
            index < bits_of(*old(self)).len(),
        ensures
            bits_of(*final(self)) == bits_of(*old(self)).update(index as int, value),
        no_unwind
    {
        self.store.set(index, value)
    }

    /// Indexing a `BitSlice` by a position: the bit at `index`. The call
    /// panics when `index` is out of bounds; `requires` leaves that out.
    #[verifier::external_body]
    pub(crate) fn get(&self, index: usize) -> (bit: bool)
        requires
            index < bits_of(*self).len(),
        ensures
            bit == bits_of(*self)[index as int],
    {
        self.store[index]
    }

    /// `BitSlice::count_ones`: the number of bits that are set.
    #[verifier::external_body]
    pub(crate) fn count_ones(&self) -> (count: usize)
        ensures
            count == ones(bits_of(*self)).len(),
    {
        self.store.count_ones()
    }
}

} // verus!
