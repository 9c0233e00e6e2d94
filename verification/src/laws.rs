//! What holds of every filter, stated over [`FilterModel`] and proved.
//!
//! The first group speaks of arbitrary hash sequences, as
//! [`BloomFilter::add_hashes`](crate::filter::BloomFilter::add_hashes) and
//! [`BloomFilter::test_hashes`](crate::filter::BloomFilter::test_hashes) take
//! them; the second group speaks of items.

use vstd::prelude::*;
use crate::bit_store::ones;
use crate::hashing::item_hashes;
use crate::model::FilterModel;
use crate::sizing::valid_dimensions;

verus! {

/// Every position that a hash selects lies inside the bit array.
pub proof fn lemma_positions_in_range(filter: FilterModel, hashes: Seq<u32>)
    requires
        filter.well_formed(),
    ensures
        filter.positions(hashes).len() == hashes.len(),
        forall|j: int|
            0 <= j < hashes.len() ==> 0 <= #[trigger] filter.positions(hashes)[j]
                < filter.bits.len(),
{
}

/// Setting positions keeps the dimensions and never clears a bit: the
/// filter stays well formed, and the set bits only grow.
pub proof fn lemma_insert_hashes_grows(filter: FilterModel, hashes: Seq<u32>)
    requires
        filter.well_formed(),
    ensures
        filter.insert_hashes(hashes).well_formed(),
        filter.insert_hashes(hashes).k == filter.k,
        filter.insert_hashes(hashes).bits.len() == filter.bits.len(),
        forall|i: int|
            0 <= i < filter.bits.len() && filter.bits[i] ==> #[trigger] filter.insert_hashes(
                hashes,
            ).bits[i],
        ones(filter.bits).subset_of(ones(filter.insert_hashes(hashes).bits)),
{
}

/// Hashes whose positions have just been set are all found set.
pub proof fn lemma_inserted_hashes_are_found(filter: FilterModel, hashes: Seq<u32>)
    requires
        filter.well_formed(),
    ensures
        filter.insert_hashes(hashes).contains_hashes(hashes),
{
    let after = filter.insert_hashes(hashes);
    lemma_positions_in_range(filter, hashes);
    assert forall|j: int| 0 <= j < hashes.len() implies after.bits[#[trigger] after.positions(
        hashes,
    )[j]] by {
        assert(filter.positions(hashes).contains(filter.positions(hashes)[j]));
    }
}

/// Hashes that are found set are still found set after any others are
/// inserted.
pub proof fn lemma_insert_hashes_keeps_found(
    filter: FilterModel,
    found: Seq<u32>,
    inserted: Seq<u32>,
)
    requires
        filter.well_formed(),
        filter.contains_hashes(found),
    ensures
        filter.insert_hashes(inserted).contains_hashes(found),
{
    let after = filter.insert_hashes(inserted);
    lemma_positions_in_range(filter, found);
    assert forall|j: int| 0 <= j < found.len() implies after.bits[#[trigger] after.positions(
        found,
    )[j]] by {
        assert(filter.bits[filter.positions(found)[j]]);
    }
}

/// In a fresh filter no bit is set, so no hash is found set.
pub proof fn lemma_empty_contains_no_hashes(k: nat, m: nat, hashes: Seq<u32>)
    requires
        valid_dimensions(k, m),
        hashes.len() > 0,
    ensures
        ones(FilterModel::empty(k, m).bits) == Set::<int>::empty(),
        !FilterModel::empty(k, m).contains_hashes(hashes),
{
    let fresh = FilterModel::empty(k, m);
    lemma_positions_in_range(fresh, hashes);
    assert(!fresh.bits[fresh.positions(hashes)[0]]);
}

/// Setting the positions of `hashes` in a fresh filter sets exactly those
/// positions: at most as many bits as there are hashes, and exactly as many
/// when no two hashes select the same position.
pub proof fn lemma_first_hashes_set_their_positions(k: nat, m: nat, hashes: Seq<u32>)
    requires
        valid_dimensions(k, m),
    ensures
        ({
            let fresh = FilterModel::empty(k, m);
            let after = fresh.insert_hashes(hashes);
            &&& ones(after.bits) == fresh.positions(hashes).to_set()
            &&& ones(after.bits).finite()
            &&& ones(after.bits).len() <= hashes.len()
            &&& hashes.len() > 0 ==> ones(after.bits).len() >= 1
            &&& fresh.positions(hashes).no_duplicates() <==> ones(after.bits).len() == hashes.len()
        }),
{
    let fresh = FilterModel::empty(k, m);
    let after = fresh.insert_hashes(hashes);
    let positions = fresh.positions(hashes);
    lemma_positions_in_range(fresh, hashes);
    assert(ones(after.bits) =~= positions.to_set());
    positions.lemma_cardinality_of_set();
    if hashes.len() > 0 {
        assert(positions.to_set().contains(positions[0]));
    }
    if positions.no_duplicates() {
        positions.unique_seq_to_set();
    }
    if positions.to_set().len() == positions.len() {
        positions.lemma_no_dup_set_cardinality();
    }
}

/// Insertion keeps the dimensions and never clears a bit: the filter stays
/// well formed, and the set bits only grow.
pub proof fn lemma_insert_grows(filter: FilterModel, item: Seq<u8>)
    requires
        filter.well_formed(),
    ensures
        filter.insert(item).well_formed(),
        filter.insert(item).k == filter.k,
        filter.insert(item).bits.len() == filter.bits.len(),
        forall|i: int|
            0 <= i < filter.bits.len() && filter.bits[i] ==> #[trigger] filter.insert(item).bits[i],
        ones(filter.bits).subset_of(ones(filter.insert(item).bits)),
{
    lemma_insert_hashes_grows(filter, item_hashes(item, filter.k));
}

/// No false negatives: an item that has just been inserted is reported as
/// present.
pub proof fn lemma_no_false_negatives(filter: FilterModel, item: Seq<u8>)
    requires
        filter.well_formed(),
    ensures
        filter.insert(item).contains(item),
{
    lemma_inserted_hashes_are_found(filter, item_hashes(item, filter.k));
}

/// An item that the filter reports as present stays present whatever is
/// inserted afterwards.
pub proof fn lemma_insert_keeps_members(filter: FilterModel, member: Seq<u8>, item: Seq<u8>)
    requires
        filter.well_formed(),
        filter.contains(member),
    ensures
        filter.insert(item).contains(member),
{
    lemma_insert_hashes_keeps_found(filter, item_hashes(member, filter.k), item_hashes(item, filter.k));
}

/// A filter that grew from a fresh one by insertions alone keeps the
/// dimensions it was built with.
pub proof fn lemma_history_keeps_dimensions(k: nat, m: nat, items: Seq<Seq<u8>>)
    requires
        valid_dimensions(k, m),
    ensures
        FilterModel::after_inserting(k, m, items).well_formed(),
        FilterModel::after_inserting(k, m, items).k == k,
        FilterModel::after_inserting(k, m, items).bits.len() == m,
    decreases items.len(),
{
    if items.len() > 0 {
        lemma_history_keeps_dimensions(k, m, items.drop_last());
    }
}

/// No false negatives over a filter's whole life: whatever was inserted,
/// and in whatever order, each inserted item is reported as present.
pub proof fn lemma_every_inserted_item_is_found(k: nat, m: nat, items: Seq<Seq<u8>>, i: int)
    requires
        valid_dimensions(k, m),
        0 <= i < items.len(),
    ensures
        FilterModel::after_inserting(k, m, items).contains(items[i]),
    decreases items.len(),
{
    let earlier = FilterModel::after_inserting(k, m, items.drop_last());
    lemma_history_keeps_dimensions(k, m, items.drop_last());
    if i == items.len() - 1 {
        lemma_no_false_negatives(earlier, items.last());
    } else {
        lemma_every_inserted_item_is_found(k, m, items.drop_last(), i);
        lemma_insert_keeps_members(earlier, items[i], items.last());
    }
}

/// A negative answer is definite: an item that the filter does not report
/// as present is none of the items that were inserted.
pub proof fn lemma_absent_item_was_never_inserted(
    k: nat,
    m: nat,
    items: Seq<Seq<u8>>,
    item: Seq<u8>,
)
    requires
        valid_dimensions(k, m),
        !FilterModel::after_inserting(k, m, items).contains(item),
    ensures
        !items.contains(item),
{
    if items.contains(item) {
        let i = choose|i: int| 0 <= i < items.len() && items[i] == item;
        lemma_every_inserted_item_is_found(k, m, items, i);
    }
}

/// Determinism: insertion is a function of the filter's state and the item.
/// Two filters that hold the same bits under the same hash count, as two
/// fresh filters of the same dimensions do, hold the same bits again after
/// the same item is inserted into each.
pub proof fn lemma_insert_deterministic(first: FilterModel, second: FilterModel, item: Seq<u8>)
    requires
        first.k == second.k,
        first.bits == second.bits,
    ensures
        first.insert(item).k == second.insert(item).k,
        first.insert(item).bits == second.insert(item).bits,
{
}

/// A fresh filter reports nothing as present.
pub proof fn lemma_empty_contains_nothing(k: nat, m: nat, item: Seq<u8>)
    requires
        valid_dimensions(k, m),
    ensures
        !FilterModel::empty(k, m).contains(item),
{
    lemma_empty_contains_no_hashes(k, m, item_hashes(item, k));
}

/// One insertion into a fresh filter sets exactly the item's positions: at
/// least one bit and at most `k`, and exactly `k` when no two of the item's
/// positions coincide. The item is then reported as present.
pub proof fn lemma_first_insert_sets_its_positions(k: nat, m: nat, item: Seq<u8>)
    requires
        valid_dimensions(k, m),
    ensures
        ({
            let fresh = FilterModel::empty(k, m);
            let after = fresh.insert(item);
            &&& ones(after.bits) == fresh.indices(item).to_set()
            &&& 1 <= ones(after.bits).len() <= k
            &&& fresh.indices(item).no_duplicates() <==> ones(after.bits).len() == k
            &&& after.contains(item)
        }),
{
    lemma_first_hashes_set_their_positions(k, m, item_hashes(item, k));
    lemma_no_false_negatives(FilterModel::empty(k, m), item);
}

} // verus!
