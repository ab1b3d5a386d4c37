use crate::filter::{bit_index, marked, Filter};
use vstd::prelude::*;

verus! {

/// Every probe falls inside the buffer.
pub proof fn lemma_bit_index_in_range(h1: u64, h2: u64, round: nat, capacity: nat)
    requires
        0 < capacity,
    ensures
        0 <= bit_index(h1, h2, round, capacity) < capacity,
{
}

/// Marking goes round by round: no round marks nothing, and one more round sets one more
/// probe.
pub proof fn lemma_marked_round_by_round(bits: Seq<bool>, h1: u64, h2: u64, rounds: nat)
    requires
        0 < bits.len(),
    ensures
        marked(bits, h1, h2, 0) == bits,
        marked(bits, h1, h2, rounds + 1) == marked(bits, h1, h2, rounds).update(
            bit_index(h1, h2, rounds, bits.len()),
            true,
        ),
{
    assert(marked(bits, h1, h2, 0) =~= bits);
    assert(marked(bits, h1, h2, rounds + 1) =~= marked(bits, h1, h2, rounds).update(
        bit_index(h1, h2, rounds, bits.len()),
        true,
    ));
}

/// The order of two insertions does not matter.
pub proof fn lemma_insert_commutes(filter: Filter, item: Seq<u8>, other: Seq<u8>)
    ensures
        filter.insert(item).insert(other) == filter.insert(other).insert(item),
{
    assert(filter.insert(item).insert(other).bits =~= filter.insert(other).insert(item).bits);
}

/// Inserting keeps the configuration, so a sized filter stays sized, and unsets no bit.
pub proof fn lemma_insert_is_monotonic(filter: Filter, item: Seq<u8>)
    ensures
        filter.insert(item).same_config(filter),
        filter.wf() ==> filter.insert(item).wf(),
        forall|j: int| 0 <= j < filter.bits.len() && filter.bits[j] ==> filter.insert(item).bits[j],
{
}

/// Inserting any number of items keeps the configuration, so a sized filter stays sized.
pub proof fn lemma_insert_all_keeps_config(filter: Filter, items: Seq<Seq<u8>>)
    ensures
        filter.insert_all(items).same_config(filter),
        filter.wf() ==> filter.insert_all(items).wf(),
    decreases items.len(),
{
    if items.len() > 0 {
        lemma_insert_all_keeps_config(filter, items.drop_last());
        lemma_insert_is_monotonic(filter.insert_all(items.drop_last()), items.last());
    }
}

/// An item is reported present right after it was inserted.
pub proof fn lemma_inserted_is_contained(filter: Filter, item: Seq<u8>)
    requires
        filter.wf(),
    ensures
        filter.insert(item).contains(item),
{
}

/// An item that is reported present is still reported present after another insertion.
pub proof fn lemma_insert_keeps_contained(filter: Filter, item: Seq<u8>, other: Seq<u8>)
    requires
        filter.wf(),
        filter.contains(item),
    ensures
        filter.insert(other).contains(item),
{
}

/// No false negatives: after any sequence of insertions, each item of the sequence is
/// reported present, whatever was inserted after it.
pub proof fn lemma_no_false_negatives(filter: Filter, items: Seq<Seq<u8>>, i: int)
    requires
        filter.wf(),
        0 <= i < items.len(),
    ensures
        filter.insert_all(items).contains(items[i]),
    decreases items.len(),
{
    let before = filter.insert_all(items.drop_last());
    lemma_insert_all_keeps_config(filter, items.drop_last());
    if i == items.len() - 1 {
        lemma_inserted_is_contained(before, items.last());
    } else {
        lemma_no_false_negatives(filter, items.drop_last(), i);
        lemma_insert_keeps_contained(before, items[i], items.last());
    }
}

/// Definitely absent: an item that is reported absent is none of the items inserted so far.
pub proof fn lemma_absent_was_never_inserted(filter: Filter, items: Seq<Seq<u8>>, query: Seq<u8>)
    requires
        filter.wf(),
        !filter.insert_all(items).contains(query),
    ensures
        !items.contains(query),
{
    if items.contains(query) {
        let i = choose|i: int| 0 <= i < items.len() && items[i] == query;
        lemma_no_false_negatives(filter, items, i);
    }
}

/// Inserting is idempotent: a second insertion of the same item changes nothing.
pub proof fn lemma_insert_is_idempotent(filter: Filter, item: Seq<u8>)
    ensures
        filter.insert(item).insert(item) == filter.insert(item),
{
    assert(filter.insert(item).insert(item).bits =~= filter.insert(item).bits);
}

/// Inserting the same item any number of times, at least once, gives the state that one
/// insertion gives, and so the same answer to every query.
pub proof fn lemma_repeated_insert(filter: Filter, item: Seq<u8>, times: nat, query: Seq<u8>)
    requires
        1 <= times,
    ensures
        filter.insert_all(Seq::new(times, |k: int| item)) == filter.insert(item),
        filter.insert_all(Seq::new(times, |k: int| item)).contains(query) == filter.insert(
            item,
        ).contains(query),
    decreases times,
{
    let items = Seq::new(times, |k: int| item);
    assert(items.last() == item);
    if times == 1 {
        assert(items.drop_last() =~= Seq::<Seq<u8>>::empty());
        assert(filter.insert_all(items.drop_last()) == filter);
    } else {
        assert(items.drop_last() =~= Seq::new((times - 1) as nat, |k: int| item));
        lemma_repeated_insert(filter, item, (times - 1) as nat, query);
        lemma_insert_is_idempotent(filter, item);
    }
}

/// A cleared filter reports no item present, whatever was inserted before.
pub proof fn lemma_clear_resets_membership(filter: Filter, items: Seq<Seq<u8>>, query: Seq<u8>)
    requires
        filter.wf(),
    ensures
        !filter.insert_all(items).cleared().contains(query),
        filter.insert_all(items).cleared() == filter.cleared(),
{
    lemma_insert_all_keeps_config(filter, items);
    lemma_empty_contains_nothing(filter.cleared(), query);
}

/// A filter without a set bit reports no item present.
pub proof fn lemma_empty_contains_nothing(filter: Filter, query: Seq<u8>)
    requires
        filter.wf(),
        filter == filter.cleared(),
    ensures
        !filter.contains(query),
{
    let (h1, h2) = filter.digests(query);
    assert(!filter.bits[bit_index(h1, h2, 0, filter.bits.len())]);
}

} // verus!
