//! The keys of an ordered map, in ascending order.

use vstd::prelude::*;
use std::collections::BTreeMap;
use vstd::std_specs::btree::axiom_increasing_seq_meaning;
use vstd::std_specs::btree::axiom_spec_keys_iter;
use vstd::std_specs::btree::spec_keys_iter;
use vstd::std_specs::cmp::OrdSpec;
use vstd::std_specs::iter::IteratorSpec;

verus! {

/// Whether each number in the sequence is below the ones after it.
pub open spec fn ascending(numbers: Seq<u64>) -> bool {
    forall|i: int, j: int| 0 <= i < j < numbers.len() ==> numbers[i] < numbers[j]
}

/// Whether the sequence lists the numbers of a set, each once, in ascending
/// order.
pub open spec fn lists_in_order(numbers: Seq<u64>, set: Set<u64>) -> bool {
    &&& ascending(numbers)
    &&& forall|i: int| 0 <= i < numbers.len() ==> set.contains(#[trigger] numbers[i])
    &&& forall|n: u64| set.contains(n) ==> numbers.contains(n)
}

/// The numbers of a set that are below a bound.
pub open spec fn below(set: Set<u64>, bound: u64) -> Set<u64> {
    set.filter(|n: u64| n < bound)
}

/// The keys of a map, in ascending order.
pub fn ascending_keys<V>(map: &BTreeMap<u64, V>) -> (keys: Vec<u64>)
    ensures
        lists_in_order(keys@, map@.dom()),
{
    let mut keys: Vec<u64> = Vec::new();
    for key in iter: map.keys()
        invariant
            keys@.len() == iter.index(),
            forall|i: int| 0 <= i < keys@.len() ==> keys@[i] == *iter.seq()[i],
            iter.seq() == spec_keys_iter(map).remaining(),
    {
        keys.push(*key);
    }
    proof {
        let listed = spec_keys_iter(map).remaining();
        axiom_spec_keys_iter(map);
        axiom_increasing_seq_meaning::<&u64>(listed);
        assert(keys@ =~= listed.unref());
        assert forall|i: int, j: int| 0 <= i < j < keys@.len() implies keys@[i] < keys@[j] by {
            assert(OrdSpec::cmp_spec(&listed[i], &listed[j]) is Less);
        }
        assert forall|i: int| 0 <= i < keys@.len() implies map@.dom().contains(
            #[trigger] keys@[i],
        ) by {
            assert(keys@.to_set().contains(keys@[i]));
        }
        assert forall|n: u64| map@.dom().contains(n) implies keys@.contains(n) by {
            assert(keys@.to_set().contains(n));
        }
    }
    keys
}

/// In a listing of a set in ascending order, as many numbers of the set lie
/// below a listed number as stand before it in the listing.
pub proof fn lemma_position_counts_smaller(numbers: Seq<u64>, set: Set<u64>, position: int)
    requires
        lists_in_order(numbers, set),
        0 <= position < numbers.len(),
    ensures
        below(set, numbers[position]).len() == position,
{
    let before = numbers.subrange(0, position);
    assert(before.no_duplicates());
    assert forall|n: u64| before.to_set().contains(n) <==> below(set, numbers[position]).contains(
        n,
    ) by {
        if before.to_set().contains(n) {
            let i = choose|i: int| 0 <= i < before.len() && before[i] == n;
            assert(numbers[i] == n);
        }
        if below(set, numbers[position]).contains(n) {
            assert(numbers.contains(n));
            let j = choose|j: int| 0 <= j < numbers.len() && numbers[j] == n;
            assert(j < position);
            assert(before[j] == n);
        }
    }
    assert(before.to_set() =~= below(set, numbers[position]));
    before.unique_seq_to_set();
}

/// A listing of a set in ascending order is as long as the set is large.
pub proof fn lemma_listing_length(numbers: Seq<u64>, set: Set<u64>)
    requires
        lists_in_order(numbers, set),
    ensures
        set.finite(),
        numbers.len() == set.len(),
        numbers.no_duplicates(),
{
    assert(numbers.no_duplicates());
    assert forall|n: u64| numbers.to_set().contains(n) <==> set.contains(n) by {
        if numbers.to_set().contains(n) {
            let i = choose|i: int| 0 <= i < numbers.len() && numbers[i] == n;
            assert(set.contains(numbers[i]));
        }
        if set.contains(n) {
            assert(numbers.contains(n));
        }
    }
    assert(numbers.to_set() =~= set);
    numbers.unique_seq_to_set();
}

} // verus!
