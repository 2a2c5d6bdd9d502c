//! The hash of an unordered collection: one digest per entry, each taken with
//! a hasher of its own, all combined with a bitwise XOR, so that the order in
//! which the entries are walked does not show in the result.
use core::hash::{Hash, Hasher};
use std::collections::hash_map::DefaultHasher;
use vstd::prelude::*;
use vstd::std_specs::hash::DefaultHasherAdditionalSpecFns;

verus! {

/// The XOR of all the digests, 0 for none.
pub open spec fn xor_fold(digests: Seq<u64>) -> u64
    decreases digests.len(),
{
    if digests.len() == 0 {
        0
    } else {
        xor_fold(digests.drop_last()) ^ digests.last()
    }
}

/// Combines the digests of a collection's entries into the collection's hash.
pub fn combine(digests: &Vec<u64>) -> (hash: u64)
    ensures
        hash == xor_fold(digests@),
{
    let mut hash: u64 = 0;
    let mut i: usize = 0;
    while i < digests.len()
        invariant
            i <= digests.len(),
            hash == xor_fold(digests@.take(i as int)),
        decreases digests.len() - i,
    {
        assert(digests@.take(i + 1).drop_last() =~= digests@.take(i as int));
        hash = hash ^ digests[i];
        i += 1;
    }
    assert(digests@.take(i as int) =~= digests@);
    hash
}

/// Taking one digest out of the fold and XOR-ing it back in changes nothing.
proof fn lemma_xor_fold_remove(digests: Seq<u64>, i: int)
    requires
        0 <= i < digests.len(),
    ensures
        xor_fold(digests) == xor_fold(digests.remove(i)) ^ digests[i],
    decreases digests.len(),
{
    let rest = digests.drop_last();
    let last = digests.last();
    if i == digests.len() - 1 {
        assert(digests.remove(i) =~= rest);
    } else {
        lemma_xor_fold_remove(rest, i);
        let inner = xor_fold(rest.remove(i));
        let picked = digests[i];
        assert(digests.remove(i).drop_last() =~= rest.remove(i));
        assert(digests.remove(i).last() == last);
        assert((inner ^ picked) ^ last == (inner ^ last) ^ picked) by (bit_vector);
    }
}

/// The combined hash does not depend on the order of the digests: two
/// sequences that hold the same digests the same number of times fold to the
/// same value.
pub proof fn lemma_xor_fold_order_independent(first: Seq<u64>, second: Seq<u64>)
    requires
        first.to_multiset() == second.to_multiset(),
    ensures
        xor_fold(first) == xor_fold(second),
    decreases first.len(),
{
    broadcast use vstd::seq_lib::group_to_multiset_ensures;

    first.to_multiset_ensures();
    second.to_multiset_ensures();
    if first.len() == 0 {
        assert(second.len() == 0);
    } else {
        let last = first.last();
        assert(first.to_multiset().count(last) > 0);
        assert(second.contains(last));
        let j = choose|j: int| 0 <= j < second.len() && second[j] == last;
        let rest = first.drop_last();
        assert(rest =~= first.remove(first.len() - 1));
        vstd::seq_lib::to_multiset_remove(first, first.len() - 1);
        vstd::seq_lib::to_multiset_remove(second, j);
        lemma_xor_fold_order_independent(rest, second.remove(j));
        lemma_xor_fold_remove(second, j);
    }
}

/// Whatever digest each item has, the combined hash of a collection does not
/// depend on the order in which the collection hands out its items: two
/// walks that meet the same items, each once, combine to the same hash.
pub proof fn lemma_hash_ignores_walk_order<T>(
    first: Seq<T>,
    second: Seq<T>,
    digest: spec_fn(T) -> u64,
)
    requires
        first.no_duplicates(),
        second.no_duplicates(),
        forall|item: T| first.contains(item) <==> second.contains(item),
    ensures
        xor_fold(first.map_values(digest)) == xor_fold(second.map_values(digest)),
    decreases first.len(),
{
    if first.len() == 0 {
        if second.len() > 0 {
            assert(second.contains(second[0]));
            assert(first.contains(second[0]));
        }
        assert(first.map_values(digest) =~= second.map_values(digest));
    } else {
        let last = first.last();
        let rest = first.drop_last();
        assert(first.contains(last));
        assert(second.contains(last));
        let j = choose|j: int| 0 <= j < second.len() && second[j] == last;
        let others = second.remove(j);
        assert forall|item: T| rest.contains(item) <==> others.contains(item) by {
            if rest.contains(item) {
                let i = choose|i: int| 0 <= i < rest.len() && rest[i] == item;
                assert(first[i] == item);
                assert(first.contains(item));
                let k = choose|k: int| 0 <= k < second.len() && second[k] == item;
                if k < j {
                    assert(others[k] == item);
                } else {
                    assert(k != j);
                    assert(others[k - 1] == item);
                }
            }
            if others.contains(item) {
                let k = choose|k: int| 0 <= k < others.len() && others[k] == item;
                let at = if k < j {
                    k
                } else {
                    k + 1
                };
                assert(second[at] == item);
                assert(second.contains(item));
                let i = choose|i: int| 0 <= i < first.len() && first[i] == item;
                assert(i != first.len() - 1);
                assert(rest[i] == item);
            }
        }
        lemma_hash_ignores_walk_order(rest, others, digest);
        assert(first.map_values(digest).drop_last() =~= rest.map_values(digest));
        assert(second.map_values(digest).remove(j) =~= others.map_values(digest));
        lemma_xor_fold_remove(second.map_values(digest), j);
    }
}

/// `Hash::hash` of `item` into `state`. What an implementation of `Hash`
/// writes is its own business, so nothing is claimed of the state afterwards.
#[verifier::external_body]
pub(crate) fn feed_into<T: Hash + ?Sized, H: Hasher>(item: &T, state: &mut H) {
    item.hash(state)
}

/// `Hasher::write_u64` of `digest` into `state`. Nothing is claimed of the
/// state afterwards: that is up to the hasher.
#[verifier::external_body]
pub(crate) fn write_digest<H: Hasher>(state: &mut H, digest: u64) {
    state.write_u64(digest)
}

/// Whether `item` was hashed into the hasher behind `state`, once.
pub closed spec fn hashed_into<T: Hash + ?Sized, H: Hasher>(item: &T, state: &mut H) -> bool {
    call_ensures(feed_into::<T, H>, (item, state), ())
}

/// Whether `digest` was written into the hasher behind `state` as one `u64`.
pub closed spec fn wrote_digest<H: Hasher>(state: &mut H, digest: u64) -> bool {
    call_ensures(write_digest::<H>, (state, digest), ())
}

/// Hashes `item` into `state`: the state is left as that one call of
/// `Hash::hash` left it.
pub(crate) fn hash_into<T: Hash + ?Sized, H: Hasher>(item: &T, state: &mut H)
    ensures
        exists|handle: &mut H|
            mut_ref_current(handle) == *old(state) && mut_ref_future(handle) == *final(state)
                && #[trigger] hashed_into(item, handle),
{
    feed_into(item, state);
    proof {
        let handle = choose|handle: &mut H|
            mut_ref_current(handle) == *old(state) && mut_ref_future(handle) == *state
                && #[trigger] call_ensures(feed_into::<T, H>, (item, handle), ());
        assert(hashed_into(item, handle));
    }
}

/// Writes `digest` into `state` as one `u64`: the state is left as that one
/// write left it.
pub(crate) fn write_one<H: Hasher>(state: &mut H, digest: u64)
    ensures
        exists|handle: &mut H|
            mut_ref_current(handle) == *old(state) && mut_ref_future(handle) == *final(state)
                && #[trigger] wrote_digest(handle, digest),
{
    write_digest(state, digest);
    proof {
        let handle = choose|handle: &mut H|
            mut_ref_current(handle) == *old(state) && mut_ref_future(handle) == *state
                && #[trigger] call_ensures(write_digest::<H>, (handle, digest), ());
        assert(wrote_digest(handle, digest));
    }
}

/// Whether `fed` is the hasher that `before` became when `item` was hashed
/// into it.
pub closed spec fn fed_with<T: Hash + ?Sized, H: Hasher>(item: &T, before: H, fed: H) -> bool {
    call_ensures(feed::<T, H>, (item, before), fed)
}

/// Hashes `item` into `state` and hands the hasher back.
pub(crate) fn feed<T: Hash + ?Sized, H: Hasher>(item: &T, state: H) -> (fed: H)
    ensures
        exists|handle: &mut H|
            mut_ref_current(handle) == state && mut_ref_future(handle) == fed
                && #[trigger] hashed_into(item, handle),
{
    let mut state = state;
    hash_into(item, &mut state);
    state
}

/// Whether `digests` holds, for each element of the walk in turn, a digest of
/// that element alone.
pub open spec fn digests_of_elements<T: Hash>(walk: Seq<&T>, digests: Seq<u64>) -> bool {
    &&& digests.len() == walk.len()
    &&& forall|i: int|
        #![trigger digests[i]]
        #![trigger walk[i]]
        0 <= i < walk.len() ==> digests_element(walk[i], digests[i])
}

/// Whether `digests` holds, for each entry of the walk in turn, a digest of
/// that entry alone.
pub open spec fn digests_of_entries<K: Hash, V: Hash>(
    walk: Seq<(&K, &V)>,
    digests: Seq<u64>,
) -> bool {
    &&& digests.len() == walk.len()
    &&& forall|i: int|
        #![trigger digests[i]]
        #![trigger walk[i]]
        0 <= i < walk.len() ==> digests_entry(walk[i].0, walk[i].1, digests[i])
}

/// Whether hashing an element of type `T` on its own always gives the same
/// digest.
pub open spec fn element_has_one_digest<T: Hash>() -> bool {
    forall|element: &T, first: u64, second: u64|
        #![trigger digests_element(element, first), digests_element(element, second)]
        digests_element(element, first) && digests_element(element, second) ==> first == second
}

/// Whether hashing an entry on its own always gives the same digest.
pub open spec fn entry_has_one_digest<K: Hash, V: Hash>() -> bool {
    forall|key: &K, value: &V, first: u64, second: u64|
        #![trigger digests_entry(key, value, first), digests_entry(key, value, second)]
        digests_entry(key, value, first) && digests_entry(key, value, second) ==> first == second
}

/// Whether the walk meets every element of `set` once, and nothing else.
pub open spec fn walk_of_set<T>(set: Set<T>, walk: Seq<&T>) -> bool {
    &&& walk.no_duplicates()
    &&& walk.len() == set.len()
    &&& forall|value: T| walk.contains(&value) <==> set.contains(value)
}

/// Whether the walk meets every entry of `map` once, and nothing else.
pub open spec fn walk_of_map<K, V>(map: Map<K, V>, walk: Seq<(&K, &V)>) -> bool {
    &&& walk.no_duplicates()
    &&& walk.len() == map.len()
    &&& forall|key: K, value: V|
        walk.contains((&key, &value)) <==> (map.contains_key(key) && map[key] == value)
}

/// Whether `digest` is what a hasher of its own finishes with after
/// `element` was hashed into it.
pub closed spec fn digests_element<T: Hash>(element: &T, digest: u64) -> bool {
    exists|fresh: DefaultHasher, fed: DefaultHasher|
        {
            &&& fresh@ == Seq::<Seq<u8>>::empty()
            &&& #[trigger] fed_with(element, fresh, fed)
            &&& digest == DefaultHasher::spec_finish(fed@)
        }
}

/// Whether `digest` is what a hasher of its own finishes with after `key`
/// and then `value` were hashed into it.
pub closed spec fn digests_entry<K: Hash, V: Hash>(key: &K, value: &V, digest: u64) -> bool {
    exists|fresh: DefaultHasher, keyed: DefaultHasher, fed: DefaultHasher|
        {
            &&& fresh@ == Seq::<Seq<u8>>::empty()
            &&& #[trigger] fed_with(key, fresh, keyed)
            &&& #[trigger] fed_with(value, keyed, fed)
            &&& digest == DefaultHasher::spec_finish(fed@)
        }
}

/// The digest of one set element, taken with a hasher of its own.
pub(crate) fn element_digest<T: Hash>(element: &T) -> (digest: u64)
    ensures
        digests_element(element, digest),
{
    let fresh = DefaultHasher::new();
    let fed = feed(element, fresh);
    let digest: u64 = fed.finish();
    assert(fed_with(element, fresh, fed));
    digest
}

/// The digest of one map entry, key first, taken with a hasher of its own.
pub(crate) fn entry_digest<K: Hash, V: Hash>(key: &K, value: &V) -> (digest: u64)
    ensures
        digests_entry(key, value, digest),
{
    let fresh = DefaultHasher::new();
    let keyed = feed(key, fresh);
    let fed = feed(value, keyed);
    let digest: u64 = fed.finish();
    assert(fed_with(key, fresh, keyed));
    assert(fed_with(value, keyed, fed));
    digest
}

} // verus!
