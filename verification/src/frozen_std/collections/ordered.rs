//! Freezing and thawing the ordered collections: `Vec`, `VecDeque`,
//! `BTreeMap` and `BTreeSet`. Each freezes to the sequence of its frozen
//! elements, in the order in which it hands them out, and a frozen sequence
//! thaws element by element, in order, into the collection asked for.
use crate::{round_trips, Freezable, Frozen, FrozenForm, Unfreezable};
use std::collections::{BTreeMap, BTreeSet, VecDeque};
use vstd::prelude::*;
use vstd::std_specs::btree::{increasing_seq, key_obeys_cmp_spec};

verus! {

/// Whether `frozen` holds a frozen form of each item, in the items' order.
pub open spec fn frozen_in_order<T: Freezable>(items: Seq<T>, frozen: Seq<Frozen<T>>) -> bool {
    &&& frozen.len() == items.len()
    &&& forall|i: int|
        #![trigger items[i]]
        #![trigger frozen[i]]
        0 <= i < items.len() ==> items[i].freezes_to(frozen[i]@)
}

/// Whether `thawed` holds what each frozen form thaws to, in their order.
pub open spec fn thawed_in_order<T: Freezable, U: Unfreezable<T>>(
    frozen: Seq<Frozen<T>>,
    thawed: Seq<U>,
) -> bool {
    &&& thawed.len() == frozen.len()
    &&& forall|i: int|
        #![trigger frozen[i]]
        #![trigger thawed[i]]
        0 <= i < frozen.len() ==> U::thaws_to(frozen[i]@, thawed[i])
}

/// Freezes each item, in order.
pub(crate) fn freeze_in_order<T: Freezable>(items: Vec<T>) -> (frozen: Vec<Frozen<T>>)
    ensures
        frozen_in_order(items@, frozen@),
{
    let ghost source = items@;
    let mut frozen: Vec<Frozen<T>> = Vec::new();
    for item in it: items
        invariant
            it.seq() == source,
            frozen@.len() == it.index(),
            forall|i: int| 0 <= i < frozen@.len() ==> (#[trigger] source[i]).freezes_to(frozen@[i]@),
    {
        frozen.push(item.freeze());
    }
    frozen
}

/// Thaws each frozen form, in order.
pub(crate) fn thaw_in_order<T: Freezable, U: Unfreezable<T>>(frozen: Vec<Frozen<T>>) -> (thawed: Vec<U>)
    ensures
        thawed_in_order(frozen@, thawed@),
{
    let ghost source = frozen@;
    let mut thawed: Vec<U> = Vec::new();
    for carrier in it: frozen
        invariant
            it.seq() == source,
            thawed@.len() == it.index(),
            forall|i: int| 0 <= i < thawed@.len() ==> U::thaws_to(source[i]@, #[trigger] thawed@[i]),
    {
        thawed.push(carrier.thaw());
    }
    thawed
}

impl<T: Freezable> FrozenForm for Vec<T> {
    type Frozen = Vec<Frozen<T>>;
}

impl<T: Freezable> Freezable for Vec<T> {
    open spec fn freezes_to(self, frozen: Vec<Frozen<T>>) -> bool {
        frozen_in_order(self@, frozen@)
    }

    fn freeze(self) -> (carrier: Frozen<Self>) {
        Frozen::new(freeze_in_order(self))
    }
}

impl<U: Unfreezable<T>, T: Freezable> Unfreezable<Vec<T>> for Vec<U> {
    open spec fn thaws_to(frozen: Vec<Frozen<T>>, thawed: Vec<U>) -> bool {
        thawed_in_order(frozen@, thawed@)
    }

    fn thaw(wrapped: Vec<Frozen<T>>) -> (thawed: Self) {
        thaw_in_order(wrapped)
    }
}

impl<T: Freezable> FrozenForm for VecDeque<T> {
    type Frozen = Vec<Frozen<T>>;
}

impl<T: Freezable> Freezable for VecDeque<T> {
    open spec fn freezes_to(self, frozen: Vec<Frozen<T>>) -> bool {
        frozen_in_order(self@, frozen@)
    }

    fn freeze(self) -> (carrier: Frozen<Self>) {
        let ghost source = self@;
        let mut rest = self;
        let mut frozen: Vec<Frozen<T>> = Vec::new();
        while rest.len() > 0
            invariant
                frozen@.len() + rest@.len() == source.len(),
                rest@ == source.subrange(frozen@.len() as int, source.len() as int),
                forall|i: int|
                    0 <= i < frozen@.len() ==> (#[trigger] source[i]).freezes_to(frozen@[i]@),
            decreases rest@.len(),
        {
            let item = rest.pop_front().unwrap();
            frozen.push(item.freeze());
        }
        Frozen::new(frozen)
    }
}

/// A frozen deque thaws into a `Vec`.
impl<U: Unfreezable<T>, T: Freezable> Unfreezable<VecDeque<T>> for Vec<U> {
    open spec fn thaws_to(frozen: Vec<Frozen<T>>, thawed: Vec<U>) -> bool {
        thawed_in_order(frozen@, thawed@)
    }

    fn thaw(wrapped: Vec<Frozen<T>>) -> (thawed: Self) {
        thaw_in_order(wrapped)
    }
}

/// A frozen `Vec` thaws into a deque.
impl<U: Freezable, T: Unfreezable<U>> Unfreezable<Vec<U>> for VecDeque<T> {
    open spec fn thaws_to(frozen: Vec<Frozen<U>>, thawed: VecDeque<T>) -> bool {
        thawed_in_order(frozen@, thawed@)
    }

    fn thaw(wrapped: Vec<Frozen<U>>) -> (thawed: Self) {
        let ghost source = wrapped@;
        let mut thawed: VecDeque<T> = VecDeque::new();
        for carrier in it: wrapped
            invariant
                it.seq() == source,
                thawed@.len() == it.index(),
                forall|i: int|
                    0 <= i < thawed@.len() ==> T::thaws_to(source[i]@, #[trigger] thawed@[i]),
        {
            thawed.push_back(carrier.thaw());
        }
        thawed
    }
}

/// Whether trees with keys of type `K` behave as mathematical maps and sets,
/// ordered as `K` is.
pub open spec fn tree_model<K>() -> bool {
    key_obeys_cmp_spec::<K>()
}

/// Whether inserting keys of type `K` into a tree behaves as inserting into
/// a mathematical map or set.
pub open spec fn insert_model<K: Ord>() -> bool {
    vstd::laws_cmp::obeys_cmp::<K>()
}

/// Whether `entries` holds the entries of `map`, each once, in ascending
/// order of their keys.
pub open spec fn in_key_order<K, V>(map: Map<K, V>, entries: Seq<(K, V)>) -> bool {
    &&& entries.no_duplicates()
    &&& forall|key: K, value: V|
        entries.contains((key, value)) <==> (map.contains_key(key) && map[key] == value)
    &&& increasing_seq(entries.map_values(|entry: (K, V)| entry.0))
}

/// Whether `items` holds the elements of `set`, each once, in ascending
/// order.
pub open spec fn in_element_order<T>(set: Set<T>, items: Seq<T>) -> bool {
    &&& items.no_duplicates()
    &&& forall|item: T| items.contains(item) <==> set.contains(item)
    &&& increasing_seq(items)
}

/// The map that holds the entries after each was inserted in turn: where a
/// key comes twice, its later value stays.
pub open spec fn map_of<K, V>(entries: Seq<(K, V)>) -> Map<K, V>
    decreases entries.len(),
{
    if entries.len() == 0 {
        Map::empty()
    } else {
        map_of(entries.drop_last()).insert(entries.last().0, entries.last().1)
    }
}

impl<K: Freezable, V: Freezable> FrozenForm for BTreeMap<K, V> {
    type Frozen = Vec<Frozen<(K, V)>>;
}

impl<K: Freezable, V: Freezable> Freezable for BTreeMap<K, V> {
    /// The frozen form holds the frozen form of each entry, in ascending
    /// order of the keys.
    open spec fn freezes_to(self, frozen: Vec<Frozen<(K, V)>>) -> bool {
        exists|entries: Seq<(K, V)>| #[trigger]
            frozen_in_order(entries, frozen@) && (tree_model::<K>() ==> in_key_order(
                self@,
                entries,
            ))
    }

    fn freeze(self) -> (carrier: Frozen<Self>) {
        let ghost source = self@;
        let entries = tree_into_entries(self);
        let ghost walk = entries@;
        let frozen = freeze_in_order(entries);
        assert(frozen_in_order(walk, frozen@) && (tree_model::<K>() ==> in_key_order(source, walk)));
        Frozen::new(frozen)
    }
}

/// A frozen map thaws into a `Vec` of its entries.
impl<U: Unfreezable<(K, V)>, K: Freezable, V: Freezable> Unfreezable<BTreeMap<K, V>> for Vec<U> {
    open spec fn thaws_to(frozen: Vec<Frozen<(K, V)>>, thawed: Vec<U>) -> bool {
        thawed_in_order(frozen@, thawed@)
    }

    fn thaw(wrapped: Vec<Frozen<(K, V)>>) -> (thawed: Self) {
        thaw_in_order(wrapped)
    }
}

/// A frozen `Vec` of entries thaws into a map, which puts them in its own
/// order.
impl<U: Freezable, K: Ord, V: Ord> Unfreezable<Vec<U>> for BTreeMap<K, V> where
    (K, V): Unfreezable<U>,
 {
    /// The map holds what the frozen entries thaw to, inserted in turn.
    open spec fn thaws_to(frozen: Vec<Frozen<U>>, thawed: BTreeMap<K, V>) -> bool {
        exists|entries: Seq<(K, V)>| #[trigger]
            thawed_in_order(frozen@, entries) && (insert_model::<K>() ==> thawed@ == map_of(
                entries,
            ))
    }

    fn thaw(wrapped: Vec<Frozen<U>>) -> (thawed: Self) {
        let ghost source = wrapped@;
        let ghost mut entries: Seq<(K, V)> = Seq::empty();
        let mut thawed: BTreeMap<K, V> = BTreeMap::new();
        for carrier in it: wrapped
            invariant
                it.seq() == source,
                entries.len() == it.index(),
                forall|i: int|
                    0 <= i < entries.len() ==> <(K, V)>::thaws_to(source[i]@, #[trigger] entries[i]),
                insert_model::<K>() ==> thawed@ == map_of(entries),
        {
            let entry: (K, V) = carrier.thaw();
            proof {
                let ghost before = entries;
                entries = entries.push(entry);
                assert(entries.drop_last() =~= before);
            }
            thawed.insert(entry.0, entry.1);
        }
        assert(thawed_in_order(source, entries) && (insert_model::<K>() ==> thawed@ == map_of(
            entries,
        )));
        thawed
    }
}

impl<T: Freezable> FrozenForm for BTreeSet<T> {
    type Frozen = Vec<Frozen<T>>;
}

impl<T: Freezable> Freezable for BTreeSet<T> {
    /// The frozen form holds the frozen form of each element, in ascending
    /// order.
    open spec fn freezes_to(self, frozen: Vec<Frozen<T>>) -> bool {
        exists|items: Seq<T>| #[trigger]
            frozen_in_order(items, frozen@) && (tree_model::<T>() ==> in_element_order(
                self@,
                items,
            ))
    }

    fn freeze(self) -> (carrier: Frozen<Self>) {
        let ghost source = self@;
        let items = tree_into_elements(self);
        let ghost walk = items@;
        let frozen = freeze_in_order(items);
        assert(frozen_in_order(walk, frozen@) && (tree_model::<T>() ==> in_element_order(
            source,
            walk,
        )));
        Frozen::new(frozen)
    }
}

/// A frozen set thaws into a `Vec` of its elements.
impl<U: Unfreezable<T>, T: Freezable> Unfreezable<BTreeSet<T>> for Vec<U> {
    open spec fn thaws_to(frozen: Vec<Frozen<T>>, thawed: Vec<U>) -> bool {
        thawed_in_order(frozen@, thawed@)
    }

    fn thaw(wrapped: Vec<Frozen<T>>) -> (thawed: Self) {
        thaw_in_order(wrapped)
    }
}

/// A frozen `Vec` thaws into a set, which puts the elements in its own
/// order.
impl<U: Freezable, T: Unfreezable<U> + Ord> Unfreezable<Vec<U>> for BTreeSet<T> {
    /// The set holds what the frozen elements thaw to.
    open spec fn thaws_to(frozen: Vec<Frozen<U>>, thawed: BTreeSet<T>) -> bool {
        exists|items: Seq<T>| #[trigger]
            thawed_in_order(frozen@, items) && (insert_model::<T>() ==> thawed@ == items.to_set())
    }

    fn thaw(wrapped: Vec<Frozen<U>>) -> (thawed: Self) {
        let ghost source = wrapped@;
        let ghost mut items: Seq<T> = Seq::empty();
        let mut thawed: BTreeSet<T> = BTreeSet::new();
        assert(items.to_set() =~= Set::<T>::empty());
        for carrier in it: wrapped
            invariant
                it.seq() == source,
                items.len() == it.index(),
                forall|i: int| 0 <= i < items.len() ==> T::thaws_to(source[i]@, #[trigger] items[i]),
                insert_model::<T>() ==> thawed@ == items.to_set(),
        {
            let item: T = carrier.thaw();
            proof {
                let ghost before = items;
                items = items.push(item);
                assert(items.to_set() =~= before.to_set().insert(item)) by {
                    assert forall|x: T| items.to_set().contains(x) <==> before.to_set().insert(
                        item,
                    ).contains(x) by {
                        if items.contains(x) {
                            let i = choose|i: int| 0 <= i < items.len() && items[i] == x;
                            if i < before.len() {
                                assert(before[i] == x);
                            }
                        }
                        if before.contains(x) {
                            let i = choose|i: int| 0 <= i < before.len() && before[i] == x;
                            assert(items[i] == x);
                        }
                        if x == item {
                            assert(items[before.len() as int] == x);
                        }
                    }
                }
            }
            thawed.insert(item);
        }
        assert(thawed_in_order(source, items) && (insert_model::<T>() ==> thawed@
            == items.to_set()));
        thawed
    }
}

/// `BTreeMap::into_iter`, collected: the entries of the map, each once, in
/// ascending order of their keys.
#[verifier::external_body]
fn tree_into_entries<K, V>(map: BTreeMap<K, V>) -> (entries: Vec<(K, V)>)
    ensures
        tree_model::<K>() ==> in_key_order(map@, entries@),
{
    map.into_iter().collect()
}

/// `BTreeSet::into_iter`, collected: the elements of the set, each once, in
/// ascending order.
#[verifier::external_body]
fn tree_into_elements<T>(set: BTreeSet<T>) -> (items: Vec<T>)
    ensures
        tree_model::<T>() ==> in_element_order(set@, items@),
{
    set.into_iter().collect()
}

/// A `Vec` whose elements round-trip comes back from freezing and thawing
/// with the same elements in the same order.
pub proof fn lemma_vec_round_trips<T: Freezable + Unfreezable<T>>(
    value: Vec<T>,
    frozen: Vec<Frozen<T>>,
    thawed: Vec<T>,
)
    requires
        round_trips::<T>(),
        value.freezes_to(frozen),
        <Vec<T> as Unfreezable<Vec<T>>>::thaws_to(frozen, thawed),
    ensures
        thawed@ == value@,
{
    assert forall|i: int| 0 <= i < value@.len() implies thawed@[i] == value@[i] by {
        assert(value@[i].freezes_to(frozen@[i]@));
        assert(T::thaws_to(frozen@[i]@, thawed@[i]));
    }
    assert(thawed@ =~= value@);
}

/// A frozen `Vec` thaws into a deque with the same elements in the same
/// order, where the elements round-trip.
pub proof fn lemma_vec_thaws_into_deque<T: Freezable + Unfreezable<T>>(
    value: Vec<T>,
    frozen: Vec<Frozen<T>>,
    thawed: VecDeque<T>,
)
    requires
        round_trips::<T>(),
        value.freezes_to(frozen),
        <VecDeque<T> as Unfreezable<Vec<T>>>::thaws_to(frozen, thawed),
    ensures
        thawed@ == value@,
{
    assert forall|i: int| 0 <= i < value@.len() implies thawed@[i] == value@[i] by {
        assert(value@[i].freezes_to(frozen@[i]@));
        assert(T::thaws_to(frozen@[i]@, thawed@[i]));
    }
    assert(thawed@ =~= value@);
}

} // verus!
