//! Freezing and thawing `HashMap`.
use super::digest::{
    combine, digests_entry, digests_of_entries, entry_digest, entry_has_one_digest,
    lemma_hash_ignores_walk_order, walk_of_map, write_one, wrote_digest, xor_fold,
};
use super::hash_set::set_model;
use super::relate::{
    entry_images, has_image, has_key_image, images, lemma_entry_images_cover_map,
    lemma_entry_images_start, lemma_entry_images_step, lemma_images_cover_entries,
    lemma_images_start, lemma_images_step,
};
use crate::{freezes_apart, freezes_uniquely, Freezable, Frozen, FrozenForm, Unfreezable};
use core::hash::{BuildHasher, Hash, Hasher};
use core::borrow::Borrow;
use core::ops::{Deref, Index};
use std::collections::hash_map::{Iter, RandomState};
use std::collections::{HashMap, HashSet};
use vstd::prelude::*;
use vstd::std_specs::cmp::{PartialEqSpec, PartialEqSpecImpl};
use vstd::std_specs::hash::{contains_borrowed_key, maps_borrowed_key_to_value};
use vstd::std_specs::iter::IteratorSpec;

verus! {

/// The frozen form of a `HashMap`: a map from frozen keys to frozen values
/// that can be read but not changed. The keys are held in their frozen form
/// itself, so that they are hashed and compared as that form is. Two frozen
/// maps are equal when they hold the same entries, and equal ones hash alike.
#[derive(Debug)]
#[verifier::reject_recursive_types(S)]
pub struct FrozenMap<K: Hash + Eq, V, S: BuildHasher = RandomState>(HashMap<K, V, S>);

impl<K: Hash + Eq, V, S: BuildHasher> View for FrozenMap<K, V, S> {
    type V = Map<K, V>;

    closed spec fn view(&self) -> Map<K, V> {
        self.0@
    }
}

impl<K: Hash + Eq + Clone, V: Clone, S: BuildHasher + Clone> Clone for FrozenMap<K, V, S> {
    fn clone(&self) -> (copy: Self)
        ensures
            copy@ == self@,
    {
        FrozenMap(self.0.clone())
    }
}

impl<K: Hash + Eq, V, S: BuildHasher> Deref for FrozenMap<K, V, S> {
    type Target = HashMap<K, V, S>;

    fn deref(&self) -> (map: &HashMap<K, V, S>)
        ensures
            map@ == self@,
    {
        &self.0
    }
}

impl<K: Hash + Eq, V: PartialEq, S: BuildHasher> PartialEq for FrozenMap<K, V, S> {
    fn eq(&self, other: &Self) -> (same: bool) {
        same_entries(&self.0, &other.0)
    }
}

impl<K: Hash + Eq, V: PartialEq, S: BuildHasher> PartialEqSpecImpl for FrozenMap<K, V, S> {
    open spec fn obeys_eq_spec() -> bool {
        set_model::<K, S>() && V::obeys_eq_spec()
    }

    open spec fn eq_spec(&self, other: &Self) -> bool {
        equal_entries(self@, other@)
    }
}

impl<K: Hash + Eq, V: Eq, S: BuildHasher> Eq for FrozenMap<K, V, S> {
}

/// Whether the two maps have the same keys, with values that `==` takes for
/// equal.
pub open spec fn equal_entries<K, V: PartialEq>(first: Map<K, V>, second: Map<K, V>) -> bool {
    &&& first.dom() == second.dom()
    &&& forall|key: K| #[trigger] first.contains_key(key) ==> first[key].eq_spec(&second[key])
}

impl<K: Hash + Eq, V, S: BuildHasher> FrozenMap<K, V, S> {
    /// Takes the map apart: its entries, each once, in an order that is the
    /// map's own business.
    pub fn into_entries(self) -> (entries: Vec<(K, V)>)
        ensures
            set_model::<K, S>() ==> entries@.no_duplicates(),
            set_model::<K, S>() ==> entries@.len() == self@.len(),
            set_model::<K, S>() ==> forall|key: K, value: V|
                entries@.contains((key, value)) <==> (self@.contains_key(key) && self@[key]
                    == value),
    {
        into_entries(self.0)
    }

    /// An iterator over the entries, in an order that is the map's own
    /// business.
    pub fn iter(&self) -> (entries: Iter<'_, K, V>)
        ensures
            set_model::<K, S>() ==> {
                let walk = entries.remaining();
                &&& walk.no_duplicates()
                &&& walk.len() == self@.len()
                &&& forall|i: int|
                    0 <= i < walk.len() ==> self@.contains_key(*(#[trigger] walk[i]).0) && self@[*walk[i].0]
                        == *walk[i].1
                &&& forall|key: K| #[trigger]
                    self@.contains_key(key) ==> walk.contains((&key, &self@[key]))
            },
    {
        broadcast use vstd::std_specs::hash::axiom_spec_hash_map_iter;

        self.0.iter()
    }
}

/// Looking up by a key that is not frozen yet: the key is frozen, and its
/// frozen form looked up.
impl<K: Hash + Eq, V, S: BuildHasher, B: Freezable> Index<B> for FrozenMap<K, V, S> where
    K: Borrow<B::Frozen>,
    B::Frozen: Hash + Eq,
 {
    type Output = V;

    fn index(&self, index: B) -> (value: &V)
        ensures
            exists|form: B::Frozen| #[trigger]
                index.freezes_to(form) && maps_borrowed_key_to_value(self@, &form, *value),
    {
        let carrier = index.freeze();
        let found = self.0.get(carrier.deref());
        assert(index.freezes_to(carrier@));
        assert(contains_borrowed_key(self@, &carrier@));
        found.unwrap()
    }
}

impl<K: Hash + Eq, V, S: BuildHasher, B: Freezable> vstd::std_specs::core::IndexSpecImpl<B> for FrozenMap<K, V, S> where
    K: Borrow<B::Frozen>,
    B::Frozen: Hash + Eq,
 {
    /// The map has an entry for every frozen form of the key.
    open spec fn index_req(&self, index: &B) -> bool {
        &&& set_model::<K, S>()
        &&& forall|form: B::Frozen| #[trigger]
            (*index).freezes_to(form) ==> contains_borrowed_key(self@, &form)
    }
}

impl<K: Hash + Eq, V: Hash, S: BuildHasher> FrozenMap<K, V, S> {
    /// Whether `hash` is the XOR of one digest for each entry of some walk
    /// of the map, each digest taken of its entry alone; 0 for the empty map.
    pub open spec fn hashes_to(&self, hash: u64) -> bool {
        exists|walk: Seq<(&K, &V)>, digests: Seq<u64>| #[trigger]
            digests_of_entries(walk, digests) && (set_model::<K, S>() ==> walk_of_map(
                self@,
                walk,
            )) && hash == xor_fold(digests)
    }

    /// The hash of the map: the XOR of one digest for each entry.
    pub fn unordered_digest(&self) -> (hash: u64)
        ensures
            self.hashes_to(hash),
    {
        let entries = entry_refs(&self.0);
        let mut digests: Vec<u64> = Vec::new();
        let mut i: usize = 0;
        while i < entries.len()
            invariant
                i <= entries.len(),
                digests@.len() == i,
                forall|j: int|
                    0 <= j < i ==> digests_entry(entries@[j].0, entries@[j].1, #[trigger] digests@[j]),
            decreases entries.len() - i,
        {
            let entry = &entries[i];
            digests.push(entry_digest(entry.0, entry.1));
            i += 1;
        }
        let hash: u64 = combine(&digests);
        assert(digests_of_entries(entries@, digests@) && (set_model::<K, S>() ==> walk_of_map(
            self@,
            entries@,
        )) && hash == xor_fold(digests@));
        hash
    }
}

impl<K: Hash + Eq, V: Hash, S: BuildHasher> Hash for FrozenMap<K, V, S> {
    /// Writes one `u64` into `state`: the XOR of one digest for each entry,
    /// which does not depend on the order in which the map hands out its
    /// entries.
    fn hash<H: Hasher>(&self, state: &mut H)
        ensures
            exists|digest: u64, handle: &mut H|
                self.hashes_to(digest) && mut_ref_current(handle) == *old(state)
                    && mut_ref_future(handle) == *final(state) && #[trigger] wrote_digest(
                    handle,
                    digest,
                ),
    {
        let digest: u64 = self.unordered_digest();
        write_one(state, digest);
    }
}

impl<K: Freezable, V: Freezable, S: BuildHasher + Default> FrozenForm for HashMap<
    K,
    V,
    S,
> where K::Frozen: Hash + Eq {
    type Frozen = FrozenMap<K::Frozen, Frozen<V>, S>;
}

impl<K: Freezable, V: Freezable, S: BuildHasher + Default> Freezable for HashMap<
    K,
    V,
    S,
> where K::Frozen: Hash + Eq {
    /// Every key has a frozen form among the keys of `frozen`, and every
    /// entry of `frozen` is the frozen form of an entry, key and value. Where
    /// two keys share a frozen form, `frozen` has the value of one of them.
    open spec fn freezes_to(self, frozen: FrozenMap<K::Frozen, Frozen<V>, S>) -> bool {
        set_model::<K, S>() && set_model::<K::Frozen, S>() ==> {
            &&& forall|key: K| #[trigger]
                self@.contains_key(key) ==> exists|form: K::Frozen|
                    frozen@.contains_key(form) && #[trigger] key.freezes_to(form)
            &&& forall|form: K::Frozen| #[trigger]
                frozen@.contains_key(form) ==> exists|key: K|
                    self@.contains_key(key) && #[trigger] key.freezes_to(form)
                        && self@[key].freezes_to(frozen@[form]@)
        }
    }

    fn freeze(self) -> (carrier: Frozen<Self>) {
        let ghost source = self@;
        let entries = into_entries(self);
        let ghost items = entries@;
        let ghost key_rel = |key: K, form: K::Frozen| key.freezes_to(form);
        let ghost value_rel = |value: V, form: Frozen<V>| value.freezes_to(form@);
        let mut out: HashMap<K::Frozen, Frozen<V>, S> = HashMap::default();
        proof {
            lemma_entry_images_start(items, key_rel, value_rel);
        }
        for entry in it: entries
            invariant
                it.seq() == items,
                key_rel == |key: K, form: K::Frozen| key.freezes_to(form),
                value_rel == |value: V, form: Frozen<V>| value.freezes_to(form@),
                set_model::<K::Frozen, S>() ==> entry_images(
                    items,
                    it.index() as int,
                    out@,
                    key_rel,
                    value_rel,
                ),
        {
            let ghost before = out@;
            let (key, value) = entry;
            let frozen_key = key.freeze();
            let frozen_value = value.freeze();
            let ghost added_key = frozen_key@;
            let ghost added_value = frozen_value;
            out.insert(frozen_key.into_inner(), frozen_value);
            proof {
                if set_model::<K::Frozen, S>() {
                    lemma_entry_images_step(
                        items,
                        it.index() as int,
                        before,
                        key_rel,
                        value_rel,
                        added_key,
                        added_value,
                    );
                }
            }
        }
        let frozen = FrozenMap(out);
        proof {
            if set_model::<K, S>() && set_model::<K::Frozen, S>() {
                lemma_entry_images_cover_map(source, items, out@, key_rel, value_rel);
                assert forall|key: K| #[trigger] source.contains_key(key) implies exists|form: K::Frozen|
                    frozen@.contains_key(form) && #[trigger] key.freezes_to(form) by {
                    assert(has_key_image((key, source[key]), out@, key_rel));
                }
            }
        }
        Frozen::new(frozen)
    }
}

impl<
    K: Freezable,
    V: Freezable,
    RK: Hash + Eq + Unfreezable<K>,
    RV: Unfreezable<V>,
    S: BuildHasher + Default,
> Unfreezable<HashMap<K, V, S>> for HashMap<RK, RV, S> where K::Frozen: Hash + Eq {
    /// Every frozen key thaws to a key of `thawed`, and every entry of
    /// `thawed` is what a frozen entry thaws to, key and value. Where two
    /// frozen keys thaw to one key, `thawed` has the value of one of them.
    open spec fn thaws_to(
        frozen: FrozenMap<K::Frozen, Frozen<V>, S>,
        thawed: HashMap<RK, RV, S>,
    ) -> bool {
        set_model::<K::Frozen, S>() && set_model::<RK, S>() ==> {
            &&& forall|form: K::Frozen| #[trigger]
                frozen@.contains_key(form) ==> exists|key: RK|
                    thawed@.contains_key(key) && #[trigger] RK::thaws_to(form, key)
            &&& forall|key: RK| #[trigger]
                thawed@.contains_key(key) ==> exists|form: K::Frozen|
                    frozen@.contains_key(form) && #[trigger] RK::thaws_to(form, key)
                        && RV::thaws_to(frozen@[form]@, thawed@[key])
        }
    }

    fn thaw(wrapped: FrozenMap<K::Frozen, Frozen<V>, S>) -> (thawed: Self) {
        let ghost source = wrapped@;
        let entries = into_entries(wrapped.0);
        let ghost items = entries@;
        let ghost key_rel = |form: K::Frozen, key: RK| RK::thaws_to(form, key);
        let ghost value_rel = |form: Frozen<V>, value: RV| RV::thaws_to(form@, value);
        let mut out: HashMap<RK, RV, S> = HashMap::default();
        proof {
            lemma_entry_images_start(items, key_rel, value_rel);
        }
        for entry in it: entries
            invariant
                it.seq() == items,
                key_rel == |form: K::Frozen, key: RK| RK::thaws_to(form, key),
                value_rel == |form: Frozen<V>, value: RV| RV::thaws_to(form@, value),
                set_model::<RK, S>() ==> entry_images(
                    items,
                    it.index() as int,
                    out@,
                    key_rel,
                    value_rel,
                ),
        {
            let ghost before = out@;
            let (frozen_key, frozen_value) = entry;
            let key = RK::thaw(frozen_key);
            let value: RV = frozen_value.thaw();
            let ghost added_key = key;
            let ghost added_value = value;
            out.insert(key, value);
            proof {
                if set_model::<RK, S>() {
                    lemma_entry_images_step(
                        items,
                        it.index() as int,
                        before,
                        key_rel,
                        value_rel,
                        added_key,
                        added_value,
                    );
                }
            }
        }
        proof {
            if set_model::<K::Frozen, S>() && set_model::<RK, S>() {
                lemma_entry_images_cover_map(source, items, out@, key_rel, value_rel);
                assert forall|form: K::Frozen| #[trigger] source.contains_key(form) implies exists|key: RK|
                    out@.contains_key(key) && #[trigger] RK::thaws_to(form, key) by {
                    assert(has_key_image((form, source[form]), out@, key_rel));
                }
            }
        }
        out
    }
}

/// A frozen map with unit values thaws into a set: its elements are what the
/// keys thaw to.
impl<K: Freezable, RT: Hash + Eq + Unfreezable<K>, S: BuildHasher + Default> Unfreezable<
    HashMap<K, (), S>,
> for HashSet<RT, S> where K::Frozen: Hash + Eq {
    /// Every frozen key thaws to an element of `thawed`, and `thawed` holds
    /// nothing else.
    open spec fn thaws_to(frozen: FrozenMap<K::Frozen, Frozen<()>, S>, thawed: HashSet<RT, S>) -> bool {
        set_model::<K::Frozen, S>() && set_model::<RT, S>() ==> {
            &&& forall|form: K::Frozen| #[trigger]
                frozen@.contains_key(form) ==> exists|value: RT|
                    thawed@.contains(value) && #[trigger] RT::thaws_to(form, value)
            &&& forall|value: RT| #[trigger]
                thawed@.contains(value) ==> exists|form: K::Frozen|
                    frozen@.contains_key(form) && #[trigger] RT::thaws_to(form, value)
        }
    }

    fn thaw(wrapped: FrozenMap<K::Frozen, Frozen<()>, S>) -> (thawed: Self) {
        let ghost source = wrapped@;
        let entries = into_entries(wrapped.0);
        let ghost items = entries@;
        let ghost rel = |entry: (K::Frozen, Frozen<()>), value: RT| RT::thaws_to(entry.0, value);
        let mut out: HashSet<RT, S> = HashSet::default();
        proof {
            lemma_images_start(items, rel);
        }
        for entry in it: entries
            invariant
                it.seq() == items,
                rel == |entry: (K::Frozen, Frozen<()>), value: RT| RT::thaws_to(entry.0, value),
                set_model::<RT, S>() ==> images(items, it.index() as int, out@, rel),
        {
            let ghost before = out@;
            let value = RT::thaw(entry.0);
            let ghost added = value;
            out.insert(value);
            proof {
                if set_model::<RT, S>() {
                    lemma_images_step(items, it.index() as int, before, rel, added);
                }
            }
        }
        proof {
            if set_model::<K::Frozen, S>() && set_model::<RT, S>() {
                lemma_images_cover_entries(source, items, out@, rel);
                assert forall|form: K::Frozen| #[trigger] source.contains_key(form) implies exists|value: RT|
                    out@.contains(value) && #[trigger] RT::thaws_to(form, value) by {
                    assert(has_image((form, source[form]), out@, rel));
                }
            }
        }
        out
    }
}

/// Two maps that hold the same entries have the same frozen form, however
/// each of them came to hold its entries.
pub proof fn lemma_map_freeze_ignores_order<K: Freezable, V: Freezable, S: BuildHasher + Default>(
    first: HashMap<K, V, S>,
    second: HashMap<K, V, S>,
    first_frozen: FrozenMap<K::Frozen, Frozen<V>, S>,
    second_frozen: FrozenMap<K::Frozen, Frozen<V>, S>,
) where K::Frozen: Hash + Eq
    requires
        set_model::<K, S>(),
        set_model::<K::Frozen, S>(),
        freezes_uniquely::<K>(),
        freezes_apart::<K>(),
        freezes_uniquely::<V>(),
        first@ == second@,
        first.freezes_to(first_frozen),
        second.freezes_to(second_frozen),
    ensures
        first_frozen@ == second_frozen@,
{
    lemma_frozen_entries_within(first, second, first_frozen, second_frozen);
    lemma_frozen_entries_within(second, first, second_frozen, first_frozen);
    assert(first_frozen@ =~= second_frozen@);
}

/// Every entry of the first frozen form is an entry of the second.
proof fn lemma_frozen_entries_within<K: Freezable, V: Freezable, S: BuildHasher + Default>(
    first: HashMap<K, V, S>,
    second: HashMap<K, V, S>,
    first_frozen: FrozenMap<K::Frozen, Frozen<V>, S>,
    second_frozen: FrozenMap<K::Frozen, Frozen<V>, S>,
) where K::Frozen: Hash + Eq
    requires
        set_model::<K, S>(),
        set_model::<K::Frozen, S>(),
        freezes_uniquely::<K>(),
        freezes_apart::<K>(),
        freezes_uniquely::<V>(),
        first@ == second@,
        first.freezes_to(first_frozen),
        second.freezes_to(second_frozen),
    ensures
        forall|form: K::Frozen| #[trigger]
            first_frozen@.contains_key(form) ==> second_frozen@.contains_key(form)
                && second_frozen@[form] == first_frozen@[form],
{
    assert forall|form: K::Frozen| #[trigger]
        first_frozen@.contains_key(form) implies second_frozen@.contains_key(form)
        && second_frozen@[form] == first_frozen@[form] by {
        let key = choose|key: K|
            first@.contains_key(key) && #[trigger] key.freezes_to(form) && first@[key].freezes_to(
                first_frozen@[form]@,
            );
        assert(second@.contains_key(key));
        let other = choose|other: K::Frozen|
            second_frozen@.contains_key(other) && #[trigger] key.freezes_to(other);
        assert(key.freezes_to(form) && key.freezes_to(other));
        assert(other == form);
        let back = choose|back: K|
            second@.contains_key(back) && #[trigger] back.freezes_to(form)
                && second@[back].freezes_to(second_frozen@[form]@);
        assert(key.freezes_to(form) && back.freezes_to(form));
        assert(back == key);
        let value = first@[key];
        assert(value.freezes_to(first_frozen@[form]@) && value.freezes_to(second_frozen@[form]@));
        assert(first_frozen@[form]@ == second_frozen@[form]@);
    }
}

/// The empty map hashes to 0.
pub proof fn lemma_empty_map_hashes_to_zero<K: Hash + Eq, V: Hash, S: BuildHasher>(
    map: FrozenMap<K, V, S>,
    hash: u64,
)
    requires
        set_model::<K, S>(),
        map@ == Map::<K, V>::empty(),
        map.hashes_to(hash),
    ensures
        hash == 0,
{
    assert(map@.len() == 0);
}

/// A map of one entry hashes to the digest of that entry.
pub proof fn lemma_single_entry_hashes_to_its_digest<K: Hash + Eq, V: Hash, S: BuildHasher>(
    map: FrozenMap<K, V, S>,
    key: K,
    value: V,
    hash: u64,
)
    requires
        set_model::<K, S>(),
        map@ == Map::<K, V>::empty().insert(key, value),
        map.hashes_to(hash),
    ensures
        digests_entry(&key, &value, hash),
{
    let (walk, digests) = choose|walk: Seq<(&K, &V)>, digests: Seq<u64>| #[trigger]
        digests_of_entries(walk, digests) && (set_model::<K, S>() ==> walk_of_map(map@, walk))
            && hash == xor_fold(digests);
    assert(map@.dom() =~= set![key]);
    assert(map@.len() == 1);
    assert(walk.contains(walk[0]));
    let met_key = *walk[0].0;
    let met_value = *walk[0].1;
    assert(walk.contains((&met_key, &met_value)));
    assert(met_key == key && met_value == value);
    assert(digests_entry(walk[0].0, walk[0].1, digests[0]));
    let digest = digests[0];
    assert(xor_fold(digests.drop_last()) == 0);
    assert(digests.last() == digest);
    assert(0u64 ^ digest == digest) by (bit_vector);
}

/// Two frozen maps that hold the same entries hash alike, whatever the order
/// in which each hands out its entries, where hashing an entry always gives
/// the same digest.
pub proof fn lemma_equal_maps_hash_alike<K: Hash + Eq, V: Hash, S: BuildHasher>(
    first: FrozenMap<K, V, S>,
    second: FrozenMap<K, V, S>,
    first_hash: u64,
    second_hash: u64,
)
    requires
        set_model::<K, S>(),
        entry_has_one_digest::<K, V>(),
        first@ == second@,
        first.hashes_to(first_hash),
        second.hashes_to(second_hash),
    ensures
        first_hash == second_hash,
{
    let (first_walk, first_digests) = choose|walk: Seq<(&K, &V)>, digests: Seq<u64>| #[trigger]
        digests_of_entries(walk, digests) && (set_model::<K, S>() ==> walk_of_map(first@, walk))
            && first_hash == xor_fold(digests);
    let (second_walk, second_digests) = choose|walk: Seq<(&K, &V)>, digests: Seq<u64>| #[trigger]
        digests_of_entries(walk, digests) && (set_model::<K, S>() ==> walk_of_map(second@, walk))
            && second_hash == xor_fold(digests);
    let digest = |entry: (&K, &V)| choose|digest: u64| digests_entry(entry.0, entry.1, digest);
    assert forall|i: int| 0 <= i < first_walk.len() implies first_digests[i] == digest(
        first_walk[i],
    ) by {
        assert(digests_entry(first_walk[i].0, first_walk[i].1, first_digests[i]));
    }
    assert forall|i: int| 0 <= i < second_walk.len() implies second_digests[i] == digest(
        second_walk[i],
    ) by {
        assert(digests_entry(second_walk[i].0, second_walk[i].1, second_digests[i]));
    }
    assert(first_digests =~= first_walk.map_values(digest));
    assert(second_digests =~= second_walk.map_values(digest));
    assert forall|item: (&K, &V)| first_walk.contains(item) <==> second_walk.contains(item) by {
        let key = *item.0;
        let value = *item.1;
        assert(first_walk.contains((&key, &value)) <==> (first@.contains_key(key) && first@[key]
            == value));
        assert(second_walk.contains((&key, &value)) <==> (second@.contains_key(key)
            && second@[key] == value));
    }
    lemma_hash_ignores_walk_order(first_walk, second_walk, digest);
}

/// `HashMap::into_iter`, collected: the entries of the map, each once, in an
/// order that is the map's own business.
#[verifier::external_body]
fn into_entries<K, V, S>(map: HashMap<K, V, S>) -> (entries: Vec<(K, V)>)
    ensures
        (set_model::<K, S>()) ==> entries@.no_duplicates(),
        (set_model::<K, S>()) ==> entries@.len() == map@.len(),
        (set_model::<K, S>()) ==> forall|key: K, value: V|
            entries@.contains((key, value)) <==> (map@.contains_key(key) && map@[key] == value),
{
    map.into_iter().collect()
}

/// `HashMap::iter`, collected: a borrow of each entry of the map, each once,
/// in an order that is the map's own business.
#[verifier::external_body]
fn entry_refs<'a, K, V, S>(map: &'a HashMap<K, V, S>) -> (entries: Vec<(&'a K, &'a V)>)
    ensures
        (set_model::<K, S>()) ==> entries@.len() == map@.len(),
        (set_model::<K, S>()) ==> entries@.no_duplicates(),
        (set_model::<K, S>()) ==> forall|key: K, value: V|
            entries@.contains((&key, &value)) <==> (map@.contains_key(key) && map@[key] == value),
{
    map.iter().collect()
}

/// `HashMap::eq`: whether the two maps have the same keys, each with values
/// that `==` takes for equal.
#[verifier::external_body]
fn same_entries<K: Hash + Eq, V: PartialEq, S: BuildHasher>(
    first: &HashMap<K, V, S>,
    second: &HashMap<K, V, S>,
) -> (same: bool)
    ensures
        (set_model::<K, S>() && V::obeys_eq_spec()) ==> same == equal_entries(first@, second@),
{
    first == second
}

} // verus!
