//! Freezing and thawing `HashSet`.
use super::digest::{
    combine, digests_element, digests_of_elements, element_digest, element_has_one_digest,
    lemma_hash_ignores_walk_order, walk_of_set, write_one, wrote_digest, xor_fold,
};
use super::relate::{
    has_image, images, lemma_images_cover_set, lemma_images_start, lemma_images_step,
};
use crate::{freezes_uniquely, Freezable, Frozen, FrozenForm, Unfreezable};
use core::hash::{BuildHasher, Hash, Hasher};
use core::ops::Deref;
use std::collections::hash_map::RandomState;
use std::collections::{HashMap, HashSet};
use vstd::prelude::*;
use vstd::std_specs::cmp::PartialEqSpecImpl;
use vstd::std_specs::hash::{builds_valid_hashers, obeys_key_model};

verus! {

/// The frozen form of a `HashSet`: a set of frozen elements that can be read
/// but not changed. Two of them are equal when they hold the same elements,
/// and equal ones hash alike.
#[derive(Debug)]
#[verifier::reject_recursive_types(S)]
pub struct FrozenSet<T: Hash + Eq, S: BuildHasher = RandomState>(HashSet<T, S>);

impl<T: Hash + Eq, S: BuildHasher> View for FrozenSet<T, S> {
    type V = Set<T>;

    closed spec fn view(&self) -> Set<T> {
        self.0@
    }
}

/// Whether sets with elements of type `T` and hashers built by `S` behave as
/// mathematical sets.
pub open spec fn set_model<T, S>() -> bool {
    obeys_key_model::<T>() && builds_valid_hashers::<S>()
}

impl<T: Hash + Eq + Clone, S: BuildHasher + Clone> Clone for FrozenSet<T, S> {
    fn clone(&self) -> (copy: Self)
        ensures
            set_model::<T, S>() ==> copy@ == self@,
    {
        FrozenSet(cloned_set(&self.0))
    }
}

impl<T: Hash + Eq, S: BuildHasher> Deref for FrozenSet<T, S> {
    type Target = HashSet<T, S>;

    fn deref(&self) -> (set: &HashSet<T, S>)
        ensures
            set@ == self@,
    {
        &self.0
    }
}

impl<T: Hash + Eq, S: BuildHasher> PartialEq for FrozenSet<T, S> {
    fn eq(&self, other: &Self) -> (same: bool) {
        same_elements(&self.0, &other.0)
    }
}

impl<T: Hash + Eq, S: BuildHasher> PartialEqSpecImpl for FrozenSet<T, S> {
    open spec fn obeys_eq_spec() -> bool {
        set_model::<T, S>()
    }

    open spec fn eq_spec(&self, other: &Self) -> bool {
        self@ == other@
    }
}

impl<T: Hash + Eq, S: BuildHasher> Eq for FrozenSet<T, S> {
}

impl<T: Hash + Eq, S: BuildHasher> FrozenSet<T, S> {
    /// Whether `hash` is the XOR of one digest for each element of some walk
    /// of the set, each digest taken of its element alone; 0 for the empty
    /// set.
    pub open spec fn hashes_to(&self, hash: u64) -> bool {
        exists|walk: Seq<&T>, digests: Seq<u64>| #[trigger]
            digests_of_elements(walk, digests) && (set_model::<T, S>() ==> walk_of_set(
                self@,
                walk,
            )) && hash == xor_fold(digests)
    }

    /// The hash of the set: the XOR of one digest for each element.
    pub fn unordered_digest(&self) -> (hash: u64)
        ensures
            self.hashes_to(hash),
    {
        let elements = element_refs(&self.0);
        let mut digests: Vec<u64> = Vec::new();
        let mut i: usize = 0;
        while i < elements.len()
            invariant
                i <= elements.len(),
                digests@.len() == i,
                forall|j: int|
                    0 <= j < i ==> digests_element(elements@[j], #[trigger] digests@[j]),
            decreases elements.len() - i,
        {
            digests.push(element_digest(elements[i]));
            i += 1;
        }
        let hash: u64 = combine(&digests);
        assert(digests_of_elements(elements@, digests@) && (set_model::<T, S>() ==> walk_of_set(
            self@,
            elements@,
        )) && hash == xor_fold(digests@));
        hash
    }
}

impl<T: Hash + Eq, S: BuildHasher> Hash for FrozenSet<T, S> {
    /// Writes one `u64` into `state`: the XOR of one digest for each
    /// element, which does not depend on the order in which the set hands
    /// out its elements.
    fn hash<H: Hasher>(&self, state: &mut H)
        ensures
            exists|digest: u64, handle: &mut H|
                self.hashes_to(digest) && mut_ref_current(handle) == *old(state)
                    && mut_ref_future(handle) == *final(state) && #[trigger] wrote_digest(
                    handle,
                    digest,
                ),
    {
        let digest: u64 = self.unordered_digest();
        write_one(state, digest);
    }
}

impl<T: Freezable, S: BuildHasher + Default> FrozenForm for HashSet<T, S> where T::Frozen: Hash + Eq {
    type Frozen = FrozenSet<T::Frozen, S>;
}

impl<T: Freezable, S: BuildHasher + Default> Freezable for HashSet<T, S> where T::Frozen: Hash + Eq {
    /// Every element has a frozen form in `frozen`, and `frozen` holds
    /// nothing else.
    open spec fn freezes_to(self, frozen: FrozenSet<T::Frozen, S>) -> bool {
        set_model::<T, S>() && set_model::<T::Frozen, S>() ==> {
            &&& forall|value: T| #[trigger]
                self@.contains(value) ==> exists|form: T::Frozen|
                    frozen@.contains(form) && #[trigger] value.freezes_to(form)
            &&& forall|form: T::Frozen| #[trigger]
                frozen@.contains(form) ==> exists|value: T|
                    self@.contains(value) && #[trigger] value.freezes_to(form)
        }
    }

    fn freeze(self) -> (carrier: Frozen<Self>) {
        let ghost source = self@;
        let elements = into_elements(self);
        let ghost items = elements@;
        let ghost rel = |value: T, form: T::Frozen| value.freezes_to(form);
        let mut out: HashSet<T::Frozen, S> = HashSet::default();
        proof {
            lemma_images_start(items, rel);
        }
        for value in it: elements
            invariant
                it.seq() == items,
                rel == |value: T, form: T::Frozen| value.freezes_to(form),
                set_model::<T::Frozen, S>() ==> images(items, it.index() as int, out@, rel),
        {
            let ghost before = out@;
            let carrier = value.freeze();
            let ghost added = carrier@;
            out.insert(carrier.into_inner());
            proof {
                if set_model::<T::Frozen, S>() {
                    lemma_images_step(items, it.index() as int, before, rel, added);
                }
            }
        }
        let frozen = FrozenSet(out);
        proof {
            if set_model::<T, S>() && set_model::<T::Frozen, S>() {
                lemma_images_cover_set(source, items, out@, rel);
                assert forall|value: T| #[trigger] source.contains(value) implies exists|form: T::Frozen|
                    frozen@.contains(form) && #[trigger] value.freezes_to(form) by {
                    assert(has_image(value, out@, rel));
                }
            }
        }
        Frozen::new(frozen)
    }
}

impl<T: Freezable, RK: Hash + Eq + Unfreezable<T>, S: BuildHasher + Default> Unfreezable<
    HashSet<T, S>,
> for HashSet<RK, S> where T::Frozen: Hash + Eq {
    /// Every frozen element thaws to an element of `thawed`, and `thawed`
    /// holds nothing else.
    open spec fn thaws_to(frozen: FrozenSet<T::Frozen, S>, thawed: HashSet<RK, S>) -> bool {
        set_model::<T::Frozen, S>() && set_model::<RK, S>() ==> {
            &&& forall|form: T::Frozen| #[trigger]
                frozen@.contains(form) ==> exists|value: RK|
                    thawed@.contains(value) && #[trigger] RK::thaws_to(form, value)
            &&& forall|value: RK| #[trigger]
                thawed@.contains(value) ==> exists|form: T::Frozen|
                    frozen@.contains(form) && #[trigger] RK::thaws_to(form, value)
        }
    }

    fn thaw(wrapped: FrozenSet<T::Frozen, S>) -> (thawed: Self) {
        let ghost source = wrapped@;
        let elements = into_elements(wrapped.0);
        let ghost items = elements@;
        let ghost rel = |form: T::Frozen, value: RK| RK::thaws_to(form, value);
        let mut out: HashSet<RK, S> = HashSet::default();
        proof {
            lemma_images_start(items, rel);
        }
        for form in it: elements
            invariant
                it.seq() == items,
                rel == |form: T::Frozen, value: RK| RK::thaws_to(form, value),
                set_model::<RK, S>() ==> images(items, it.index() as int, out@, rel),
        {
            let ghost before = out@;
            let value = RK::thaw(form);
            let ghost added = value;
            out.insert(value);
            proof {
                if set_model::<RK, S>() {
                    lemma_images_step(items, it.index() as int, before, rel, added);
                }
            }
        }
        proof {
            if set_model::<T::Frozen, S>() && set_model::<RK, S>() {
                lemma_images_cover_set(source, items, out@, rel);
                assert forall|form: T::Frozen| #[trigger] source.contains(form) implies exists|value: RK|
                    out@.contains(value) && #[trigger] RK::thaws_to(form, value) by {
                    assert(has_image(form, out@, rel));
                }
            }
        }
        out
    }
}

/// A frozen set thaws into a map with unit values: its keys are what the
/// elements thaw to.
impl<T: Freezable, RK: Hash + Eq + Unfreezable<T>, S: BuildHasher + Default> Unfreezable<
    HashSet<T, S>,
> for HashMap<RK, (), S> where T::Frozen: Hash + Eq {
    /// Every frozen element thaws to a key of `thawed`, and `thawed` has no
    /// other key.
    open spec fn thaws_to(frozen: FrozenSet<T::Frozen, S>, thawed: HashMap<RK, (), S>) -> bool {
        set_model::<T::Frozen, S>() && set_model::<RK, S>() ==> {
            &&& forall|form: T::Frozen| #[trigger]
                frozen@.contains(form) ==> exists|key: RK|
                    thawed@.contains_key(key) && #[trigger] RK::thaws_to(form, key)
            &&& forall|key: RK| #[trigger]
                thawed@.contains_key(key) ==> exists|form: T::Frozen|
                    frozen@.contains(form) && #[trigger] RK::thaws_to(form, key)
        }
    }

    fn thaw(wrapped: FrozenSet<T::Frozen, S>) -> (thawed: Self) {
        let ghost source = wrapped@;
        let elements = into_elements(wrapped.0);
        let ghost items = elements@;
        let ghost rel = |form: T::Frozen, key: RK| RK::thaws_to(form, key);
        let mut out: HashMap<RK, (), S> = HashMap::default();
        proof {
            lemma_images_start(items, rel);
            assert(out@.dom() =~= Set::<RK>::empty());
        }
        for form in it: elements
            invariant
                it.seq() == items,
                rel == |form: T::Frozen, key: RK| RK::thaws_to(form, key),
                set_model::<RK, S>() ==> images(items, it.index() as int, out@.dom(), rel),
        {
            let ghost before = out@.dom();
            let key = RK::thaw(form);
            let ghost added = key;
            out.insert(key, ());
            proof {
                if set_model::<RK, S>() {
                    assert(out@.dom() =~= before.insert(added));
                    lemma_images_step(items, it.index() as int, before, rel, added);
                }
            }
        }
        proof {
            if set_model::<T::Frozen, S>() && set_model::<RK, S>() {
                lemma_images_cover_set(source, items, out@.dom(), rel);
                assert forall|form: T::Frozen| #[trigger] source.contains(form) implies exists|key: RK|
                    out@.contains_key(key) && #[trigger] RK::thaws_to(form, key) by {
                    assert(has_image(form, out@.dom(), rel));
                }
                assert forall|key: RK| #[trigger] out@.contains_key(key) implies exists|form: T::Frozen|
                    source.contains(form) && #[trigger] RK::thaws_to(form, key) by {
                    assert(out@.dom().contains(key));
                }
            }
        }
        out
    }
}

/// Two sets that hold the same elements have the same frozen form, however
/// each of them came to hold its elements.
pub proof fn lemma_set_freeze_ignores_order<T: Freezable, S: BuildHasher + Default>(
    first: HashSet<T, S>,
    second: HashSet<T, S>,
    first_frozen: FrozenSet<T::Frozen, S>,
    second_frozen: FrozenSet<T::Frozen, S>,
) where T::Frozen: Hash + Eq
    requires
        set_model::<T, S>(),
        set_model::<T::Frozen, S>(),
        freezes_uniquely::<T>(),
        first@ == second@,
        first.freezes_to(first_frozen),
        second.freezes_to(second_frozen),
    ensures
        first_frozen@ == second_frozen@,
{
    assert forall|form: T::Frozen| first_frozen@.contains(form) implies second_frozen@.contains(
        form,
    ) by {
        let value = choose|value: T| first@.contains(value) && #[trigger] value.freezes_to(form);
        assert(second@.contains(value));
        let other = choose|other: T::Frozen|
            second_frozen@.contains(other) && #[trigger] value.freezes_to(other);
        assert(value.freezes_to(form) && value.freezes_to(other));
    }
    assert forall|form: T::Frozen| second_frozen@.contains(form) implies first_frozen@.contains(
        form,
    ) by {
        let value = choose|value: T| second@.contains(value) && #[trigger] value.freezes_to(form);
        assert(first@.contains(value));
        let other = choose|other: T::Frozen|
            first_frozen@.contains(other) && #[trigger] value.freezes_to(other);
        assert(value.freezes_to(form) && value.freezes_to(other));
    }
    assert(first_frozen@ =~= second_frozen@);
}

/// The empty set hashes to 0.
pub proof fn lemma_empty_set_hashes_to_zero<T: Hash + Eq, S: BuildHasher>(
    set: FrozenSet<T, S>,
    hash: u64,
)
    requires
        set_model::<T, S>(),
        set@ == Set::<T>::empty(),
        set.hashes_to(hash),
    ensures
        hash == 0,
{
}

/// A set of one element hashes to the digest of that element.
pub proof fn lemma_single_element_hashes_to_its_digest<T: Hash + Eq, S: BuildHasher>(
    set: FrozenSet<T, S>,
    element: T,
    hash: u64,
)
    requires
        set_model::<T, S>(),
        set@ == set![element],
        set.hashes_to(hash),
    ensures
        digests_element(&element, hash),
{
    let (walk, digests) = choose|walk: Seq<&T>, digests: Seq<u64>| #[trigger]
        digests_of_elements(walk, digests) && (set_model::<T, S>() ==> walk_of_set(set@, walk))
            && hash == xor_fold(digests);
    assert(set@.len() == 1);
    assert(walk.contains(walk[0]));
    let met = *walk[0];
    assert(walk.contains(&met));
    assert(met == element);
    assert(digests_element(walk[0], digests[0]));
    let digest = digests[0];
    assert(xor_fold(digests.drop_last()) == 0);
    assert(digests.last() == digest);
    assert(0u64 ^ digest == digest) by (bit_vector);
}

/// Two frozen sets that hold the same elements hash alike, whatever the
/// order in which each hands out its elements, where hashing an element
/// always gives the same digest.
pub proof fn lemma_equal_sets_hash_alike<T: Hash + Eq, S: BuildHasher>(
    first: FrozenSet<T, S>,
    second: FrozenSet<T, S>,
    first_hash: u64,
    second_hash: u64,
)
    requires
        set_model::<T, S>(),
        element_has_one_digest::<T>(),
        first@ == second@,
        first.hashes_to(first_hash),
        second.hashes_to(second_hash),
    ensures
        first_hash == second_hash,
{
    let (first_walk, first_digests) = choose|walk: Seq<&T>, digests: Seq<u64>| #[trigger]
        digests_of_elements(walk, digests) && (set_model::<T, S>() ==> walk_of_set(first@, walk))
            && first_hash == xor_fold(digests);
    let (second_walk, second_digests) = choose|walk: Seq<&T>, digests: Seq<u64>| #[trigger]
        digests_of_elements(walk, digests) && (set_model::<T, S>() ==> walk_of_set(second@, walk))
            && second_hash == xor_fold(digests);
    let digest = |element: &T| choose|digest: u64| digests_element(element, digest);
    assert forall|i: int| 0 <= i < first_walk.len() implies first_digests[i] == digest(
        first_walk[i],
    ) by {
        assert(digests_element(first_walk[i], first_digests[i]));
    }
    assert forall|i: int| 0 <= i < second_walk.len() implies second_digests[i] == digest(
        second_walk[i],
    ) by {
        assert(digests_element(second_walk[i], second_digests[i]));
    }
    assert(first_digests =~= first_walk.map_values(digest));
    assert(second_digests =~= second_walk.map_values(digest));
    assert forall|item: &T| first_walk.contains(item) <==> second_walk.contains(item) by {
        let value = *item;
        assert(first_walk.contains(&value) <==> first@.contains(value));
        assert(second_walk.contains(&value) <==> second@.contains(value));
    }
    lemma_hash_ignores_walk_order(first_walk, second_walk, digest);
}

/// `HashSet::into_iter`, collected: the elements of the set, each once, in
/// an order that is the set's own business.
#[verifier::external_body]
fn into_elements<T, S>(set: HashSet<T, S>) -> (elements: Vec<T>)
    ensures
        (set_model::<T, S>()) ==> elements@.no_duplicates(),
        (set_model::<T, S>()) ==> forall|value: T| elements@.contains(value) <==> set@.contains(value),
{
    set.into_iter().collect()
}

/// `HashSet::iter`, collected: a borrow of each element of the set, each
/// once, in an order that is the set's own business.
#[verifier::external_body]
fn element_refs<'a, T, S>(set: &'a HashSet<T, S>) -> (elements: Vec<&'a T>)
    ensures
        (set_model::<T, S>()) ==> elements@.len() == set@.len(),
        (set_model::<T, S>()) ==> elements@.no_duplicates(),
        (set_model::<T, S>()) ==> forall|value: T| elements@.contains(&value) <==> set@.contains(value),
{
    set.iter().collect()
}

/// `HashSet::clone`: a set that holds a clone of each element.
#[verifier::external_body]
fn cloned_set<T: Clone, S: Clone>(set: &HashSet<T, S>) -> (copy: HashSet<T, S>)
    ensures
        (set_model::<T, S>()) ==> copy@ == set@,
{
    set.clone()
}

/// `HashSet::eq`: whether the two sets hold the same elements.
#[verifier::external_body]
fn same_elements<T: Hash + Eq, S: BuildHasher>(
    first: &HashSet<T, S>,
    second: &HashSet<T, S>,
) -> (same: bool)
    ensures
        (set_model::<T, S>()) ==> same == (first@ == second@),
{
    first == second
}

} // verus!
