//! Freezing a priority queue.
//!
//! Verus has no specification for `std`'s `BinaryHeap`, so [`Heap`] holds a
//! queue's elements in its place: build one with `Heap::from_vec` from
//! `BinaryHeap::into_vec`. Freezing puts the elements in ascending order
//! first, so that queues with the same elements freeze alike whatever their
//! layout.
use super::ordered::{freeze_in_order, frozen_in_order, thaw_in_order, thawed_in_order};
use crate::{freezes_uniquely, Freezable, Frozen, FrozenForm, Unfreezable};
use core::cmp::Ordering;
use vstd::prelude::*;
use vstd::relations::{sorted_by, total_ordering};
use vstd::std_specs::cmp::PartialOrdSpec;

verus! {

/// The elements of a priority queue, in the queue's layout.
///
/// Two of them compare as their layouts do. Compare their frozen forms to
/// compare what they hold.
#[derive(Clone, Debug, PartialEq, Eq, PartialOrd, Ord)]
pub struct Heap<T> {
    items: Vec<T>,
}

impl<T> View for Heap<T> {
    type V = Seq<T>;

    closed spec fn view(&self) -> Seq<T> {
        self.items@
    }
}

/// Whether `first` compares less than or equal to `second`.
pub open spec fn at_most<T: Ord>(first: T, second: T) -> bool {
    first.partial_cmp_spec(&second) matches Some(Ordering::Less | Ordering::Equal)
}

/// Whether comparing values of `T` does what its specification says.
pub open spec fn compares_as_specified<T: Ord>() -> bool {
    T::obeys_partial_cmp_spec()
}

/// Whether comparing values of `T` does what its specification says, and
/// that is a total order.
pub open spec fn totally_ordered<T: Ord>() -> bool {
    &&& compares_as_specified::<T>()
    &&& total_ordering(|first: T, second: T| at_most(first, second))
}

/// Whether no item is followed by a lesser one.
pub open spec fn ascending<T: Ord>(items: Seq<T>) -> bool {
    sorted_by(items, |first: T, second: T| at_most(first, second))
}

/// Whether `sorted` holds the items of `items`, each as often, in ascending
/// order where `T` has one.
pub open spec fn normalized<T: Ord>(items: Seq<T>, sorted: Seq<T>) -> bool {
    &&& sorted.to_multiset() == items.to_multiset()
    &&& totally_ordered::<T>() ==> ascending(sorted)
}

impl<T> Heap<T> {
    /// An empty queue.
    pub fn new() -> (heap: Self)
        ensures
            heap@ == Seq::<T>::empty(),
    {
        Heap { items: Vec::new() }
    }

    /// A queue with the given layout.
    pub fn from_vec(items: Vec<T>) -> (heap: Self)
        ensures
            heap@ == items@,
    {
        Heap { items }
    }

    /// The number of elements.
    pub fn len(&self) -> (len: usize)
        ensures
            len == self@.len(),
    {
        self.items.len()
    }

    /// Adds an element.
    pub fn push(&mut self, item: T)
        ensures
            final(self)@ == old(self)@.push(item),
    {
        self.items.push(item);
    }

    /// The elements, in the queue's layout.
    pub fn into_vec(self) -> (items: Vec<T>)
        ensures
            items@ == self@,
    {
        self.items
    }
}

/// Where `item` goes in `sorted`: behind the elements that are at most
/// `item`, before the first that is greater.
fn insertion_point<T: Ord>(sorted: &Vec<T>, item: &T) -> (at: usize)
    ensures
        at <= sorted@.len(),
        compares_as_specified::<T>() ==> forall|i: int| 0 <= i < at ==> at_most(#[trigger] sorted@[i], *item),
        compares_as_specified::<T>() && at < sorted@.len() ==> !at_most(sorted@[at as int], *item),
{
    let mut at: usize = 0;
    while at < sorted.len()
        invariant
            at <= sorted@.len(),
            compares_as_specified::<T>() ==> forall|i: int|
                0 <= i < at ==> at_most(#[trigger] sorted@[i], *item),
        ensures
            at <= sorted@.len(),
            compares_as_specified::<T>() ==> forall|i: int|
                0 <= i < at ==> at_most(#[trigger] sorted@[i], *item),
            compares_as_specified::<T>() && at < sorted@.len() ==> !at_most(sorted@[at as int], *item),
        decreases sorted@.len() - at,
    {
        if !sorted[at].le(item) {
            break ;
        }
        at += 1;
    }
    at
}

/// Putting `item` at its insertion point keeps an ascending sequence
/// ascending.
proof fn lemma_insert_keeps_ascending<T: Ord>(sorted: Seq<T>, at: int, item: T)
    requires
        totally_ordered::<T>(),
        ascending(sorted),
        0 <= at <= sorted.len(),
        forall|i: int| 0 <= i < at ==> at_most(#[trigger] sorted[i], item),
        at < sorted.len() ==> !at_most(sorted[at], item),
    ensures
        ascending(sorted.insert(at, item)),
{
    let leq = |first: T, second: T| at_most(first, second);
    let next = sorted.insert(at, item);
    assert forall|i: int, j: int| 0 <= i < j < next.len() implies #[trigger] leq(next[i], next[j]) by {
        if j < at {
            assert(leq(sorted[i], sorted[j]));
        } else if j == at {
            assert(at_most(sorted[i], item));
        } else if i == at {
            assert(leq(sorted[at], item) || leq(item, sorted[at]));
            if j - 1 > at {
                assert(leq(sorted[at], sorted[j - 1]));
                assert(leq(item, sorted[at]) && leq(sorted[at], sorted[j - 1]));
            }
        } else if i < at {
            assert(leq(sorted[i], sorted[j - 1]));
        } else {
            assert(leq(sorted[i - 1], sorted[j - 1]));
        }
    }
}

impl<T: Ord> Heap<T> {
    /// The elements in ascending order.
    pub fn into_sorted_vec(self) -> (sorted: Vec<T>)
        ensures
            normalized(self@, sorted@),
    {
        let ghost source = self@;
        let mut sorted: Vec<T> = Vec::new();
        assert(source.take(0) =~= Seq::<T>::empty());
        for item in it: self.items
            invariant
                it.seq() == source,
                sorted@.to_multiset() == source.take(it.index() as int).to_multiset(),
                totally_ordered::<T>() ==> ascending(sorted@),
        {
            let ghost before = sorted@;
            let at = insertion_point(&sorted, &item);
            sorted.insert(at, item);
            proof {
                let n = it.index() as int;
                vstd::seq_lib::to_multiset_insert(before, at as int, item);
                assert(source.take(n + 1) =~= source.take(n).push(item));
                vstd::seq_lib::to_multiset_build(source.take(n), item);
                if totally_ordered::<T>() {
                    lemma_insert_keeps_ascending(before, at as int, item);
                }
            }
        }
        assert(source.take(source.len() as int) =~= source);
        sorted
    }
}

impl<T: Freezable + Ord> FrozenForm for Heap<T> {
    type Frozen = Vec<Frozen<T>>;
}

impl<T: Freezable + Ord> Freezable for Heap<T> {
    /// The frozen form holds a frozen form of each element, in ascending
    /// order of the elements.
    open spec fn freezes_to(self, frozen: Vec<Frozen<T>>) -> bool {
        exists|sorted: Seq<T>| #[trigger]
            normalized(self@, sorted) && frozen_in_order(sorted, frozen@)
    }

    fn freeze(self) -> (carrier: Frozen<Self>) {
        let ghost source = self@;
        let sorted = self.into_sorted_vec();
        let ghost order = sorted@;
        let frozen = freeze_in_order(sorted);
        assert(normalized(source, order) && frozen_in_order(order, frozen@));
        Frozen::new(frozen)
    }
}

/// A frozen queue thaws into a `Vec`, in ascending order.
impl<T: Freezable + Ord, U: Unfreezable<T>> Unfreezable<Heap<T>> for Vec<U> {
    open spec fn thaws_to(frozen: Vec<Frozen<T>>, thawed: Vec<U>) -> bool {
        thawed_in_order(frozen@, thawed@)
    }

    fn thaw(wrapped: Vec<Frozen<T>>) -> (thawed: Self) {
        thaw_in_order(wrapped)
    }
}

/// Two queues that hold the same elements, each as often, have the same
/// frozen form, whatever the layout of each.
pub proof fn lemma_heap_freeze_normalizes<T: Freezable + Ord>(
    first: Heap<T>,
    second: Heap<T>,
    first_frozen: Vec<Frozen<T>>,
    second_frozen: Vec<Frozen<T>>,
)
    requires
        totally_ordered::<T>(),
        freezes_uniquely::<T>(),
        first@.to_multiset() == second@.to_multiset(),
        first.freezes_to(first_frozen),
        second.freezes_to(second_frozen),
    ensures
        first_frozen@ == second_frozen@,
{
    let leq = |first: T, second: T| at_most(first, second);
    let first_sorted = choose|sorted: Seq<T>| #[trigger]
        normalized(first@, sorted) && frozen_in_order(sorted, first_frozen@);
    let second_sorted = choose|sorted: Seq<T>| #[trigger]
        normalized(second@, sorted) && frozen_in_order(sorted, second_frozen@);
    vstd::seq_lib::lemma_sorted_unique(first_sorted, second_sorted, leq);
    assert forall|i: int| 0 <= i < first_frozen@.len() implies first_frozen@[i]
        == second_frozen@[i] by {
        let item = first_sorted[i];
        assert(item.freezes_to(first_frozen@[i]@));
        assert(second_sorted[i].freezes_to(second_frozen@[i]@));
        assert(first_frozen@[i]@ == second_frozen@[i]@);
    }
    assert(first_frozen@ =~= second_frozen@);
}

/// The integers of every width are totally ordered.
pub proof fn lemma_integers_totally_ordered()
    ensures
        totally_ordered::<i8>(),
        totally_ordered::<i16>(),
        totally_ordered::<i32>(),
        totally_ordered::<i64>(),
        totally_ordered::<i128>(),
        totally_ordered::<isize>(),
        totally_ordered::<u8>(),
        totally_ordered::<u16>(),
        totally_ordered::<u32>(),
        totally_ordered::<u64>(),
        totally_ordered::<u128>(),
        totally_ordered::<usize>(),
{
}

} // verus!
