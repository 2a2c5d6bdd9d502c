//! Lazy adapters that freeze or thaw the items of an iterator one at a time.
//! Neither buffers: each call of `next` takes at most one item from the
//! source and hands on its frozen form, or what it thaws to.
use crate::{Freezable, Frozen, Unfreezable};
use core::marker::PhantomData;
use vstd::prelude::*;
use vstd::std_specs::iter::{IteratorSpec, IteratorSpecImpl};

verus! {

/// Whether `item` is what freezing makes of what was pulled from a source:
/// nothing of nothing, and of a value one of its frozen forms.
pub open spec fn freezes_pulled<T: Freezable>(pulled: Option<T>, item: Option<Frozen<T>>) -> bool {
    match pulled {
        Some(value) => item is Some && value.freezes_to(item.unwrap()@),
        None => item is None,
    }
}

/// Whether `item` is what thawing makes of what was pulled from a source:
/// nothing of nothing, and of a carrier something that its frozen form thaws
/// to.
pub open spec fn thaws_pulled<T: Freezable, U: Unfreezable<T>>(
    pulled: Option<Frozen<T>>,
    item: Option<U>,
) -> bool {
    match pulled {
        Some(carrier) => item is Some && U::thaws_to(carrier@, item.unwrap()),
        None => item is None,
    }
}

/// An iterator that freezes the items of another.
pub struct Freezing<I> {
    source: I,
}

impl<I> Freezing<I> {
    /// The iterator whose items are frozen.
    pub closed spec fn source(self) -> I {
        self.source
    }
}

impl<I: Iterator> Iterator for Freezing<I> where I::Item: Freezable {
    type Item = Frozen<I::Item>;

    /// Takes the next item of the source, if it has one, and freezes it. The
    /// source is left as that one call of its `next` left it.
    fn next(&mut self) -> (item: Option<Frozen<I::Item>>)
        ensures
            exists|handle: &mut I, pulled: Option<I::Item>|
                #![trigger call_ensures(<I as Iterator>::next, (handle,), pulled)]
                mut_ref_current(handle) == old(self).source()
                    && mut_ref_future(handle) == final(self).source()
                    && call_ensures(<I as Iterator>::next, (handle,), pulled)
                    && freezes_pulled(pulled, item),
            old(self).source().obeys_prophetic_iter_laws() ==> (if old(self).source().remaining().len()
                > 0 {
                &&& item is Some
                &&& old(self).source().remaining()[0].freezes_to(item.unwrap()@)
                &&& final(self).source().remaining() == old(self).source().remaining().drop_first()
            } else {
                &&& item is None
                &&& final(self).source().remaining() == old(self).source().remaining()
            }),
    {
        match self.source.next() {
            Some(value) => Some(value.freeze()),
            None => None,
        }
    }
}

/// What the adapter does is stated on `next`, in terms of its source. It
/// makes no promise of its own about the items to come.
impl<I: Iterator> IteratorSpecImpl for Freezing<I> where I::Item: Freezable {
    open spec fn obeys_prophetic_iter_laws(&self) -> bool {
        false
    }

    open spec fn remaining(&self) -> Seq<Frozen<I::Item>> {
        Seq::empty()
    }

    open spec fn will_return_none(&self) -> bool {
        false
    }

    open spec fn decrease(&self) -> Option<nat> {
        None
    }

    open spec fn initial_value_relation(&self, init: &Self) -> bool {
        true
    }

    open spec fn peek(&self, index: int) -> Option<Frozen<I::Item>> {
        None
    }
}

/// An iterator that thaws the items of another into `U`.
pub struct Thawing<I, T, U> {
    source: I,
    from: PhantomData<T>,
    into: PhantomData<U>,
}

impl<I, T, U> Thawing<I, T, U> {
    /// The iterator whose items are thawed.
    pub closed spec fn source(self) -> I {
        self.source
    }
}

impl<T: Freezable, U: Unfreezable<T>, I: Iterator<Item = Frozen<T>>> Iterator for Thawing<I, T, U> {
    type Item = U;

    /// Takes the next item of the source, if it has one, and thaws it.
    fn next(&mut self) -> (item: Option<U>)
        ensures
            exists|handle: &mut I, pulled: Option<Frozen<T>>|
                #![trigger call_ensures(<I as Iterator>::next, (handle,), pulled)]
                mut_ref_current(handle) == old(self).source()
                    && mut_ref_future(handle) == final(self).source()
                    && call_ensures(<I as Iterator>::next, (handle,), pulled)
                    && thaws_pulled::<T, U>(pulled, item),
            old(self).source().obeys_prophetic_iter_laws() ==> (if old(self).source().remaining().len()
                > 0 {
                &&& item is Some
                &&& U::thaws_to(old(self).source().remaining()[0]@, item.unwrap())
                &&& final(self).source().remaining() == old(self).source().remaining().drop_first()
            } else {
                &&& item is None
                &&& final(self).source().remaining() == old(self).source().remaining()
            }),
    {
        match self.source.next() {
            Some(carrier) => Some(carrier.thaw()),
            None => None,
        }
    }
}

/// What the adapter does is stated on `next`, in terms of its source. It
/// makes no promise of its own about the items to come.
impl<T: Freezable, U: Unfreezable<T>, I: Iterator<Item = Frozen<T>>> IteratorSpecImpl for Thawing<I, T, U> {
    open spec fn obeys_prophetic_iter_laws(&self) -> bool {
        false
    }

    open spec fn remaining(&self) -> Seq<U> {
        Seq::empty()
    }

    open spec fn will_return_none(&self) -> bool {
        false
    }

    open spec fn decrease(&self) -> Option<nat> {
        None
    }

    open spec fn initial_value_relation(&self, init: &Self) -> bool {
        true
    }

    open spec fn peek(&self, index: int) -> Option<U> {
        None
    }
}

/// Freezing on the fly, for every iterator over freezable items.
pub trait FreezableIteratorExt<T: Freezable>: Iterator<Item = T> + Sized {
    /// An iterator over the frozen forms of this iterator's items.
    fn frozen(self) -> (adapter: Freezing<Self>)
        ensures
            adapter.source() == self,
    {
        Freezing { source: self }
    }
}

impl<T: Freezable, I: Iterator<Item = T>> FreezableIteratorExt<T> for I {
}

/// Thawing on the fly, for every iterator over carriers.
pub trait UnfreezableIteratorExt<T: Freezable>: Iterator<Item = Frozen<T>> + Sized {
    /// An iterator over what this iterator's items thaw to.
    fn thawed<U: Unfreezable<T>>(self) -> (adapter: Thawing<Self, T, U>)
        ensures
            adapter.source() == self,
    {
        Thawing { source: self, from: PhantomData, into: PhantomData }
    }
}

impl<T: Freezable, I: Iterator<Item = Frozen<T>>> UnfreezableIteratorExt<T> for I {
}

} // verus!
