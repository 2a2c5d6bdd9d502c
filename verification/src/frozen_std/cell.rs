//! Freezing and thawing `Cell` and `RefCell`. A cell allows mutation through
//! a shared alias, so it cannot stay in a frozen form: freezing takes the
//! cell apart and freezes what it held, and thawing makes a fresh cell.
use crate::{Freezable, Frozen, FrozenForm, Unfreezable};
use core::cell::{Cell, RefCell};
use vstd::prelude::*;

verus! {

/// `Cell`, which Verus sees as a value it cannot look into.
#[verifier::external_type_specification]
#[verifier::external_body]
#[verifier::reject_recursive_types(T)]
pub struct ExCell<T: ?Sized>(Cell<T>);

/// `RefCell`, which Verus sees as a value it cannot look into.
#[verifier::external_type_specification]
#[verifier::external_body]
#[verifier::reject_recursive_types(T)]
pub struct ExRefCell<T: ?Sized>(RefCell<T>);

/// `Cell::new` returns a cell. What a cell holds can change behind a shared
/// borrow, so it is no part of the cell's value here and nothing is claimed
/// of it.
pub assume_specification<T>[ Cell::<T>::new ](value: T) -> (cell: Cell<T>);

/// `Cell::into_inner` returns what the cell held last, of which nothing is
/// claimed.
pub assume_specification<T>[ Cell::<T>::into_inner ](cell: Cell<T>) -> (value: T);

/// `RefCell::new` returns a cell, of whose content nothing is claimed.
pub assume_specification<T>[ RefCell::<T>::new ](value: T) -> (cell: RefCell<T>);

/// `RefCell::into_inner` returns what the cell held last, of which nothing is
/// claimed. It cannot fail: no borrow of a cell outlives the move.
pub assume_specification<T>[ RefCell::<T>::into_inner ](cell: RefCell<T>) -> (value: T);

impl<T: Freezable> FrozenForm for RefCell<T> {
    type Frozen = T::Frozen;
}

impl<T: Freezable> Freezable for RefCell<T> {
    /// The frozen form is a frozen form of what `RefCell::into_inner` took out
    /// of the cell.
    open spec fn freezes_to(self, frozen: T::Frozen) -> bool {
        exists|held: T|
            #[trigger] call_ensures(RefCell::<T>::into_inner, (self,), held) && held.freezes_to(frozen)
    }

    fn freeze(self) -> (carrier: Frozen<Self>) {
        let held = self.into_inner();
        let frozen = held.freeze();
        assert(call_ensures(RefCell::<T>::into_inner, (self,), held) && held.freezes_to(frozen@));
        Frozen::new(frozen.into_inner())
    }
}

impl<T: Freezable, U: Unfreezable<T>> Unfreezable<T> for RefCell<U> {
    /// The cell is what `RefCell::new` made of a value that the frozen form
    /// thaws to.
    open spec fn thaws_to(frozen: T::Frozen, thawed: RefCell<U>) -> bool {
        exists|held: U|
            U::thaws_to(frozen, held) && #[trigger] call_ensures(RefCell::<U>::new, (held,), thawed)
    }

    fn thaw(wrapped: T::Frozen) -> (thawed: Self) {
        let held = U::thaw(wrapped);
        let thawed = RefCell::new(held);
        assert(U::thaws_to(wrapped, held) && call_ensures(RefCell::<U>::new, (held,), thawed));
        thawed
    }
}

impl<T: Freezable> FrozenForm for Cell<T> {
    type Frozen = T::Frozen;
}

impl<T: Freezable> Freezable for Cell<T> {
    /// The frozen form is a frozen form of what `Cell::into_inner` took out
    /// of the cell.
    open spec fn freezes_to(self, frozen: T::Frozen) -> bool {
        exists|held: T|
            #[trigger] call_ensures(Cell::<T>::into_inner, (self,), held) && held.freezes_to(frozen)
    }

    fn freeze(self) -> (carrier: Frozen<Self>) {
        let held = self.into_inner();
        let frozen = held.freeze();
        assert(call_ensures(Cell::<T>::into_inner, (self,), held) && held.freezes_to(frozen@));
        Frozen::new(frozen.into_inner())
    }
}

impl<T: Freezable, U: Unfreezable<T>> Unfreezable<T> for Cell<U> {
    /// The cell is what `Cell::new` made of a value that the frozen form
    /// thaws to.
    open spec fn thaws_to(frozen: T::Frozen, thawed: Cell<U>) -> bool {
        exists|held: U|
            U::thaws_to(frozen, held) && #[trigger] call_ensures(Cell::<U>::new, (held,), thawed)
    }

    fn thaw(wrapped: T::Frozen) -> (thawed: Self) {
        let held = U::thaw(wrapped);
        let thawed = Cell::new(held);
        assert(U::thaws_to(wrapped, held) && call_ensures(Cell::<U>::new, (held,), thawed));
        thawed
    }
}

} // verus!
