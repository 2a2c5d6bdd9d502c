//! Freezing and thawing.
//!
//! Freezing consumes an owned value and yields its *frozen form*: a
//! structurally equivalent representation with no cell that allows mutation
//! through a shared alias. Thawing consumes a frozen form and rebuilds an
//! owned value, possibly of another type whose elements line up with it.
//!
//! Both operations are specified by relations. [`Freezable::freezes_to`] says
//! which frozen forms a value may freeze to, and [`Unfreezable::thaws_to`]
//! says which values a frozen form may thaw to. Where a rule is a pure move
//! the relation is an equality; where it recurses into elements it is the
//! element-wise relation; where it reaches storage Verus cannot see
//! into (a cell) it says only what holds of every outcome.
use core::ops::Deref;
use vstd::prelude::*;

pub mod adapters;
pub mod frozen_core;
pub mod frozen_std;
pub mod impls;
pub mod laws;
pub mod operators;
pub mod ordering;

pub use adapters::{FreezableIteratorExt, Freezing, Thawing, UnfreezableIteratorExt};
pub use frozen_core::borrow::FrozenMutRef;
pub use frozen_std::collections::digest::combine;
pub use frozen_std::collections::hash_map::FrozenMap;
pub use frozen_std::collections::hash_set::FrozenSet;
pub use frozen_std::collections::heap::Heap;
pub use laws::RoundTrips;

verus! {

/// A type that has a frozen form.
pub trait FrozenForm {
    /// The frozen form of this type.
    type Frozen;
}

/// A type that can be frozen.
///
/// It is a logic error for a frozen form to have interior mutability.
///
/// An implementation says in `freezes_to` what `freeze` may return, and
/// Verus holds `freeze` to it. Code that is not verified has to give
/// `freezes_to` a body as well; that body is never run.
pub trait Freezable: FrozenForm + Sized {
    /// Whether `frozen` is a frozen form of `self`.
    spec fn freezes_to(self, frozen: Self::Frozen) -> bool;

    /// Freezes this value.
    fn freeze(self) -> (carrier: Frozen<Self>)
        ensures
            self.freezes_to(carrier@),
    ;
}

/// A type that can be rebuilt from the frozen form of `T`.
///
/// One frozen form may thaw to several types, and one type may thaw from
/// several frozen forms. As with [`Freezable`], `thaws_to` says what `thaw`
/// may return.
pub trait Unfreezable<T: Freezable>: Sized {
    /// Whether `thawed` is a value that `frozen` thaws to.
    spec fn thaws_to(frozen: T::Frozen, thawed: Self) -> bool;

    /// Thaws a frozen form.
    fn thaw(wrapped: T::Frozen) -> (thawed: Self)
        ensures
            Self::thaws_to(wrapped, thawed),
    ;
}

/// A frozen `T`: the carrier that [`Freezable::freeze`] returns, holding the
/// frozen form of `T` and nothing else. The frozen form can be read through
/// `Deref` and taken out whole, but not written to.
#[derive(Debug, Ord)]
pub struct Frozen<T: FrozenForm>(T::Frozen);

impl<T: FrozenForm> View for Frozen<T> {
    type V = T::Frozen;

    /// The frozen form that the carrier holds.
    closed spec fn view(&self) -> T::Frozen {
        self.0
    }
}

/// A carrier is its frozen form and nothing else: two carriers that hold the
/// same frozen form are the same.
pub broadcast proof fn lemma_carrier_is_its_frozen_form<T: FrozenForm>(
    first: Frozen<T>,
    second: Frozen<T>,
)
    ensures
        #![trigger first@, second@]
        first@ == second@ ==> first == second,
{
}

impl<T: FrozenForm> Frozen<T> {
    /// Wraps a frozen form in its carrier.
    ///
    /// Needed to implement [`Freezable`] and [`Unfreezable`] for a type;
    /// rarely useful otherwise.
    pub fn new(frozen: T::Frozen) -> (carrier: Self)
        ensures
            carrier@ == frozen,
    {
        Frozen(frozen)
    }

    /// Takes the frozen form out of its carrier.
    pub fn into_inner(self) -> (frozen: T::Frozen)
        ensures
            frozen == self@,
    {
        self.0
    }
}

impl<T: FrozenForm> Deref for Frozen<T> {
    type Target = T::Frozen;

    fn deref(&self) -> (frozen: &T::Frozen)
        ensures
            *frozen == self@,
    {
        &self.0
    }
}

impl<T: Freezable> Frozen<T> {
    /// Thaws the carried frozen form into some compatible `U`: the result is
    /// what `U`'s own `thaw` returned for the frozen form, so whatever that
    /// rule promises beyond `thaws_to` holds of it too.
    pub fn thaw<U>(self) -> (thawed: U) where U: Unfreezable<T>
        ensures
            U::thaws_to(self@, thawed),
            call_ensures(U::thaw, (self@,), thawed),
    {
        U::thaw(self.0)
    }
}

/// Whether thawing a frozen `T` back into `T` always returns the value that
/// was frozen.
pub open spec fn round_trips<T: Freezable + Unfreezable<T>>() -> bool {
    forall|value: T, frozen: T::Frozen, thawed: T|
        #![trigger value.freezes_to(frozen), T::thaws_to(frozen, thawed)]
        value.freezes_to(frozen) && T::thaws_to(frozen, thawed) ==> thawed == value
}

/// Whether every value of `T` has at most one frozen form.
pub open spec fn freezes_uniquely<T: Freezable>() -> bool {
    forall|value: T, first: T::Frozen, second: T::Frozen|
        #![trigger value.freezes_to(first), value.freezes_to(second)]
        value.freezes_to(first) && value.freezes_to(second) ==> first == second
}

/// Whether two different values of `T` never share a frozen form.
pub open spec fn freezes_apart<T: Freezable>() -> bool {
    forall|first: T, second: T, frozen: T::Frozen|
        #![trigger first.freezes_to(frozen), second.freezes_to(frozen)]
        first.freezes_to(frozen) && second.freezes_to(frozen) ==> first == second
}

} // verus!
