//! What a carrier offers besides read access to the frozen form: the frozen
//! form's own copying, hashing, indexing, printing and default.
use crate::frozen_std::collections::digest::{hash_into, hashed_into};
use crate::{round_trips, Freezable, Frozen, FrozenForm, Unfreezable};
use core::fmt::Display;
use core::hash::{Hash, Hasher};
use core::ops::{Bound, Deref, Index, RangeBounds};
use vstd::prelude::*;

verus! {

impl<T: Freezable> Clone for Frozen<T> where T::Frozen: Clone {
    fn clone(&self) -> (copy: Self)
        ensures
            cloned(self@, copy@),
    {
        Frozen::new(self.deref().clone())
    }
}

impl<T: Freezable> Copy for Frozen<T> where T::Frozen: Copy {
}

impl<T: Freezable> Hash for Frozen<T> where T::Frozen: Hash {
    /// Hashes the frozen form into `state`, as the frozen form hashes itself.
    fn hash<H: Hasher>(&self, state: &mut H)
        ensures
            exists|handle: &mut H|
                mut_ref_current(handle) == *old(state) && mut_ref_future(handle) == *final(state)
                    && #[trigger] hashed_into(&self@, handle),
    {
        hash_into(self.deref(), state);
    }
}

impl<T: Freezable, U> Index<U> for Frozen<T> where T::Frozen: Index<U> {
    type Output = <T::Frozen as Index<U>>::Output;

    /// What indexing the frozen form gives.
    fn index(&self, index: U) -> (out: &Self::Output)
        ensures
            call_ensures(<T::Frozen as Index<U>>::index, (&self@, index), out),
    {
        self.deref().index(index)
    }
}

impl<T: Freezable, U> vstd::std_specs::core::IndexSpecImpl<U> for Frozen<T> where T::Frozen: Index<U> {
    open spec fn index_req(&self, index: &U) -> bool {
        vstd::std_specs::core::IndexSpec::index_req(&self@, index)
    }
}

impl<T: Freezable + Default> Default for Frozen<T> {
    /// The frozen form of the default of `T`.
    fn default() -> (carrier: Self)
        ensures
            exists|value: T|
                call_ensures(T::default, (), value) && #[trigger] value.freezes_to(carrier@),
    {
        let value = T::default();
        let carrier = value.freeze();
        assert(call_ensures(T::default, (), value) && value.freezes_to(carrier@));
        carrier
    }
}

impl<T: Freezable> Frozen<T> {
    /// The frozen form as text: what `to_string` of the frozen form gives.
    pub fn to_string(&self) -> (text: String) where T::Frozen: Display
        ensures
            vstd::string::to_string_from_display_ensures::<T::Frozen>(&self@, text),
    {
        self.deref().to_string()
    }
}

impl<T: Freezable, U> AsRef<U> for Frozen<T> where T::Frozen: AsRef<U> {
    /// What `as_ref` of the frozen form gives.
    fn as_ref(&self) -> (out: &U)
        ensures
            borrows_as(&self@, out),
    {
        borrow_as(self.deref())
    }
}

impl<T: Freezable, U> RangeBounds<U> for Frozen<T> where T::Frozen: RangeBounds<U> {
    /// Where the frozen form starts.
    fn start_bound(&self) -> (bound: Bound<&U>)
        ensures
            starts_at(&self@, bound),
    {
        start_of(self.deref())
    }

    /// Where the frozen form ends.
    fn end_bound(&self) -> (bound: Bound<&U>)
        ensures
            ends_at(&self@, bound),
    {
        end_of(self.deref())
    }
}

/// Whether `out` is what `frozen` handed out when it was asked for a borrow
/// of a `U`.
pub closed spec fn borrows_as<F: AsRef<U>, U>(frozen: &F, out: &U) -> bool {
    call_ensures(borrow_as::<F, U>, (frozen,), out)
}

/// Whether `bound` is what `frozen` gave as its start when it was asked.
pub closed spec fn starts_at<F: RangeBounds<U>, U>(frozen: &F, bound: Bound<&U>) -> bool {
    call_ensures(start_of::<F, U>, (frozen,), bound)
}

/// Whether `bound` is what `frozen` gave as its end when it was asked.
pub closed spec fn ends_at<F: RangeBounds<U>, U>(frozen: &F, bound: Bound<&U>) -> bool {
    call_ensures(end_of::<F, U>, (frozen,), bound)
}

/// `Bound`, the end of a range: at a value, before one, or nowhere.
#[verifier::external_type_specification]
pub struct ExBound<T>(Bound<T>);

/// `AsRef::as_ref` of the frozen form. What it borrows is up to the frozen
/// form's type.
#[verifier::external_body]
fn borrow_as<F: AsRef<U>, U>(frozen: &F) -> &U {
    frozen.as_ref()
}

/// `RangeBounds::start_bound` of the frozen form.
#[verifier::external_body]
fn start_of<F: RangeBounds<U>, U>(frozen: &F) -> Bound<&U> {
    frozen.start_bound()
}

/// `RangeBounds::end_bound` of the frozen form.
#[verifier::external_body]
fn end_of<F: RangeBounds<U>, U>(frozen: &F) -> Bound<&U> {
    frozen.end_bound()
}

impl<T: Freezable> FrozenForm for Frozen<T> {
    type Frozen = T::Frozen;
}

/// A carrier is its own frozen: freezing it again hands on the frozen form
/// it holds.
impl<T: Freezable> Freezable for Frozen<T> {
    open spec fn freezes_to(self, frozen: T::Frozen) -> bool {
        frozen == self@
    }

    fn freeze(self) -> (carrier: Frozen<Self>) {
        Frozen::new(self.into_inner())
    }
}

impl<T: Freezable> Unfreezable<Frozen<T>> for Frozen<T> {
    open spec fn thaws_to(frozen: T::Frozen, thawed: Frozen<T>) -> bool {
        thawed@ == frozen
    }

    fn thaw(wrapped: T::Frozen) -> (thawed: Self) {
        Frozen::new(wrapped)
    }
}

/// Freezing a carrier and thawing the result as a carrier gives back a
/// carrier equal to the first.
pub proof fn lemma_refreeze_is_idempotent<T: Freezable>()
    ensures
        round_trips::<Frozen<T>>(),
{
}

} // verus!
