//! Freezing and thawing `Box`. Owning indirection does not show in the frozen
//! form: a box freezes to what its content freezes to, and whatever a frozen
//! form thaws to can be thawed into a fresh box.
use crate::{Freezable, Frozen, FrozenForm, Unfreezable};
use vstd::prelude::*;

verus! {

impl<T: Freezable> FrozenForm for Box<T> {
    type Frozen = T::Frozen;
}

impl<T: Freezable> Freezable for Box<T> {
    open spec fn freezes_to(self, frozen: T::Frozen) -> bool {
        (*self).freezes_to(frozen)
    }

    fn freeze(self) -> (carrier: Frozen<Self>) {
        Frozen::new((*self).freeze().into_inner())
    }
}

impl<U: Unfreezable<T>, T: Freezable> Unfreezable<T> for Box<U> {
    open spec fn thaws_to(frozen: T::Frozen, thawed: Box<U>) -> bool {
        U::thaws_to(frozen, *thawed)
    }

    fn thaw(wrapped: T::Frozen) -> (thawed: Self) {
        Box::new(U::thaw(wrapped))
    }
}

/// Freezing a box gives what freezing its content gives.
pub proof fn lemma_box_freezes_as_content<T: Freezable>(content: T, frozen: T::Frozen)
    ensures
        Box::new(content).freezes_to(frozen) <==> content.freezes_to(frozen),
{
}

} // verus!
