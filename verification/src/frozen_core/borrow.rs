//! Freezing an exclusive borrow.
use crate::{Freezable, Frozen, FrozenForm, Unfreezable};
use core::ops::Deref;
use vstd::prelude::*;

verus! {

/// The frozen form of an exclusive borrow: it keeps the borrow, so nobody else
/// can write to the referent while it is frozen, and hands out shared access
/// only.
#[derive(Debug)]
pub struct FrozenMutRef<'a, T: Freezable>(&'a mut T);

impl<'a, T: Freezable> FrozenMutRef<'a, T> {
    /// The borrow that was frozen.
    pub closed spec fn borrow(self) -> &'a mut T {
        self.0
    }
}

impl<'a, T: Freezable> Deref for FrozenMutRef<'a, T> {
    type Target = T;

    fn deref(&self) -> (referent: &T)
        ensures
            *referent == *self.borrow(),
    {
        &*self.0
    }
}

impl<'a, T: Freezable> FrozenForm for &'a mut T {
    type Frozen = FrozenMutRef<'a, T>;
}

impl<'a, T: Freezable> Freezable for &'a mut T {
    /// The frozen form refers to the value that the borrow refers to.
    open spec fn freezes_to(self, frozen: FrozenMutRef<'a, T>) -> bool {
        *frozen.borrow() == *self
    }

    /// The frozen form holds the borrow itself: what is written through it
    /// once thawed is written to the borrowed storage.
    fn freeze(self) -> (carrier: Frozen<Self>)
        ensures
            *final(carrier@.borrow()) == *final(self),
    {
        Frozen::new(FrozenMutRef(self))
    }
}

impl<'a, T: Freezable> Unfreezable<&'a mut T> for &'a mut T {
    open spec fn thaws_to(frozen: FrozenMutRef<'a, T>, thawed: &'a mut T) -> bool {
        *thawed == *frozen.borrow()
    }

    /// Hands the exclusive borrow back.
    fn thaw(wrapped: FrozenMutRef<'a, T>) -> (thawed: Self)
        ensures
            *final(thawed) == *final(wrapped.borrow()),
    {
        wrapped.0
    }
}

impl<'a, T: Freezable> Unfreezable<&'a mut T> for &'a T {
    open spec fn thaws_to(frozen: FrozenMutRef<'a, T>, thawed: &'a T) -> bool {
        *thawed == *frozen.borrow()
    }

    /// Gives up write access for good and keeps a shared borrow.
    fn thaw(wrapped: FrozenMutRef<'a, T>) -> (thawed: Self) {
        wrapped.0
    }
}

} // verus!
