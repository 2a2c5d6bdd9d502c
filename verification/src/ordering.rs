//! Comparing carriers compares their frozen forms.
use crate::{Frozen, FrozenForm};
use core::cmp::Ordering;
use core::ops::Deref;
use vstd::prelude::*;
use vstd::std_specs::cmp::{PartialEqSpec, PartialEqSpecImpl, PartialOrdSpec, PartialOrdSpecImpl};

verus! {

impl<T: FrozenForm> PartialEq for Frozen<T> where T::Frozen: PartialEq {
    fn eq(&self, other: &Self) -> (same: bool) {
        self.deref().eq(other.deref())
    }
}

impl<T: FrozenForm> PartialEqSpecImpl for Frozen<T> where T::Frozen: PartialEq {
    open spec fn obeys_eq_spec() -> bool {
        <T::Frozen>::obeys_eq_spec()
    }

    open spec fn eq_spec(&self, other: &Self) -> bool {
        self@.eq_spec(&other@)
    }
}

impl<T: FrozenForm> Eq for Frozen<T> where T::Frozen: Eq {
}

impl<T: FrozenForm> PartialOrd for Frozen<T> where T::Frozen: PartialOrd {
    fn partial_cmp(&self, other: &Self) -> (order: Option<Ordering>) {
        self.deref().partial_cmp(other.deref())
    }
}

impl<T: FrozenForm> PartialOrdSpecImpl for Frozen<T> where T::Frozen: PartialOrd {
    open spec fn obeys_partial_cmp_spec() -> bool {
        <T::Frozen>::obeys_partial_cmp_spec()
    }

    open spec fn partial_cmp_spec(&self, other: &Self) -> Option<Ordering> {
        self@.partial_cmp_spec(&other@)
    }
}

} // verus!
