//! Owned text is its own frozen form.
use crate::{round_trips, Freezable, Frozen, FrozenForm, Unfreezable};
use vstd::prelude::*;

verus! {

impl FrozenForm for String {
    type Frozen = String;
}

impl Freezable for String {
    open spec fn freezes_to(self, frozen: String) -> bool {
        frozen == self
    }

    fn freeze(self) -> (carrier: Frozen<Self>) {
        Frozen::new(self)
    }
}

impl Unfreezable<String> for String {
    open spec fn thaws_to(frozen: String, thawed: String) -> bool {
        thawed == frozen
    }

    fn thaw(wrapped: String) -> (thawed: Self) {
        wrapped
    }
}

/// Freezing owned text and thawing it again gives back the same text.
pub proof fn lemma_string_round_trips()
    ensures
        round_trips::<String>(),
{
}

} // verus!
