//! Options and fixed-size arrays freeze and thaw element by element.
use crate::{
    freezes_apart, freezes_uniquely, round_trips, Freezable, Frozen, FrozenForm, Unfreezable,
};
use vstd::prelude::*;

verus! {

impl<T: Freezable> FrozenForm for Option<T> {
    type Frozen = Option<Frozen<T>>;
}

impl<T: Freezable> Freezable for Option<T> {
    open spec fn freezes_to(self, frozen: Option<Frozen<T>>) -> bool {
        match self {
            Some(value) => frozen is Some && value.freezes_to(frozen.unwrap()@),
            None => frozen is None,
        }
    }

    fn freeze(self) -> (carrier: Frozen<Self>) {
        match self {
            Some(value) => Frozen::new(Some(value.freeze())),
            None => Frozen::new(None),
        }
    }
}

impl<T: Unfreezable<U>, U: Freezable> Unfreezable<Option<U>> for Option<T> {
    open spec fn thaws_to(frozen: Option<Frozen<U>>, thawed: Option<T>) -> bool {
        match frozen {
            Some(carrier) => thawed is Some && T::thaws_to(carrier@, thawed.unwrap()),
            None => thawed is None,
        }
    }

    fn thaw(wrapped: Option<Frozen<U>>) -> (thawed: Self) {
        match wrapped {
            Some(carrier) => Some(carrier.thaw()),
            None => None,
        }
    }
}

impl<T: Freezable, const N: usize> FrozenForm for [T; N] {
    type Frozen = [Frozen<T>; N];
}

impl<T: Freezable, const N: usize> Freezable for [T; N] {
    open spec fn freezes_to(self, frozen: [Frozen<T>; N]) -> bool {
        forall|i: int|
            #![trigger self@[i]]
            #![trigger frozen@[i]]
            0 <= i < N ==> self@[i].freezes_to(frozen@[i]@)
    }

    fn freeze(self) -> (carrier: Frozen<Self>) {
        Frozen::new(freeze_each(self))
    }
}

impl<T: Unfreezable<U>, U: Freezable, const N: usize> Unfreezable<[U; N]> for [T; N] {
    open spec fn thaws_to(frozen: [Frozen<U>; N], thawed: [T; N]) -> bool {
        forall|i: int|
            #![trigger frozen@[i]]
            #![trigger thawed@[i]]
            0 <= i < N ==> T::thaws_to(frozen@[i]@, thawed@[i])
    }

    fn thaw(wrapped: [Frozen<U>; N]) -> (thawed: Self) {
        thaw_each(wrapped)
    }
}

/// `<[T; N]>::map` with [`Freezable::freeze`]: an array of the same size,
/// whose element at each index is what `freeze` returned for the element of
/// `items` at that index.
#[verifier::external_body]
fn freeze_each<T: Freezable, const N: usize>(items: [T; N]) -> (frozen: [Frozen<T>; N])
    ensures
        forall|i: int| 0 <= i < N ==> (#[trigger] items@[i]).freezes_to(frozen@[i]@),
{
    items.map(Freezable::freeze)
}

/// `<[Frozen<U>; N]>::map` with [`Frozen::thaw`]: an array of the same size,
/// whose element at each index is what `thaw` returned for the element of
/// `items` at that index.
#[verifier::external_body]
fn thaw_each<T: Unfreezable<U>, U: Freezable, const N: usize>(
    items: [Frozen<U>; N],
) -> (thawed: [T; N])
    ensures
        forall|i: int| 0 <= i < N ==> T::thaws_to(items@[i]@, #[trigger] thawed@[i]),
{
    items.map(Frozen::thaw)
}

/// An option round-trips when its element does.
pub proof fn lemma_option_round_trips<T: Freezable + Unfreezable<T>>()
    requires
        round_trips::<T>(),
    ensures
        round_trips::<Option<T>>(),
{
}

/// An option has exactly one frozen form, and shares it with no other
/// option, when that holds of its element.
pub proof fn lemma_option_freezes_one_to_one<T: Freezable>()
    requires
        freezes_uniquely::<T>() && freezes_apart::<T>(),
    ensures
        freezes_uniquely::<Option<T>>() && freezes_apart::<Option<T>>(),
{
}

/// An array round-trips when its element does.
pub proof fn lemma_array_round_trips<T: Freezable + Unfreezable<T>, const N: usize>()
    requires
        round_trips::<T>(),
    ensures
        round_trips::<[T; N]>(),
{
    assert forall|value: [T; N], frozen: [Frozen<T>; N], thawed: [T; N]|
        #![trigger value.freezes_to(frozen), <[T; N]>::thaws_to(frozen, thawed)]
        value.freezes_to(frozen) && <[T; N]>::thaws_to(frozen, thawed) implies thawed == value by {
        assert forall|i: int| 0 <= i < N implies thawed@[i] == value@[i] by {
            assert(value@[i].freezes_to(frozen@[i]@));
            assert(T::thaws_to(frozen@[i]@, thawed@[i]));
        }
        assert(thawed@ =~= value@);
    }
}

} // verus!
