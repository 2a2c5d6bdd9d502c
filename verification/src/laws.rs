//! The round trip, for every type that is built from the types that are
//! their own frozen form by tuples, fixed-size arrays and options, nested to
//! any depth.
use crate::frozen_core::identity::lemma_identity_types_round_trip;
use crate::frozen_core::structural::{lemma_array_round_trips, lemma_option_round_trips};
use crate::frozen_core::tuples::{
    lemma_tuple10_round_trips, lemma_tuple11_round_trips, lemma_tuple12_round_trips,
    lemma_tuple1_round_trips, lemma_tuple2_round_trips, lemma_tuple3_round_trips,
    lemma_tuple4_round_trips, lemma_tuple5_round_trips, lemma_tuple6_round_trips,
    lemma_tuple7_round_trips, lemma_tuple8_round_trips, lemma_tuple9_round_trips,
    lemma_unit_round_trips,
};
use crate::frozen_std::string::lemma_string_round_trips;
use crate::{round_trips, Freezable, Unfreezable};
use core::time::Duration;
use vstd::prelude::*;

verus! {

/// A type whose values come back from freezing and thawing as they were.
/// Every type that is its own frozen form has the proof, and every tuple,
/// array and option of types that have it.
pub trait RoundTrips: Freezable + Unfreezable<Self> {
    /// Thawing a frozen value of this type gives the value back.
    proof fn round_trip()
        ensures
            round_trips::<Self>(),
    ;
}

/// Freezing a value and thawing it into its own type gives the value back:
/// every component is where it was, what was absent stays absent and what
/// was present stays present.
pub proof fn lemma_round_trip<V: RoundTrips>(value: V, frozen: V::Frozen, thawed: V)
    requires
        value.freezes_to(frozen),
        V::thaws_to(frozen, thawed),
    ensures
        thawed == value,
{
    V::round_trip();
}

impl RoundTrips for bool {
    proof fn round_trip() {
        lemma_identity_types_round_trip();
    }
}

impl RoundTrips for char {
    proof fn round_trip() {
        lemma_identity_types_round_trip();
    }
}

impl RoundTrips for i8 {
    proof fn round_trip() {
        lemma_identity_types_round_trip();
    }
}

impl RoundTrips for i16 {
    proof fn round_trip() {
        lemma_identity_types_round_trip();
    }
}

impl RoundTrips for i32 {
    proof fn round_trip() {
        lemma_identity_types_round_trip();
    }
}

impl RoundTrips for i64 {
    proof fn round_trip() {
        lemma_identity_types_round_trip();
    }
}

impl RoundTrips for i128 {
    proof fn round_trip() {
        lemma_identity_types_round_trip();
    }
}

impl RoundTrips for isize {
    proof fn round_trip() {
        lemma_identity_types_round_trip();
    }
}

impl RoundTrips for u8 {
    proof fn round_trip() {
        lemma_identity_types_round_trip();
    }
}

impl RoundTrips for u16 {
    proof fn round_trip() {
        lemma_identity_types_round_trip();
    }
}

impl RoundTrips for u32 {
    proof fn round_trip() {
        lemma_identity_types_round_trip();
    }
}

impl RoundTrips for u64 {
    proof fn round_trip() {
        lemma_identity_types_round_trip();
    }
}

impl RoundTrips for u128 {
    proof fn round_trip() {
        lemma_identity_types_round_trip();
    }
}

impl RoundTrips for usize {
    proof fn round_trip() {
        lemma_identity_types_round_trip();
    }
}

impl RoundTrips for Duration {
    proof fn round_trip() {
        lemma_identity_types_round_trip();
    }
}

impl<'a> RoundTrips for &'a str {
    proof fn round_trip() {
        lemma_identity_types_round_trip();
    }
}

impl RoundTrips for String {
    proof fn round_trip() {
        lemma_string_round_trips();
    }
}

impl RoundTrips for () {
    proof fn round_trip() {
        lemma_unit_round_trips();
    }
}

impl<T: RoundTrips> RoundTrips for Option<T> {
    proof fn round_trip() {
        T::round_trip();
        lemma_option_round_trips::<T>();
    }
}

impl<T: RoundTrips, const N: usize> RoundTrips for [T; N] {
    proof fn round_trip() {
        T::round_trip();
        lemma_array_round_trips::<T, N>();
    }
}

impl<A: RoundTrips> RoundTrips for (A,) {
    proof fn round_trip() {
        A::round_trip();
        lemma_tuple1_round_trips::<A>();
    }
}

impl<A: RoundTrips, B: RoundTrips> RoundTrips for (A, B) {
    proof fn round_trip() {
        A::round_trip();
        B::round_trip();
        lemma_tuple2_round_trips::<A, B>();
    }
}

impl<A: RoundTrips, B: RoundTrips, C: RoundTrips> RoundTrips for (A, B, C) {
    proof fn round_trip() {
        A::round_trip();
        B::round_trip();
        C::round_trip();
        lemma_tuple3_round_trips::<A, B, C>();
    }
}

impl<A: RoundTrips, B: RoundTrips, C: RoundTrips, D: RoundTrips> RoundTrips for (A, B, C, D) {
    proof fn round_trip() {
        A::round_trip();
        B::round_trip();
        C::round_trip();
        D::round_trip();
        lemma_tuple4_round_trips::<A, B, C, D>();
    }
}

impl<
    A: RoundTrips,
    B: RoundTrips,
    C: RoundTrips,
    D: RoundTrips,
    E: RoundTrips,
> RoundTrips for (A, B, C, D, E) {
    proof fn round_trip() {
        A::round_trip();
        B::round_trip();
        C::round_trip();
        D::round_trip();
        E::round_trip();
        lemma_tuple5_round_trips::<A, B, C, D, E>();
    }
}

impl<
    A: RoundTrips,
    B: RoundTrips,
    C: RoundTrips,
    D: RoundTrips,
    E: RoundTrips,
    F: RoundTrips,
> RoundTrips for (A, B, C, D, E, F) {
    proof fn round_trip() {
        A::round_trip();
        B::round_trip();
        C::round_trip();
        D::round_trip();
        E::round_trip();
        F::round_trip();
        lemma_tuple6_round_trips::<A, B, C, D, E, F>();
    }
}

impl<
    A: RoundTrips,
    B: RoundTrips,
    C: RoundTrips,
    D: RoundTrips,
    E: RoundTrips,
    F: RoundTrips,
    G: RoundTrips,
> RoundTrips for (A, B, C, D, E, F, G) {
    proof fn round_trip() {
        A::round_trip();
        B::round_trip();
        C::round_trip();
        D::round_trip();
        E::round_trip();
        F::round_trip();
        G::round_trip();
        lemma_tuple7_round_trips::<A, B, C, D, E, F, G>();
    }
}

impl<
    A: RoundTrips,
    B: RoundTrips,
    C: RoundTrips,
    D: RoundTrips,
    E: RoundTrips,
    F: RoundTrips,
    G: RoundTrips,
    H: RoundTrips,
> RoundTrips for (A, B, C, D, E, F, G, H) {
    proof fn round_trip() {
        A::round_trip();
        B::round_trip();
        C::round_trip();
        D::round_trip();
        E::round_trip();
        F::round_trip();
        G::round_trip();
        H::round_trip();
        lemma_tuple8_round_trips::<A, B, C, D, E, F, G, H>();
    }
}

impl<
    A: RoundTrips,
    B: RoundTrips,
    C: RoundTrips,
    D: RoundTrips,
    E: RoundTrips,
    F: RoundTrips,
    G: RoundTrips,
    H: RoundTrips,
    I: RoundTrips,
> RoundTrips for (A, B, C, D, E, F, G, H, I) {
    proof fn round_trip() {
        A::round_trip();
        B::round_trip();
        C::round_trip();
        D::round_trip();
        E::round_trip();
        F::round_trip();
        G::round_trip();
        H::round_trip();
        I::round_trip();
        lemma_tuple9_round_trips::<A, B, C, D, E, F, G, H, I>();
    }
}

impl<
    A: RoundTrips,
    B: RoundTrips,
    C: RoundTrips,
    D: RoundTrips,
    E: RoundTrips,
    F: RoundTrips,
    G: RoundTrips,
    H: RoundTrips,
    I: RoundTrips,
    J: RoundTrips,
> RoundTrips for (A, B, C, D, E, F, G, H, I, J) {
    proof fn round_trip() {
        A::round_trip();
        B::round_trip();
        C::round_trip();
        D::round_trip();
        E::round_trip();
        F::round_trip();
        G::round_trip();
        H::round_trip();
        I::round_trip();
        J::round_trip();
        lemma_tuple10_round_trips::<A, B, C, D, E, F, G, H, I, J>();
    }
}

impl<
    A: RoundTrips,
    B: RoundTrips,
    C: RoundTrips,
    D: RoundTrips,
    E: RoundTrips,
    F: RoundTrips,
    G: RoundTrips,
    H: RoundTrips,
    I: RoundTrips,
    J: RoundTrips,
    K: RoundTrips,
> RoundTrips for (A, B, C, D, E, F, G, H, I, J, K) {
    proof fn round_trip() {
        A::round_trip();
        B::round_trip();
        C::round_trip();
        D::round_trip();
        E::round_trip();
        F::round_trip();
        G::round_trip();
        H::round_trip();
        I::round_trip();
        J::round_trip();
        K::round_trip();
        lemma_tuple11_round_trips::<A, B, C, D, E, F, G, H, I, J, K>();
    }
}

impl<
    A: RoundTrips,
    B: RoundTrips,
    C: RoundTrips,
    D: RoundTrips,
    E: RoundTrips,
    F: RoundTrips,
    G: RoundTrips,
    H: RoundTrips,
    I: RoundTrips,
    J: RoundTrips,
    K: RoundTrips,
    L: RoundTrips,
> RoundTrips for (A, B, C, D, E, F, G, H, I, J, K, L) {
    proof fn round_trip() {
        A::round_trip();
        B::round_trip();
        C::round_trip();
        D::round_trip();
        E::round_trip();
        F::round_trip();
        G::round_trip();
        H::round_trip();
        I::round_trip();
        J::round_trip();
        K::round_trip();
        L::round_trip();
        lemma_tuple12_round_trips::<A, B, C, D, E, F, G, H, I, J, K, L>();
    }
}

} // verus!
