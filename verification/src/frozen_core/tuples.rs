//! Tuples freeze and thaw component by component, each in its place.
use crate::{
    freezes_apart, freezes_uniquely, round_trips, Freezable, Frozen, FrozenForm, Unfreezable,
};
use vstd::prelude::*;

verus! {

impl FrozenForm for () {
    type Frozen = ();
}

impl Freezable for () {
    open spec fn freezes_to(self, frozen: ()) -> bool {
        true
    }

    fn freeze(self) -> (carrier: Frozen<Self>) {
        Frozen::new(())
    }
}

impl Unfreezable<()> for () {
    open spec fn thaws_to(frozen: (), thawed: ()) -> bool {
        true
    }

    fn thaw(wrapped: ()) -> (thawed: Self) {
        ()
    }
}

/// The empty tuple freezes and thaws to itself.
pub proof fn lemma_unit_round_trips()
    ensures
        round_trips::<()>(),
{
}

impl<A: Freezable> FrozenForm for (A,) {
    type Frozen = (Frozen<A>,);
}

impl<A: Freezable> Freezable for (A,) {
    open spec fn freezes_to(self, frozen: Self::Frozen) -> bool {
        self.0.freezes_to(frozen.0@)
    }

    fn freeze(self) -> (carrier: Frozen<Self>) {
        let (a,) = self;
        Frozen::new((a.freeze(),))
    }
}

impl<A: Freezable + Unfreezable<A>> Unfreezable<(A,)> for (A,) {
    open spec fn thaws_to(frozen: (Frozen<A>,), thawed: (A,)) -> bool {
        A::thaws_to(frozen.0@, thawed.0)
    }

    fn thaw(wrapped: (Frozen<A>,)) -> (thawed: Self) {
        let (a,) = wrapped;
        (a.thaw(),)
    }
}

/// A tuple of one component round-trips when its component does.
pub proof fn lemma_tuple1_round_trips<A: Freezable + Unfreezable<A>>()
    requires
        round_trips::<A>(),
    ensures
        round_trips::<(A,)>(),
{
}

/// A tuple of one component has exactly one frozen form, and shares it with
/// no other tuple, when that holds of its component.
pub proof fn lemma_tuple1_freezes_one_to_one<A: Freezable>()
    requires
        freezes_uniquely::<A>() && freezes_apart::<A>(),
    ensures
        freezes_uniquely::<(A,)>() && freezes_apart::<(A,)>(),
{
}

impl<A: Freezable, B: Freezable> FrozenForm for (A, B) {
    type Frozen = (Frozen<A>, Frozen<B>);
}

impl<A: Freezable, B: Freezable> Freezable for (A, B) {
    open spec fn freezes_to(self, frozen: Self::Frozen) -> bool {
        &&& self.0.freezes_to(frozen.0@)
        &&& self.1.freezes_to(frozen.1@)
    }

    fn freeze(self) -> (carrier: Frozen<Self>) {
        let (a, b) = self;
        Frozen::new((a.freeze(), b.freeze()))
    }
}

impl<A: Freezable + Unfreezable<A>, B: Freezable + Unfreezable<B>> Unfreezable<(A, B)> for (A, B) {
    open spec fn thaws_to(frozen: (Frozen<A>, Frozen<B>), thawed: (A, B)) -> bool {
        &&& A::thaws_to(frozen.0@, thawed.0)
        &&& B::thaws_to(frozen.1@, thawed.1)
    }

    fn thaw(wrapped: (Frozen<A>, Frozen<B>)) -> (thawed: Self) {
        let (a, b) = wrapped;
        (a.thaw(), b.thaw())
    }
}

/// A tuple of 2 components round-trips when each component does.
pub proof fn lemma_tuple2_round_trips<
    A: Freezable + Unfreezable<A>,
    B: Freezable + Unfreezable<B>,
>()
    requires
        round_trips::<A>(),
        round_trips::<B>(),
    ensures
        round_trips::<(A, B)>(),
{
}

/// A tuple of 2 components has exactly one frozen form, and shares it with
/// no other tuple, when that holds of each component.
pub proof fn lemma_tuple2_freezes_one_to_one<A: Freezable, B: Freezable>()
    requires
        freezes_uniquely::<A>() && freezes_apart::<A>(),
        freezes_uniquely::<B>() && freezes_apart::<B>(),
    ensures
        freezes_uniquely::<(A, B)>() && freezes_apart::<(A, B)>(),
{
}

impl<A: Freezable, B: Freezable, C: Freezable> FrozenForm for (A, B, C) {
    type Frozen = (Frozen<A>, Frozen<B>, Frozen<C>);
}

impl<A: Freezable, B: Freezable, C: Freezable> Freezable for (A, B, C) {
    open spec fn freezes_to(self, frozen: Self::Frozen) -> bool {
        &&& self.0.freezes_to(frozen.0@)
        &&& self.1.freezes_to(frozen.1@)
        &&& self.2.freezes_to(frozen.2@)
    }

    fn freeze(self) -> (carrier: Frozen<Self>) {
        let (a, b, c) = self;
        Frozen::new((a.freeze(), b.freeze(), c.freeze()))
    }
}

impl<
    A: Freezable + Unfreezable<A>,
    B: Freezable + Unfreezable<B>,
    C: Freezable + Unfreezable<C>,
> Unfreezable<(A, B, C)> for (A, B, C) {
    open spec fn thaws_to(frozen: (Frozen<A>, Frozen<B>, Frozen<C>), thawed: (A, B, C)) -> bool {
        &&& A::thaws_to(frozen.0@, thawed.0)
        &&& B::thaws_to(frozen.1@, thawed.1)
        &&& C::thaws_to(frozen.2@, thawed.2)
    }

    fn thaw(wrapped: (Frozen<A>, Frozen<B>, Frozen<C>)) -> (thawed: Self) {
        let (a, b, c) = wrapped;
        (a.thaw(), b.thaw(), c.thaw())
    }
}

/// A tuple of 3 components round-trips when each component does.
pub proof fn lemma_tuple3_round_trips<
    A: Freezable + Unfreezable<A>,
    B: Freezable + Unfreezable<B>,
    C: Freezable + Unfreezable<C>,
>()
    requires
        round_trips::<A>(),
        round_trips::<B>(),
        round_trips::<C>(),
    ensures
        round_trips::<(A, B, C)>(),
{
}

/// A tuple of 3 components has exactly one frozen form, and shares it with
/// no other tuple, when that holds of each component.
pub proof fn lemma_tuple3_freezes_one_to_one<A: Freezable, B: Freezable, C: Freezable>()
    requires
        freezes_uniquely::<A>() && freezes_apart::<A>(),
        freezes_uniquely::<B>() && freezes_apart::<B>(),
        freezes_uniquely::<C>() && freezes_apart::<C>(),
    ensures
        freezes_uniquely::<(A, B, C)>() && freezes_apart::<(A, B, C)>(),
{
}

impl<A: Freezable, B: Freezable, C: Freezable, D: Freezable> FrozenForm for (A, B, C, D) {
    type Frozen = (Frozen<A>, Frozen<B>, Frozen<C>, Frozen<D>);
}

impl<A: Freezable, B: Freezable, C: Freezable, D: Freezable> Freezable for (A, B, C, D) {
    open spec fn freezes_to(self, frozen: Self::Frozen) -> bool {
        &&& self.0.freezes_to(frozen.0@)
        &&& self.1.freezes_to(frozen.1@)
        &&& self.2.freezes_to(frozen.2@)
        &&& self.3.freezes_to(frozen.3@)
    }

    fn freeze(self) -> (carrier: Frozen<Self>) {
        let (a, b, c, d) = self;
        Frozen::new((a.freeze(), b.freeze(), c.freeze(), d.freeze()))
    }
}

impl<
    A: Freezable + Unfreezable<A>,
    B: Freezable + Unfreezable<B>,
    C: Freezable + Unfreezable<C>,
    D: Freezable + Unfreezable<D>,
> Unfreezable<(A, B, C, D)> for (A, B, C, D) {
    open spec fn thaws_to(
        frozen: (Frozen<A>, Frozen<B>, Frozen<C>, Frozen<D>),
        thawed: (A, B, C, D),
    ) -> bool {
        &&& A::thaws_to(frozen.0@, thawed.0)
        &&& B::thaws_to(frozen.1@, thawed.1)
        &&& C::thaws_to(frozen.2@, thawed.2)
        &&& D::thaws_to(frozen.3@, thawed.3)
    }

    fn thaw(wrapped: (Frozen<A>, Frozen<B>, Frozen<C>, Frozen<D>)) -> (thawed: Self) {
        let (a, b, c, d) = wrapped;
        (a.thaw(), b.thaw(), c.thaw(), d.thaw())
    }
}

/// A tuple of 4 components round-trips when each component does.
pub proof fn lemma_tuple4_round_trips<
    A: Freezable + Unfreezable<A>,
    B: Freezable + Unfreezable<B>,
    C: Freezable + Unfreezable<C>,
    D: Freezable + Unfreezable<D>,
>()
    requires
        round_trips::<A>(),
        round_trips::<B>(),
        round_trips::<C>(),
        round_trips::<D>(),
    ensures
        round_trips::<(A, B, C, D)>(),
{
}

/// A tuple of 4 components has exactly one frozen form, and shares it with
/// no other tuple, when that holds of each component.
pub proof fn lemma_tuple4_freezes_one_to_one<
    A: Freezable,
    B: Freezable,
    C: Freezable,
    D: Freezable,
>()
    requires
        freezes_uniquely::<A>() && freezes_apart::<A>(),
        freezes_uniquely::<B>() && freezes_apart::<B>(),
        freezes_uniquely::<C>() && freezes_apart::<C>(),
        freezes_uniquely::<D>() && freezes_apart::<D>(),
    ensures
        freezes_uniquely::<(A, B, C, D)>() && freezes_apart::<(A, B, C, D)>(),
{
}

impl<
    A: Freezable,
    B: Freezable,
    C: Freezable,
    D: Freezable,
    E: Freezable,
> FrozenForm for (A, B, C, D, E) {
    type Frozen = (Frozen<A>, Frozen<B>, Frozen<C>, Frozen<D>, Frozen<E>);
}

impl<
    A: Freezable,
    B: Freezable,
    C: Freezable,
    D: Freezable,
    E: Freezable,
> Freezable for (A, B, C, D, E) {
    open spec fn freezes_to(self, frozen: Self::Frozen) -> bool {
        &&& self.0.freezes_to(frozen.0@)
        &&& self.1.freezes_to(frozen.1@)
        &&& self.2.freezes_to(frozen.2@)
        &&& self.3.freezes_to(frozen.3@)
        &&& self.4.freezes_to(frozen.4@)
    }

    fn freeze(self) -> (carrier: Frozen<Self>) {
        let (a, b, c, d, e) = self;
        Frozen::new((a.freeze(), b.freeze(), c.freeze(), d.freeze(), e.freeze()))
    }
}

impl<
    A: Freezable + Unfreezable<A>,
    B: Freezable + Unfreezable<B>,
    C: Freezable + Unfreezable<C>,
    D: Freezable + Unfreezable<D>,
    E: Freezable + Unfreezable<E>,
> Unfreezable<(A, B, C, D, E)> for (A, B, C, D, E) {
    open spec fn thaws_to(
        frozen: (Frozen<A>, Frozen<B>, Frozen<C>, Frozen<D>, Frozen<E>),
        thawed: (A, B, C, D, E),
    ) -> bool {
        &&& A::thaws_to(frozen.0@, thawed.0)
        &&& B::thaws_to(frozen.1@, thawed.1)
        &&& C::thaws_to(frozen.2@, thawed.2)
        &&& D::thaws_to(frozen.3@, thawed.3)
        &&& E::thaws_to(frozen.4@, thawed.4)
    }

    fn thaw(wrapped: (Frozen<A>, Frozen<B>, Frozen<C>, Frozen<D>, Frozen<E>)) -> (thawed: Self) {
        let (a, b, c, d, e) = wrapped;
        (a.thaw(), b.thaw(), c.thaw(), d.thaw(), e.thaw())
    }
}

/// A tuple of 5 components round-trips when each component does.
pub proof fn lemma_tuple5_round_trips<
    A: Freezable + Unfreezable<A>,
    B: Freezable + Unfreezable<B>,
    C: Freezable + Unfreezable<C>,
    D: Freezable + Unfreezable<D>,
    E: Freezable + Unfreezable<E>,
>()
    requires
        round_trips::<A>(),
        round_trips::<B>(),
        round_trips::<C>(),
        round_trips::<D>(),
        round_trips::<E>(),
    ensures
        round_trips::<(A, B, C, D, E)>(),
{
}

/// A tuple of 5 components has exactly one frozen form, and shares it with
/// no other tuple, when that holds of each component.
pub proof fn lemma_tuple5_freezes_one_to_one<
    A: Freezable,
    B: Freezable,
    C: Freezable,
    D: Freezable,
    E: Freezable,
>()
    requires
        freezes_uniquely::<A>() && freezes_apart::<A>(),
        freezes_uniquely::<B>() && freezes_apart::<B>(),
        freezes_uniquely::<C>() && freezes_apart::<C>(),
        freezes_uniquely::<D>() && freezes_apart::<D>(),
        freezes_uniquely::<E>() && freezes_apart::<E>(),
    ensures
        freezes_uniquely::<(A, B, C, D, E)>() && freezes_apart::<(A, B, C, D, E)>(),
{
}

impl<
    A: Freezable,
    B: Freezable,
    C: Freezable,
    D: Freezable,
    E: Freezable,
    F: Freezable,
> FrozenForm for (A, B, C, D, E, F) {
    type Frozen = (Frozen<A>, Frozen<B>, Frozen<C>, Frozen<D>, Frozen<E>, Frozen<F>);
}

impl<
    A: Freezable,
    B: Freezable,
    C: Freezable,
    D: Freezable,
    E: Freezable,
    F: Freezable,
> Freezable for (A, B, C, D, E, F) {
    open spec fn freezes_to(self, frozen: Self::Frozen) -> bool {
        &&& self.0.freezes_to(frozen.0@)
        &&& self.1.freezes_to(frozen.1@)
        &&& self.2.freezes_to(frozen.2@)
        &&& self.3.freezes_to(frozen.3@)
        &&& self.4.freezes_to(frozen.4@)
        &&& self.5.freezes_to(frozen.5@)
    }

    fn freeze(self) -> (carrier: Frozen<Self>) {
        let (a, b, c, d, e, f) = self;
        Frozen::new((a.freeze(), b.freeze(), c.freeze(), d.freeze(), e.freeze(), f.freeze()))
    }
}

impl<
    A: Freezable + Unfreezable<A>,
    B: Freezable + Unfreezable<B>,
    C: Freezable + Unfreezable<C>,
    D: Freezable + Unfreezable<D>,
    E: Freezable + Unfreezable<E>,
    F: Freezable + Unfreezable<F>,
> Unfreezable<(A, B, C, D, E, F)> for (A, B, C, D, E, F) {
    open spec fn thaws_to(
        frozen: (Frozen<A>, Frozen<B>, Frozen<C>, Frozen<D>, Frozen<E>, Frozen<F>),
        thawed: (A, B, C, D, E, F),
    ) -> bool {
        &&& A::thaws_to(frozen.0@, thawed.0)
        &&& B::thaws_to(frozen.1@, thawed.1)
        &&& C::thaws_to(frozen.2@, thawed.2)
        &&& D::thaws_to(frozen.3@, thawed.3)
        &&& E::thaws_to(frozen.4@, thawed.4)
        &&& F::thaws_to(frozen.5@, thawed.5)
    }

    fn thaw(
        wrapped: (Frozen<A>, Frozen<B>, Frozen<C>, Frozen<D>, Frozen<E>, Frozen<F>),
    ) -> (thawed: Self) {
        let (a, b, c, d, e, f) = wrapped;
        (a.thaw(), b.thaw(), c.thaw(), d.thaw(), e.thaw(), f.thaw())
    }
}

/// A tuple of 6 components round-trips when each component does.
pub proof fn lemma_tuple6_round_trips<
    A: Freezable + Unfreezable<A>,
    B: Freezable + Unfreezable<B>,
    C: Freezable + Unfreezable<C>,
    D: Freezable + Unfreezable<D>,
    E: Freezable + Unfreezable<E>,
    F: Freezable + Unfreezable<F>,
>()
    requires
        round_trips::<A>(),
        round_trips::<B>(),
        round_trips::<C>(),
        round_trips::<D>(),
        round_trips::<E>(),
        round_trips::<F>(),
    ensures
        round_trips::<(A, B, C, D, E, F)>(),
{
}

/// A tuple of 6 components has exactly one frozen form, and shares it with
/// no other tuple, when that holds of each component.
pub proof fn lemma_tuple6_freezes_one_to_one<
    A: Freezable,
    B: Freezable,
    C: Freezable,
    D: Freezable,
    E: Freezable,
    F: Freezable,
>()
    requires
        freezes_uniquely::<A>() && freezes_apart::<A>(),
        freezes_uniquely::<B>() && freezes_apart::<B>(),
        freezes_uniquely::<C>() && freezes_apart::<C>(),
        freezes_uniquely::<D>() && freezes_apart::<D>(),
        freezes_uniquely::<E>() && freezes_apart::<E>(),
        freezes_uniquely::<F>() && freezes_apart::<F>(),
    ensures
        freezes_uniquely::<(A, B, C, D, E, F)>() && freezes_apart::<(A, B, C, D, E, F)>(),
{
}

impl<
    A: Freezable,
    B: Freezable,
    C: Freezable,
    D: Freezable,
    E: Freezable,
    F: Freezable,
    G: Freezable,
> FrozenForm for (A, B, C, D, E, F, G) {
    type Frozen = (Frozen<A>, Frozen<B>, Frozen<C>, Frozen<D>, Frozen<E>, Frozen<F>, Frozen<G>);
}

impl<
    A: Freezable,
    B: Freezable,
    C: Freezable,
    D: Freezable,
    E: Freezable,
    F: Freezable,
    G: Freezable,
> Freezable for (A, B, C, D, E, F, G) {
    open spec fn freezes_to(self, frozen: Self::Frozen) -> bool {
        &&& self.0.freezes_to(frozen.0@)
        &&& self.1.freezes_to(frozen.1@)
        &&& self.2.freezes_to(frozen.2@)
        &&& self.3.freezes_to(frozen.3@)
        &&& self.4.freezes_to(frozen.4@)
        &&& self.5.freezes_to(frozen.5@)
        &&& self.6.freezes_to(frozen.6@)
    }

    fn freeze(self) -> (carrier: Frozen<Self>) {
        let (a, b, c, d, e, f, g) = self;
        Frozen::new((
            a.freeze(),
            b.freeze(),
            c.freeze(),
            d.freeze(),
            e.freeze(),
            f.freeze(),
            g.freeze(),
        ))
    }
}

impl<
    A: Freezable + Unfreezable<A>,
    B: Freezable + Unfreezable<B>,
    C: Freezable + Unfreezable<C>,
    D: Freezable + Unfreezable<D>,
    E: Freezable + Unfreezable<E>,
    F: Freezable + Unfreezable<F>,
    G: Freezable + Unfreezable<G>,
> Unfreezable<(A, B, C, D, E, F, G)> for (A, B, C, D, E, F, G) {
    open spec fn thaws_to(
        frozen: (Frozen<A>, Frozen<B>, Frozen<C>, Frozen<D>, Frozen<E>, Frozen<F>, Frozen<G>),
        thawed: (A, B, C, D, E, F, G),
    ) -> bool {
        &&& A::thaws_to(frozen.0@, thawed.0)
        &&& B::thaws_to(frozen.1@, thawed.1)
        &&& C::thaws_to(frozen.2@, thawed.2)
        &&& D::thaws_to(frozen.3@, thawed.3)
        &&& E::thaws_to(frozen.4@, thawed.4)
        &&& F::thaws_to(frozen.5@, thawed.5)
        &&& G::thaws_to(frozen.6@, thawed.6)
    }

    fn thaw(
        wrapped: (Frozen<A>, Frozen<B>, Frozen<C>, Frozen<D>, Frozen<E>, Frozen<F>, Frozen<G>),
    ) -> (thawed: Self) {
        let (a, b, c, d, e, f, g) = wrapped;
        (a.thaw(), b.thaw(), c.thaw(), d.thaw(), e.thaw(), f.thaw(), g.thaw())
    }
}

/// A tuple of 7 components round-trips when each component does.
pub proof fn lemma_tuple7_round_trips<
    A: Freezable + Unfreezable<A>,
    B: Freezable + Unfreezable<B>,
    C: Freezable + Unfreezable<C>,
    D: Freezable + Unfreezable<D>,
    E: Freezable + Unfreezable<E>,
    F: Freezable + Unfreezable<F>,
    G: Freezable + Unfreezable<G>,
>()
    requires
        round_trips::<A>(),
        round_trips::<B>(),
        round_trips::<C>(),
        round_trips::<D>(),
        round_trips::<E>(),
        round_trips::<F>(),
        round_trips::<G>(),
    ensures
        round_trips::<(A, B, C, D, E, F, G)>(),
{
}

/// A tuple of 7 components has exactly one frozen form, and shares it with
/// no other tuple, when that holds of each component.
pub proof fn lemma_tuple7_freezes_one_to_one<
    A: Freezable,
    B: Freezable,
    C: Freezable,
    D: Freezable,
    E: Freezable,
    F: Freezable,
    G: Freezable,
>()
    requires
        freezes_uniquely::<A>() && freezes_apart::<A>(),
        freezes_uniquely::<B>() && freezes_apart::<B>(),
        freezes_uniquely::<C>() && freezes_apart::<C>(),
        freezes_uniquely::<D>() && freezes_apart::<D>(),
        freezes_uniquely::<E>() && freezes_apart::<E>(),
        freezes_uniquely::<F>() && freezes_apart::<F>(),
        freezes_uniquely::<G>() && freezes_apart::<G>(),
    ensures
        freezes_uniquely::<(A, B, C, D, E, F, G)>() && freezes_apart::<(A, B, C, D, E, F, G)>(),
{
}

impl<
    A: Freezable,
    B: Freezable,
    C: Freezable,
    D: Freezable,
    E: Freezable,
    F: Freezable,
    G: Freezable,
    H: Freezable,
> FrozenForm for (A, B, C, D, E, F, G, H) {
    type Frozen = (
        Frozen<A>,
        Frozen<B>,
        Frozen<C>,
        Frozen<D>,
        Frozen<E>,
        Frozen<F>,
        Frozen<G>,
        Frozen<H>,
    );
}

impl<
    A: Freezable,
    B: Freezable,
    C: Freezable,
    D: Freezable,
    E: Freezable,
    F: Freezable,
    G: Freezable,
    H: Freezable,
> Freezable for (A, B, C, D, E, F, G, H) {
    open spec fn freezes_to(self, frozen: Self::Frozen) -> bool {
        &&& self.0.freezes_to(frozen.0@)
        &&& self.1.freezes_to(frozen.1@)
        &&& self.2.freezes_to(frozen.2@)
        &&& self.3.freezes_to(frozen.3@)
        &&& self.4.freezes_to(frozen.4@)
        &&& self.5.freezes_to(frozen.5@)
        &&& self.6.freezes_to(frozen.6@)
        &&& self.7.freezes_to(frozen.7@)
    }

    fn freeze(self) -> (carrier: Frozen<Self>) {
        let (a, b, c, d, e, f, g, h) = self;
        Frozen::new((
            a.freeze(),
            b.freeze(),
            c.freeze(),
            d.freeze(),
            e.freeze(),
            f.freeze(),
            g.freeze(),
            h.freeze(),
        ))
    }
}

impl<
    A: Freezable + Unfreezable<A>,
    B: Freezable + Unfreezable<B>,
    C: Freezable + Unfreezable<C>,
    D: Freezable + Unfreezable<D>,
    E: Freezable + Unfreezable<E>,
    F: Freezable + Unfreezable<F>,
    G: Freezable + Unfreezable<G>,
    H: Freezable + Unfreezable<H>,
> Unfreezable<(A, B, C, D, E, F, G, H)> for (A, B, C, D, E, F, G, H) {
    open spec fn thaws_to(
        frozen: (Frozen<A>, Frozen<B>, Frozen<C>, Frozen<D>, Frozen<E>, Frozen<F>, Frozen<G>, Frozen<H>),
        thawed: (A, B, C, D, E, F, G, H),
    ) -> bool {
        &&& A::thaws_to(frozen.0@, thawed.0)
        &&& B::thaws_to(frozen.1@, thawed.1)
        &&& C::thaws_to(frozen.2@, thawed.2)
        &&& D::thaws_to(frozen.3@, thawed.3)
        &&& E::thaws_to(frozen.4@, thawed.4)
        &&& F::thaws_to(frozen.5@, thawed.5)
        &&& G::thaws_to(frozen.6@, thawed.6)
        &&& H::thaws_to(frozen.7@, thawed.7)
    }

    fn thaw(
        wrapped: (Frozen<A>, Frozen<B>, Frozen<C>, Frozen<D>, Frozen<E>, Frozen<F>, Frozen<G>, Frozen<H>),
    ) -> (thawed: Self) {
        let (a, b, c, d, e, f, g, h) = wrapped;
        (a.thaw(), b.thaw(), c.thaw(), d.thaw(), e.thaw(), f.thaw(), g.thaw(), h.thaw())
    }
}

/// A tuple of 8 components round-trips when each component does.
pub proof fn lemma_tuple8_round_trips<
    A: Freezable + Unfreezable<A>,
    B: Freezable + Unfreezable<B>,
    C: Freezable + Unfreezable<C>,
    D: Freezable + Unfreezable<D>,
    E: Freezable + Unfreezable<E>,
    F: Freezable + Unfreezable<F>,
    G: Freezable + Unfreezable<G>,
    H: Freezable + Unfreezable<H>,
>()
    requires
        round_trips::<A>(),
        round_trips::<B>(),
        round_trips::<C>(),
        round_trips::<D>(),
        round_trips::<E>(),
        round_trips::<F>(),
        round_trips::<G>(),
        round_trips::<H>(),
    ensures
        round_trips::<(A, B, C, D, E, F, G, H)>(),
{
}

/// A tuple of 8 components has exactly one frozen form, and shares it with
/// no other tuple, when that holds of each component.
pub proof fn lemma_tuple8_freezes_one_to_one<
    A: Freezable,
    B: Freezable,
    C: Freezable,
    D: Freezable,
    E: Freezable,
    F: Freezable,
    G: Freezable,
    H: Freezable,
>()
    requires
        freezes_uniquely::<A>() && freezes_apart::<A>(),
        freezes_uniquely::<B>() && freezes_apart::<B>(),
        freezes_uniquely::<C>() && freezes_apart::<C>(),
        freezes_uniquely::<D>() && freezes_apart::<D>(),
        freezes_uniquely::<E>() && freezes_apart::<E>(),
        freezes_uniquely::<F>() && freezes_apart::<F>(),
        freezes_uniquely::<G>() && freezes_apart::<G>(),
        freezes_uniquely::<H>() && freezes_apart::<H>(),
    ensures
        freezes_uniquely::<(A, B, C, D, E, F, G, H)>() && freezes_apart::<(A, B, C, D, E, F, G, H)>(),
{
}

impl<
    A: Freezable,
    B: Freezable,
    C: Freezable,
    D: Freezable,
    E: Freezable,
    F: Freezable,
    G: Freezable,
    H: Freezable,
    I: Freezable,
> FrozenForm for (A, B, C, D, E, F, G, H, I) {
    type Frozen = (
        Frozen<A>,
        Frozen<B>,
        Frozen<C>,
        Frozen<D>,
        Frozen<E>,
        Frozen<F>,
        Frozen<G>,
        Frozen<H>,
        Frozen<I>,
    );
}

impl<
    A: Freezable,
    B: Freezable,
    C: Freezable,
    D: Freezable,
    E: Freezable,
    F: Freezable,
    G: Freezable,
    H: Freezable,
    I: Freezable,
> Freezable for (A, B, C, D, E, F, G, H, I) {
    open spec fn freezes_to(self, frozen: Self::Frozen) -> bool {
        &&& self.0.freezes_to(frozen.0@)
        &&& self.1.freezes_to(frozen.1@)
        &&& self.2.freezes_to(frozen.2@)
        &&& self.3.freezes_to(frozen.3@)
        &&& self.4.freezes_to(frozen.4@)
        &&& self.5.freezes_to(frozen.5@)
        &&& self.6.freezes_to(frozen.6@)
        &&& self.7.freezes_to(frozen.7@)
        &&& self.8.freezes_to(frozen.8@)
    }

    fn freeze(self) -> (carrier: Frozen<Self>) {
        let (a, b, c, d, e, f, g, h, i) = self;
        Frozen::new((
            a.freeze(),
            b.freeze(),
            c.freeze(),
            d.freeze(),
            e.freeze(),
            f.freeze(),
            g.freeze(),
            h.freeze(),
            i.freeze(),
        ))
    }
}

impl<
    A: Freezable + Unfreezable<A>,
    B: Freezable + Unfreezable<B>,
    C: Freezable + Unfreezable<C>,
    D: Freezable + Unfreezable<D>,
    E: Freezable + Unfreezable<E>,
    F: Freezable + Unfreezable<F>,
    G: Freezable + Unfreezable<G>,
    H: Freezable + Unfreezable<H>,
    I: Freezable + Unfreezable<I>,
> Unfreezable<(A, B, C, D, E, F, G, H, I)> for (A, B, C, D, E, F, G, H, I) {
    open spec fn thaws_to(
        frozen: (
            Frozen<A>,
            Frozen<B>,
            Frozen<C>,
            Frozen<D>,
            Frozen<E>,
            Frozen<F>,
            Frozen<G>,
            Frozen<H>,
            Frozen<I>,
        ),
        thawed: (A, B, C, D, E, F, G, H, I),
    ) -> bool {
        &&& A::thaws_to(frozen.0@, thawed.0)
        &&& B::thaws_to(frozen.1@, thawed.1)
        &&& C::thaws_to(frozen.2@, thawed.2)
        &&& D::thaws_to(frozen.3@, thawed.3)
        &&& E::thaws_to(frozen.4@, thawed.4)
        &&& F::thaws_to(frozen.5@, thawed.5)
        &&& G::thaws_to(frozen.6@, thawed.6)
        &&& H::thaws_to(frozen.7@, thawed.7)
        &&& I::thaws_to(frozen.8@, thawed.8)
    }

    fn thaw(
        wrapped: (
            Frozen<A>,
            Frozen<B>,
            Frozen<C>,
            Frozen<D>,
            Frozen<E>,
            Frozen<F>,
            Frozen<G>,
            Frozen<H>,
            Frozen<I>,
        ),
    ) -> (thawed: Self) {
        let (a, b, c, d, e, f, g, h, i) = wrapped;
        (
            a.thaw(),
            b.thaw(),
            c.thaw(),
            d.thaw(),
            e.thaw(),
            f.thaw(),
            g.thaw(),
            h.thaw(),
            i.thaw(),
        )
    }
}

/// A tuple of 9 components round-trips when each component does.
pub proof fn lemma_tuple9_round_trips<
    A: Freezable + Unfreezable<A>,
    B: Freezable + Unfreezable<B>,
    C: Freezable + Unfreezable<C>,
    D: Freezable + Unfreezable<D>,
    E: Freezable + Unfreezable<E>,
    F: Freezable + Unfreezable<F>,
    G: Freezable + Unfreezable<G>,
    H: Freezable + Unfreezable<H>,
    I: Freezable + Unfreezable<I>,
>()
    requires
        round_trips::<A>(),
        round_trips::<B>(),
        round_trips::<C>(),
        round_trips::<D>(),
        round_trips::<E>(),
        round_trips::<F>(),
        round_trips::<G>(),
        round_trips::<H>(),
        round_trips::<I>(),
    ensures
        round_trips::<(A, B, C, D, E, F, G, H, I)>(),
{
}

/// A tuple of 9 components has exactly one frozen form, and shares it with
/// no other tuple, when that holds of each component.
pub proof fn lemma_tuple9_freezes_one_to_one<
    A: Freezable,
    B: Freezable,
    C: Freezable,
    D: Freezable,
    E: Freezable,
    F: Freezable,
    G: Freezable,
    H: Freezable,
    I: Freezable,
>()
    requires
        freezes_uniquely::<A>() && freezes_apart::<A>(),
        freezes_uniquely::<B>() && freezes_apart::<B>(),
        freezes_uniquely::<C>() && freezes_apart::<C>(),
        freezes_uniquely::<D>() && freezes_apart::<D>(),
        freezes_uniquely::<E>() && freezes_apart::<E>(),
        freezes_uniquely::<F>() && freezes_apart::<F>(),
        freezes_uniquely::<G>() && freezes_apart::<G>(),
        freezes_uniquely::<H>() && freezes_apart::<H>(),
        freezes_uniquely::<I>() && freezes_apart::<I>(),
    ensures
        freezes_uniquely::<(A, B, C, D, E, F, G, H, I)>() && freezes_apart::<(A, B, C, D, E, F, G, H, I)>(),
{
}

impl<
    A: Freezable,
    B: Freezable,
    C: Freezable,
    D: Freezable,
    E: Freezable,
    F: Freezable,
    G: Freezable,
    H: Freezable,
    I: Freezable,
    J: Freezable,
> FrozenForm for (A, B, C, D, E, F, G, H, I, J) {
    type Frozen = (
        Frozen<A>,
        Frozen<B>,
        Frozen<C>,
        Frozen<D>,
        Frozen<E>,
        Frozen<F>,
        Frozen<G>,
        Frozen<H>,
        Frozen<I>,
        Frozen<J>,
    );
}

impl<
    A: Freezable,
    B: Freezable,
    C: Freezable,
    D: Freezable,
    E: Freezable,
    F: Freezable,
    G: Freezable,
    H: Freezable,
    I: Freezable,
    J: Freezable,
> Freezable for (A, B, C, D, E, F, G, H, I, J) {
    open spec fn freezes_to(self, frozen: Self::Frozen) -> bool {
        &&& self.0.freezes_to(frozen.0@)
        &&& self.1.freezes_to(frozen.1@)
        &&& self.2.freezes_to(frozen.2@)
        &&& self.3.freezes_to(frozen.3@)
        &&& self.4.freezes_to(frozen.4@)
        &&& self.5.freezes_to(frozen.5@)
        &&& self.6.freezes_to(frozen.6@)
        &&& self.7.freezes_to(frozen.7@)
        &&& self.8.freezes_to(frozen.8@)
        &&& self.9.freezes_to(frozen.9@)
    }

    fn freeze(self) -> (carrier: Frozen<Self>) {
        let (a, b, c, d, e, f, g, h, i, j) = self;
        Frozen::new((
            a.freeze(),
            b.freeze(),
            c.freeze(),
            d.freeze(),
            e.freeze(),
            f.freeze(),
            g.freeze(),
            h.freeze(),
            i.freeze(),
            j.freeze(),
        ))
    }
}

impl<
    A: Freezable + Unfreezable<A>,
    B: Freezable + Unfreezable<B>,
    C: Freezable + Unfreezable<C>,
    D: Freezable + Unfreezable<D>,
    E: Freezable + Unfreezable<E>,
    F: Freezable + Unfreezable<F>,
    G: Freezable + Unfreezable<G>,
    H: Freezable + Unfreezable<H>,
    I: Freezable + Unfreezable<I>,
    J: Freezable + Unfreezable<J>,
> Unfreezable<(A, B, C, D, E, F, G, H, I, J)> for (A, B, C, D, E, F, G, H, I, J) {
    open spec fn thaws_to(
        frozen: (
            Frozen<A>,
            Frozen<B>,
            Frozen<C>,
            Frozen<D>,
            Frozen<E>,
            Frozen<F>,
            Frozen<G>,
            Frozen<H>,
            Frozen<I>,
            Frozen<J>,
        ),
        thawed: (A, B, C, D, E, F, G, H, I, J),
    ) -> bool {
        &&& A::thaws_to(frozen.0@, thawed.0)
        &&& B::thaws_to(frozen.1@, thawed.1)
        &&& C::thaws_to(frozen.2@, thawed.2)
        &&& D::thaws_to(frozen.3@, thawed.3)
        &&& E::thaws_to(frozen.4@, thawed.4)
        &&& F::thaws_to(frozen.5@, thawed.5)
        &&& G::thaws_to(frozen.6@, thawed.6)
        &&& H::thaws_to(frozen.7@, thawed.7)
        &&& I::thaws_to(frozen.8@, thawed.8)
        &&& J::thaws_to(frozen.9@, thawed.9)
    }

    fn thaw(
        wrapped: (
            Frozen<A>,
            Frozen<B>,
            Frozen<C>,
            Frozen<D>,
            Frozen<E>,
            Frozen<F>,
            Frozen<G>,
            Frozen<H>,
            Frozen<I>,
            Frozen<J>,
        ),
    ) -> (thawed: Self) {
        let (a, b, c, d, e, f, g, h, i, j) = wrapped;
        (
            a.thaw(),
            b.thaw(),
            c.thaw(),
            d.thaw(),
            e.thaw(),
            f.thaw(),
            g.thaw(),
            h.thaw(),
            i.thaw(),
            j.thaw(),
        )
    }
}

/// A tuple of 10 components round-trips when each component does.
pub proof fn lemma_tuple10_round_trips<
    A: Freezable + Unfreezable<A>,
    B: Freezable + Unfreezable<B>,
    C: Freezable + Unfreezable<C>,
    D: Freezable + Unfreezable<D>,
    E: Freezable + Unfreezable<E>,
    F: Freezable + Unfreezable<F>,
    G: Freezable + Unfreezable<G>,
    H: Freezable + Unfreezable<H>,
    I: Freezable + Unfreezable<I>,
    J: Freezable + Unfreezable<J>,
>()
    requires
        round_trips::<A>(),
        round_trips::<B>(),
        round_trips::<C>(),
        round_trips::<D>(),
        round_trips::<E>(),
        round_trips::<F>(),
        round_trips::<G>(),
        round_trips::<H>(),
        round_trips::<I>(),
        round_trips::<J>(),
    ensures
        round_trips::<(A, B, C, D, E, F, G, H, I, J)>(),
{
}

/// A tuple of 10 components has exactly one frozen form, and shares it with
/// no other tuple, when that holds of each component.
pub proof fn lemma_tuple10_freezes_one_to_one<
    A: Freezable,
    B: Freezable,
    C: Freezable,
    D: Freezable,
    E: Freezable,
    F: Freezable,
    G: Freezable,
    H: Freezable,
    I: Freezable,
    J: Freezable,
>()
    requires
        freezes_uniquely::<A>() && freezes_apart::<A>(),
        freezes_uniquely::<B>() && freezes_apart::<B>(),
        freezes_uniquely::<C>() && freezes_apart::<C>(),
        freezes_uniquely::<D>() && freezes_apart::<D>(),
        freezes_uniquely::<E>() && freezes_apart::<E>(),
        freezes_uniquely::<F>() && freezes_apart::<F>(),
        freezes_uniquely::<G>() && freezes_apart::<G>(),
        freezes_uniquely::<H>() && freezes_apart::<H>(),
        freezes_uniquely::<I>() && freezes_apart::<I>(),
        freezes_uniquely::<J>() && freezes_apart::<J>(),
    ensures
        freezes_uniquely::<(A, B, C, D, E, F, G, H, I, J)>() && freezes_apart::<(A, B, C, D, E, F, G, H, I, J)>(),
{
}

impl<
    A: Freezable,
    B: Freezable,
    C: Freezable,
    D: Freezable,
    E: Freezable,
    F: Freezable,
    G: Freezable,
    H: Freezable,
    I: Freezable,
    J: Freezable,
    K: Freezable,
> FrozenForm for (A, B, C, D, E, F, G, H, I, J, K) {
    type Frozen = (
        Frozen<A>,
        Frozen<B>,
        Frozen<C>,
        Frozen<D>,
        Frozen<E>,
        Frozen<F>,
        Frozen<G>,
        Frozen<H>,
        Frozen<I>,
        Frozen<J>,
        Frozen<K>,
    );
}

impl<
    A: Freezable,
    B: Freezable,
    C: Freezable,
    D: Freezable,
    E: Freezable,
    F: Freezable,
    G: Freezable,
    H: Freezable,
    I: Freezable,
    J: Freezable,
    K: Freezable,
> Freezable for (A, B, C, D, E, F, G, H, I, J, K) {
    open spec fn freezes_to(self, frozen: Self::Frozen) -> bool {
        &&& self.0.freezes_to(frozen.0@)
        &&& self.1.freezes_to(frozen.1@)
        &&& self.2.freezes_to(frozen.2@)
        &&& self.3.freezes_to(frozen.3@)
        &&& self.4.freezes_to(frozen.4@)
        &&& self.5.freezes_to(frozen.5@)
        &&& self.6.freezes_to(frozen.6@)
        &&& self.7.freezes_to(frozen.7@)
        &&& self.8.freezes_to(frozen.8@)
        &&& self.9.freezes_to(frozen.9@)
        &&& self.10.freezes_to(frozen.10@)
    }

    fn freeze(self) -> (carrier: Frozen<Self>) {
        let (a, b, c, d, e, f, g, h, i, j, k) = self;
        Frozen::new((
            a.freeze(),
            b.freeze(),
            c.freeze(),
            d.freeze(),
            e.freeze(),
            f.freeze(),
            g.freeze(),
            h.freeze(),
            i.freeze(),
            j.freeze(),
            k.freeze(),
        ))
    }
}

impl<
    A: Freezable + Unfreezable<A>,
    B: Freezable + Unfreezable<B>,
    C: Freezable + Unfreezable<C>,
    D: Freezable + Unfreezable<D>,
    E: Freezable + Unfreezable<E>,
    F: Freezable + Unfreezable<F>,
    G: Freezable + Unfreezable<G>,
    H: Freezable + Unfreezable<H>,
    I: Freezable + Unfreezable<I>,
    J: Freezable + Unfreezable<J>,
    K: Freezable + Unfreezable<K>,
> Unfreezable<(A, B, C, D, E, F, G, H, I, J, K)> for (A, B, C, D, E, F, G, H, I, J, K) {
    open spec fn thaws_to(
        frozen: (
            Frozen<A>,
            Frozen<B>,
            Frozen<C>,
            Frozen<D>,
            Frozen<E>,
            Frozen<F>,
            Frozen<G>,
            Frozen<H>,
            Frozen<I>,
            Frozen<J>,
            Frozen<K>,
        ),
        thawed: (A, B, C, D, E, F, G, H, I, J, K),
    ) -> bool {
        &&& A::thaws_to(frozen.0@, thawed.0)
        &&& B::thaws_to(frozen.1@, thawed.1)
        &&& C::thaws_to(frozen.2@, thawed.2)
        &&& D::thaws_to(frozen.3@, thawed.3)
        &&& E::thaws_to(frozen.4@, thawed.4)
        &&& F::thaws_to(frozen.5@, thawed.5)
        &&& G::thaws_to(frozen.6@, thawed.6)
        &&& H::thaws_to(frozen.7@, thawed.7)
        &&& I::thaws_to(frozen.8@, thawed.8)
        &&& J::thaws_to(frozen.9@, thawed.9)
        &&& K::thaws_to(frozen.10@, thawed.10)
    }

    fn thaw(
        wrapped: (
            Frozen<A>,
            Frozen<B>,
            Frozen<C>,
            Frozen<D>,
            Frozen<E>,
            Frozen<F>,
            Frozen<G>,
            Frozen<H>,
            Frozen<I>,
            Frozen<J>,
            Frozen<K>,
        ),
    ) -> (thawed: Self) {
        let (a, b, c, d, e, f, g, h, i, j, k) = wrapped;
        (
            a.thaw(),
            b.thaw(),
            c.thaw(),
            d.thaw(),
            e.thaw(),
            f.thaw(),
            g.thaw(),
            h.thaw(),
            i.thaw(),
            j.thaw(),
            k.thaw(),
        )
    }
}

/// A tuple of 11 components round-trips when each component does.
pub proof fn lemma_tuple11_round_trips<
    A: Freezable + Unfreezable<A>,
    B: Freezable + Unfreezable<B>,
    C: Freezable + Unfreezable<C>,
    D: Freezable + Unfreezable<D>,
    E: Freezable + Unfreezable<E>,
    F: Freezable + Unfreezable<F>,
    G: Freezable + Unfreezable<G>,
    H: Freezable + Unfreezable<H>,
    I: Freezable + Unfreezable<I>,
    J: Freezable + Unfreezable<J>,
    K: Freezable + Unfreezable<K>,
>()
    requires
        round_trips::<A>(),
        round_trips::<B>(),
        round_trips::<C>(),
        round_trips::<D>(),
        round_trips::<E>(),
        round_trips::<F>(),
        round_trips::<G>(),
        round_trips::<H>(),
        round_trips::<I>(),
        round_trips::<J>(),
        round_trips::<K>(),
    ensures
        round_trips::<(A, B, C, D, E, F, G, H, I, J, K)>(),
{
}

/// A tuple of 11 components has exactly one frozen form, and shares it with
/// no other tuple, when that holds of each component.
pub proof fn lemma_tuple11_freezes_one_to_one<
    A: Freezable,
    B: Freezable,
    C: Freezable,
    D: Freezable,
    E: Freezable,
    F: Freezable,
    G: Freezable,
    H: Freezable,
    I: Freezable,
    J: Freezable,
    K: Freezable,
>()
    requires
        freezes_uniquely::<A>() && freezes_apart::<A>(),
        freezes_uniquely::<B>() && freezes_apart::<B>(),
        freezes_uniquely::<C>() && freezes_apart::<C>(),
        freezes_uniquely::<D>() && freezes_apart::<D>(),
        freezes_uniquely::<E>() && freezes_apart::<E>(),
        freezes_uniquely::<F>() && freezes_apart::<F>(),
        freezes_uniquely::<G>() && freezes_apart::<G>(),
        freezes_uniquely::<H>() && freezes_apart::<H>(),
        freezes_uniquely::<I>() && freezes_apart::<I>(),
        freezes_uniquely::<J>() && freezes_apart::<J>(),
        freezes_uniquely::<K>() && freezes_apart::<K>(),
    ensures
        freezes_uniquely::<(A, B, C, D, E, F, G, H, I, J, K)>() && freezes_apart::<(A, B, C, D, E, F, G, H, I, J, K)>(),
{
}

impl<
    A: Freezable,
    B: Freezable,
    C: Freezable,
    D: Freezable,
    E: Freezable,
    F: Freezable,
    G: Freezable,
    H: Freezable,
    I: Freezable,
    J: Freezable,
    K: Freezable,
    L: Freezable,
> FrozenForm for (A, B, C, D, E, F, G, H, I, J, K, L) {
    type Frozen = (
        Frozen<A>,
        Frozen<B>,
        Frozen<C>,
        Frozen<D>,
        Frozen<E>,
        Frozen<F>,
        Frozen<G>,
        Frozen<H>,
        Frozen<I>,
        Frozen<J>,
        Frozen<K>,
        Frozen<L>,
    );
}

impl<
    A: Freezable,
    B: Freezable,
    C: Freezable,
    D: Freezable,
    E: Freezable,
    F: Freezable,
    G: Freezable,
    H: Freezable,
    I: Freezable,
    J: Freezable,
    K: Freezable,
    L: Freezable,
> Freezable for (A, B, C, D, E, F, G, H, I, J, K, L) {
    open spec fn freezes_to(self, frozen: Self::Frozen) -> bool {
        &&& self.0.freezes_to(frozen.0@)
        &&& self.1.freezes_to(frozen.1@)
        &&& self.2.freezes_to(frozen.2@)
        &&& self.3.freezes_to(frozen.3@)
        &&& self.4.freezes_to(frozen.4@)
        &&& self.5.freezes_to(frozen.5@)
        &&& self.6.freezes_to(frozen.6@)
        &&& self.7.freezes_to(frozen.7@)
        &&& self.8.freezes_to(frozen.8@)
        &&& self.9.freezes_to(frozen.9@)
        &&& self.10.freezes_to(frozen.10@)
        &&& self.11.freezes_to(frozen.11@)
    }

    fn freeze(self) -> (carrier: Frozen<Self>) {
        let (a, b, c, d, e, f, g, h, i, j, k, l) = self;
        Frozen::new((
            a.freeze(),
            b.freeze(),
            c.freeze(),
            d.freeze(),
            e.freeze(),
            f.freeze(),
            g.freeze(),
            h.freeze(),
            i.freeze(),
            j.freeze(),
            k.freeze(),
            l.freeze(),
        ))
    }
}

impl<
    A: Freezable + Unfreezable<A>,
    B: Freezable + Unfreezable<B>,
    C: Freezable + Unfreezable<C>,
    D: Freezable + Unfreezable<D>,
    E: Freezable + Unfreezable<E>,
    F: Freezable + Unfreezable<F>,
    G: Freezable + Unfreezable<G>,
    H: Freezable + Unfreezable<H>,
    I: Freezable + Unfreezable<I>,
    J: Freezable + Unfreezable<J>,
    K: Freezable + Unfreezable<K>,
    L: Freezable + Unfreezable<L>,
> Unfreezable<(A, B, C, D, E, F, G, H, I, J, K, L)> for (A, B, C, D, E, F, G, H, I, J, K, L) {
    open spec fn thaws_to(
        frozen: (
            Frozen<A>,
            Frozen<B>,
            Frozen<C>,
            Frozen<D>,
            Frozen<E>,
            Frozen<F>,
            Frozen<G>,
            Frozen<H>,
            Frozen<I>,
            Frozen<J>,
            Frozen<K>,
            Frozen<L>,
        ),
        thawed: (A, B, C, D, E, F, G, H, I, J, K, L),
    ) -> bool {
        &&& A::thaws_to(frozen.0@, thawed.0)
        &&& B::thaws_to(frozen.1@, thawed.1)
        &&& C::thaws_to(frozen.2@, thawed.2)
        &&& D::thaws_to(frozen.3@, thawed.3)
        &&& E::thaws_to(frozen.4@, thawed.4)
        &&& F::thaws_to(frozen.5@, thawed.5)
        &&& G::thaws_to(frozen.6@, thawed.6)
        &&& H::thaws_to(frozen.7@, thawed.7)
        &&& I::thaws_to(frozen.8@, thawed.8)
        &&& J::thaws_to(frozen.9@, thawed.9)
        &&& K::thaws_to(frozen.10@, thawed.10)
        &&& L::thaws_to(frozen.11@, thawed.11)
    }

    fn thaw(
        wrapped: (
            Frozen<A>,
            Frozen<B>,
            Frozen<C>,
            Frozen<D>,
            Frozen<E>,
            Frozen<F>,
            Frozen<G>,
            Frozen<H>,
            Frozen<I>,
            Frozen<J>,
            Frozen<K>,
            Frozen<L>,
        ),
    ) -> (thawed: Self) {
        let (a, b, c, d, e, f, g, h, i, j, k, l) = wrapped;
        (
            a.thaw(),
            b.thaw(),
            c.thaw(),
            d.thaw(),
            e.thaw(),
            f.thaw(),
            g.thaw(),
            h.thaw(),
            i.thaw(),
            j.thaw(),
            k.thaw(),
            l.thaw(),
        )
    }
}

/// A tuple of 12 components round-trips when each component does.
pub proof fn lemma_tuple12_round_trips<
    A: Freezable + Unfreezable<A>,
    B: Freezable + Unfreezable<B>,
    C: Freezable + Unfreezable<C>,
    D: Freezable + Unfreezable<D>,
    E: Freezable + Unfreezable<E>,
    F: Freezable + Unfreezable<F>,
    G: Freezable + Unfreezable<G>,
    H: Freezable + Unfreezable<H>,
    I: Freezable + Unfreezable<I>,
    J: Freezable + Unfreezable<J>,
    K: Freezable + Unfreezable<K>,
    L: Freezable + Unfreezable<L>,
>()
    requires
        round_trips::<A>(),
        round_trips::<B>(),
        round_trips::<C>(),
        round_trips::<D>(),
        round_trips::<E>(),
        round_trips::<F>(),
        round_trips::<G>(),
        round_trips::<H>(),
        round_trips::<I>(),
        round_trips::<J>(),
        round_trips::<K>(),
        round_trips::<L>(),
    ensures
        round_trips::<(A, B, C, D, E, F, G, H, I, J, K, L)>(),
{
}

/// A tuple of 12 components has exactly one frozen form, and shares it with
/// no other tuple, when that holds of each component.
pub proof fn lemma_tuple12_freezes_one_to_one<
    A: Freezable,
    B: Freezable,
    C: Freezable,
    D: Freezable,
    E: Freezable,
    F: Freezable,
    G: Freezable,
    H: Freezable,
    I: Freezable,
    J: Freezable,
    K: Freezable,
    L: Freezable,
>()
    requires
        freezes_uniquely::<A>() && freezes_apart::<A>(),
        freezes_uniquely::<B>() && freezes_apart::<B>(),
        freezes_uniquely::<C>() && freezes_apart::<C>(),
        freezes_uniquely::<D>() && freezes_apart::<D>(),
        freezes_uniquely::<E>() && freezes_apart::<E>(),
        freezes_uniquely::<F>() && freezes_apart::<F>(),
        freezes_uniquely::<G>() && freezes_apart::<G>(),
        freezes_uniquely::<H>() && freezes_apart::<H>(),
        freezes_uniquely::<I>() && freezes_apart::<I>(),
        freezes_uniquely::<J>() && freezes_apart::<J>(),
        freezes_uniquely::<K>() && freezes_apart::<K>(),
        freezes_uniquely::<L>() && freezes_apart::<L>(),
    ensures
        freezes_uniquely::<(A, B, C, D, E, F, G, H, I, J, K, L)>() && freezes_apart::<(A, B, C, D, E, F, G, H, I, J, K, L)>(),
{
}

} // verus!
