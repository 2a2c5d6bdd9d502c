//! Arithmetic and bitwise operators on a carrier pass through to the frozen
//! form: each is allowed where the frozen form allows it and gives what the
//! frozen form gives.
use crate::{Freezable, Frozen};
use core::ops::{Add, BitAnd, BitOr, BitXor, Deref, Div, Mul, Neg, Rem, Shl, Shr, Sub};
use vstd::prelude::*;
use vstd::std_specs::ops::{
    AddSpec, AddSpecImpl, BitAndSpec, BitAndSpecImpl, BitOrSpec, BitOrSpecImpl, BitXorSpec,
    BitXorSpecImpl, DivSpec, DivSpecImpl, MulSpec, MulSpecImpl, NegSpec, NegSpecImpl, RemSpec,
    RemSpecImpl, ShlSpec, ShlSpecImpl, ShrSpec, ShrSpecImpl, SubSpec, SubSpecImpl,
};

verus! {

impl<T: Freezable, U> Add<U> for Frozen<T> where T::Frozen: Add<U> {
    type Output = <T::Frozen as Add<U>>::Output;

    fn add(self, rhs: U) -> (out: Self::Output) {
        self.into_inner().add(rhs)
    }
}

impl<T: Freezable, U> AddSpecImpl<U> for Frozen<T> where T::Frozen: Add<U> {
    open spec fn obeys_add_spec() -> bool {
        <T::Frozen>::obeys_add_spec()
    }

    open spec fn add_req(self, rhs: U) -> bool {
        self@.add_req(rhs)
    }

    open spec fn add_spec(self, rhs: U) -> Self::Output {
        self@.add_spec(rhs)
    }
}

impl<'a, T: Freezable, U> Add<U> for &'a Frozen<T> where &'a T::Frozen: Add<U> {
    type Output = <&'a T::Frozen as Add<U>>::Output;

    fn add(self, rhs: U) -> (out: Self::Output) {
        self.deref().add(rhs)
    }
}

impl<'a, T: Freezable, U> AddSpecImpl<U> for &'a Frozen<T> where &'a T::Frozen: Add<U> {
    open spec fn obeys_add_spec() -> bool {
        <&'a T::Frozen>::obeys_add_spec()
    }

    open spec fn add_req(self, rhs: U) -> bool {
        (&self@).add_req(rhs)
    }

    open spec fn add_spec(self, rhs: U) -> Self::Output {
        (&self@).add_spec(rhs)
    }
}

impl<T: Freezable, U> BitAnd<U> for Frozen<T> where T::Frozen: BitAnd<U> {
    type Output = <T::Frozen as BitAnd<U>>::Output;

    fn bitand(self, rhs: U) -> (out: Self::Output) {
        self.into_inner().bitand(rhs)
    }
}

impl<T: Freezable, U> BitAndSpecImpl<U> for Frozen<T> where T::Frozen: BitAnd<U> {
    open spec fn obeys_bitand_spec() -> bool {
        <T::Frozen>::obeys_bitand_spec()
    }

    open spec fn bitand_req(self, rhs: U) -> bool {
        self@.bitand_req(rhs)
    }

    open spec fn bitand_spec(self, rhs: U) -> Self::Output {
        self@.bitand_spec(rhs)
    }
}

impl<'a, T: Freezable, U> BitAnd<U> for &'a Frozen<T> where &'a T::Frozen: BitAnd<U> {
    type Output = <&'a T::Frozen as BitAnd<U>>::Output;

    fn bitand(self, rhs: U) -> (out: Self::Output) {
        self.deref().bitand(rhs)
    }
}

impl<'a, T: Freezable, U> BitAndSpecImpl<U> for &'a Frozen<T> where &'a T::Frozen: BitAnd<U> {
    open spec fn obeys_bitand_spec() -> bool {
        <&'a T::Frozen>::obeys_bitand_spec()
    }

    open spec fn bitand_req(self, rhs: U) -> bool {
        (&self@).bitand_req(rhs)
    }

    open spec fn bitand_spec(self, rhs: U) -> Self::Output {
        (&self@).bitand_spec(rhs)
    }
}

impl<T: Freezable, U> BitOr<U> for Frozen<T> where T::Frozen: BitOr<U> {
    type Output = <T::Frozen as BitOr<U>>::Output;

    fn bitor(self, rhs: U) -> (out: Self::Output) {
        self.into_inner().bitor(rhs)
    }
}

impl<T: Freezable, U> BitOrSpecImpl<U> for Frozen<T> where T::Frozen: BitOr<U> {
    open spec fn obeys_bitor_spec() -> bool {
        <T::Frozen>::obeys_bitor_spec()
    }

    open spec fn bitor_req(self, rhs: U) -> bool {
        self@.bitor_req(rhs)
    }

    open spec fn bitor_spec(self, rhs: U) -> Self::Output {
        self@.bitor_spec(rhs)
    }
}

impl<'a, T: Freezable, U> BitOr<U> for &'a Frozen<T> where &'a T::Frozen: BitOr<U> {
    type Output = <&'a T::Frozen as BitOr<U>>::Output;

    fn bitor(self, rhs: U) -> (out: Self::Output) {
        self.deref().bitor(rhs)
    }
}

impl<'a, T: Freezable, U> BitOrSpecImpl<U> for &'a Frozen<T> where &'a T::Frozen: BitOr<U> {
    open spec fn obeys_bitor_spec() -> bool {
        <&'a T::Frozen>::obeys_bitor_spec()
    }

    open spec fn bitor_req(self, rhs: U) -> bool {
        (&self@).bitor_req(rhs)
    }

    open spec fn bitor_spec(self, rhs: U) -> Self::Output {
        (&self@).bitor_spec(rhs)
    }
}

impl<T: Freezable, U> BitXor<U> for Frozen<T> where T::Frozen: BitXor<U> {
    type Output = <T::Frozen as BitXor<U>>::Output;

    fn bitxor(self, rhs: U) -> (out: Self::Output) {
        self.into_inner().bitxor(rhs)
    }
}

impl<T: Freezable, U> BitXorSpecImpl<U> for Frozen<T> where T::Frozen: BitXor<U> {
    open spec fn obeys_bitxor_spec() -> bool {
        <T::Frozen>::obeys_bitxor_spec()
    }

    open spec fn bitxor_req(self, rhs: U) -> bool {
        self@.bitxor_req(rhs)
    }

    open spec fn bitxor_spec(self, rhs: U) -> Self::Output {
        self@.bitxor_spec(rhs)
    }
}

impl<'a, T: Freezable, U> BitXor<U> for &'a Frozen<T> where &'a T::Frozen: BitXor<U> {
    type Output = <&'a T::Frozen as BitXor<U>>::Output;

    fn bitxor(self, rhs: U) -> (out: Self::Output) {
        self.deref().bitxor(rhs)
    }
}

impl<'a, T: Freezable, U> BitXorSpecImpl<U> for &'a Frozen<T> where &'a T::Frozen: BitXor<U> {
    open spec fn obeys_bitxor_spec() -> bool {
        <&'a T::Frozen>::obeys_bitxor_spec()
    }

    open spec fn bitxor_req(self, rhs: U) -> bool {
        (&self@).bitxor_req(rhs)
    }

    open spec fn bitxor_spec(self, rhs: U) -> Self::Output {
        (&self@).bitxor_spec(rhs)
    }
}

impl<T: Freezable, U> Div<U> for Frozen<T> where T::Frozen: Div<U> {
    type Output = <T::Frozen as Div<U>>::Output;

    fn div(self, rhs: U) -> (out: Self::Output) {
        self.into_inner().div(rhs)
    }
}

impl<T: Freezable, U> DivSpecImpl<U> for Frozen<T> where T::Frozen: Div<U> {
    open spec fn obeys_div_spec() -> bool {
        <T::Frozen>::obeys_div_spec()
    }

    open spec fn div_req(self, rhs: U) -> bool {
        self@.div_req(rhs)
    }

    open spec fn div_spec(self, rhs: U) -> Self::Output {
        self@.div_spec(rhs)
    }
}

impl<'a, T: Freezable, U> Div<U> for &'a Frozen<T> where &'a T::Frozen: Div<U> {
    type Output = <&'a T::Frozen as Div<U>>::Output;

    fn div(self, rhs: U) -> (out: Self::Output) {
        self.deref().div(rhs)
    }
}

impl<'a, T: Freezable, U> DivSpecImpl<U> for &'a Frozen<T> where &'a T::Frozen: Div<U> {
    open spec fn obeys_div_spec() -> bool {
        <&'a T::Frozen>::obeys_div_spec()
    }

    open spec fn div_req(self, rhs: U) -> bool {
        (&self@).div_req(rhs)
    }

    open spec fn div_spec(self, rhs: U) -> Self::Output {
        (&self@).div_spec(rhs)
    }
}

impl<T: Freezable, U> Mul<U> for Frozen<T> where T::Frozen: Mul<U> {
    type Output = <T::Frozen as Mul<U>>::Output;

    fn mul(self, rhs: U) -> (out: Self::Output) {
        self.into_inner().mul(rhs)
    }
}

impl<T: Freezable, U> MulSpecImpl<U> for Frozen<T> where T::Frozen: Mul<U> {
    open spec fn obeys_mul_spec() -> bool {
        <T::Frozen>::obeys_mul_spec()
    }

    open spec fn mul_req(self, rhs: U) -> bool {
        self@.mul_req(rhs)
    }

    open spec fn mul_spec(self, rhs: U) -> Self::Output {
        self@.mul_spec(rhs)
    }
}

impl<'a, T: Freezable, U> Mul<U> for &'a Frozen<T> where &'a T::Frozen: Mul<U> {
    type Output = <&'a T::Frozen as Mul<U>>::Output;

    fn mul(self, rhs: U) -> (out: Self::Output) {
        self.deref().mul(rhs)
    }
}

impl<'a, T: Freezable, U> MulSpecImpl<U> for &'a Frozen<T> where &'a T::Frozen: Mul<U> {
    open spec fn obeys_mul_spec() -> bool {
        <&'a T::Frozen>::obeys_mul_spec()
    }

    open spec fn mul_req(self, rhs: U) -> bool {
        (&self@).mul_req(rhs)
    }

    open spec fn mul_spec(self, rhs: U) -> Self::Output {
        (&self@).mul_spec(rhs)
    }
}

impl<T: Freezable, U> Rem<U> for Frozen<T> where T::Frozen: Rem<U> {
    type Output = <T::Frozen as Rem<U>>::Output;

    fn rem(self, rhs: U) -> (out: Self::Output) {
        self.into_inner().rem(rhs)
    }
}

impl<T: Freezable, U> RemSpecImpl<U> for Frozen<T> where T::Frozen: Rem<U> {
    open spec fn obeys_rem_spec() -> bool {
        <T::Frozen>::obeys_rem_spec()
    }

    open spec fn rem_req(self, rhs: U) -> bool {
        self@.rem_req(rhs)
    }

    open spec fn rem_spec(self, rhs: U) -> Self::Output {
        self@.rem_spec(rhs)
    }
}

impl<'a, T: Freezable, U> Rem<U> for &'a Frozen<T> where &'a T::Frozen: Rem<U> {
    type Output = <&'a T::Frozen as Rem<U>>::Output;

    fn rem(self, rhs: U) -> (out: Self::Output) {
        self.deref().rem(rhs)
    }
}

impl<'a, T: Freezable, U> RemSpecImpl<U> for &'a Frozen<T> where &'a T::Frozen: Rem<U> {
    open spec fn obeys_rem_spec() -> bool {
        <&'a T::Frozen>::obeys_rem_spec()
    }

    open spec fn rem_req(self, rhs: U) -> bool {
        (&self@).rem_req(rhs)
    }

    open spec fn rem_spec(self, rhs: U) -> Self::Output {
        (&self@).rem_spec(rhs)
    }
}

impl<T: Freezable, U> Shl<U> for Frozen<T> where T::Frozen: Shl<U> {
    type Output = <T::Frozen as Shl<U>>::Output;

    fn shl(self, rhs: U) -> (out: Self::Output) {
        self.into_inner().shl(rhs)
    }
}

impl<T: Freezable, U> ShlSpecImpl<U> for Frozen<T> where T::Frozen: Shl<U> {
    open spec fn obeys_shl_spec() -> bool {
        <T::Frozen>::obeys_shl_spec()
    }

    open spec fn shl_req(self, rhs: U) -> bool {
        self@.shl_req(rhs)
    }

    open spec fn shl_spec(self, rhs: U) -> Self::Output {
        self@.shl_spec(rhs)
    }
}

impl<'a, T: Freezable, U> Shl<U> for &'a Frozen<T> where &'a T::Frozen: Shl<U> {
    type Output = <&'a T::Frozen as Shl<U>>::Output;

    fn shl(self, rhs: U) -> (out: Self::Output) {
        self.deref().shl(rhs)
    }
}

impl<'a, T: Freezable, U> ShlSpecImpl<U> for &'a Frozen<T> where &'a T::Frozen: Shl<U> {
    open spec fn obeys_shl_spec() -> bool {
        <&'a T::Frozen>::obeys_shl_spec()
    }

    open spec fn shl_req(self, rhs: U) -> bool {
        (&self@).shl_req(rhs)
    }

    open spec fn shl_spec(self, rhs: U) -> Self::Output {
        (&self@).shl_spec(rhs)
    }
}

impl<T: Freezable, U> Shr<U> for Frozen<T> where T::Frozen: Shr<U> {
    type Output = <T::Frozen as Shr<U>>::Output;

    fn shr(self, rhs: U) -> (out: Self::Output) {
        self.into_inner().shr(rhs)
    }
}

impl<T: Freezable, U> ShrSpecImpl<U> for Frozen<T> where T::Frozen: Shr<U> {
    open spec fn obeys_shr_spec() -> bool {
        <T::Frozen>::obeys_shr_spec()
    }

    open spec fn shr_req(self, rhs: U) -> bool {
        self@.shr_req(rhs)
    }

    open spec fn shr_spec(self, rhs: U) -> Self::Output {
        self@.shr_spec(rhs)
    }
}

impl<'a, T: Freezable, U> Shr<U> for &'a Frozen<T> where &'a T::Frozen: Shr<U> {
    type Output = <&'a T::Frozen as Shr<U>>::Output;

    fn shr(self, rhs: U) -> (out: Self::Output) {
        self.deref().shr(rhs)
    }
}

impl<'a, T: Freezable, U> ShrSpecImpl<U> for &'a Frozen<T> where &'a T::Frozen: Shr<U> {
    open spec fn obeys_shr_spec() -> bool {
        <&'a T::Frozen>::obeys_shr_spec()
    }

    open spec fn shr_req(self, rhs: U) -> bool {
        (&self@).shr_req(rhs)
    }

    open spec fn shr_spec(self, rhs: U) -> Self::Output {
        (&self@).shr_spec(rhs)
    }
}

impl<T: Freezable, U> Sub<U> for Frozen<T> where T::Frozen: Sub<U> {
    type Output = <T::Frozen as Sub<U>>::Output;

    fn sub(self, rhs: U) -> (out: Self::Output) {
        self.into_inner().sub(rhs)
    }
}

impl<T: Freezable, U> SubSpecImpl<U> for Frozen<T> where T::Frozen: Sub<U> {
    open spec fn obeys_sub_spec() -> bool {
        <T::Frozen>::obeys_sub_spec()
    }

    open spec fn sub_req(self, rhs: U) -> bool {
        self@.sub_req(rhs)
    }

    open spec fn sub_spec(self, rhs: U) -> Self::Output {
        self@.sub_spec(rhs)
    }
}

impl<'a, T: Freezable, U> Sub<U> for &'a Frozen<T> where &'a T::Frozen: Sub<U> {
    type Output = <&'a T::Frozen as Sub<U>>::Output;

    fn sub(self, rhs: U) -> (out: Self::Output) {
        self.deref().sub(rhs)
    }
}

impl<'a, T: Freezable, U> SubSpecImpl<U> for &'a Frozen<T> where &'a T::Frozen: Sub<U> {
    open spec fn obeys_sub_spec() -> bool {
        <&'a T::Frozen>::obeys_sub_spec()
    }

    open spec fn sub_req(self, rhs: U) -> bool {
        (&self@).sub_req(rhs)
    }

    open spec fn sub_spec(self, rhs: U) -> Self::Output {
        (&self@).sub_spec(rhs)
    }
}

impl<T: Freezable> Neg for Frozen<T> where T::Frozen: Neg {
    type Output = <T::Frozen as Neg>::Output;

    fn neg(self) -> (out: Self::Output) {
        self.into_inner().neg()
    }
}

impl<T: Freezable> NegSpecImpl for Frozen<T> where T::Frozen: Neg {
    open spec fn obeys_neg_spec() -> bool {
        <T::Frozen>::obeys_neg_spec()
    }

    open spec fn neg_req(self) -> bool {
        self@.neg_req()
    }

    open spec fn neg_spec(self) -> Self::Output {
        self@.neg_spec()
    }
}

} // verus!
