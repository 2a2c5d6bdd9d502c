//! Types that are their own frozen form: freezing wraps the value unchanged
//! and thawing hands it back.
use crate::{
    freezes_apart, freezes_uniquely, round_trips, Freezable, Frozen, FrozenForm, Unfreezable,
};
use core::time::Duration;
use vstd::prelude::*;

verus! {

impl FrozenForm for bool {
    type Frozen = bool;
}

impl Freezable for bool {
    open spec fn freezes_to(self, frozen: bool) -> bool {
        frozen == self
    }

    fn freeze(self) -> (carrier: Frozen<Self>) {
        Frozen::new(self)
    }
}

impl Unfreezable<bool> for bool {
    open spec fn thaws_to(frozen: bool, thawed: bool) -> bool {
        thawed == frozen
    }

    fn thaw(wrapped: bool) -> (thawed: Self) {
        wrapped
    }
}

impl FrozenForm for char {
    type Frozen = char;
}

impl Freezable for char {
    open spec fn freezes_to(self, frozen: char) -> bool {
        frozen == self
    }

    fn freeze(self) -> (carrier: Frozen<Self>) {
        Frozen::new(self)
    }
}

impl Unfreezable<char> for char {
    open spec fn thaws_to(frozen: char, thawed: char) -> bool {
        thawed == frozen
    }

    fn thaw(wrapped: char) -> (thawed: Self) {
        wrapped
    }
}

impl FrozenForm for i8 {
    type Frozen = i8;
}

impl Freezable for i8 {
    open spec fn freezes_to(self, frozen: i8) -> bool {
        frozen == self
    }

    fn freeze(self) -> (carrier: Frozen<Self>) {
        Frozen::new(self)
    }
}

impl Unfreezable<i8> for i8 {
    open spec fn thaws_to(frozen: i8, thawed: i8) -> bool {
        thawed == frozen
    }

    fn thaw(wrapped: i8) -> (thawed: Self) {
        wrapped
    }
}

impl FrozenForm for i16 {
    type Frozen = i16;
}

impl Freezable for i16 {
    open spec fn freezes_to(self, frozen: i16) -> bool {
        frozen == self
    }

    fn freeze(self) -> (carrier: Frozen<Self>) {
        Frozen::new(self)
    }
}

impl Unfreezable<i16> for i16 {
    open spec fn thaws_to(frozen: i16, thawed: i16) -> bool {
        thawed == frozen
    }

    fn thaw(wrapped: i16) -> (thawed: Self) {
        wrapped
    }
}

impl FrozenForm for i32 {
    type Frozen = i32;
}

impl Freezable for i32 {
    open spec fn freezes_to(self, frozen: i32) -> bool {
        frozen == self
    }

    fn freeze(self) -> (carrier: Frozen<Self>) {
        Frozen::new(self)
    }
}

impl Unfreezable<i32> for i32 {
    open spec fn thaws_to(frozen: i32, thawed: i32) -> bool {
        thawed == frozen
    }

    fn thaw(wrapped: i32) -> (thawed: Self) {
        wrapped
    }
}

impl FrozenForm for i64 {
    type Frozen = i64;
}

impl Freezable for i64 {
    open spec fn freezes_to(self, frozen: i64) -> bool {
        frozen == self
    }

    fn freeze(self) -> (carrier: Frozen<Self>) {
        Frozen::new(self)
    }
}

impl Unfreezable<i64> for i64 {
    open spec fn thaws_to(frozen: i64, thawed: i64) -> bool {
        thawed == frozen
    }

    fn thaw(wrapped: i64) -> (thawed: Self) {
        wrapped
    }
}

impl FrozenForm for i128 {
    type Frozen = i128;
}

impl Freezable for i128 {
    open spec fn freezes_to(self, frozen: i128) -> bool {
        frozen == self
    }

    fn freeze(self) -> (carrier: Frozen<Self>) {
        Frozen::new(self)
    }
}

impl Unfreezable<i128> for i128 {
    open spec fn thaws_to(frozen: i128, thawed: i128) -> bool {
        thawed == frozen
    }

    fn thaw(wrapped: i128) -> (thawed: Self) {
        wrapped
    }
}

impl FrozenForm for isize {
    type Frozen = isize;
}

impl Freezable for isize {
    open spec fn freezes_to(self, frozen: isize) -> bool {
        frozen == self
    }

    fn freeze(self) -> (carrier: Frozen<Self>) {
        Frozen::new(self)
    }
}

impl Unfreezable<isize> for isize {
    open spec fn thaws_to(frozen: isize, thawed: isize) -> bool {
        thawed == frozen
    }

    fn thaw(wrapped: isize) -> (thawed: Self) {
        wrapped
    }
}

impl FrozenForm for u8 {
    type Frozen = u8;
}

impl Freezable for u8 {
    open spec fn freezes_to(self, frozen: u8) -> bool {
        frozen == self
    }

    fn freeze(self) -> (carrier: Frozen<Self>) {
        Frozen::new(self)
    }
}

impl Unfreezable<u8> for u8 {
    open spec fn thaws_to(frozen: u8, thawed: u8) -> bool {
        thawed == frozen
    }

    fn thaw(wrapped: u8) -> (thawed: Self) {
        wrapped
    }
}

impl FrozenForm for u16 {
    type Frozen = u16;
}

impl Freezable for u16 {
    open spec fn freezes_to(self, frozen: u16) -> bool {
        frozen == self
    }

    fn freeze(self) -> (carrier: Frozen<Self>) {
        Frozen::new(self)
    }
}

impl Unfreezable<u16> for u16 {
    open spec fn thaws_to(frozen: u16, thawed: u16) -> bool {
        thawed == frozen
    }

    fn thaw(wrapped: u16) -> (thawed: Self) {
        wrapped
    }
}

impl FrozenForm for u32 {
    type Frozen = u32;
}

impl Freezable for u32 {
    open spec fn freezes_to(self, frozen: u32) -> bool {
        frozen == self
    }

    fn freeze(self) -> (carrier: Frozen<Self>) {
        Frozen::new(self)
    }
}

impl Unfreezable<u32> for u32 {
    open spec fn thaws_to(frozen: u32, thawed: u32) -> bool {
        thawed == frozen
    }

    fn thaw(wrapped: u32) -> (thawed: Self) {
        wrapped
    }
}

impl FrozenForm for u64 {
    type Frozen = u64;
}

impl Freezable for u64 {
    open spec fn freezes_to(self, frozen: u64) -> bool {
        frozen == self
    }

    fn freeze(self) -> (carrier: Frozen<Self>) {
        Frozen::new(self)
    }
}

impl Unfreezable<u64> for u64 {
    open spec fn thaws_to(frozen: u64, thawed: u64) -> bool {
        thawed == frozen
    }

    fn thaw(wrapped: u64) -> (thawed: Self) {
        wrapped
    }
}

impl FrozenForm for u128 {
    type Frozen = u128;
}

impl Freezable for u128 {
    open spec fn freezes_to(self, frozen: u128) -> bool {
        frozen == self
    }

    fn freeze(self) -> (carrier: Frozen<Self>) {
        Frozen::new(self)
    }
}

impl Unfreezable<u128> for u128 {
    open spec fn thaws_to(frozen: u128, thawed: u128) -> bool {
        thawed == frozen
    }

    fn thaw(wrapped: u128) -> (thawed: Self) {
        wrapped
    }
}

impl FrozenForm for usize {
    type Frozen = usize;
}

impl Freezable for usize {
    open spec fn freezes_to(self, frozen: usize) -> bool {
        frozen == self
    }

    fn freeze(self) -> (carrier: Frozen<Self>) {
        Frozen::new(self)
    }
}

impl Unfreezable<usize> for usize {
    open spec fn thaws_to(frozen: usize, thawed: usize) -> bool {
        thawed == frozen
    }

    fn thaw(wrapped: usize) -> (thawed: Self) {
        wrapped
    }
}

impl<'a> FrozenForm for &'a str {
    type Frozen = &'a str;
}

impl<'a> Freezable for &'a str {
    open spec fn freezes_to(self, frozen: &'a str) -> bool {
        frozen == self
    }

    fn freeze(self) -> (carrier: Frozen<Self>) {
        Frozen::new(self)
    }
}

impl<'a> Unfreezable<&'a str> for &'a str {
    open spec fn thaws_to(frozen: &'a str, thawed: &'a str) -> bool {
        thawed == frozen
    }

    fn thaw(wrapped: &'a str) -> (thawed: Self) {
        wrapped
    }
}

impl FrozenForm for Duration {
    type Frozen = Duration;
}

impl Freezable for Duration {
    open spec fn freezes_to(self, frozen: Duration) -> bool {
        frozen == self
    }

    fn freeze(self) -> (carrier: Frozen<Self>) {
        Frozen::new(self)
    }
}

impl Unfreezable<Duration> for Duration {
    open spec fn thaws_to(frozen: Duration, thawed: Duration) -> bool {
        thawed == frozen
    }

    fn thaw(wrapped: Duration) -> (thawed: Self) {
        wrapped
    }
}

impl<'a, T: Freezable> FrozenForm for &'a T {
    type Frozen = &'a T;
}

/// A shared borrow is already read-only, so it is its own frozen form. The
/// bound on `T` keeps borrows of cells out.
impl<'a, T: Freezable> Freezable for &'a T {
    open spec fn freezes_to(self, frozen: &'a T) -> bool {
        frozen == self
    }

    fn freeze(self) -> (carrier: Frozen<Self>) {
        Frozen::new(self)
    }
}

impl<'a, T: Freezable> Unfreezable<&'a T> for &'a T {
    open spec fn thaws_to(frozen: &'a T, thawed: &'a T) -> bool {
        thawed == frozen
    }

    fn thaw(wrapped: &'a T) -> (thawed: Self) {
        wrapped
    }
}

/// Freezing a scalar, a text slice or a duration and thawing it again gives
/// back the value that was frozen.
pub proof fn lemma_identity_types_round_trip<'a>()
    ensures
        round_trips::<bool>(),
        round_trips::<char>(),
        round_trips::<i8>(),
        round_trips::<i16>(),
        round_trips::<i32>(),
        round_trips::<i64>(),
        round_trips::<i128>(),
        round_trips::<isize>(),
        round_trips::<u8>(),
        round_trips::<u16>(),
        round_trips::<u32>(),
        round_trips::<u64>(),
        round_trips::<u128>(),
        round_trips::<usize>(),
        round_trips::<&'a str>(),
        round_trips::<Duration>(),
{
}

/// A scalar, a text slice or a duration has exactly one frozen form, and no
/// two of them share one.
pub proof fn lemma_identity_types_freeze_one_to_one<'a>()
    ensures
        freezes_uniquely::<bool>() && freezes_apart::<bool>(),
        freezes_uniquely::<char>() && freezes_apart::<char>(),
        freezes_uniquely::<i8>() && freezes_apart::<i8>(),
        freezes_uniquely::<i16>() && freezes_apart::<i16>(),
        freezes_uniquely::<i32>() && freezes_apart::<i32>(),
        freezes_uniquely::<i64>() && freezes_apart::<i64>(),
        freezes_uniquely::<i128>() && freezes_apart::<i128>(),
        freezes_uniquely::<isize>() && freezes_apart::<isize>(),
        freezes_uniquely::<u8>() && freezes_apart::<u8>(),
        freezes_uniquely::<u16>() && freezes_apart::<u16>(),
        freezes_uniquely::<u32>() && freezes_apart::<u32>(),
        freezes_uniquely::<u64>() && freezes_apart::<u64>(),
        freezes_uniquely::<u128>() && freezes_apart::<u128>(),
        freezes_uniquely::<usize>() && freezes_apart::<usize>(),
        freezes_uniquely::<&'a str>() && freezes_apart::<&'a str>(),
        freezes_uniquely::<Duration>() && freezes_apart::<Duration>(),
{
}

/// Freezing a shared borrow and thawing it again gives back the same borrow.
pub proof fn lemma_shared_borrow_round_trips<'a, T: Freezable>()
    ensures
        round_trips::<&'a T>(),
{
}

} // verus!
