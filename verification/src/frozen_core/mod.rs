//! Rules for the types of `core`: scalars, text slices, durations, borrows,
//! tuples, arrays and options.
pub mod borrow;
pub mod identity;
pub mod structural;
pub mod tuples;
