//! Rules for the types of `std`.
pub mod boxed;
pub mod cell;
pub mod collections;
pub mod string;
