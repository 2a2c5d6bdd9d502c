//! Rules for the collections of `std`.
pub mod digest;
pub mod hash_map;
pub mod hash_set;
pub mod heap;
pub mod ordered;
pub mod relate;
