//! Finding the largest element of a slice, and the longer of two strings.
pub mod generics;
pub mod lifetime;
pub mod no_generics;
