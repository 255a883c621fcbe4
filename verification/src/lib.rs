//! Singly-linked lists under three ownership disciplines.
//!
//! * [`first`]: a stack of `i32` that owns its nodes exclusively.
//! * [`second`]: a generic stack that owns its nodes exclusively and can be
//!   walked by value, by shared reference and by mutable reference.
//! * [`third`]: an immutable, persistent list whose versions share their
//!   common suffixes through reference-counted nodes.
//!
//! Every list is modelled by the sequence of its elements, head first, and
//! every operation is specified over that sequence with the functions of
//! [`model`]. Every list frees its nodes in a loop, so that dropping a long
//! list does not recurse along it.

pub mod first;
pub mod model;
pub mod second;
pub mod third;
