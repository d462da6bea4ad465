//! A bridge from generic structured data to a dynamically typed tree value
//! modelled on R's object system, together with an NA-aware integer vector.
//!
//! The [`robj`] module holds the tree value itself; [`serializer`] holds the
//! adapter and the compound builders that assemble tree values; [`integers`]
//! holds the integer vector wrapper.

pub mod integers;
pub mod robj;
pub mod serializer;
