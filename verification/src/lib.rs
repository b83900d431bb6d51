//! Strongly typed views over a dynamic host runtime's tagged value handles.
//!
//! The host runtime represents every value as an opaque fixed-width handle
//! and reports the dynamic category of a handle's referent through a type
//! tag. This crate classifies a handle by its tag into a closed sum type
//! with one case per category, and converts such a case back to the handle
//! it wraps.

pub mod typed_value;
pub mod value;
