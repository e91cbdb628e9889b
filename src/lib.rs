//! Conversion of borrowed data into owned data bounded by `'static`, and the
//! generator that derives those conversions for a type declaration.
//!
//! [`ToBoundedStatic`] builds an owned counterpart from a reference and
//! [`IntoBoundedStatic`] builds one by consuming the value; both are implemented
//! here for the primitive and standard container types. For a struct or enum of
//! one's own, [`derive::generate_traits`] takes a description of the declaration
//! ([`decl`]) and returns the source text of both implementations, or the reason
//! none can be generated.
mod convert;
mod other_types;

pub mod decl;
pub mod derive;
pub mod emit;
pub mod generics;
pub mod laws;
pub mod text;
pub mod validate;

pub use convert::{IntoBoundedStatic, ToBoundedStatic};
