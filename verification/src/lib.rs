//! Tag types for sum types.
//!
//! Given the declaration of a sum type, this library derives a companion tag
//! type (one payload-free case per variant) and the binding that classifies
//! every instance of the sum type by its case.
//!
//! - [`schema`]: a type declaration as plain values.
//! - [`extract`]: reads a declaration as a sum type, or refuses it
//!   ([`error`]).
//! - [`synth`]: derives the tag type of a sum type.
//! - [`bind`]: binds a sum type to its tag type, and says how the binding
//!   classifies an instance.
//! - [`generics`], [`emit`], [`text`]: the declarations as source text.
//! - [`derive`]: the derivation from declaration to source text.
//! - [`laws`]: what holds of every derivation.

pub mod bind;
pub mod derive;
pub mod emit;
pub mod error;
pub mod extract;
pub mod generics;
pub mod laws;
pub mod schema;
pub mod synth;
pub mod text;

use vstd::prelude::*;

verus! {

/// Implemented by sum types that have a tag type.
///
/// The tag of a value says which variant the value is, and nothing about the
/// data the variant carries.
pub trait EnumTag {
    /// The tag type: one payload-free case per variant of `Self`.
    type Tag;

    /// Returns the tag of `self`.
    fn tag(&self) -> Self::Tag;
}

} // verus!
