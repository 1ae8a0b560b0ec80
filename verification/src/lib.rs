//! Derive expansions for `Tuplike`, `Isomorphism`, `Reflica` and `IntoWrap`.
//!
//! A derive is a function from a type declaration to the impls that are
//! generated for it. Here the declaration is plain data ([`model`]) and what
//! is generated is source text ([`text`]), so that each expansion has a
//! contract that says, token by token, what is written and when a
//! declaration is refused ([`Error`]). The Rust parser is asked for what only
//! it can tell ([`syntax`]); a procedural macro describes the declaration,
//! calls one of the four expansions and hands the text to the compiler.
//!
//! The traits that the generated impls refer to are here as well.

pub mod error;
pub mod format;
pub mod intowrap;
pub mod isomorphism;
pub mod model;
pub mod reflica;
pub mod syntax;
pub mod text;
pub mod tuplike;

pub use error::Error;
pub use intowrap::{impl_intowrap_macro, IntoWrap};
pub use isomorphism::{impl_isomorphism_macro, Isomorphism};
pub use reflica::{get_ref_fields, impl_reflica_macro, Reflica};
pub use tuplike::{expanded_tuple_argument, get_tokens, impl_tuplike_macro, Tuplike};
