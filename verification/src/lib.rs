//! A conversion layer that turns parsed attribute syntax into strongly
//! typed values, for use by procedural derive macros.
//!
//! The heart of the crate is the [`FromMetaItem`] trait: a single
//! conversion trait whose dispatch methods decide, from the *shape* of an
//! attribute item (bare word, list of nested items, or name-value pair),
//! which conversion routine to invoke, and how to report a structured
//! [`Error`] when the shape or literal kind does not match what the target
//! type expects.

pub mod error;
pub mod from_meta_item;
pub mod meta;
pub mod syn_impls;

pub use error::Error;
pub use error::ErrorV;
pub use from_meta_item::FromMetaItem;
