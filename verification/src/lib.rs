//! Canonical JSON for values of a dynamic host language.
//!
//! A host value is first normalized into a JSON value and then encoded as
//! canonical text. [`normalize`] holds the first step, with the rules by which
//! a host value gets its JSON shape and a mapping key its text; [`serialize`]
//! the second step and the two entry points, [`dumps`] and [`dump`]. [`host`]
//! describes what is asked of a host value and [`json`] what a JSON value
//! holds; [`trusted`] is all that is taken on trust of the crates that make
//! and encode JSON values; [`laws`] states what follows for every input.

pub mod decimal;
pub mod error;
pub mod host;
pub mod json;
pub mod laws;
pub mod normalize;
pub mod serialize;
pub mod trusted;

pub use error::PyCanonicalJSONError;
pub use serialize::{dump, dumps};
