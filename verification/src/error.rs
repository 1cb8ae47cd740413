//! The failures of serialization and their reports.

use crate::trusted::{debug_quoted, quote};
use vstd::prelude::*;
use vstd::string::*;

verus! {

/// Why a host value could not be serialized.
#[derive(Debug, PartialEq, Eq)]
pub enum PyCanonicalJSONError {
    /// The JSON layer refused a value; `error` is its report.
    InvalidConversion { error: String },
    /// A capability of the host failed while it was consulted; `error` is the
    /// host's report, passed on as it came.
    PyErr { error: String },
    /// A mapping key whose type offers no string conversion.
    DictKeyNotSerializable { typename: String },
    /// A floating-point scalar that is NaN or infinite; `value` is the host's
    /// rendering of it.
    InvalidFloat { value: String },
    /// A value whose type has no JSON shape.
    InvalidCast { typename: String },
}

/// The content of a [`PyCanonicalJSONError`].
pub enum Failure {
    InvalidConversion { error: Seq<char> },
    PyErr { error: Seq<char> },
    DictKeyNotSerializable { typename: Seq<char> },
    InvalidFloat { value: Seq<char> },
    InvalidCast { typename: Seq<char> },
}

impl View for PyCanonicalJSONError {
    type V = Failure;

    open spec fn view(&self) -> Failure {
        match self {
            PyCanonicalJSONError::InvalidConversion { error } => Failure::InvalidConversion {
                error: error@,
            },
            PyCanonicalJSONError::PyErr { error } => Failure::PyErr { error: error@ },
            PyCanonicalJSONError::DictKeyNotSerializable {
                typename,
            } => Failure::DictKeyNotSerializable { typename: typename@ },
            PyCanonicalJSONError::InvalidFloat { value } => Failure::InvalidFloat { value: value@ },
            PyCanonicalJSONError::InvalidCast { typename } => Failure::InvalidCast {
                typename: typename@,
            },
        }
    }
}

impl Failure {
    /// The one-line report shown to the caller.
    pub open spec fn message(self) -> Seq<char> {
        match self {
            Failure::InvalidConversion { error } => "Conversion error: "@ + debug_quoted(error),
            Failure::PyErr { error } => "Python Runtime exception: "@ + error,
            Failure::DictKeyNotSerializable {
                typename,
            } => "Dictionary key is not serializable: "@ + typename,
            Failure::InvalidFloat { value } => "Invalid float: "@ + value,
            Failure::InvalidCast { typename } => "Invalid type: "@ + typename,
        }
    }
}

impl PyCanonicalJSONError {
    /// The one-line report shown to the caller.
    pub fn message(&self) -> (r: String)
        ensures
            r@ == self@.message(),
    {
        match self {
            PyCanonicalJSONError::InvalidConversion { error } => {
                let quoted = quote(error.as_str());
                String::from_str("Conversion error: ").concat(quoted.as_str())
            },
            PyCanonicalJSONError::PyErr { error } => {
                String::from_str("Python Runtime exception: ").concat(error.as_str())
            },
            PyCanonicalJSONError::DictKeyNotSerializable { typename } => {
                String::from_str("Dictionary key is not serializable: ").concat(typename.as_str())
            },
            PyCanonicalJSONError::InvalidFloat { value } => {
                String::from_str("Invalid float: ").concat(value.as_str())
            },
            PyCanonicalJSONError::InvalidCast { typename } => {
                String::from_str("Invalid type: ").concat(typename.as_str())
            },
        }
    }
}

} // verus!
