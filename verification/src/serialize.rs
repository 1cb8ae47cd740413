//! The encoder and the two entry points built on it.

use crate::error::PyCanonicalJSONError;
use crate::host::{HostModel, HostValue};
use crate::json::{plain_text, Json};
use crate::trusted::{canonical_text, encoding_error_text, json_model};
use crate::normalize::{normalized, to_json};
use vstd::prelude::*;
use vstd::string::*;

verus! {

/// The canonical text of a JSON content, or `None` where it has none: its
/// plain text where it has one, and otherwise what the encoder gives.
pub open spec fn encoded_text(j: Json) -> Option<Seq<char>> {
    if plain_text(j) is Some {
        plain_text(j)
    } else {
        canonical_text(j)
    }
}

/// The canonical text of a host value, or `None` where the value has none:
/// where it cannot be normalized, or where the encoder refuses its normal
/// form.
pub open spec fn serialized(h: HostModel) -> Option<Seq<char>> {
    match normalized(h) {
        Ok(j) => encoded_text(j),
        Err(_) => None,
    }
}

/// Passes on the text that the encoder gave, or reports its refusal as
/// `InvalidConversion`.
pub fn encoded(outcome: Result<String, canonical_json::ser::CanonicalJSONError>) -> (r: Result<
    String,
    PyCanonicalJSONError,
>)
    ensures
        outcome matches Ok(s) ==> r == Ok::<String, PyCanonicalJSONError>(s),
        outcome is Err ==> (r matches Err(f) && f is InvalidConversion),
{
    match outcome {
        Ok(s) => Ok(s),
        Err(error) => Err(
            PyCanonicalJSONError::InvalidConversion { error: encoding_error_text(&error) },
        ),
    }
}

/// Encodes a JSON value as canonical text: all of it, or a refusal and no
/// text.
pub fn encode(value: &serde_json::Value) -> (r: Result<String, PyCanonicalJSONError>)
    ensures
        encoded_text(json_model(*value)) matches Some(t) ==> (r matches Ok(s) && s@ == t),
        encoded_text(json_model(*value)) is None ==> (r matches Err(f) && f is InvalidConversion),
{
    encoded(canonical_json::ser::to_string(value))
}

/// Serializes a host value to canonical JSON text: normalizes it, then
/// encodes its normal form.
pub fn dumps(obj: &HostValue) -> (r: Result<String, PyCanonicalJSONError>)
    ensures
        serialized(obj@) matches Some(t) ==> (r matches Ok(s) && s@ == t),
        normalized(obj@) matches Err(e) ==> (r matches Err(f) && f@ == e),
        normalized(obj@) is Ok && serialized(obj@) is None ==> (r matches Err(f)
            && f is InvalidConversion),
{
    match to_json(obj) {
        Ok(v) => encode(&v),
        Err(e) => Err(e),
    }
}

/// Serializes a host value and appends the text to `fp` in one piece. Where
/// serialization fails, `fp` is left as it was.
pub fn dump(obj: &HostValue, fp: &mut String) -> (r: Result<(), PyCanonicalJSONError>)
    ensures
        serialized(obj@) matches Some(t) ==> (r is Ok && final(fp)@ == old(fp)@ + t),
        normalized(obj@) matches Err(e) ==> (r matches Err(f) && f@ == e && final(fp)@ == old(
            fp,
        )@),
        normalized(obj@) is Ok && serialized(obj@) is None ==> (r matches Err(f)
            && f is InvalidConversion && final(fp)@ == old(fp)@),
{
    match dumps(obj) {
        Ok(s) => {
            fp.append(s.as_str());
            Ok(())
        },
        Err(e) => Err(e),
    }
}

} // verus!
