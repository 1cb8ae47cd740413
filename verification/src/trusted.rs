//! What is believed of `serde_json` and `canonical_json`, and of the standard
//! formatting of a string, without proof: the types that are carried through,
//! names for what their values hold and for what the encoder gives, and a
//! contract for each call that the library makes.

use crate::json::{plain_text, Json};
use vstd::prelude::*;

verus! {

/// `serde_json::Value`, carried as it is; what it holds is `json_model`.
#[verifier::external_type_specification]
#[verifier::external_body]
pub struct ExValue(serde_json::Value);

/// `serde_json::Map`, carried as it is; what it holds is `object_entries`.
#[verifier::external_type_specification]
#[verifier::external_body]
#[verifier::reject_recursive_types(K)]
#[verifier::reject_recursive_types(V)]
pub struct ExMap<K, V>(serde_json::Map<K, V>);

/// `serde_json::Number`, carried as it is.
#[verifier::external_type_specification]
#[verifier::external_body]
pub struct ExNumber(serde_json::Number);

/// `serde_json::Error`, of which only its text is taken.
#[verifier::external_type_specification]
#[verifier::external_body]
pub struct ExConversionError(serde_json::Error);

/// `canonical_json::ser::CanonicalJSONError`, of which only its text is
/// taken.
#[verifier::external_type_specification]
#[verifier::external_body]
pub struct ExEncodingError(canonical_json::ser::CanonicalJSONError);

/// What a `serde_json::Value` holds.
pub uninterp spec fn json_model(v: serde_json::Value) -> Json;

/// What a `serde_json::Map` holds: the content of each entry, by its key.
pub uninterp spec fn object_entries(m: serde_json::Map<String, serde_json::Value>) -> Map<
    Seq<char>,
    Json,
>;

/// What the JSON value holds that `serde_json::Value::Number` makes of a
/// number: an integer, or a finite floating-point number.
pub uninterp spec fn number_json(n: serde_json::Number) -> Json;

/// The text that `canonical_json::ser::to_string` gives for a value of the
/// given content, or `None` where it reports an error.
pub uninterp spec fn canonical_text(j: Json) -> Option<Seq<char>>;

/// The contents of a sequence of values, one by one.
pub open spec fn json_models(values: Seq<serde_json::Value>) -> Seq<Json> {
    values.map_values(|v: serde_json::Value| json_model(v))
}

/// Gives `serde_json::Value::Null`, whose content is `Json::Null`.
#[verifier::external_body]
pub(crate) fn json_null() -> (v: serde_json::Value)
    ensures
        json_model(v) == Json::Null,
{
    serde_json::Value::Null
}

/// Calls `serde_json::value::to_value` on a `String`. The serializer behind it
/// answers a string with `Ok(Value::String(..))` holding the same text.
#[verifier::external_body]
pub(crate) fn json_from_text(s: String) -> (r: Result<serde_json::Value, serde_json::Error>)
    ensures
        r is Ok,
        r matches Ok(v) ==> json_model(v) == Json::String(s@),
{
    serde_json::value::to_value(s)
}

/// Calls `serde_json::value::to_value` on a `bool`. The serializer behind it
/// answers a boolean with `Ok(Value::Bool(..))`.
#[verifier::external_body]
pub(crate) fn json_from_bool(b: bool) -> (r: Result<serde_json::Value, serde_json::Error>)
    ensures
        r is Ok,
        r matches Ok(v) ==> json_model(v) == Json::Bool(b),
{
    serde_json::value::to_value(b)
}

/// Calls `serde_json::value::to_value` on a `u64`. The serializer behind it
/// answers with `Ok(Value::Number(..))` holding the same integer.
#[verifier::external_body]
pub(crate) fn json_from_unsigned(n: u64) -> (r: Result<serde_json::Value, serde_json::Error>)
    ensures
        r is Ok,
        r matches Ok(v) ==> json_model(v) == Json::Integer(n as int),
{
    serde_json::value::to_value(n)
}

/// Calls `serde_json::value::to_value` on an `i64`. The serializer behind it
/// answers with `Ok(Value::Number(..))` holding the same integer.
#[verifier::external_body]
pub(crate) fn json_from_signed(n: i64) -> (r: Result<serde_json::Value, serde_json::Error>)
    ensures
        r is Ok,
        r matches Ok(v) ==> json_model(v) == Json::Integer(n as int),
{
    serde_json::value::to_value(n)
}

/// Gives `serde_json::Value::Number` of a copy of the number.
#[verifier::external_body]
pub(crate) fn json_from_number(n: &serde_json::Number) -> (v: serde_json::Value)
    ensures
        json_model(v) == number_json(*n),
{
    serde_json::Value::Number(n.clone())
}

/// Gives `serde_json::Value::Array` of the values, in their order.
#[verifier::external_body]
pub(crate) fn json_array(items: Vec<serde_json::Value>) -> (v: serde_json::Value)
    ensures
        json_model(v) == Json::Array(json_models(items@)),
{
    serde_json::Value::Array(items)
}

/// `serde_json::Map::new` gives a map without entries.
pub assume_specification[ serde_json::Map::<String, serde_json::Value>::new ]() -> (m:
    serde_json::Map<String, serde_json::Value>)
    ensures
        object_entries(m) =~= Map::empty(),
;

/// `serde_json::Map::insert` makes the key map to the new value, whether or
/// not the map held the key before, and leaves the other entries as they
/// were. It returns the value that the key had before, if it had one.
pub assume_specification[ serde_json::Map::<String, serde_json::Value>::insert ](
    m: &mut serde_json::Map<String, serde_json::Value>,
    k: String,
    v: serde_json::Value,
) -> (before: Option<serde_json::Value>)
    ensures
        object_entries(*final(m)) == object_entries(*old(m)).insert(k@, json_model(v)),
        before is Some <==> object_entries(*old(m)).dom().contains(k@),
        before matches Some(x) ==> json_model(x) == object_entries(*old(m))[k@],
;

/// Gives `serde_json::Value::Object` of the map.
#[verifier::external_body]
pub(crate) fn json_object(m: serde_json::Map<String, serde_json::Value>) -> (v: serde_json::Value)
    ensures
        json_model(v) == Json::Object(object_entries(m)),
{
    serde_json::Value::Object(m)
}

/// `canonical_json::ser::to_string` gives a text that depends on the content
/// of the value alone: object keys are sorted before they are written. Null,
/// booleans and integers are written by `write_null`, `write_bool`,
/// `write_u64` and `write_i64` of `serde_json::ser::Formatter`, which the
/// formatter of `canonical_json` leaves as they are: the words `null`, `true`
/// and `false`, and the decimal digits that `itoa` gives. An array or object
/// of length zero is opened and closed at once by `serialize_seq` and
/// `serialize_map`. The text of any other value is only named.
pub assume_specification[ canonical_json::ser::to_string ](input: &serde_json::Value) -> (r: Result<
    String,
    canonical_json::ser::CanonicalJSONError,
>)
    ensures
        r matches Ok(s) ==> canonical_text(json_model(*input)) == Some(s@),
        r is Err ==> canonical_text(json_model(*input)) is None,
        r is Err ==> plain_text(json_model(*input)) is None,
        r matches Ok(s) ==> (plain_text(json_model(*input)) matches Some(t) ==> s@ == t),
;

/// Formats a `serde_json::Error` with `{}`.
#[verifier::external_body]
pub(crate) fn conversion_error_text(error: &serde_json::Error) -> String {
    format!("{}", error)
}

/// Formats a `canonical_json::ser::CanonicalJSONError` with `{:?}`.
#[verifier::external_body]
pub(crate) fn encoding_error_text(error: &canonical_json::ser::CanonicalJSONError) -> String {
    format!("{:?}", error)
}

/// What the standard `Debug` formatting of a string slice gives: the text in
/// double quotes, with its escapes.
pub uninterp spec fn debug_quoted(s: Seq<char>) -> Seq<char>;

/// Formats a string slice with `{:?}`, that is with `<str as Debug>::fmt`.
/// The result is only named, not described.
#[verifier::external_body]
pub(crate) fn quote(s: &str) -> (r: String)
    ensures
        r@ == debug_quoted(s@),
{
    format!("{:?}", s)
}

} // verus!
