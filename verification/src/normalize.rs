//! The normalizer: from a host value to a JSON value.

use crate::error::{Failure, PyCanonicalJSONError};
use crate::host::{
    entry_models, item_models, FloatModel, FloatProbe, HostKey, HostModel, HostValue, KeyModel,
    StringForm, StringFormModel,
};
use crate::json::Json;
use crate::trusted::{
    conversion_error_text, json_array, json_from_bool, json_from_number, json_from_signed,
    json_from_text, json_from_unsigned, json_model, json_models, json_null, json_object,
    number_json, object_entries,
};
use vstd::prelude::*;
use vstd::string::*;

verus! {

/// The text that stands for a mapping key in a JSON object.
///
/// The none sentinel becomes `null`, a boolean `true` or `false`, and any
/// other key its default string conversion. A key without one is refused by
/// the name of its type.
pub open spec fn coerced_key(k: KeyModel) -> Result<Seq<char>, Failure> {
    match k.none_test {
        Err(error) => Err(Failure::PyErr { error }),
        Ok(true) => Ok("null"@),
        Ok(false) => match k.boolean {
            Some(true) => Ok("true"@),
            Some(false) => Ok("false"@),
            None => match k.string_form {
                StringFormModel::Text(s) => Ok(s),
                StringFormModel::Failed(error) => Err(Failure::PyErr { error }),
                StringFormModel::Unavailable => match k.typename {
                    Ok(typename) => Err(Failure::DictKeyNotSerializable { typename }),
                    Err(error) => Err(Failure::PyErr { error }),
                },
            },
        },
    }
}

/// The JSON content of a host value, or the first failure met on the way.
///
/// The probes are consulted in a fixed order and the first that answers
/// decides: none, text, boolean, unsigned integer, signed integer, mapping,
/// list, tuple, floating point. A value that answers none of them is refused
/// by the name of its type.
pub open spec fn normalized(h: HostModel) -> Result<Json, Failure>
    decreases h, 0nat,
{
    match h.none_test {
        Err(error) => Err(Failure::PyErr { error }),
        Ok(true) => Ok(Json::Null),
        Ok(false) => if h.text is Some {
            Ok(Json::String(h.text->0))
        } else if h.boolean is Some {
            Ok(Json::Bool(h.boolean->0))
        } else if h.unsigned is Some {
            Ok(Json::Integer(h.unsigned->0 as int))
        } else if h.signed is Some {
            Ok(Json::Integer(h.signed->0 as int))
        } else if h.mapping is Some {
            match normalized_entries(h.mapping->0, h.mapping->0.len()) {
                Ok(m) => Ok(Json::Object(m)),
                Err(e) => Err(e),
            }
        } else if h.list is Some {
            match normalized_items(h.list->0, h.list->0.len()) {
                Ok(s) => Ok(Json::Array(s)),
                Err(e) => Err(e),
            }
        } else if h.tuple is Some {
            match normalized_items(h.tuple->0, h.tuple->0.len()) {
                Ok(s) => Ok(Json::Array(s)),
                Err(e) => Err(e),
            }
        } else {
            match h.float {
                FloatModel::Finite(n) => Ok(number_json(n)),
                FloatModel::NonFinite(value) => Err(Failure::InvalidFloat { value }),
                FloatModel::Absent => match h.typename {
                    Ok(typename) => Err(Failure::InvalidCast { typename }),
                    Err(error) => Err(Failure::PyErr { error }),
                },
            }
        },
    }
}

/// The JSON contents of the first `n` items, in their order, or the failure
/// of the first item that has one.
pub open spec fn normalized_items(items: Seq<HostModel>, n: nat) -> Result<Seq<Json>, Failure>
    decreases items, n,
{
    if n == 0 || n > items.len() {
        Ok(Seq::empty())
    } else {
        match normalized_items(items, (n - 1) as nat) {
            Err(e) => Err(e),
            Ok(s) => match normalized(items[n - 1]) {
                Err(e) => Err(e),
                Ok(j) => Ok(s.push(j)),
            },
        }
    }
}

/// The object that the first `n` entries make, or the failure of the first
/// entry that has one; within an entry the key is looked at before the value.
/// Where two keys are coerced to the same text, the later entry replaces the
/// earlier one.
pub open spec fn normalized_entries(entries: Seq<(KeyModel, HostModel)>, n: nat) -> Result<
    Map<Seq<char>, Json>,
    Failure,
>
    decreases entries, n,
{
    if n == 0 || n > entries.len() {
        Ok(Map::empty())
    } else {
        match normalized_entries(entries, (n - 1) as nat) {
            Err(e) => Err(e),
            Ok(m) => match coerced_key(entries[n - 1].0) {
                Err(e) => Err(e),
                Ok(k) => match normalized(entries[n - 1].1) {
                    Err(e) => Err(e),
                    Ok(j) => Ok(m.insert(k, j)),
                },
            },
        }
    }
}

/// Coerces a mapping key to the text that stands for it in a JSON object.
pub fn coerce_key(key: &HostKey) -> (r: Result<String, PyCanonicalJSONError>)
    ensures
        coerced_key(key@) matches Ok(t) ==> (r matches Ok(s) && s@ == t),
        coerced_key(key@) matches Err(e) ==> (r matches Err(f) && f@ == e),
{
    match &key.none_test {
        Err(error) => {
            return Err(PyCanonicalJSONError::PyErr { error: error.clone() });
        },
        Ok(true) => {
            return Ok(String::from_str("null"));
        },
        Ok(false) => {},
    }
    match key.boolean {
        Some(true) => {
            return Ok(String::from_str("true"));
        },
        Some(false) => {
            return Ok(String::from_str("false"));
        },
        None => {},
    }
    match &key.string_form {
        StringForm::Text(s) => Ok(s.clone()),
        StringForm::Failed(error) => Err(PyCanonicalJSONError::PyErr { error: error.clone() }),
        StringForm::Unavailable => match &key.typename {
            Ok(typename) => Err(
                PyCanonicalJSONError::DictKeyNotSerializable { typename: typename.clone() },
            ),
            Err(error) => Err(PyCanonicalJSONError::PyErr { error: error.clone() }),
        },
    }
}

/// Passes on a value that the JSON layer made of a scalar, or reports its
/// refusal as `InvalidConversion`.
pub fn converted(made: Result<serde_json::Value, serde_json::Error>) -> (r: Result<
    serde_json::Value,
    PyCanonicalJSONError,
>)
    ensures
        made matches Ok(v) ==> r == Ok::<serde_json::Value, PyCanonicalJSONError>(v),
        made is Err ==> (r matches Err(f) && f is InvalidConversion),
{
    match made {
        Ok(v) => Ok(v),
        Err(error) => Err(
            PyCanonicalJSONError::InvalidConversion { error: conversion_error_text(&error) },
        ),
    }
}

/// Normalizes a host value into a JSON value.
///
/// Containers are followed to any depth: nothing but the call stack bounds
/// the nesting that can be handled.
pub fn to_json(obj: &HostValue) -> (r: Result<serde_json::Value, PyCanonicalJSONError>)
    ensures
        normalized(obj@) matches Ok(j) ==> (r matches Ok(v) && json_model(v) == j),
        normalized(obj@) matches Err(e) ==> (r matches Err(f) && f@ == e),
    decreases obj, 0nat,
{
    match &obj.none_test {
        Err(error) => {
            return Err(PyCanonicalJSONError::PyErr { error: error.clone() });
        },
        Ok(true) => {
            return Ok(json_null());
        },
        Ok(false) => {},
    }
    if let Some(val) = &obj.text {
        return converted(json_from_text(val.clone()));
    }
    if let Some(val) = obj.boolean {
        return converted(json_from_bool(val));
    }
    if let Some(val) = obj.unsigned {
        return converted(json_from_unsigned(val));
    }
    if let Some(val) = obj.signed {
        return converted(json_from_signed(val));
    }
    if let Some(entries) = &obj.mapping {
        return to_json_object(entries);
    }
    if let Some(items) = &obj.list {
        return to_json_array(items);
    }
    if let Some(items) = &obj.tuple {
        return to_json_array(items);
    }
    match &obj.float {
        FloatProbe::Finite(n) => Ok(json_from_number(n)),
        FloatProbe::NonFinite(value) => Err(
            PyCanonicalJSONError::InvalidFloat { value: value.clone() },
        ),
        FloatProbe::Absent => match &obj.typename {
            Ok(typename) => Err(PyCanonicalJSONError::InvalidCast { typename: typename.clone() }),
            Err(error) => Err(PyCanonicalJSONError::PyErr { error: error.clone() }),
        },
    }
}

/// Normalizes the entries of a host mapping into a JSON object, coercing
/// each key to text.
pub fn to_json_object(entries: &Vec<(HostKey, HostValue)>) -> (r: Result<
    serde_json::Value,
    PyCanonicalJSONError,
>)
    ensures
        normalized_entries(entry_models(entries@), entries.len() as nat) matches Ok(m) ==> (
        r matches Ok(v) && json_model(v) == Json::Object(m)),
        normalized_entries(entry_models(entries@), entries.len() as nat) matches Err(e) ==> (
        r matches Err(f) && f@ == e),
    decreases entries, 1nat,
{
    let mut map = serde_json::Map::new();
    let mut i: usize = 0;
    while i < entries.len()
        invariant
            i <= entries.len(),
            normalized_entries(entry_models(entries@), i as nat) == Ok::<
                Map<Seq<char>, Json>,
                Failure,
            >(object_entries(map)),
        decreases entries.len() - i,
    {
        let key = match coerce_key(&entries[i].0) {
            Ok(key) => key,
            Err(e) => {
                proof {
                    lemma_entries_failure(
                        entry_models(entries@),
                        i as nat + 1,
                        entries.len() as nat,
                    );
                }
                return Err(e);
            },
        };
        let value = match to_json(&entries[i].1) {
            Ok(value) => value,
            Err(e) => {
                proof {
                    lemma_entries_failure(
                        entry_models(entries@),
                        i as nat + 1,
                        entries.len() as nat,
                    );
                }
                return Err(e);
            },
        };
        map.insert(key, value);
        i += 1;
    }
    Ok(json_object(map))
}

/// Normalizes the elements of a host sequence into a JSON array, in their
/// order.
pub fn to_json_array(items: &Vec<HostValue>) -> (r: Result<serde_json::Value, PyCanonicalJSONError>)
    ensures
        normalized_items(item_models(items@), items.len() as nat) matches Ok(s) ==> (r matches Ok(
            v,
        ) && json_model(v) == Json::Array(s)),
        normalized_items(item_models(items@), items.len() as nat) matches Err(e) ==> (r matches Err(
            f,
        ) && f@ == e),
    decreases items, 1nat,
{
    let mut array: Vec<serde_json::Value> = Vec::new();
    let mut i: usize = 0;
    assert(json_models(array@) =~= Seq::empty());
    while i < items.len()
        invariant
            i <= items.len(),
            normalized_items(item_models(items@), i as nat) == Ok::<Seq<Json>, Failure>(
                json_models(array@),
            ),
        decreases items.len() - i,
    {
        let value = match to_json(&items[i]) {
            Ok(value) => value,
            Err(e) => {
                proof {
                    lemma_items_failure(item_models(items@), i as nat + 1, items.len() as nat);
                }
                return Err(e);
            },
        };
        proof {
            assert(json_models(array@.push(value)) =~= json_models(array@).push(json_model(value)));
        }
        array.push(value);
        i += 1;
    }
    Ok(json_array(array))
}

/// A failure among the first `n` items is the failure of every longer prefix.
pub proof fn lemma_items_failure(items: Seq<HostModel>, n: nat, m: nat)
    requires
        n <= m <= items.len(),
        normalized_items(items, n) is Err,
    ensures
        normalized_items(items, m) == normalized_items(items, n),
    decreases m,
{
    if n < m {
        lemma_items_failure(items, n, (m - 1) as nat);
    }
}

/// A failure among the first `n` entries is the failure of every longer
/// prefix.
pub proof fn lemma_entries_failure(entries: Seq<(KeyModel, HostModel)>, n: nat, m: nat)
    requires
        n <= m <= entries.len(),
        normalized_entries(entries, n) is Err,
    ensures
        normalized_entries(entries, m) == normalized_entries(entries, n),
    decreases m,
{
    if n < m {
        lemma_entries_failure(entries, n, (m - 1) as nat);
    }
}

} // verus!
