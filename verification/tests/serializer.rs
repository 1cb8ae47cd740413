use canonical_json::ser::CanonicalJSONError;
use canonicaljson::host::{FloatProbe, HostKey, HostValue, StringForm};
use canonicaljson::serialize::{encode, encoded};
use canonicaljson::{dump, dumps, PyCanonicalJSONError};
use serde_json::{Number, Value};

fn py_object(typename: &str) -> HostValue {
    HostValue::opaque(typename.to_string())
}

fn py_none() -> HostValue {
    HostValue {
        none_test: Ok(true),
        ..py_object("NoneType")
    }
}

fn py_str(s: &str) -> HostValue {
    HostValue {
        text: Some(s.to_string()),
        ..py_object("str")
    }
}

fn py_bool(b: bool) -> HostValue {
    HostValue {
        boolean: Some(b),
        unsigned: Some(b as u64),
        signed: Some(b as i64),
        ..py_object("bool")
    }
}

fn py_int(n: i128) -> HostValue {
    HostValue {
        unsigned: u64::try_from(n).ok(),
        signed: i64::try_from(n).ok(),
        ..py_object("int")
    }
}

fn py_float(x: f64) -> HostValue {
    HostValue {
        float: match Number::from_f64(x) {
            Some(n) => FloatProbe::Finite(n),
            None => FloatProbe::NonFinite(format!("{}", x)),
        },
        ..py_object("float")
    }
}

fn py_list(items: Vec<HostValue>) -> HostValue {
    HostValue {
        list: Some(items),
        ..py_object("list")
    }
}

fn py_tuple(items: Vec<HostValue>) -> HostValue {
    HostValue {
        tuple: Some(items),
        ..py_object("tuple")
    }
}

fn py_dict(entries: Vec<(HostKey, HostValue)>) -> HostValue {
    HostValue {
        mapping: Some(entries),
        ..py_object("dict")
    }
}

fn k_str(s: &str) -> HostKey {
    HostKey {
        none_test: Ok(false),
        boolean: None,
        string_form: StringForm::Text(s.to_string()),
        typename: Ok("str".to_string()),
    }
}

fn k_none() -> HostKey {
    HostKey {
        none_test: Ok(true),
        string_form: StringForm::Text("None".to_string()),
        ..k_str("")
    }
}

fn k_bool(b: bool) -> HostKey {
    HostKey {
        boolean: Some(b),
        string_form: StringForm::Text(if b { "True" } else { "False" }.to_string()),
        ..k_str("")
    }
}

fn k_int(n: i64) -> HostKey {
    HostKey {
        string_form: StringForm::Text(n.to_string()),
        typename: Ok("int".to_string()),
        ..k_str("")
    }
}

fn text_of(h: &HostValue) -> String {
    dumps(h).unwrap()
}

#[test]
fn scalars_are_serialized() {
    assert_eq!(text_of(&py_none()), "null");
    assert_eq!(text_of(&py_bool(true)), "true");
    assert_eq!(text_of(&py_bool(false)), "false");
    assert_eq!(text_of(&py_str("test")), "\"test\"");
    assert_eq!(text_of(&py_str("")), "\"\"");
}

#[test]
fn keys_are_written_in_ascending_order() {
    let h = py_dict(vec![(k_str("b"), py_int(1)), (k_str("a"), py_int(2))]);
    assert_eq!(text_of(&h), "{\"a\":2,\"b\":1}");
    let h = py_dict(vec![(k_str("a"), py_int(2)), (k_str("b"), py_int(1))]);
    assert_eq!(text_of(&h), "{\"a\":2,\"b\":1}");
}

#[test]
fn keys_are_ordered_by_their_bytes() {
    let h = py_dict(vec![
        (k_str("b"), py_int(1)),
        (k_str("a"), py_int(2)),
        (k_str("B"), py_int(3)),
        (k_str("aa"), py_int(4)),
        (k_int(10), py_int(5)),
        (k_int(9), py_int(6)),
    ]);
    assert_eq!(
        text_of(&h),
        "{\"10\":5,\"9\":6,\"B\":3,\"a\":2,\"aa\":4,\"b\":1}"
    );
}

#[test]
fn none_key_is_written_as_null() {
    let h = py_dict(vec![(k_none(), py_int(7))]);
    assert_eq!(text_of(&h), "{\"null\":7}");
}

#[test]
fn none_key_and_null_text_key_collide() {
    let h = py_dict(vec![(k_none(), py_int(1)), (k_str("null"), py_int(2))]);
    assert_eq!(text_of(&h), "{\"null\":2}");
    let h = py_dict(vec![(k_str("null"), py_int(2)), (k_none(), py_int(1))]);
    assert_eq!(text_of(&h), "{\"null\":1}");
}

#[test]
fn boolean_key_is_written_in_lower_case() {
    let h = py_dict(vec![(k_bool(true), py_str("yes"))]);
    assert_eq!(text_of(&h), "{\"true\":\"yes\"}");
    let h = py_dict(vec![(k_bool(false), py_str("no"))]);
    assert_eq!(text_of(&h), "{\"false\":\"no\"}");
}

#[test]
fn non_finite_floats_are_refused() {
    assert_eq!(
        dumps(&py_float(f64::NAN)),
        Err(PyCanonicalJSONError::InvalidFloat { value: "NaN".to_string() })
    );
    assert_eq!(
        dumps(&py_float(f64::INFINITY)),
        Err(PyCanonicalJSONError::InvalidFloat { value: "inf".to_string() })
    );
    assert_eq!(
        dumps(&py_list(vec![py_int(1), py_float(f64::NEG_INFINITY)])),
        Err(PyCanonicalJSONError::InvalidFloat { value: "-inf".to_string() })
    );
}

#[test]
fn finite_floats_keep_a_float_form() {
    assert_eq!(text_of(&py_float(1.0)), "1E0");
    assert_eq!(text_of(&py_float(0.0)), "0E0");
    assert_eq!(text_of(&py_float(23.1)), "2.31E1");
    assert_eq!(text_of(&py_float(-23.0)), "-2.3E1");
    assert_eq!(text_of(&py_float(0.00099)), "9.9E-4");
    assert_eq!(text_of(&py_float(1e21)), "1E21");
    assert_ne!(text_of(&py_float(1.0)), text_of(&py_int(1)));
}

#[test]
fn integers_are_written_minimally() {
    assert_eq!(text_of(&py_int(0)), "0");
    assert_eq!(text_of(&py_int(-5)), "-5");
    assert_eq!(text_of(&py_int(123)), "123");
    assert_eq!(text_of(&py_int(2300)), "2300");
    assert_eq!(text_of(&py_int(u64::MAX as i128)), "18446744073709551615");
    assert_eq!(text_of(&py_int(i64::MIN as i128)), "-9223372036854775808");
}

#[test]
fn empty_containers_are_serialized() {
    assert_eq!(text_of(&py_list(vec![])), "[]");
    assert_eq!(text_of(&py_tuple(vec![])), "[]");
    assert_eq!(text_of(&py_dict(vec![])), "{}");
}

#[test]
fn differently_ordered_mappings_have_one_text() {
    let one = py_dict(vec![
        (k_str("zeta"), py_list(vec![py_int(1), py_int(2)])),
        (k_str("alpha"), py_none()),
        (k_bool(true), py_float(2.5)),
        (k_int(3), py_str("three")),
    ]);
    let other = py_dict(vec![
        (k_int(3), py_str("three")),
        (k_bool(true), py_float(2.5)),
        (k_str("zeta"), py_list(vec![py_int(1), py_int(2)])),
        (k_str("alpha"), py_none()),
    ]);
    assert_eq!(text_of(&one), text_of(&other));
    assert_eq!(
        text_of(&one),
        "{\"3\":\"three\",\"alpha\":null,\"true\":2.5E0,\"zeta\":[1,2]}"
    );
}

#[test]
fn equal_normal_forms_have_one_text() {
    // A tuple and a list of the same elements, and two readings of one
    // integer, are normalized alike.
    let as_list = py_list(vec![py_int(1), py_str("a")]);
    let as_tuple = py_tuple(vec![py_int(1), py_str("a")]);
    assert_eq!(text_of(&as_list), text_of(&as_tuple));
    let unsigned_only = HostValue { unsigned: Some(5), ..py_object("int") };
    let signed_only = HostValue { signed: Some(5), ..py_object("int") };
    assert_eq!(text_of(&unsigned_only), text_of(&signed_only));
    assert_eq!(text_of(&as_list), text_of(&as_list));
}

#[test]
fn unsupported_type_is_named() {
    assert_eq!(
        dumps(&py_object("bytes")),
        Err(PyCanonicalJSONError::InvalidCast { typename: "bytes".to_string() })
    );
    assert_eq!(
        dumps(&py_dict(vec![(k_str("k"), py_list(vec![py_object("set")]))])),
        Err(PyCanonicalJSONError::InvalidCast { typename: "set".to_string() })
    );
}

#[test]
fn nested_structures_are_serialized() {
    let h = py_list(vec![
        py_dict(vec![
            (k_str("b"), py_list(vec![py_int(1), py_int(2)])),
            (k_str("a"), py_list(vec![])),
        ]),
        py_dict(vec![(
            k_str("z"),
            py_tuple(vec![py_dict(vec![
                (k_str("y"), py_none()),
                (k_str("x"), py_list(vec![py_bool(true), py_str("s")])),
            ])]),
        )]),
    ]);
    assert_eq!(
        text_of(&h),
        "[{\"a\":[],\"b\":[1,2]},{\"z\":[{\"x\":[true,\"s\"],\"y\":null}]}]"
    );
}

#[test]
fn no_whitespace_is_added() {
    let h = py_dict(vec![
        (k_str("foo"), py_str("bar baz")),
        (k_str("id"), py_list(vec![py_int(1), py_int(2), py_int(3)])),
    ]);
    assert_eq!(text_of(&h), "{\"foo\":\"bar baz\",\"id\":[1,2,3]}");
}

#[test]
fn strings_are_quoted_and_escaped() {
    assert_eq!(text_of(&py_str("say \"hi\"")), "\"say \\\"hi\\\"\"");
    assert_eq!(text_of(&py_str("back\\slash")), "\"back\\\\slash\"");
    assert_eq!(text_of(&py_str("line\nbreak\ttab")), "\"line\\nbreak\\ttab\"");
    assert_eq!(text_of(&py_str("\u{1}")), "\"\\u0001\"");
    assert_eq!(text_of(&py_str("it's")), "\"it's\"");
    assert_eq!(text_of(&py_str("image/jpeg")), "\"image/jpeg\"");
}

#[test]
fn characters_beyond_ascii_are_escaped_by_the_encoder() {
    assert_eq!(text_of(&py_str("I \u{2764} testing")), "\"I \\u2764 testing\"");
    assert_eq!(text_of(&py_str("\u{e9}")), "\"\\u00e9\"");
    assert_eq!(text_of(&py_str("\u{1d11e}")), "\"\\ud834\\udd1e\"");
    let h = py_dict(vec![(k_str("\u{e9}"), py_str("check"))]);
    assert_eq!(text_of(&h), "{\"\\u00e9\":\"check\"}");
}

#[test]
fn encode_writes_a_json_value() {
    let mut map = serde_json::Map::new();
    map.insert("z".to_string(), Value::from(1u64));
    map.insert("a".to_string(), Value::Array(vec![Value::Null, Value::Bool(true)]));
    assert_eq!(
        encode(&Value::Object(map)),
        Ok("{\"a\":[null,true],\"z\":1}".to_string())
    );
    assert_eq!(encode(&Value::Null), Ok("null".to_string()));
}

#[test]
fn encoder_text_is_passed_on() {
    assert_eq!(encoded(Ok("[1,2]".to_string())), Ok("[1,2]".to_string()));
    assert_eq!(encoded(Ok(String::new())), Ok(String::new()));
}

#[test]
fn encoder_refusal_is_an_invalid_conversion() {
    let refusal = || CanonicalJSONError::Utf8Error(String::from_utf8(vec![0xff]).unwrap_err());
    let expected = format!("{:?}", refusal());
    assert!(expected.starts_with("Utf8Error("));
    assert_eq!(
        encoded(Err(refusal())),
        Err(PyCanonicalJSONError::InvalidConversion { error: expected })
    );
}

#[test]
fn dump_appends_the_whole_text() {
    let mut sink = String::new();
    let h = py_dict(vec![(k_str("b"), py_int(1)), (k_str("a"), py_int(2))]);
    assert_eq!(dump(&h, &mut sink), Ok(()));
    assert_eq!(sink, "{\"a\":2,\"b\":1}");
    assert_eq!(dump(&py_list(vec![]), &mut sink), Ok(()));
    assert_eq!(sink, "{\"a\":2,\"b\":1}[]");
}

#[test]
fn dump_writes_nothing_on_failure() {
    let mut sink = "kept".to_string();
    let h = py_list(vec![py_int(1), py_str("a"), py_object("bytes")]);
    assert_eq!(
        dump(&h, &mut sink),
        Err(PyCanonicalJSONError::InvalidCast { typename: "bytes".to_string() })
    );
    assert_eq!(sink, "kept");
}

#[test]
fn messages_name_the_failure() {
    let e = PyCanonicalJSONError::InvalidConversion { error: "boom".to_string() };
    assert_eq!(e.message(), "Conversion error: \"boom\"");
    let e = PyCanonicalJSONError::InvalidConversion { error: "a \"b\"\n".to_string() };
    assert_eq!(e.message(), "Conversion error: \"a \\\"b\\\"\\n\"");
    let e = PyCanonicalJSONError::PyErr { error: "ValueError: bad".to_string() };
    assert_eq!(e.message(), "Python Runtime exception: ValueError: bad");
    let e = PyCanonicalJSONError::DictKeyNotSerializable { typename: "Weird".to_string() };
    assert_eq!(e.message(), "Dictionary key is not serializable: Weird");
    let e = PyCanonicalJSONError::InvalidFloat { value: "nan".to_string() };
    assert_eq!(e.message(), "Invalid float: nan");
    let e = PyCanonicalJSONError::InvalidCast { typename: "bytes".to_string() };
    assert_eq!(e.message(), "Invalid type: bytes");
}

#[test]
fn failure_of_serialization_has_a_message() {
    let e = dumps(&py_float(f64::NAN)).unwrap_err();
    assert_eq!(e.message(), "Invalid float: NaN");
    let e = dumps(&py_object("bytes")).unwrap_err();
    assert_eq!(e.message(), "Invalid type: bytes");
}
