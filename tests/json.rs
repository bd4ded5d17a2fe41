use std::collections::HashMap;

use kvenv::{decode_env_from_json, value_as_string, EnvLoadError, JsonValue};

fn text(s: &str) -> JsonValue {
    JsonValue::String(s.to_string())
}

fn integer(n: i64) -> JsonValue {
    JsonValue::Number(serde_json::Number::from(n).to_string())
}

fn float(x: f64) -> JsonValue {
    JsonValue::Number(serde_json::Number::from_f64(x).unwrap().to_string())
}

fn object(members: Vec<(&str, JsonValue)>) -> JsonValue {
    JsonValue::Object(members.into_iter().map(|(k, v)| (k.to_string(), v)).collect())
}

fn assert_invalid_secret<T: std::fmt::Debug>(r: Result<T, EnvLoadError>) {
    assert!(matches!(r, Err(EnvLoadError::InvalidSecretFormat)), "{:?}", r);
}

#[test]
fn value_as_string_for_normal_values() {
    assert_eq!("abcd", value_as_string(text("abcd")).unwrap());
    assert_eq!("12", value_as_string(integer(12)).unwrap());
    assert_eq!("12.123", value_as_string(float(12.123)).unwrap());
    assert_eq!("null", value_as_string(JsonValue::Null).unwrap());
    assert_eq!("false", value_as_string(JsonValue::Bool(false)).unwrap());
    assert_eq!("true", value_as_string(JsonValue::Bool(true)).unwrap());
}

#[test]
fn value_as_string_for_arrays_and_objects() {
    assert_invalid_secret(value_as_string(object(vec![("a", integer(123))])));
    assert_invalid_secret(value_as_string(JsonValue::Array(vec![integer(1), integer(2)])));
}

fn assert_decode(value: JsonValue, expected: &[(&str, &str)]) {
    let decoded = decode_env_from_json(value).unwrap();
    let len = decoded.len();
    let mapped = decoded.into_iter().collect::<HashMap<_, _>>();
    for (name, value) in expected {
        assert_eq!(Some(&value.to_string()), mapped.get(*name));
    }
    assert_eq!(expected.len(), len);
}

#[test]
fn decode_env_from_json_correct_values() {
    assert_decode(object(vec![]), &[]);
    assert_decode(object(vec![("a", integer(1))]), &[("a", "1")]);
    assert_decode(
        object(vec![("a", integer(1)), ("b", JsonValue::Bool(true))]),
        &[("a", "1"), ("b", "true")],
    );
    assert_decode(
        object(vec![("a", integer(1)), ("b", JsonValue::Bool(true)), ("c", text("test"))]),
        &[("a", "1"), ("b", "true"), ("c", "test")],
    );
}

#[test]
fn decode_env_from_json_invalid() {
    assert_invalid_secret(decode_env_from_json(JsonValue::Array(vec![integer(1), integer(2)])));
    assert_invalid_secret(decode_env_from_json(text("test")));
    assert_invalid_secret(decode_env_from_json(JsonValue::Bool(false)));
    assert_invalid_secret(decode_env_from_json(JsonValue::Bool(true)));
    assert_invalid_secret(decode_env_from_json(object(vec![("a!", integer(1))])));
    assert_invalid_secret(decode_env_from_json(object(vec![("1a", integer(1))])));
    assert_invalid_secret(decode_env_from_json(object(vec![("a", object(vec![("b", integer(1))]))])));
}

#[test]
fn decode_env_from_json_keeps_document_order() {
    let decoded = decode_env_from_json(object(vec![
        ("B", text("2")),
        ("A", JsonValue::Null),
        ("C", float(0.5)),
    ]))
    .unwrap();
    assert_eq!(
        vec![
            ("B".to_string(), "2".to_string()),
            ("A".to_string(), "null".to_string()),
            ("C".to_string(), "0.5".to_string()),
        ],
        decoded
    );
}

#[test]
fn decode_env_from_json_is_all_or_nothing() {
    assert_invalid_secret(decode_env_from_json(object(vec![
        ("GOOD", text("x")),
        ("ALSO_GOOD", integer(1)),
        ("BAD", JsonValue::Array(vec![])),
    ])));
    assert_invalid_secret(decode_env_from_json(object(vec![
        ("GOOD", text("x")),
        ("bad-name", integer(1)),
    ])));
}
