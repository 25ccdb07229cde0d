//! The boundary to the JSON tree reader.  Payloads the device sends are
//! JSON text; these declarations let verified code walk the parsed tree.
//! A `serde_json::Value` is opaque here: nothing is assumed about what a
//! given document holds, so every caller must treat each lookup as free
//! to fail, and all exact contracts live in the functions that take the
//! extracted plain values.

use vstd::prelude::*;

verus! {

#[verifier::external_type_specification]
#[verifier::external_body]
pub struct ExJsonValue(serde_json::Value);

#[verifier::external_type_specification]
#[verifier::external_body]
pub struct ExJsonNumber(serde_json::Number);

/// Parses JSON text into a tree of values.
///
/// Relies on `serde_json::from_str::<Value>`, which succeeds exactly on
/// well-formed JSON text.
#[verifier::external_body]
pub fn json_parse(s: &str) -> (r: Option<serde_json::Value>) {
    serde_json::from_str(s).ok()
}

/// Member of a JSON object under the given key.
///
/// Relies on `serde_json::Value::get`, which returns the member when the
/// value is an object holding the key, and `None` otherwise.
#[verifier::external_body]
pub fn json_get<'a>(v: &'a serde_json::Value, key: &str) -> (r: Option<&'a serde_json::Value>) {
    v.get(key)
}

/// The elements of a JSON array.
///
/// Relies on `serde_json::Value::as_array`, which returns the vector of
/// elements when the value is an array, and `None` otherwise.
#[verifier::external_body]
pub fn json_as_array<'a>(v: &'a serde_json::Value) -> (r: Option<&'a Vec<serde_json::Value>>) {
    v.as_array()
}

/// The text of a JSON string value.
///
/// Relies on `serde_json::Value::as_str`, which returns the text when the
/// value is a string, and `None` otherwise.
#[verifier::external_body]
pub fn json_as_str<'a>(v: &'a serde_json::Value) -> (r: Option<&'a str>) {
    v.as_str()
}

/// The value of a JSON integer that fits an `i64`.
///
/// Relies on `serde_json::Value::as_i64`, which returns the value when
/// the number is an integer in range, and `None` otherwise.
#[verifier::external_body]
pub fn json_as_i64(v: &serde_json::Value) -> (r: Option<i64>) {
    v.as_i64()
}

/// The value of a JSON boolean.
///
/// Relies on `serde_json::Value::as_bool`.
#[verifier::external_body]
pub fn json_as_bool(v: &serde_json::Value) -> (r: Option<bool>) {
    v.as_bool()
}

/// The number a JSON value holds, when it is one.
///
/// Relies on `serde_json::Value::as_number`.
#[verifier::external_body]
pub fn json_as_number(v: &serde_json::Value) -> (r: Option<&serde_json::Number>) {
    v.as_number()
}

/// The text of a JSON number's value.
///
/// Relies on `serde_json::Number`'s `Display` impl (via `ToString`),
/// which writes integers exactly and other numbers in the shortest
/// decimal form that reads back to the same value (exponent notation
/// for extreme magnitudes, which the callers here treat as unreadable).
#[verifier::external_body]
pub fn json_number_text(n: &serde_json::Number) -> (r: String) {
    n.to_string()
}

/// The text of a string member of a JSON object: `None` when the key is
/// missing or its value is not a string.
pub fn json_string_member(v: &serde_json::Value, key: &str) -> (r: Option<String>) {
    match json_get(v, key) {
        Some(m) => match json_as_str(m) {
            Some(s) => Some(s.to_owned()),
            None => None,
        },
        None => None,
    }
}

/// The decimal text of a number member of a JSON object: `None` when the
/// key is missing or its value is not a number.
pub fn json_number_member_text(v: &serde_json::Value, key: &str) -> (r: Option<String>) {
    match json_get(v, key) {
        Some(m) => match json_as_number(m) {
            Some(n) => Some(json_number_text(n)),
            None => None,
        },
        None => None,
    }
}

} // verus!
