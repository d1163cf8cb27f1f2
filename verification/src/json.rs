//! The decoded form of a delivery's JSON text, and the trusted parse that
//! produces it.
//!
//! The drain reads integers, strings, arrays and objects; any other shape
//! (a non-integer number, an integer outside the signed 64-bit range) is kept
//! only as [`JsonValue::Other`], which no decoder accepts.

use vstd::prelude::*;

verus! {

/// One parsed JSON value. Object members keep the parser's order.
#[derive(Debug, PartialEq)]
pub enum JsonValue {
    Null,
    Bool(bool),
    Int(i64),
    Str(String),
    Arr(Vec<JsonValue>),
    Obj(Vec<(String, JsonValue)>),
    /// A value of a shape the drain does not read.
    Other,
}

#[verifier::external_type_specification]
#[verifier::external_body]
pub struct ExValue(serde_json::Value);

/// What parsing a byte sequence yields: nothing for text that is not valid
/// JSON (or not valid UTF-8), and otherwise a single value. Parsing is a
/// function of the bytes alone; it is named here, never written out.
pub uninterp spec fn parsed_json(bytes: Seq<u8>) -> Option<JsonValue>;

/// Relies on serde_json::Value and its match arms: each JSON shape is carried
/// over one for one; a number becomes an integer exactly when it is one in
/// the signed 64-bit range, and any other number is out of the drain's shape.
#[verifier::external_body]
fn value_to_json(v: &serde_json::Value) -> JsonValue {
    match v {
        serde_json::Value::Null => JsonValue::Null,
        serde_json::Value::Bool(b) => JsonValue::Bool(*b),
        serde_json::Value::Number(n) => match n.as_i64() {
            Some(i) => JsonValue::Int(i),
            None => JsonValue::Other,
        },
        serde_json::Value::String(s) => JsonValue::Str(s.clone()),
        serde_json::Value::Array(a) => JsonValue::Arr(a.iter().map(value_to_json).collect()),
        serde_json::Value::Object(m) => JsonValue::Obj(
            m.iter().map(|(k, x)| (k.clone(), value_to_json(x))).collect(),
        ),
    }
}

/// Relies on serde_json::from_slice: it parses the bytes as one JSON document,
/// rejecting invalid UTF-8 and invalid JSON; the result is a function of the
/// bytes alone, with object members in serde_json's order (sorted by key).
#[verifier::external_body]
pub(crate) fn parse_json(bytes: &Vec<u8>) -> (r: Option<JsonValue>)
    ensures
        r == parsed_json(bytes@),
{
    serde_json::from_slice::<serde_json::Value>(bytes.as_slice()).ok().map(|v| value_to_json(&v))
}

} // verus!
