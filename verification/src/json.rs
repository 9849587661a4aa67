//! Trusted boundary around serde_json.  The bridge treats JSON payloads as
//! opaque structured values: it reads a handful of top-level fields to
//! classify inbound traffic and otherwise carries values through unmodified.
//! Each function here wraps exactly one serde_json operation.

use vstd::prelude::*;

verus! {

#[verifier::external_type_specification]
#[verifier::external_body]
pub struct ExValue(serde_json::Value);

/// Whether serde_json accepts a piece of text as a JSON document; the answer
/// is a function of the text alone.
pub uninterp spec fn json_wellformed(s: Seq<char>) -> bool;

/// Relies on serde_json::from_str: a line parses to a value exactly when it
/// is well-formed JSON.
#[verifier::external_body]
pub(crate) fn parse_json(line: &str) -> (r: Option<serde_json::Value>)
    ensures
        r.is_some() == json_wellformed(line@),
{
    serde_json::from_str::<serde_json::Value>(line).ok()
}

/// Relies on serde_json::Value::get: looks a key up when the value is an
/// object, and returns `None` on any other value or an absent key.
#[verifier::external_body]
pub(crate) fn value_get<'a>(v: &'a serde_json::Value, key: &str) -> (r: Option<
    &'a serde_json::Value,
>) {
    v.get(key)
}

/// Relies on serde_json::Value::as_str: the content of a JSON string,
/// `None` for any other value.
#[verifier::external_body]
pub(crate) fn value_as_string(v: &serde_json::Value) -> (r: Option<String>) {
    match v.as_str() {
        Some(s) => Some(s.to_owned()),
        None => None,
    }
}

/// Relies on serde_json::Value::is_null.
#[verifier::external_body]
pub(crate) fn value_is_null(v: &serde_json::Value) -> (r: bool) {
    v.is_null()
}

/// Relies on serde_json::Value's Clone implementation.
#[verifier::external_body]
pub(crate) fn value_clone(v: &serde_json::Value) -> (r: serde_json::Value) {
    v.clone()
}

/// Relies on serde_json::Value::Null being the unit variant for JSON null.
#[verifier::external_body]
pub(crate) fn value_null() -> (r: serde_json::Value) {
    serde_json::Value::Null
}

/// Relies on serde_json::to_string: the compact formatter writes no
/// formatting whitespace and escapes control characters inside strings, so
/// the rendering of a value never contains a raw newline.  Serializing a
/// `Value` cannot fail; the error arm is unreachable and yields an empty
/// string, which also satisfies the contract.
#[verifier::external_body]
pub(crate) fn render_value(v: &serde_json::Value) -> (r: String)
    ensures
        forall|i: int| 0 <= i < r@.len() ==> r@[i] != '\n',
{
    match serde_json::to_string(v) {
        Ok(s) => s,
        Err(_) => String::new(),
    }
}

} // verus!
