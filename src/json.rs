use vstd::prelude::*;

verus! {

/// A decoded JSON value. Numbers keep their JSON text, so that no
/// precision is lost and no floating point is needed to carry them.
#[derive(Debug)]
pub enum Json {
    Null,
    Bool(bool),
    Number(String),
    Str(String),
    Array(Vec<Json>),
    Object(Vec<(String, Json)>),
}

#[verifier::external_type_specification]
#[verifier::external_body]
pub struct ExValue(serde_json::Value);

/// The value that a JSON text decodes to, or `None` where the bytes are
/// not one well-formed JSON text.
pub uninterp spec fn json_of(b: Seq<u8>) -> Option<Json>;

/// Relies on serde_json::from_slice::<serde_json::Value>: it decodes the
/// bytes as one JSON text, or fails. The decoded value is copied into a
/// `Json` variant for variant.
#[verifier::external_body]
pub(crate) fn decode_json(b: &[u8]) -> (r: Option<Json>)
    ensures
        r == json_of(b@),
{
    serde_json::from_slice::<serde_json::Value>(b).ok().map(copy_value)
}

/// Copies a serde_json::Value into a `Json`, variant for variant. Relies on
/// the `Display` of serde_json::Number for the text a number keeps.
#[verifier::external_body]
fn copy_value(v: serde_json::Value) -> Json {
    match v {
        serde_json::Value::Null => Json::Null,
        serde_json::Value::Bool(b) => Json::Bool(b),
        serde_json::Value::Number(n) => Json::Number(n.to_string()),
        serde_json::Value::String(s) => Json::Str(s),
        serde_json::Value::Array(a) => Json::Array(a.into_iter().map(copy_value).collect()),
        serde_json::Value::Object(o) => Json::Object(
            o.into_iter().map(|(k, v)| (k, copy_value(v))).collect(),
        ),
    }
}

} // verus!
