//! Trusted boundary around `serde_json`.
//!
//! The gateway's data model is `serde_json::Value`. The verified code treats a
//! value as opaque and reads it only through the wrappers below; each wrapper's
//! contract states, over the uninterpreted names, what the named `serde_json`
//! function returns.
use vstd::prelude::*;

verus! {

#[verifier::external_type_specification]
#[verifier::external_body]
pub struct ExValue(serde_json::Value);

#[verifier::external_type_specification]
#[verifier::external_body]
pub struct ExJsonError(serde_json::Error);

/// What `serde_json::from_str::<Value>` returns for a given text: `Some` of
/// the parsed value when the text is well-formed JSON the parser accepts
/// (nesting within its recursion limit), `None` otherwise.
pub uninterp spec fn parsed_json_of(s: Seq<char>) -> Option<serde_json::Value>;

/// Whether a value is a JSON object.
pub uninterp spec fn is_object_of(v: serde_json::Value) -> bool;

/// The keys a JSON object holds, in the map's iteration order.
pub uninterp spec fn obj_keys_of(v: serde_json::Value) -> Seq<Seq<char>>;

/// The value a JSON object holds under a given key.
pub uninterp spec fn obj_val_of(v: serde_json::Value, key: Seq<char>) -> serde_json::Value;

/// What `Value::as_str` returns: the characters of a JSON string value,
/// `None` for every other shape.
pub uninterp spec fn str_of(v: serde_json::Value) -> Option<Seq<char>>;

/// What `Value::as_u64` returns: the number a JSON integer in `u64` range
/// holds, `None` for every other shape.
pub uninterp spec fn u64_of(v: serde_json::Value) -> Option<u64>;

/// What `serde_json::to_string` returns on a `Value`: its canonical JSON text.
pub uninterp spec fn json_text_of(v: serde_json::Value) -> Seq<char>;

/// Relies on `serde_json::from_str::<Value>`: parsing is a function of the
/// text alone, returning `Ok` exactly on the texts it accepts.
#[verifier::external_body]
pub fn parse_json(s: &str) -> (r: Result<serde_json::Value, serde_json::Error>)
    ensures
        match r {
            Ok(v) => parsed_json_of(s@) == Some(v),
            Err(_) => parsed_json_of(s@) is None,
        },
{
    serde_json::from_str(s)
}

/// Relies on `serde_json::Value::is_object`.
#[verifier::external_body]
pub fn value_is_object(v: &serde_json::Value) -> (r: bool)
    ensures
        r == is_object_of(*v),
{
    v.is_object()
}

/// Relies on `serde_json::Value::as_object` and `serde_json::Map::keys`: an
/// object's keys come out in the map's iteration order.
#[verifier::external_body]
pub fn object_keys(v: &serde_json::Value) -> (r: Vec<String>)
    requires
        is_object_of(*v),
    ensures
        r@.map_values(|s: String| s@) == obj_keys_of(*v),
{
    v.as_object().unwrap().keys().cloned().collect()
}

/// Relies on `serde_json::Value::get` with a string index: `Some` of the held
/// value exactly when the value is an object holding the key.
#[verifier::external_body]
pub fn value_get<'a>(v: &'a serde_json::Value, key: &str) -> (r: Option<&'a serde_json::Value>)
    ensures
        match r {
            Some(w) => is_object_of(*v) && obj_keys_of(*v).contains(key@) && *w == obj_val_of(
                *v,
                key@,
            ),
            None => !(is_object_of(*v) && obj_keys_of(*v).contains(key@)),
        },
{
    v.get(key)
}

/// Relies on `serde_json::Value::as_str`.
#[verifier::external_body]
pub fn value_as_str<'a>(v: &'a serde_json::Value) -> (r: Option<&'a str>)
    ensures
        match r {
            Some(s) => str_of(*v) == Some(s@),
            None => str_of(*v) is None,
        },
{
    v.as_str()
}

/// Relies on `serde_json::Value::as_u64`.
#[verifier::external_body]
pub fn value_as_u64(v: &serde_json::Value) -> (r: Option<u64>)
    ensures
        r == u64_of(*v),
{
    v.as_u64()
}

/// Relies on `<serde_json::Value as Clone>::clone`, which copies the value
/// structurally.
#[verifier::external_body]
pub fn value_clone(v: &serde_json::Value) -> (r: serde_json::Value)
    ensures
        r == *v,
{
    v.clone()
}

/// Relies on `serde_json::to_string`, which cannot fail on a `Value` (every
/// `Value` serializes, and object keys are strings).
#[verifier::external_body]
pub fn to_json_string(v: &serde_json::Value) -> (r: String)
    ensures
        r@ == json_text_of(*v),
{
    serde_json::to_string(v).unwrap()
}

} // verus!
