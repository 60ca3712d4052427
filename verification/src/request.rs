//! The request model: the validated shape of an evaluation request.
//!
//! The wire payload is a JSON object with a `script` string, a `variables`
//! value (any JSON shape here; the binding resolver rejects non-objects) and
//! an optional unsigned `timeout` in milliseconds. A `timeout` of 0 — also
//! the default when the field is absent — means no deadline is enforced: the
//! evaluation may run unbounded, which operators should treat as a deliberate
//! choice, not a safe one.
use vstd::prelude::*;

use crate::errors::ParseError;
use crate::json::is_object_of;
use crate::json::obj_keys_of;
use crate::json::obj_val_of;
use crate::json::parse_json;
use crate::json::parsed_json_of;
use crate::json::str_of;
use crate::json::u64_of;
use crate::json::value_as_str;
use crate::json::value_as_u64;
use crate::json::value_clone;
use crate::json::value_get;
use crate::json::value_is_object;

verus! {

/// A validated evaluation request.
pub struct Request {
    /// The untrusted snippet to evaluate; opaque text, never parsed here.
    pub script: String,
    /// The variable mapping offered to the snippet.
    pub variables: serde_json::Value,
    /// Wall-clock budget in milliseconds; 0 means no deadline.
    pub timeout: u64,
}

/// What turning a parsed JSON value into a request yields: the script's
/// characters, the variables value and the timeout, or the exact error.
pub open spec fn spec_request_of(v: serde_json::Value) -> Result<
    (Seq<char>, serde_json::Value, u64),
    ParseError,
> {
    if !is_object_of(v) {
        Err(ParseError::NotAnObject)
    } else if !obj_keys_of(v).contains("script"@) {
        Err(ParseError::MissingScript)
    } else if str_of(obj_val_of(v, "script"@)) is None {
        Err(ParseError::ScriptNotString)
    } else if !obj_keys_of(v).contains("variables"@) {
        Err(ParseError::MissingVariables)
    } else if obj_keys_of(v).contains("timeout"@) && u64_of(obj_val_of(v, "timeout"@)) is None {
        Err(ParseError::TimeoutNotAnInteger)
    } else {
        Ok(
            (
                str_of(obj_val_of(v, "script"@)).unwrap(),
                obj_val_of(v, "variables"@),
                if obj_keys_of(v).contains("timeout"@) {
                    u64_of(obj_val_of(v, "timeout"@)).unwrap()
                } else {
                    0u64
                },
            ),
        )
    }
}

/// What parsing a request text yields: `Malformed` when the text is not
/// JSON, otherwise the request the parsed value describes.
pub open spec fn spec_parse_request(s: Seq<char>) -> Result<
    (Seq<char>, serde_json::Value, u64),
    ParseError,
> {
    match parsed_json_of(s) {
        None => Err(ParseError::Malformed),
        Some(v) => spec_request_of(v),
    }
}

/// Builds the request a parsed JSON value describes, validating each field's
/// presence and primitive kind.
pub fn request_from_value(v: &serde_json::Value) -> (r: Result<Request, ParseError>)
    ensures
        match r {
            Ok(req) => spec_request_of(*v) matches Ok(t) && req.script@ == t.0 && req.variables
                == t.1 && req.timeout == t.2,
            Err(e) => spec_request_of(*v) matches Err(e2) && e == e2,
        },
{
    if !value_is_object(v) {
        return Err(ParseError::NotAnObject);
    }
    let script_value = match value_get(v, "script") {
        Some(w) => w,
        None => {
            return Err(ParseError::MissingScript);
        },
    };
    let script = match value_as_str(script_value) {
        Some(s) => s,
        None => {
            return Err(ParseError::ScriptNotString);
        },
    };
    let variables = match value_get(v, "variables") {
        Some(w) => w,
        None => {
            return Err(ParseError::MissingVariables);
        },
    };
    let timeout: u64 = match value_get(v, "timeout") {
        None => 0,
        Some(t) => match value_as_u64(t) {
            Some(n) => n,
            None => {
                return Err(ParseError::TimeoutNotAnInteger);
            },
        },
    };
    Ok(Request { script: script.to_owned(), variables: value_clone(variables), timeout })
}

/// Parses the wire payload into a validated request; fails with the exact
/// `ParseError` when the payload is not well-formed JSON, is not an object,
/// or a required field is absent or of the wrong primitive kind.
pub fn parse_request(request: &str) -> (r: Result<Request, ParseError>)
    ensures
        match r {
            Ok(req) => spec_parse_request(request@) matches Ok(t) && req.script@ == t.0
                && req.variables == t.1 && req.timeout == t.2,
            Err(e) => spec_parse_request(request@) matches Err(e2) && e == e2,
        },
{
    match parse_json(request) {
        Ok(v) => request_from_value(&v),
        Err(_) => Err(ParseError::Malformed),
    }
}

} // verus!
