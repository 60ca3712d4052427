//! Response encoding: the evaluation's outcome back to wire text.
//!
//! A successful value goes out as its canonical JSON text. A failure goes out
//! as an envelope `{"error":{"kind":...,"message":...}}`, whose top-level
//! `error` discriminant keeps it distinguishable from a legitimate result
//! object. Kind and message are fixed per variant and hold no characters that
//! would need JSON escaping.
use vstd::prelude::*;

use crate::errors::EvalError;
use crate::errors::GatewayError;
use crate::errors::ParseError;
use crate::json::json_text_of;
use crate::json::to_json_string;
use vstd::string::StringExecFns;

verus! {

/// The failure's stage, as the envelope's kind.
pub open spec fn kind_text(e: GatewayError) -> Seq<char> {
    match e {
        GatewayError::Parse(_) => "parse_error"@,
        GatewayError::Binding(_) => "binding_error"@,
        GatewayError::Render(_) => "render_error"@,
        GatewayError::Eval(EvalError::CompileFailure) => "compile_failure"@,
        GatewayError::Eval(EvalError::Timeout) => "timeout"@,
        GatewayError::Eval(EvalError::RuntimeFailure) => "runtime_failure"@,
        GatewayError::Eval(EvalError::UnsupportedResultType) => "unsupported_result_type"@,
    }
}

/// The failure's description, as the envelope's message.
pub open spec fn message_text(e: GatewayError) -> Seq<char> {
    match e {
        GatewayError::Parse(ParseError::Malformed) => "request body is not well-formed JSON"@,
        GatewayError::Parse(ParseError::NotAnObject) => "request body is not a JSON object"@,
        GatewayError::Parse(ParseError::MissingScript) => "field script is absent"@,
        GatewayError::Parse(ParseError::ScriptNotString) => "field script is not a string"@,
        GatewayError::Parse(ParseError::MissingVariables) => "field variables is absent"@,
        GatewayError::Parse(ParseError::TimeoutNotAnInteger) => "field timeout is not an unsigned integer"@,
        GatewayError::Binding(_) => "variables are not a dict"@,
        GatewayError::Render(_) => "wrapper synthesis failed"@,
        GatewayError::Eval(EvalError::CompileFailure) => "evaluation unit did not compile"@,
        GatewayError::Eval(EvalError::Timeout) => "evaluation exceeded its deadline"@,
        GatewayError::Eval(EvalError::RuntimeFailure) => "evaluation failed at runtime"@,
        GatewayError::Eval(EvalError::UnsupportedResultType) => "result has no JSON counterpart"@,
    }
}

/// The error envelope's text.
pub open spec fn envelope_text(e: GatewayError) -> Seq<char> {
    "{\"error\":{\"kind\":\""@ + kind_text(e) + "\",\"message\":\""@ + message_text(e) + "\"}}"@
}

/// The wire text of an outcome: the value's canonical JSON text on success,
/// the error envelope on failure.
pub open spec fn response_text(r: Result<serde_json::Value, GatewayError>) -> Seq<char> {
    match r {
        Ok(v) => json_text_of(v),
        Err(e) => envelope_text(e),
    }
}

/// The envelope's kind for a failure.
fn kind_str(e: &GatewayError) -> (r: &'static str)
    ensures
        r@ == kind_text(*e),
{
    match e {
        GatewayError::Parse(_) => "parse_error",
        GatewayError::Binding(_) => "binding_error",
        GatewayError::Render(_) => "render_error",
        GatewayError::Eval(EvalError::CompileFailure) => "compile_failure",
        GatewayError::Eval(EvalError::Timeout) => "timeout",
        GatewayError::Eval(EvalError::RuntimeFailure) => "runtime_failure",
        GatewayError::Eval(EvalError::UnsupportedResultType) => "unsupported_result_type",
    }
}

/// The envelope's message for a failure.
fn message_str(e: &GatewayError) -> (r: &'static str)
    ensures
        r@ == message_text(*e),
{
    match e {
        GatewayError::Parse(ParseError::Malformed) => "request body is not well-formed JSON",
        GatewayError::Parse(ParseError::NotAnObject) => "request body is not a JSON object",
        GatewayError::Parse(ParseError::MissingScript) => "field script is absent",
        GatewayError::Parse(ParseError::ScriptNotString) => "field script is not a string",
        GatewayError::Parse(ParseError::MissingVariables) => "field variables is absent",
        GatewayError::Parse(ParseError::TimeoutNotAnInteger) => "field timeout is not an unsigned integer",
        GatewayError::Binding(_) => "variables are not a dict",
        GatewayError::Render(_) => "wrapper synthesis failed",
        GatewayError::Eval(EvalError::CompileFailure) => "evaluation unit did not compile",
        GatewayError::Eval(EvalError::Timeout) => "evaluation exceeded its deadline",
        GatewayError::Eval(EvalError::RuntimeFailure) => "evaluation failed at runtime",
        GatewayError::Eval(EvalError::UnsupportedResultType) => "result has no JSON counterpart",
    }
}

/// Serializes an outcome to its wire text. Total: every outcome encodes.
pub fn encode_response(result: &Result<serde_json::Value, GatewayError>) -> (r: String)
    ensures
        r@ == response_text(*result),
{
    match result {
        Ok(v) => to_json_string(v),
        Err(e) => {
            let mut out = String::new();
            out.append("{\"error\":{\"kind\":\"");
            out.append(kind_str(e));
            out.append("\",\"message\":\"");
            out.append(message_str(e));
            out.append("\"}}");
            proof {
                assert(out@ =~= envelope_text(*e));
            }
            out
        },
    }
}

} // verus!
