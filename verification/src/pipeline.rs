//! The per-request pipeline around the interpreter: everything before the
//! sandboxed evaluation, as one step.
//!
//! The pipeline is linear with no way back: parse, resolve bindings,
//! synthesize the wrapper, evaluate, encode. Every stage but the evaluation
//! is deterministic in its inputs and stands here, verified; the evaluation
//! itself is an outside capability, so the caller runs it on a `Prepared`
//! request and hands the outcome to `encode_response`.
use vstd::prelude::*;

use crate::errors::BindingError;
use crate::errors::GatewayError;
use crate::json::is_object_of;
use crate::json::obj_keys_of;
use crate::request::parse_request;
use crate::request::spec_parse_request;
use crate::wrapper::render_script;
use crate::wrapper::wrapper_source;

verus! {

/// Everything the sandboxed evaluation needs: the evaluation unit's source,
/// the snippet, the variables to pass positionally, and the deadline.
pub struct Prepared {
    /// The synthesized evaluation unit: prelude plus the `wrapper` callable.
    pub source: String,
    /// The untrusted snippet, handed to `wrapper` as its first argument.
    pub script: String,
    /// The variable mapping, handed to `wrapper` as its second argument.
    pub variables: serde_json::Value,
    /// Wall-clock budget in milliseconds; 0 means no deadline.
    pub timeout: u64,
}

/// What preparing a request text yields: the evaluation unit's source, the
/// snippet, the variables and the timeout, or the first stage's error.
pub open spec fn spec_prepare(s: Seq<char>) -> Result<
    (Seq<char>, Seq<char>, serde_json::Value, u64),
    GatewayError,
> {
    match spec_parse_request(s) {
        Err(e) => Err(GatewayError::Parse(e)),
        Ok(t) => if !is_object_of(t.1) {
            Err(GatewayError::Binding(BindingError::NotAnObject))
        } else {
            Ok((wrapper_source(obj_keys_of(t.1)), t.0, t.1, t.2))
        },
    }
}

/// Runs every stage ahead of the evaluation: parses the request, resolves
/// its binding names and synthesizes the evaluation unit. The first failing
/// stage's error comes back unchanged; in particular, a `variables` of any
/// non-object shape fails at binding resolution, whatever the script.
pub fn prepare(request: &str) -> (r: Result<Prepared, GatewayError>)
    ensures
        match r {
            Ok(p) => spec_prepare(request@) matches Ok(t) && p.source@ == t.0 && p.script@ == t.1
                && p.variables == t.2 && p.timeout == t.3,
            Err(e) => spec_prepare(request@) matches Err(e2) && e == e2,
        },
{
    let req = match parse_request(request) {
        Ok(req) => req,
        Err(e) => {
            return Err(GatewayError::Parse(e));
        },
    };
    let source = match render_script(&req.variables) {
        Ok(s) => s,
        Err(e) => {
            return Err(GatewayError::Binding(e));
        },
    };
    Ok(Prepared { source, script: req.script, variables: req.variables, timeout: req.timeout })
}

} // verus!
