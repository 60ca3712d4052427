//! The gateway's error taxonomy. Every failure is terminal for its request
//! and propagates to the response encoder as a structured value.
use vstd::prelude::*;

verus! {

/// The request body could not be turned into an evaluation request.
#[derive(Clone, Copy, Debug, PartialEq, Eq, Structural)]
pub enum ParseError {
    /// The body is not well-formed JSON.
    Malformed,
    /// The body is JSON but not an object.
    NotAnObject,
    /// The `script` field is absent.
    MissingScript,
    /// The `script` field is present but not a string.
    ScriptNotString,
    /// The `variables` field is absent.
    MissingVariables,
    /// The `timeout` field is present but not an unsigned integer.
    TimeoutNotAnInteger,
}

/// The variable mapping could not be turned into a binding set.
#[derive(Clone, Copy, Debug, PartialEq, Eq, Structural)]
pub enum BindingError {
    /// `variables` is a JSON value of some other shape than an object.
    NotAnObject,
}

/// Wrapper synthesis failed. The synthesizer is total, so this is never
/// produced; the variant keeps the stage's failures distinguishable on the
/// wire.
#[derive(Clone, Copy, Debug, PartialEq, Eq, Structural)]
pub enum RenderError {
    Internal,
}

/// The sandboxed evaluation failed.
#[derive(Clone, Copy, Debug, PartialEq, Eq, Structural)]
pub enum EvalError {
    /// The synthesized evaluation unit did not compile.
    CompileFailure,
    /// The snippet did not return within the wall-clock deadline.
    Timeout,
    /// The snippet raised, or the interpreter faulted.
    RuntimeFailure,
    /// The snippet's result has no JSON counterpart.
    UnsupportedResultType,
}

/// Any failure of the pipeline, tagged by the stage that produced it.
#[derive(Clone, Copy, Debug, PartialEq, Eq, Structural)]
pub enum GatewayError {
    Parse(ParseError),
    Binding(BindingError),
    Render(RenderError),
    Eval(EvalError),
}

} // verus!
