use serde_json::Value;

use sandbox_eval::encode_response;
use sandbox_eval::prepare;
use sandbox_eval::synthesize;
use sandbox_eval::BindingError;
use sandbox_eval::EvalError;
use sandbox_eval::GatewayError;
use sandbox_eval::ParseError;

fn json(text: &str) -> Value {
    serde_json::from_str(text).expect("test value must parse")
}

#[test]
fn synthesize_with_no_bindings() {
    let source = synthesize(&Vec::new()).unwrap();
    assert_eq!(
        " 'use strict'; function wrapper(script_snippet, {  } ){ return eval(script_snippet) }",
        source
    );
}

#[test]
fn synthesize_joins_bindings_with_comma() {
    let names = vec!["a".to_string(), "b".to_string(), "e".to_string()];
    let source = synthesize(&names).unwrap();
    assert_eq!(
        " 'use strict'; function wrapper(script_snippet, { a, b, e } ){ return eval(script_snippet) }",
        source
    );
}

#[test]
fn prepare_builds_the_whole_unit() {
    let request = "{\n\"script\": \"a+3\",\n\"variables\": {\"a\": 3},\n\"timeout\": 100\n} ";
    let prepared = prepare(request).unwrap();
    assert_eq!("a+3", prepared.script);
    assert_eq!(json(r#"{"a": 3}"#), prepared.variables);
    assert_eq!(100, prepared.timeout);
    assert_eq!(
        " 'use strict'; function wrapper(script_snippet, { a } ){ return eval(script_snippet) }",
        prepared.source
    );
}

#[test]
fn prepare_fails_at_binding_resolution_for_array_variables() {
    let request = r#"{"script": "whatever the script says", "variables": [1,2,3]}"#;
    let err = prepare(request).map(|_| ()).unwrap_err();
    assert_eq!(GatewayError::Binding(BindingError::NotAnObject), err);
}

#[test]
fn encode_scalar_result() {
    assert_eq!("6", encode_response(&Ok(json("6"))));
}

#[test]
fn encode_object_result() {
    assert_eq!(r#"{"a":3,"b":[1,2]}"#, encode_response(&Ok(json(r#"{"a": 3, "b": [1, 2]}"#))));
}

#[test]
fn encode_parse_error() {
    assert_eq!(
        r#"{"error":{"kind":"parse_error","message":"request body is not well-formed JSON"}}"#,
        encode_response(&Err(GatewayError::Parse(ParseError::Malformed)))
    );
}

#[test]
fn encode_binding_error() {
    assert_eq!(
        r#"{"error":{"kind":"binding_error","message":"variables are not a dict"}}"#,
        encode_response(&Err(GatewayError::Binding(BindingError::NotAnObject)))
    );
}

#[test]
fn encode_timeout_error() {
    assert_eq!(
        r#"{"error":{"kind":"timeout","message":"evaluation exceeded its deadline"}}"#,
        encode_response(&Err(GatewayError::Eval(EvalError::Timeout)))
    );
}

#[test]
fn encode_compile_failure() {
    assert_eq!(
        r#"{"error":{"kind":"compile_failure","message":"evaluation unit did not compile"}}"#,
        encode_response(&Err(GatewayError::Eval(EvalError::CompileFailure)))
    );
}

#[test]
fn encode_runtime_failure() {
    assert_eq!(
        r#"{"error":{"kind":"runtime_failure","message":"evaluation failed at runtime"}}"#,
        encode_response(&Err(GatewayError::Eval(EvalError::RuntimeFailure)))
    );
}

#[test]
fn encode_unsupported_result_type() {
    assert_eq!(
        r#"{"error":{"kind":"unsupported_result_type","message":"result has no JSON counterpart"}}"#,
        encode_response(&Err(GatewayError::Eval(EvalError::UnsupportedResultType)))
    );
}
