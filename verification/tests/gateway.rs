use serde_json::Value;

use sandbox_eval::get_argument_list;
use sandbox_eval::parse_request;
use sandbox_eval::render_script;
use sandbox_eval::ParseError;

fn json(text: &str) -> Value {
    serde_json::from_str(text).expect("test value must parse")
}

#[test]
fn test_parse_request() {
    let payload = r#"{"script": "return 1", "variables": {"a": 2, "b": [1,2,3]}}"#;
    let parsed_request = parse_request(&payload).expect("Json parse failed");

    assert_eq!("return 1", parsed_request.script);
    assert_eq!(json(r#"{"a": 2, "b": [1,2,3]}"#), parsed_request.variables);
    assert_eq!(0, parsed_request.timeout);
}

#[test]
fn test_get_arguments() {
    let args = json(r#"{"alpha": 1, "beta": [], "gamma": null}"#);
    assert_eq!(
        vec!["alpha".to_string(), "beta".to_string(), "gamma".to_string()],
        get_argument_list(&args).unwrap()
    );
}

#[test]
fn test_get_arguments_empty_dict() {
    let args = json("{}");
    assert_eq!(Vec::<String>::new(), get_argument_list(&args).unwrap());
}

#[test]
fn test_get_arguments_are_not_a_dict() {
    let args = json("[1,2,3]");
    assert!(get_argument_list(&args).is_err());
}

#[test]
fn test_script_render() {
    let variables = json(r#"{"a": 1, "b": 2, "e": []}"#);
    let rendered_script = render_script(&variables).expect("Error rendering the script");
    assert!(rendered_script
        .ends_with("function wrapper(script_snippet, { a, b, e } ){ return eval(script_snippet) }"));
}

#[test]
fn get_arguments_keep_iteration_order() {
    let args = json(r#"{"beta": 1, "alpha": 2}"#);
    let keys: Vec<String> = get_argument_list(&args).unwrap();
    let expected: Vec<String> = args.as_object().unwrap().keys().cloned().collect();
    assert_eq!(expected, keys);
}

#[test]
fn parse_request_reads_explicit_timeout() {
    let payload = r#"{"script": "a", "variables": {}, "timeout": 250}"#;
    let parsed = parse_request(payload).unwrap();
    assert_eq!(250, parsed.timeout);
}

#[test]
fn parse_request_rejects_malformed_body() {
    assert_eq!(Err(ParseError::Malformed), parse_request("no json here").map(|_| ()));
}

#[test]
fn parse_request_rejects_non_object_body() {
    assert_eq!(Err(ParseError::NotAnObject), parse_request("[1,2,3]").map(|_| ()));
}

#[test]
fn parse_request_rejects_absent_script() {
    let payload = r#"{"variables": {}}"#;
    assert_eq!(Err(ParseError::MissingScript), parse_request(payload).map(|_| ()));
}

#[test]
fn parse_request_rejects_non_string_script() {
    let payload = r#"{"script": 5, "variables": {}}"#;
    assert_eq!(Err(ParseError::ScriptNotString), parse_request(payload).map(|_| ()));
}

#[test]
fn parse_request_rejects_absent_variables() {
    let payload = r#"{"script": "a+3"}"#;
    assert_eq!(Err(ParseError::MissingVariables), parse_request(payload).map(|_| ()));
}

#[test]
fn parse_request_rejects_fractional_timeout() {
    let payload = r#"{"script": "a", "variables": {}, "timeout": 1.5}"#;
    assert_eq!(Err(ParseError::TimeoutNotAnInteger), parse_request(payload).map(|_| ()));
}

#[test]
fn parse_request_rejects_negative_timeout() {
    let payload = r#"{"script": "a", "variables": {}, "timeout": -1}"#;
    assert_eq!(Err(ParseError::TimeoutNotAnInteger), parse_request(payload).map(|_| ()));
}
