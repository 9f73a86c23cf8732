use embedding_server::generate::{
    generate_finish, generate_route, parse_generate_request, GenerateStep,
};
use embedding_server::state::AppState;

fn state() -> AppState {
    AppState::new("embed-model".to_string(), "llm-model".to_string())
}

#[test]
fn parses_a_well_formed_body() {
    let body = r#"{"system":"sys","prompt":"Say {x}","vars":{"x":"hi"}}"#;
    let req = parse_generate_request(body).expect("body should parse");
    assert_eq!(req.system, "sys");
    assert_eq!(req.prompt, "Say {x}");
    assert_eq!(req.vars, vec![("x".to_string(), "hi".to_string())]);
}

#[test]
fn drops_non_string_and_nested_vars() {
    let body = r#"{"system":"s","prompt":"p","vars":{"a":"1","b":2,"c":{"d":"x"},"e":null}}"#;
    let req = parse_generate_request(body).expect("body should parse");
    assert_eq!(req.vars, vec![("a".to_string(), "1".to_string())]);
}

#[test]
fn coerces_a_non_object_vars_to_no_variables() {
    let body = r#"{"system":"s","prompt":"p","vars":[1,2]}"#;
    let req = parse_generate_request(body).expect("body should parse");
    assert_eq!(req.vars, Vec::<(String, String)>::new());
}

#[test]
fn rejects_malformed_json() {
    assert!(parse_generate_request("not json at all").is_none());
    assert!(parse_generate_request("{\"system\":").is_none());
}

#[test]
fn rejects_a_missing_prompt_field() {
    let body = r#"{"system":"s","vars":{}}"#;
    assert!(parse_generate_request(body).is_none());
}

#[test]
fn rejects_a_non_string_prompt() {
    let body = r#"{"system":"s","prompt":7,"vars":{}}"#;
    assert!(parse_generate_request(body).is_none());
}

#[test]
fn rejects_a_non_object_body() {
    assert!(parse_generate_request("[1,2,3]").is_none());
    assert!(parse_generate_request("\"text\"").is_none());
}

#[test]
fn a_malformed_body_is_rejected_without_a_backend_call() {
    let st = state();
    match generate_route("{\"prompt\":", &st) {
        GenerateStep::Reject(rep) => {
            assert_eq!(rep.status, 400);
            assert_eq!(rep.body, "invalid request body");
        },
        GenerateStep::Call(_) => panic!("a malformed body must not reach the backend"),
    }
}

#[test]
fn a_well_formed_body_yields_one_rendered_call() {
    let st = state();
    let body =
        r#"{"system":"You are terse.","prompt":"Summarize: {context}","vars":{"context":"hello world"}}"#;
    match generate_route(body, &st) {
        GenerateStep::Call(c) => {
            assert_eq!(c.model, "llm-model");
            assert_eq!(c.system, "You are terse.");
            assert_eq!(c.prompt, "Summarize: hello world");
        },
        GenerateStep::Reject(_) => panic!("a well-formed body must not be rejected"),
    }
}

#[test]
fn distinct_bodies_get_their_own_renderings() {
    let st = state();
    for i in 0..8 {
        let body = format!(
            r#"{{"system":"s","prompt":"echo {{v}}","vars":{{"v":"sentinel-{}"}}}}"#,
            i
        );
        match generate_route(&body, &st) {
            GenerateStep::Call(c) => assert_eq!(c.prompt, format!("echo sentinel-{}", i)),
            GenerateStep::Reject(_) => panic!("body {} must parse", i),
        }
    }
}

#[test]
fn a_successful_completion_becomes_a_plain_200() {
    let rep = generate_finish(Ok("the completion".to_string()));
    assert_eq!(rep.status, 200);
    assert_eq!(rep.body, "the completion");
}

#[test]
fn a_backend_error_becomes_a_500_with_its_text() {
    let rep = generate_finish(Err("backend unreachable".to_string()));
    assert_eq!(rep.status, 500);
    assert_eq!(rep.body, "backend unreachable");
}
