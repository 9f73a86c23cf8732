use embedding_server::embed::{embed_finish, embed_route, EmbedOutcome};
use embedding_server::state::AppState;

fn state() -> AppState {
    AppState::new("embed-model".to_string(), "llm-model".to_string())
}

#[test]
fn forwards_the_body_text_unchanged() {
    let st = state();
    let call = embed_route("some raw text, not JSON".to_string(), &st);
    assert_eq!(call.input, "some raw text, not JSON");
    assert_eq!(call.model, "embed-model");
}

#[test]
fn distinct_inputs_yield_their_own_calls() {
    let st = state();
    for i in 0..8 {
        let input = format!("sentinel-{}", i);
        let call = embed_route(input.clone(), &st);
        assert_eq!(call.input, input);
    }
}

#[test]
fn answers_with_the_first_returned_vector() {
    let vectors: Vec<Vec<f32>> = vec![vec![0.25, -1.5, 3.0], vec![9.0, 9.0]];
    match embed_finish(Ok(vectors)) {
        EmbedOutcome::Vector(v) => assert_eq!(v, vec![0.25, -1.5, 3.0]),
        EmbedOutcome::Failure(_) => panic!("a non-empty answer must yield a vector"),
    }
}

#[test]
fn an_empty_answer_is_a_server_error_not_an_empty_vector() {
    let vectors: Vec<Vec<f32>> = vec![];
    match embed_finish(Ok(vectors)) {
        EmbedOutcome::Vector(_) => panic!("an empty answer must not yield a vector"),
        EmbedOutcome::Failure(rep) => {
            assert_eq!(rep.status, 500);
            assert_eq!(rep.body, "unexpected ollama response");
        },
    }
}

#[test]
fn a_failed_call_is_a_server_error_with_its_text() {
    match embed_finish(Err::<Vec<Vec<f32>>, String>("connection refused".to_string())) {
        EmbedOutcome::Vector(_) => panic!("a failed call must not yield a vector"),
        EmbedOutcome::Failure(rep) => {
            assert_eq!(rep.status, 500);
            assert_eq!(rep.body, "connection refused");
        },
    }
}
