//! The embeddings route: what is sent to the backend and how its reply
//! is shaped.

use vstd::prelude::*;
use vstd::string::*;

use crate::handlers::HttpReply;
use crate::state::AppState;

verus! {

/// The one backend call the embeddings route makes.
pub struct EmbedCall {
    pub model: String,
    pub input: String,
}

/// The embeddings route forwards the raw body text unchanged, scoped
/// to the configured embeddings model name.
pub fn embed_route(body: String, state: &AppState) -> (r: EmbedCall)
    ensures
        r.model@ == state.embedding_model_name@,
        r.input@ == body@,
{
    EmbedCall { model: state.embedding_model_name.clone(), input: body }
}

/// What the route answers once the backend call came back.
pub enum EmbedOutcome<V> {
    /// The vector to serialise with status 200.
    Vector(V),
    /// The error reply to write instead.
    Failure(HttpReply),
}

/// Shapes the backend's reply: the first returned vector on success, a
/// server error when the backend returned none at all, and the error's
/// text as a server error when the call failed.  An empty list of
/// vectors is a distinct failure, never an empty answer.
pub fn embed_finish<V>(outcome: Result<Vec<V>, String>) -> (r: EmbedOutcome<V>)
    ensures
        match outcome {
            Ok(vs) => {
                if vs@.len() > 0 {
                    r matches EmbedOutcome::Vector(v) && v == vs@[0]
                } else {
                    r matches EmbedOutcome::Failure(rep) && rep.status == 500 && rep.body@
                        == "unexpected ollama response"@
                }
            },
            Err(e) => r matches EmbedOutcome::Failure(rep) && rep.status == 500 && rep.body@
                == e@,
        },
{
    match outcome {
        Ok(vs) => {
            let mut vs = vs;
            if vs.len() > 0 {
                EmbedOutcome::Vector(vs.remove(0))
            } else {
                EmbedOutcome::Failure(
                    HttpReply { status: 500, body: String::from_str("unexpected ollama response") },
                )
            }
        },
        Err(e) => EmbedOutcome::Failure(HttpReply { status: 500, body: e }),
    }
}

} // verus!
