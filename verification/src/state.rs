//! Process-wide configuration, built once at startup and then only read.

use vstd::prelude::*;

verus! {

/// The model names every request handler reads.  The inference client
/// handle itself lives at the network edge; the routes only ever name
/// the model a call is for.
pub struct AppState {
    pub embedding_model_name: String,
    pub llm_model_name: String,
}

impl AppState {
    pub fn new(embedding_model_name: String, llm_model_name: String) -> (s: AppState)
        ensures
            s.embedding_model_name@ == embedding_model_name@,
            s.llm_model_name@ == llm_model_name@,
    {
        AppState { embedding_model_name, llm_model_name }
    }
}

} // verus!
