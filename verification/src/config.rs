//! Command-line configuration, with its documented defaults.

use vstd::prelude::*;
use vstd::string::*;

verus! {

/// The recognised startup options: the two model names are required,
/// the bind address defaults to 127.0.0.1:8080.
pub struct Args {
    pub embeddings_model: String,
    pub llm_model: String,
    pub host: String,
    pub port: u16,
}

impl Args {
    /// Builds the configuration, applying the defaults for the options
    /// that were not given.
    pub fn new(
        embeddings_model: String,
        llm_model: String,
        host: Option<String>,
        port: Option<u16>,
    ) -> (a: Args)
        ensures
            a.embeddings_model@ == embeddings_model@,
            a.llm_model@ == llm_model@,
            match host {
                Some(h) => a.host@ == h@,
                None => a.host@ == "127.0.0.1"@,
            },
            match port {
                Some(p) => a.port == p,
                None => a.port == 8080,
            },
    {
        let host: String = match host {
            Some(h) => h,
            None => String::from_str("127.0.0.1"),
        };
        let port: u16 = match port {
            Some(p) => p,
            None => 8080,
        };
        Args { embeddings_model, llm_model, host, port }
    }
}

} // verus!
