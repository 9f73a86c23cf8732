//! Replies the routes hand back to the HTTP edge, and the health probe.

use vstd::prelude::*;
use vstd::string::*;

verus! {

/// A reply as the HTTP edge writes it: a status code and a body text.
pub struct HttpReply {
    pub status: u16,
    pub body: String,
}

/// The health probe: always status 200 with the fixed body, whatever
/// the backends are doing.
pub fn hello() -> (r: HttpReply)
    ensures
        r.status == 200,
        r.body@ == "Hello world!"@,
{
    HttpReply { status: 200, body: String::from_str("Hello world!") }
}

} // verus!
