//! The startup schema load: the fixed target of the one write request
//! sent to the document store before the listener binds.  The request
//! itself is network work and happens at the edge; transport failure
//! there is fatal to startup, and the store's answer is never read.

use vstd::prelude::*;
use vstd::string::*;

verus! {

/// Where and as whom the schema document is written.
pub struct SchemaTarget {
    pub url: String,
    pub namespace: String,
    pub database: String,
    pub username: String,
    pub password: String,
}

/// The hardcoded document-store target: its query endpoint, the
/// namespace and database headers, and the basic credentials.
pub fn schema_target() -> (t: SchemaTarget)
    ensures
        t.url@ == "http://0.0.0.0:8000/sql"@,
        t.namespace@ == "kaig-demo"@,
        t.database@ == "main"@,
        t.username@ == "root"@,
        t.password@ == "root"@,
{
    SchemaTarget {
        url: String::from_str("http://0.0.0.0:8000/sql"),
        namespace: String::from_str("kaig-demo"),
        database: String::from_str("main"),
        username: String::from_str("root"),
        password: String::from_str("root"),
    }
}

} // verus!
