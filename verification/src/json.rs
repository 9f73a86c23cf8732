//! A flattened model of the JSON bodies the generation route reads.
//!
//! The route only ever looks at the top-level object's entries, at
//! which of them are strings, and at the string-valued entries of one
//! nested object.  A parsed body is therefore modelled as a list of
//! entries whose values are a string, a list of entries with optional
//! string values, or opaque.

use vstd::prelude::*;
use vstd::string::*;

use crate::text::str_eq;

verus! {

/// A JSON value as the generation route reads it.
pub enum JsonItem {
    /// A JSON string.
    Text(String),
    /// A JSON object: each entry's value is kept when it is a string.
    Entries(Vec<(String, Option<String>)>),
    /// Any other JSON value; the route never reads inside it.
    Opaque,
}

/// Spec-level counterpart of [`JsonItem`].
pub enum JsonItemV {
    Text(Seq<char>),
    Entries(Seq<(Seq<char>, Option<Seq<char>>)>),
    Opaque,
}

pub open spec fn opt_view(o: Option<String>) -> Option<Seq<char>> {
    match o {
        Some(s) => Some(s@),
        None => None,
    }
}

pub open spec fn entries_view(es: Seq<(String, Option<String>)>) -> Seq<
    (Seq<char>, Option<Seq<char>>),
> {
    es.map_values(|p: (String, Option<String>)| (p.0@, opt_view(p.1)))
}

pub open spec fn item_view(it: JsonItem) -> JsonItemV {
    match it {
        JsonItem::Text(s) => JsonItemV::Text(s@),
        JsonItem::Entries(es) => JsonItemV::Entries(entries_view(es@)),
        JsonItem::Opaque => JsonItemV::Opaque,
    }
}

pub open spec fn object_view(es: Seq<(String, JsonItem)>) -> Seq<(Seq<char>, JsonItemV)> {
    es.map_values(|p: (String, JsonItem)| (p.0@, item_view(p.1)))
}

/// What parsing a body yields: `None` when the text is not JSON or not
/// a JSON object; otherwise the object's entries in order, flattened as
/// [`JsonItem`] describes.  The outcome depends on the text alone.
pub uninterp spec fn body_object_of(s: Seq<char>) -> Option<Seq<(Seq<char>, JsonItemV)>>;

/// Relies on `serde_json::from_str`: it parses the body as JSON, and
/// its result is a function of the text alone.  The body below only
/// tells the parsed value's variants apart and moves their fields into
/// this crate's model.
#[verifier::external_body]
pub fn parse_body_object(body: &str) -> (r: Option<Vec<(String, JsonItem)>>)
    ensures
        match r {
            Some(es) => body_object_of(body@) == Some(object_view(es@)),
            None => body_object_of(body@) is None,
        },
{
    let m = match serde_json::from_str(body) {
        Ok(serde_json::Value::Object(m)) => m,
        _ => return None,
    };
    Some(m.into_iter().map(|(k, v)| (k, match v {
        serde_json::Value::String(s) => JsonItem::Text(s),
        serde_json::Value::Object(m2) => JsonItem::Entries(m2.into_iter().map(|(k2, w)| (k2,
            match w { serde_json::Value::String(s2) => Some(s2), _ => None })).collect()),
        _ => JsonItem::Opaque,
    })).collect())
}

/// The first entry of `s` whose key is `name`, if any.
pub open spec fn lookup_field(s: Seq<(Seq<char>, JsonItemV)>, name: Seq<char>) -> Option<JsonItemV>
    decreases s.len(),
{
    if s.len() == 0 {
        None
    } else if s[0].0 == name {
        Some(s[0].1)
    } else {
        lookup_field(s.drop_first(), name)
    }
}

/// Finds the first entry of `es` whose key is `name`, front to back.
pub fn find_field(es: &Vec<(String, JsonItem)>, name: &str) -> (r: Option<usize>)
    ensures
        match r {
            Some(idx) => idx < es@.len() && lookup_field(object_view(es@), name@) == Some(
                item_view(es@[idx as int].1),
            ),
            None => lookup_field(object_view(es@), name@) is None,
        },
{
    let ghost ob = object_view(es@);
    proof {
        assert(ob.skip(0) =~= ob);
    }
    let mut i: usize = 0;
    while i < es.len()
        invariant
            i <= es@.len(),
            ob == object_view(es@),
            ob.len() == es@.len(),
            lookup_field(ob, name@) == lookup_field(ob.skip(i as int), name@),
        decreases es@.len() - i,
    {
        proof {
            assert(ob.skip(i as int).drop_first() =~= ob.skip(i as int + 1));
            assert(ob.skip(i as int)[0] == ob[i as int]);
            assert(ob[i as int] == (es@[i as int].0@, item_view(es@[i as int].1)));
        }
        if str_eq(es[i].0.as_str(), name) {
            return Some(i);
        }
        i = i + 1;
    }
    proof {
        assert(ob.skip(ob.len() as int) =~= Seq::<(Seq<char>, JsonItemV)>::empty());
    }
    None
}

} // verus!
