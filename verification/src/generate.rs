//! The generation route: parsing the request body, coercing the
//! variables, rendering the prompt and shaping the reply.

use vstd::prelude::*;
use vstd::string::*;

use crate::handlers::HttpReply;
use crate::json::{
    body_object_of, find_field, item_view, lookup_field, parse_body_object, entries_view,
    JsonItem, JsonItemV,
};
use crate::state::AppState;
use crate::template::{map_of_view_pairs, pairs_view, render, render_spec};

verus! {

/// A parsed generation request: the system text, the prompt template,
/// and the variable pairs the template is rendered with.
pub struct GenerateRequest {
    pub system: String,
    pub prompt: String,
    pub vars: Vec<(String, String)>,
}

/// Spec-level counterpart of [`GenerateRequest`].
pub struct GenerateRequestV {
    pub system: Seq<char>,
    pub prompt: Seq<char>,
    pub vars: Seq<(Seq<char>, Seq<char>)>,
}

pub open spec fn request_view(r: GenerateRequest) -> GenerateRequestV {
    GenerateRequestV { system: r.system@, prompt: r.prompt@, vars: pairs_view(r.vars@) }
}

/// The string-valued entries of a flattened object, in order; entries
/// whose value is not a string are dropped.
pub open spec fn string_entries(es: Seq<(Seq<char>, Option<Seq<char>>)>) -> Seq<
    (Seq<char>, Seq<char>),
>
    decreases es.len(),
{
    if es.len() == 0 {
        Seq::empty()
    } else {
        let rest = string_entries(es.drop_first());
        match es[0].1 {
            Some(v) => seq![(es[0].0, v)] + rest,
            None => rest,
        }
    }
}

/// The variable pairs a `vars` value yields: the string entries of an
/// object, and nothing at all for any other JSON value.
pub open spec fn vars_of_item(it: JsonItemV) -> Seq<(Seq<char>, Seq<char>)> {
    match it {
        JsonItemV::Entries(es) => string_entries(es),
        _ => Seq::empty(),
    }
}

/// The request a parsed body object describes: its `system` and
/// `prompt` fields must be strings and a `vars` field must be present;
/// the variables are coerced by [`vars_of_item`].
pub open spec fn request_of_object(ob: Seq<(Seq<char>, JsonItemV)>) -> Option<GenerateRequestV> {
    match (lookup_field(ob, "system"@), lookup_field(ob, "prompt"@), lookup_field(ob, "vars"@)) {
        (Some(JsonItemV::Text(s)), Some(JsonItemV::Text(p)), Some(v)) => Some(
            GenerateRequestV { system: s, prompt: p, vars: vars_of_item(v) },
        ),
        _ => None,
    }
}

/// The request a body text describes, if it is a JSON object of the
/// required shape.
pub open spec fn request_of_body(s: Seq<char>) -> Option<GenerateRequestV> {
    match body_object_of(s) {
        Some(ob) => request_of_object(ob),
        None => None,
    }
}

/// Keeps the string-valued entries of a flattened object, in order.
fn string_entries_exec(es: &Vec<(String, Option<String>)>) -> (r: Vec<(String, String)>)
    ensures
        pairs_view(r@) == string_entries(entries_view(es@)),
{
    let ghost ev = entries_view(es@);
    let mut out: Vec<(String, String)> = Vec::new();
    proof {
        assert(ev.skip(0) =~= ev);
        assert(pairs_view(out@) =~= Seq::<(Seq<char>, Seq<char>)>::empty());
    }
    let mut i: usize = 0;
    while i < es.len()
        invariant
            i <= es@.len(),
            ev == entries_view(es@),
            ev.len() == es@.len(),
            string_entries(ev) == pairs_view(out@) + string_entries(ev.skip(i as int)),
        decreases es@.len() - i,
    {
        let ghost i0 = i as int;
        proof {
            assert(ev.skip(i0).drop_first() =~= ev.skip(i0 + 1));
            assert(ev.skip(i0)[0] == ev[i0]);
            assert(ev[i0] == (es@[i0].0@, crate::json::opt_view(es@[i0].1)));
        }
        match &es[i].1 {
            Some(v) => {
                out.push((es[i].0.clone(), v.clone()));
            },
            None => {},
        }
        i = i + 1;
        proof {
            assert(string_entries(ev) =~= pairs_view(out@) + string_entries(ev.skip(i as int)));
        }
    }
    proof {
        assert(ev.skip(ev.len() as int) =~= Seq::<(Seq<char>, Option<Seq<char>>)>::empty());
        assert(pairs_view(out@) =~= string_entries(ev));
    }
    out
}

/// Parses a body text into a request, or nothing when the body is not
/// a JSON object holding string `system` and `prompt` fields and a
/// `vars` field.
pub fn parse_generate_request(body: &str) -> (r: Option<GenerateRequest>)
    ensures
        match r {
            Some(req) => request_of_body(body@) == Some(request_view(req)),
            None => request_of_body(body@) is None,
        },
{
    let es: Vec<(String, JsonItem)> = match parse_body_object(body) {
        Some(es) => es,
        None => {
            return None;
        },
    };
    let system: String = match find_field(&es, "system") {
        Some(idx) => match &es[idx].1 {
            JsonItem::Text(s) => s.clone(),
            _ => {
                return None;
            },
        },
        None => {
            return None;
        },
    };
    let prompt: String = match find_field(&es, "prompt") {
        Some(idx) => match &es[idx].1 {
            JsonItem::Text(s) => s.clone(),
            _ => {
                return None;
            },
        },
        None => {
            return None;
        },
    };
    let vars: Vec<(String, String)> = match find_field(&es, "vars") {
        Some(idx) => match &es[idx].1 {
            JsonItem::Entries(kvs) => string_entries_exec(kvs),
            _ => Vec::new(),
        },
        None => {
            return None;
        },
    };
    proof {
        assert(pairs_view(Seq::<(String, String)>::empty()) =~= Seq::<
            (Seq<char>, Seq<char>),
        >::empty());
    }
    Some(GenerateRequest { system, prompt, vars })
}

/// What the generation route decides: reject the request at once, or
/// make exactly one backend call.
pub enum GenerateStep {
    /// The body was rejected; no backend call is made.
    Reject(HttpReply),
    /// The one backend call to make.
    Call(GenerateCall),
}

/// The backend call the generation route makes: the configured model,
/// the system text verbatim, and the rendered prompt.
pub struct GenerateCall {
    pub model: String,
    pub system: String,
    pub prompt: String,
}

/// Decides the generation route.  A body that does not describe a
/// request is rejected with a client error before any backend call;
/// any other body yields the one call to make, with the prompt
/// rendered under the coerced variables.
pub fn generate_route(body: &str, state: &AppState) -> (r: GenerateStep)
    ensures
        match r {
            GenerateStep::Reject(rep) => request_of_body(body@) is None && rep.status == 400
                && rep.body@ == "invalid request body"@,
            GenerateStep::Call(c) => request_of_body(body@) is Some && {
                let reqv = request_of_body(body@)->Some_0;
                &&& c.model@ == state.llm_model_name@
                &&& c.system@ == reqv.system
                &&& c.prompt@ == render_spec(reqv.prompt, map_of_view_pairs(reqv.vars))
            },
        },
{
    match parse_generate_request(body) {
        None => GenerateStep::Reject(
            HttpReply { status: 400, body: String::from_str("invalid request body") },
        ),
        Some(req) => {
            let prompt: String = render(req.prompt.as_str(), &req.vars);
            GenerateStep::Call(
                GenerateCall { model: state.llm_model_name.clone(), system: req.system, prompt },
            )
        },
    }
}

/// Shapes the backend's reply: the completion text with status 200 on
/// success, the error's text with status 500 on failure.
pub fn generate_finish(outcome: Result<String, String>) -> (r: HttpReply)
    ensures
        match outcome {
            Ok(text) => r.status == 200 && r.body@ == text@,
            Err(e) => r.status == 500 && r.body@ == e@,
        },
{
    match outcome {
        Ok(text) => HttpReply { status: 200, body: text },
        Err(e) => HttpReply { status: 500, body: e },
    }
}

} // verus!
