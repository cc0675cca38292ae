//! Token counts that the backend reports after a run, as a JSON document.

use vstd::prelude::*;

verus! {

/// Whether serde_json accepts `text` as a JSON document.
pub uninterp spec fn json_parses(text: Seq<char>) -> bool;

/// What serde_json finds under `key` in the JSON document `text`, read as an
/// unsigned integer; `None` where the member is missing or holds no such
/// integer.
pub uninterp spec fn json_u64_member(text: Seq<char>, key: Seq<char>) -> Option<u64>;

/// Relies on `serde_json::from_str` into a `Value`, then `Value::get` and
/// `Value::as_u64`: `None` where the text is no JSON, else the member `key`
/// of the parsed document as a `u64`, if it is one.
#[verifier::external_body]
fn u64_member(text: &str, key: &str) -> (r: Option<Option<u64>>)
    ensures
        r is None <==> !json_parses(text@),
        r is Some ==> r->0 == json_u64_member(text@, key@),
{
    match serde_json::from_str::<serde_json::Value>(text) {
        Ok(value) => Some(value.get(key).and_then(serde_json::Value::as_u64)),
        Err(_) => None,
    }
}

/// Token counts of one backend run. A count the backend did not report is
/// `None`.
#[derive(Clone, Copy, Debug, PartialEq, Eq)]
pub struct RunMetadata {
    pub input_tokens: Option<u64>,
    pub output_tokens: Option<u64>,
}

/// Reads the token counts out of the metadata document `text`. Fails, with
/// `None`, where the text is no JSON document: the backend has not filled
/// the metadata in.
pub fn parse_metadata(text: &str) -> (m: Option<RunMetadata>)
    ensures
        m is None <==> !json_parses(text@),
        m is Some ==> m->0.input_tokens == json_u64_member(text@, "input_tokens"@),
        m is Some ==> m->0.output_tokens == json_u64_member(text@, "output_tokens"@),
{
    let input = u64_member(text, "input_tokens");
    let output = u64_member(text, "output_tokens");
    match (input, output) {
        (Some(input_tokens), Some(output_tokens)) => Some(RunMetadata { input_tokens, output_tokens }),
        _ => None,
    }
}

} // verus!
