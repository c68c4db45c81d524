//! Extraction of the generated text from the generate endpoint's reply.
//!
//! The reply is expected to be a JSON object whose `response` field holds
//! the generated text. A reply that is not such an object is passed on
//! unchanged: malformed JSON is not an error on this path.

use vstd::prelude::*;

use crate::client::{call_result, call_result_spec, res_view};
use crate::outcome::HttpOutcome;

verus! {

/// The string value of the named top-level field of `text` parsed as JSON,
/// if `text` is a JSON object with a string under that name.
pub uninterp spec fn json_string_field(text: Seq<char>, field: Seq<char>) -> Option<Seq<char>>;

/// Relies on `serde_json::from_str::<Value>`, `Value::get` and
/// `Value::as_str`: parses `text` as JSON and hands back the string value
/// of the top-level field named `field`, if there is one. The result is a
/// function of the two texts alone.
#[verifier::external_body]
fn extract_string_field(text: &str, field: &str) -> (r: Option<String>)
    ensures
        match r {
            Some(s) => json_string_field(text@, field@) == Some(s@),
            None => json_string_field(text@, field@) is None,
        },
{
    match serde_json::from_str::<serde_json::Value>(text) {
        Ok(value) => match value.get(field) {
            Some(inner) => match inner.as_str() {
                Some(s) => Some(s.to_owned()),
                None => None,
            },
            None => None,
        },
        Err(_) => None,
    }
}

/// What the generate operation yields for one reply body: the `response`
/// field where the body parses to an object carrying one, and the body
/// itself unchanged everywhere else.
pub open spec fn generate_text_spec(body: Seq<char>) -> Seq<char> {
    match json_string_field(body, "response"@) {
        Some(s) => s,
        None => body,
    }
}

/// Where the reply body parses to an object whose `response` field holds a
/// string, the generate operation yields exactly that string.
pub proof fn lemma_generate_extracts_response(body: Seq<char>, s: Seq<char>)
    requires
        json_string_field(body, "response"@) == Some(s),
    ensures
        generate_text_spec(body) == s,
{
}

/// Where the reply body carries no such field — malformed JSON included —
/// the generate operation yields the body unchanged.
pub proof fn lemma_generate_passthrough(body: Seq<char>)
    requires
        json_string_field(body, "response"@) is None,
    ensures
        generate_text_spec(body) == body,
{
}

/// The generated text carried by one reply body.
pub fn generate_text_from_body(body: String) -> (r: String)
    ensures
        r@ == generate_text_spec(body@),
{
    match extract_string_field(body.as_str(), "response") {
        Some(s) => s,
        None => body,
    }
}

/// Maps the outcome of the generate call: the extracted (or passed-through)
/// text of the reply body on a success status, and the generic call error
/// on everything else.
pub fn generate_response_result(outcome: HttpOutcome) -> (r: Result<String, String>)
    ensures
        res_view(r) == match call_result_spec(outcome) {
            Ok(body) => Ok::<Seq<char>, Seq<char>>(generate_text_spec(body)),
            Err(e) => Err(e),
        },
{
    match call_result(outcome) {
        Ok(body) => Ok(generate_text_from_body(body)),
        Err(e) => Err(e),
    }
}

} // verus!
