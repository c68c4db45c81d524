//! URLs of the model server's endpoints and the mapping from HTTP outcomes
//! to the uniform text-or-error result of every operation.

use vstd::prelude::*;

use crate::digits::{decimal_of, push_decimal};
use crate::outcome::{is_success_status, status_is_success, HttpOutcome};
use crate::urlenc::{percent_encode, percent_encoded};

verus! {

/// The view of a text-or-error result, both sides as character sequences.
pub open spec fn res_view(r: Result<String, String>) -> Result<Seq<char>, Seq<char>> {
    match r {
        Ok(s) => Ok(s@),
        Err(e) => Err(e@),
    }
}

/// The view of a flag-or-error result.
pub open spec fn res_bool_view(r: Result<bool, String>) -> Result<bool, Seq<char>> {
    match r {
        Ok(b) => Ok(b),
        Err(e) => Err(e@),
    }
}

/// The URL of one endpoint of the local model server.
pub fn ollama_url(endpoint: &str) -> (r: String)
    ensures
        r@ == "http://localhost:11434"@ + endpoint@,
{
    String::from_str("http://localhost:11434").concat(endpoint)
}

/// The instant-answer URL for one query, with the query percent-encoded.
pub fn search_web_url(query: &str) -> (r: String)
    ensures
        r@ == "https://api.duckduckgo.com/?q="@ + percent_encoded(query@) + "&format=json"@,
{
    let mut url = String::from_str("https://api.duckduckgo.com/?q=");
    url.append(percent_encode(query).as_str());
    url.append("&format=json");
    url
}

/// The encyclopedia summary URL for one query, with the query
/// percent-encoded.
pub fn search_encyclopedia_url(query: &str) -> (r: String)
    ensures
        r@ == "https://en.wikipedia.org/api/rest_v1/page/summary/"@ + percent_encoded(query@),
{
    let mut url = String::from_str("https://en.wikipedia.org/api/rest_v1/page/summary/");
    url.append(percent_encode(query).as_str());
    url
}

/// What a generic call to the model server comes to: the raw body on a
/// success status, a status-coded error string on any other status, and
/// the transport message on a transport failure.
pub open spec fn call_result_spec(outcome: HttpOutcome) -> Result<Seq<char>, Seq<char>> {
    match outcome {
        HttpOutcome::Response { status, body } => if is_success_status(status) {
            Ok(body@)
        } else {
            Err("Error: "@ + decimal_of(status as nat))
        },
        HttpOutcome::TransportError { message } => Err(message@),
    }
}

/// Maps the outcome of a pull, create or generate call.
pub fn call_result(outcome: HttpOutcome) -> (r: Result<String, String>)
    ensures
        res_view(r) == call_result_spec(outcome),
{
    match outcome {
        HttpOutcome::Response { status, body } => {
            if status_is_success(status) {
                Ok(body)
            } else {
                let mut msg = String::from_str("Error: ");
                push_decimal(&mut msg, status);
                Err(msg)
            }
        },
        HttpOutcome::TransportError { message } => Err(message),
    }
}

/// What listing the models comes to: the raw body on a success status, a
/// fixed failure message on any other status, and the transport message on
/// a transport failure.
pub open spec fn list_models_spec(outcome: HttpOutcome) -> Result<Seq<char>, Seq<char>> {
    match outcome {
        HttpOutcome::Response { status, body } => if is_success_status(status) {
            Ok(body@)
        } else {
            Err("Failed to fetch models"@)
        },
        HttpOutcome::TransportError { message } => Err(message@),
    }
}

/// Maps the outcome of the model-listing call.
pub fn list_models_result(outcome: HttpOutcome) -> (r: Result<String, String>)
    ensures
        res_view(r) == list_models_spec(outcome),
{
    match outcome {
        HttpOutcome::Response { status, body } => {
            if status_is_success(status) {
                Ok(body)
            } else {
                Err(String::from_str("Failed to fetch models"))
            }
        },
        HttpOutcome::TransportError { message } => Err(message),
    }
}

/// What the health check comes to: true exactly on a success status, false
/// on any other status, and a fixed error (never a flag) on a transport
/// failure.
pub open spec fn check_running_spec(outcome: HttpOutcome) -> Result<bool, Seq<char>> {
    match outcome {
        HttpOutcome::Response { status, .. } => Ok(is_success_status(status)),
        HttpOutcome::TransportError { .. } => Err("Not running"@),
    }
}

/// Maps the outcome of the health-check call.
pub fn check_running_result(outcome: HttpOutcome) -> (r: Result<bool, String>)
    ensures
        res_bool_view(r) == check_running_spec(outcome),
{
    match outcome {
        HttpOutcome::Response { status, .. } => Ok(status_is_success(status)),
        HttpOutcome::TransportError { .. } => Err(String::from_str("Not running")),
    }
}

/// What a web or encyclopedia search comes to: the raw body on a success
/// status, and a fixed failure message otherwise.
pub open spec fn search_result_spec(outcome: HttpOutcome) -> Result<Seq<char>, Seq<char>> {
    match outcome {
        HttpOutcome::Response { status, body } => if is_success_status(status) {
            Ok(body@)
        } else {
            Err("Search failed"@)
        },
        HttpOutcome::TransportError { .. } => Err("Search failed"@),
    }
}

/// Maps the outcome of a search call.
pub fn search_result(outcome: HttpOutcome) -> (r: Result<String, String>)
    ensures
        res_view(r) == search_result_spec(outcome),
{
    match outcome {
        HttpOutcome::Response { status, body } => {
            if status_is_success(status) {
                Ok(body)
            } else {
                Err(String::from_str("Search failed"))
            }
        },
        HttpOutcome::TransportError { .. } => Err(String::from_str("Search failed")),
    }
}

/// On any response outside the success range, a generic call yields an
/// error whose text is the fixed prefix followed by the decimal status
/// code, so the numeric code always reaches the caller.
pub proof fn lemma_call_error_carries_status(status: u16, body: String)
    requires
        !is_success_status(status),
    ensures
        call_result_spec(HttpOutcome::Response { status, body }) matches Err(e) && e.subrange(
            0,
            7,
        ) == "Error: "@ && e.subrange(7, e.len() as int) == decimal_of(status as nat),
{
    reveal_strlit("Error: ");
    let e = "Error: "@ + decimal_of(status as nat);
    assert(e.subrange(0, 7) =~= "Error: "@);
    assert(e.subrange(7, e.len() as int) =~= decimal_of(status as nat));
}

/// The health check yields true exactly when the request came back with a
/// success status; a transport failure yields an error, never a flag.
pub proof fn lemma_check_running_iff(outcome: HttpOutcome)
    ensures
        check_running_spec(outcome) == Ok::<bool, Seq<char>>(true) <==> (outcome matches
        HttpOutcome::Response { status, .. } && is_success_status(status)),
        outcome is TransportError ==> check_running_spec(outcome) is Err,
{
}

/// The greeting shown to a caller by name.
pub fn greet(name: &str) -> (r: String)
    ensures
        r@ == "Hello, "@ + name@ + "! You've been greeted from Rust!"@,
{
    String::from_str("Hello, ").concat(name).concat("! You've been greeted from Rust!")
}

} // verus!
