use ollama_client::client::{
    call_result, check_running_result, greet, list_models_result, ollama_url, search_result,
};
use ollama_client::outcome::HttpOutcome;

fn response(status: u16, body: &str) -> HttpOutcome {
    HttpOutcome::Response { status, body: body.to_string() }
}

fn transport(message: &str) -> HttpOutcome {
    HttpOutcome::TransportError { message: message.to_string() }
}

#[test]
fn ollama_url_appends_endpoint() {
    assert_eq!(ollama_url("/api/tags"), "http://localhost:11434/api/tags");
    assert_eq!(ollama_url("/api/generate"), "http://localhost:11434/api/generate");
}

#[test]
fn call_result_success_returns_body() {
    assert_eq!(call_result(response(200, "payload")), Ok("payload".to_string()));
    assert_eq!(call_result(response(299, "")), Ok("".to_string()));
}

#[test]
fn call_result_failure_carries_status_code() {
    assert_eq!(call_result(response(404, "ignored")), Err("Error: 404".to_string()));
    assert_eq!(call_result(response(500, "")), Err("Error: 500".to_string()));
    assert_eq!(call_result(response(199, "")), Err("Error: 199".to_string()));
    assert_eq!(call_result(response(300, "")), Err("Error: 300".to_string()));
}

#[test]
fn call_result_transport_error_passes_message() {
    assert_eq!(call_result(transport("connection refused")), Err("connection refused".to_string()));
}

#[test]
fn list_models_returns_body_on_success() {
    assert_eq!(list_models_result(response(200, "{\"models\":[]}")), Ok("{\"models\":[]}".to_string()));
}

#[test]
fn list_models_error_on_server_failure() {
    let r = list_models_result(response(500, "oops"));
    assert_eq!(r, Err("Failed to fetch models".to_string()));
    assert_eq!(
        list_models_result(transport("dns failure")),
        Err("dns failure".to_string())
    );
}

#[test]
fn check_running_true_iff_success_status() {
    assert_eq!(check_running_result(response(200, "")), Ok(true));
    assert_eq!(check_running_result(response(204, "")), Ok(true));
    assert_eq!(check_running_result(response(500, "")), Ok(false));
    assert_eq!(check_running_result(response(404, "")), Ok(false));
}

#[test]
fn check_running_transport_failure_is_error_not_false() {
    assert_eq!(check_running_result(transport("refused")), Err("Not running".to_string()));
}

#[test]
fn search_result_maps_every_failure_to_fixed_message() {
    assert_eq!(search_result(response(200, "{\"AbstractText\":\"x\"}")), Ok("{\"AbstractText\":\"x\"}".to_string()));
    assert_eq!(search_result(response(503, "busy")), Err("Search failed".to_string()));
    assert_eq!(search_result(transport("timeout")), Err("Search failed".to_string()));
}

#[test]
fn greet_formats_name() {
    assert_eq!(greet("World"), "Hello, World! You've been greeted from Rust!");
}
