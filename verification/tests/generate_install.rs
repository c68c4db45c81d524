use ollama_client::client::call_result;
use ollama_client::generate::{generate_response_result, generate_text_from_body};
use ollama_client::install::{install_commands, install_result, InstallEvent, Platform};
use ollama_client::outcome::HttpOutcome;

#[test]
fn generate_extracts_the_response_field() {
    assert_eq!(
        generate_text_from_body("{\"response\":\"hi there\"}".to_string()),
        "hi there"
    );
}

#[test]
fn generate_ignores_other_fields() {
    let body = "{\"model\":\"llama3\",\"response\":\"abc\",\"done\":true}";
    assert_eq!(generate_text_from_body(body.to_string()), "abc");
}

#[test]
fn generate_passes_malformed_bodies_through_unchanged() {
    assert_eq!(generate_text_from_body("not json".to_string()), "not json");
    assert_eq!(generate_text_from_body("".to_string()), "");
    assert_eq!(generate_text_from_body("{\"response\":".to_string()), "{\"response\":");
}

#[test]
fn generate_passes_non_string_and_missing_fields_through() {
    assert_eq!(generate_text_from_body("{\"response\":5}".to_string()), "{\"response\":5}");
    assert_eq!(generate_text_from_body("{\"answer\":\"x\"}".to_string()), "{\"answer\":\"x\"}");
    assert_eq!(
        generate_text_from_body("{\"outer\":{\"response\":\"x\"}}".to_string()),
        "{\"outer\":{\"response\":\"x\"}}"
    );
    assert_eq!(generate_text_from_body("[\"response\"]".to_string()), "[\"response\"]");
}

#[test]
fn generate_scenario_against_replying_server() {
    let reply = HttpOutcome::Response {
        status: 200,
        body: "{\"response\":\"hi there\"}".to_string(),
    };
    let body = call_result(reply).unwrap();
    assert_eq!(generate_text_from_body(body), "hi there");
}

#[test]
fn generate_result_maps_failures_like_any_call() {
    let reply = HttpOutcome::Response { status: 500, body: "ignored".to_string() };
    assert_eq!(generate_response_result(reply), Err("Error: 500".to_string()));
    let down = HttpOutcome::TransportError { message: "refused".to_string() };
    assert_eq!(generate_response_result(down), Err("refused".to_string()));
    let ok = HttpOutcome::Response { status: 200, body: "{\"response\":\"yes\"}".to_string() };
    assert_eq!(generate_response_result(ok), Ok("yes".to_string()));
}

#[test]
fn install_unsupported_platform_fails_at_once() {
    let r = install_commands(Platform::Other);
    assert!(matches!(r, Err(ref e) if e == "Automatic installation only supported on Windows"));
}

#[test]
fn install_windows_platform_gets_the_fixed_commands() {
    let plan = install_commands(Platform::Windows).unwrap();
    assert_eq!(plan.installer.program, "winget");
    assert_eq!(
        plan.installer.args,
        vec![
            "install".to_string(),
            "Ollama.Ollama".to_string(),
            "--accept-source-agreements".to_string(),
            "--silent".to_string(),
            "--disable-interactivity".to_string(),
        ]
    );
    assert_eq!(plan.server.program, "ollama");
    assert_eq!(plan.server.args, vec!["serve".to_string()]);
}

#[test]
fn install_events_map_to_the_operation_result() {
    assert_eq!(
        install_result(InstallEvent::LaunchFailed { message: "no winget".to_string() }),
        Err("Failed to start installation: no winget".to_string())
    );
    assert_eq!(
        install_result(InstallEvent::ServeFailed { message: "not found".to_string() }),
        Err("Failed to start Ollama: not found".to_string())
    );
    assert_eq!(
        install_result(InstallEvent::Started),
        Ok("Installation complete, Ollama started".to_string())
    );
}
