use ollama_client::client::{search_encyclopedia_url, search_web_url};
use ollama_client::jsontext::{create_body, generate_body, pull_body};
use ollama_client::urlenc::percent_encode;

#[test]
fn percent_encode_keeps_unreserved_characters() {
    assert_eq!(percent_encode("aZ09-._~"), "aZ09-._~");
    assert_eq!(percent_encode(""), "");
}

#[test]
fn percent_encode_escapes_reserved_characters() {
    assert_eq!(percent_encode("c++ tutorial"), "c%2B%2B%20tutorial");
    assert_eq!(percent_encode("a/b?c=d&e"), "a%2Fb%3Fc%3Dd%26e");
    assert_eq!(percent_encode("100%"), "100%25");
}

#[test]
fn percent_encode_escapes_utf8_bytes() {
    assert_eq!(percent_encode("é"), "%C3%A9");
    assert_eq!(percent_encode("naïve"), "na%C3%AFve");
}

#[test]
fn search_urls_carry_the_encoded_query() {
    assert_eq!(
        search_web_url("c++ tutorial"),
        "https://api.duckduckgo.com/?q=c%2B%2B%20tutorial&format=json"
    );
    assert_eq!(
        search_encyclopedia_url("Rust (language)"),
        "https://en.wikipedia.org/api/rest_v1/page/summary/Rust%20%28language%29"
    );
}

#[test]
fn pull_body_is_the_exact_json_object() {
    assert_eq!(pull_body("llama3"), "{\"name\":\"llama3\"}");
    assert_eq!(pull_body(""), "{\"name\":\"\"}");
}

#[test]
fn generate_body_is_the_exact_json_object() {
    assert_eq!(
        generate_body("llama3", "hello"),
        "{\"model\":\"llama3\",\"prompt\":\"hello\",\"stream\":false}"
    );
}

#[test]
fn create_body_is_the_exact_json_object() {
    assert_eq!(
        create_body("mine", "FROM llama3"),
        "{\"name\":\"mine\",\"modelfile\":\"FROM llama3\"}"
    );
}

#[test]
fn json_bodies_escape_quotes_backslashes_and_controls() {
    assert_eq!(pull_body("a\"b"), "{\"name\":\"a\\\"b\"}");
    assert_eq!(pull_body("a\\b"), "{\"name\":\"a\\\\b\"}");
    assert_eq!(pull_body("a\nb"), "{\"name\":\"a\\u000Ab\"}");
    assert_eq!(pull_body("a\tb"), "{\"name\":\"a\\u0009b\"}");
}

fn hex_nibble(b: u8) -> u8 {
    match b {
        b'0'..=b'9' => b - b'0',
        b'A'..=b'F' => b - b'A' + 10,
        _ => panic!("not an upper-case hex digit: {}", b as char),
    }
}

fn percent_decode_bytes(s: &str) -> Vec<u8> {
    let raw = s.as_bytes();
    let mut out = Vec::new();
    let mut i = 0;
    while i < raw.len() {
        if raw[i] == b'%' {
            out.push(hex_nibble(raw[i + 1]) * 16 + hex_nibble(raw[i + 2]));
            i += 3;
        } else {
            out.push(raw[i]);
            i += 1;
        }
    }
    out
}

#[test]
fn percent_encoding_round_trips_the_query_bytes() {
    for q in ["c++ tutorial", "naïve & true?", "100%", "Rust (language)", ""] {
        assert_eq!(percent_decode_bytes(&percent_encode(q)), q.as_bytes());
    }
}

#[test]
fn escaped_bodies_parse_back_to_the_original_text() {
    let body = generate_body("m\"odel\\", "line1\nline2");
    let value: serde_json::Value = serde_json::from_str(&body).unwrap();
    assert_eq!(value.get("model").unwrap().as_str().unwrap(), "m\"odel\\");
    assert_eq!(value.get("prompt").unwrap().as_str().unwrap(), "line1\nline2");
    assert_eq!(value.get("stream").unwrap().as_bool().unwrap(), false);
}
