use serde_json::Value;
use yazelix_transport::limits::{
    DEFAULT_TIMEOUT_MS, MAX_REQUEST_BYTES, MAX_REQUEST_ID_BYTES, SCHEMA_VERSION,
};
use yazelix_transport::text::{is_blank, is_white_space, tokens_match};
use yazelix_transport::wire::{
    admit_request, check_frame, request_timeout_ms, Admission, Failure, Rejection, WireRequest,
};

fn target_payload() -> Value {
    let mut payload = serde_json::Map::new();
    payload.insert("path".to_string(), Value::String("/target".to_string()));
    Value::Object(payload)
}

fn request(id: &str, token: &str, action: &str, timeout_ms: Option<u64>) -> WireRequest {
    WireRequest {
        schema_version: SCHEMA_VERSION,
        request_id: id.to_string(),
        auth_token: token.to_string(),
        action: action.to_string(),
        timeout_ms,
        payload: target_payload(),
    }
}

fn rejected(result: Result<Admission, Rejection>) -> Rejection {
    match result {
        Err(rejection) => rejection,
        Ok(admission) => panic!("expected a rejection, got {admission:?}"),
    }
}

fn admitted(result: Result<Admission, Rejection>) -> Admission {
    match result {
        Ok(admission) => admission,
        Err(rejection) => panic!("expected an admission, got {rejection:?}"),
    }
}

#[test]
fn failure_new_keeps_class_and_message() {
    let failure = Failure::new("timeout", "editor handler timed out".to_string());
    assert_eq!(failure.class, "timeout");
    assert_eq!(failure.message, "editor handler timed out");
}

#[test]
fn wrong_token_is_unauthorized_and_echoes_the_id() {
    let rejection = rejected(admit_request("secret", Ok(request("wrong", "other", "open", Some(100)))));
    assert_eq!(rejection.request_id, "wrong");
    assert_eq!(rejection.failure.class, "unauthorized");
    assert_eq!(rejection.failure.message, "invalid authentication token");
}

#[test]
fn wrong_token_wins_over_blank_action() {
    let rejection = rejected(admit_request("secret", Ok(request("id", "other", " ", None))));
    assert_eq!(rejection.failure.class, "unauthorized");
}

#[test]
fn token_prefix_is_unauthorized() {
    let rejection = rejected(admit_request("secret", Ok(request("id", "secre", "open", None))));
    assert_eq!(rejection.failure.class, "unauthorized");
    let rejection = rejected(admit_request("secret", Ok(request("id", "secrets", "open", None))));
    assert_eq!(rejection.failure.class, "unauthorized");
}

#[test]
fn unparsable_line_is_invalid_request_with_the_parser_message() {
    let parse_error = serde_json::from_str::<Value>("not JSON").unwrap_err().to_string();
    let rejection = rejected(admit_request("secret", Err(parse_error.clone())));
    assert_eq!(rejection.request_id, "");
    assert_eq!(rejection.failure.class, "invalid_request");
    assert_eq!(rejection.failure.message, parse_error);
}

#[test]
fn accepted_request_is_handed_on_without_its_token() {
    let admission = admitted(admit_request("secret", Ok(request("ok", "secret", "open", Some(100)))));
    assert_eq!(admission.request.request_id, "ok");
    assert_eq!(admission.request.action, "open");
    assert_eq!(admission.request.payload["path"], "/target");
    assert_eq!(admission.timeout_ms, 100);
}

#[test]
fn blank_or_long_request_ids_are_refused_without_echo() {
    for id in ["", "   ", "\t\n", "\u{3000}"] {
        let rejection = rejected(admit_request("secret", Ok(request(id, "secret", "open", None))));
        assert_eq!(rejection.request_id, "");
        assert_eq!(rejection.failure.class, "invalid_request");
        assert_eq!(rejection.failure.message, "request_id must contain 1 to 256 bytes");
    }
    let long = "x".repeat(MAX_REQUEST_ID_BYTES + 1);
    let rejection = rejected(admit_request("secret", Ok(request(&long, "secret", "open", None))));
    assert_eq!(rejection.request_id, "");
    assert_eq!(rejection.failure.class, "invalid_request");
    // 86 three-byte characters: 258 bytes although only 86 characters.
    let wide = "\u{20ac}".repeat(86);
    let rejection = rejected(admit_request("secret", Ok(request(&wide, "secret", "open", None))));
    assert_eq!(rejection.failure.class, "invalid_request");
}

#[test]
fn request_id_of_exactly_the_limit_is_accepted() {
    let id = "x".repeat(MAX_REQUEST_ID_BYTES);
    let admission = admitted(admit_request("secret", Ok(request(&id, "secret", "open", None))));
    assert_eq!(admission.request.request_id, id);
}

#[test]
fn other_schema_is_unsupported() {
    let mut wire = request("id", "secret", "open", None);
    wire.schema_version = 3;
    let rejection = rejected(admit_request("secret", Ok(wire)));
    assert_eq!(rejection.request_id, "id");
    assert_eq!(rejection.failure.class, "unsupported_schema");
    assert_eq!(rejection.failure.message, "expected schema version 2");
}

#[test]
fn blank_action_is_invalid_request() {
    let rejection = rejected(admit_request("secret", Ok(request("id", "secret", " \t", None))));
    assert_eq!(rejection.request_id, "id");
    assert_eq!(rejection.failure.class, "invalid_request");
    assert_eq!(rejection.failure.message, "action must be non-empty");
}

#[test]
fn timeouts_are_clamped() {
    assert_eq!(request_timeout_ms(None), DEFAULT_TIMEOUT_MS);
    assert_eq!(request_timeout_ms(Some(0)), 1);
    assert_eq!(request_timeout_ms(Some(1)), 1);
    assert_eq!(request_timeout_ms(Some(10)), 10);
    assert_eq!(request_timeout_ms(Some(5000)), 5000);
    assert_eq!(request_timeout_ms(Some(5001)), 5000);
    assert_eq!(request_timeout_ms(Some(u64::MAX)), 5000);
    let admission = admitted(admit_request("secret", Ok(request("slow", "secret", "timeout", Some(10)))));
    assert_eq!(admission.timeout_ms, 10);
    let admission = admitted(admit_request("secret", Ok(request("slow", "secret", "timeout", None))));
    assert_eq!(admission.timeout_ms, DEFAULT_TIMEOUT_MS);
}

#[test]
fn oversized_line_is_request_too_large() {
    let line = vec![b'x'; MAX_REQUEST_BYTES + 1];
    let rejection = check_frame(&line).unwrap_err();
    assert_eq!(rejection.request_id, "");
    assert_eq!(rejection.failure.class, "request_too_large");
    assert_eq!(rejection.failure.message, "request exceeds 64 KiB");
}

#[test]
fn line_without_newline_is_invalid_request() {
    for line in [b"".to_vec(), b"{}".to_vec(), vec![b'x'; MAX_REQUEST_BYTES]] {
        let rejection = check_frame(&line).unwrap_err();
        assert_eq!(rejection.failure.class, "invalid_request");
        assert_eq!(rejection.failure.message, "request must end with a newline");
    }
}

#[test]
fn newline_terminated_lines_within_the_limit_pass() {
    assert!(check_frame(b"not JSON\n").is_ok());
    let mut line = vec![b'x'; MAX_REQUEST_BYTES - 1];
    line.push(b'\n');
    assert!(check_frame(&line).is_ok());
    line.insert(0, b'x');
    assert_eq!(check_frame(&line).unwrap_err().failure.class, "request_too_large");
}

#[test]
fn token_comparison_is_equality() {
    assert!(tokens_match(b"secret", b"secret"));
    assert!(tokens_match(b"", b""));
    assert!(!tokens_match(b"secret", b"secreT"));
    assert!(!tokens_match(b"secret", b"other"));
    assert!(!tokens_match(b"secret", b""));
    assert!(!tokens_match(&[0x80], &[0x00]));
}

#[test]
fn blank_text_is_white_space_only() {
    assert!(is_blank(""));
    assert!(is_blank(" \t\r\n"));
    assert!(is_blank("\u{a0}\u{2028}\u{3000}"));
    assert!(!is_blank("a"));
    assert!(!is_blank("  a  "));
    assert!(!is_blank("\u{200b}"));
}

#[test]
fn white_space_agrees_with_std_on_every_char() {
    for code in 0u32..=0x10FFFF {
        if let Some(c) = char::from_u32(code) {
            assert_eq!(is_white_space(c), c.is_whitespace(), "U+{code:04X}");
        }
    }
}

#[test]
fn blank_agrees_with_trim() {
    for text in ["", " ", "x", " x ", "\u{85}\u{1680}\u{205f}", "\u{180e}", "\u{feff}"] {
        assert_eq!(is_blank(text), text.trim().is_empty(), "{text:?}");
    }
}
