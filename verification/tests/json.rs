use llm_access::errors::{
    anthropic_json_error, codex_error_type_for_status, codex_surface_error_response,
    daily_request_limit_cooldown, extract_error_message_from_json_value,
    is_monthly_request_limit, kiro_chunk_contains_content_length_exceeded,
    kiro_events_contain_content_length_exceeded, kiro_prompt_too_long_message,
    kiro_prompt_too_long_response_for_body, summarize_error_bytes,
    transient_invalid_model_cooldown, WireEvent,
};
use llm_access::json::{
    non_negative_i64_to_u64, optional_json_bool_any, optional_json_i64_any, optional_json_string,
    optional_json_string_any, optional_json_u64_any, parse_bytes, parse_text,
    set_json_optional_bool, set_json_optional_string, set_json_optional_u64, show_text,
    write_bytes, write_text, Json,
};

fn parsed(text: &str) -> Json {
    parse_text(text).expect("JSON")
}

#[test]
fn texts_are_parsed_and_written() {
    let json = parsed(" {\"b\": [1, -2, true, null], \"a\": \"x\"} ");
    assert_eq!(json.get_str("a"), Some("x"));
    let Some(Json::Array(items)) = json.get("b") else {
        panic!("b is a list");
    };
    assert_eq!(items[0], Json::Unsigned(1));
    assert_eq!(items[1], Json::Negative(-2));
    assert_eq!(items[2], Json::Bool(true));
    assert_eq!(items[3], Json::Null);
    let written = "{\"a\":\"x\",\"b\":[1,-2,true,null]}";
    assert_eq!(write_text(&json), Some(written.to_string()));
    assert_eq!(show_text(&json), written);
    assert_eq!(write_bytes(&json), Some(written.as_bytes().to_vec()));
    assert!(parse_text("{").is_none());
    assert!(parse_bytes(b"{\"a\":1}").is_some());
    assert!(parse_bytes(b"\xff").is_none());
}

#[test]
fn fractions_survive_a_round_trip() {
    let json = parsed("{\"rate\":1.5}");
    assert!(matches!(json.get("rate"), Some(Json::Float(_))));
    assert_eq!(show_text(&json), "{\"rate\":1.5}");
    assert_eq!(json.get("rate").and_then(|rate| rate.as_u64()), None);
}

#[test]
fn fields_are_set_and_removed() {
    let mut json = Json::new_object().with("a", Json::str("1")).with("a", Json::str("2"));
    assert_eq!(json.get_str("a"), Some("2"));
    set_json_optional_string(&mut json, "b", Some("x".to_string()));
    set_json_optional_bool(&mut json, "c", Some(true));
    set_json_optional_u64(&mut json, "d", Some(7));
    assert_eq!(json.get_str("b"), Some("x"));
    assert_eq!(json.get("c").and_then(|c| c.as_bool()), Some(true));
    assert_eq!(json.get("d").and_then(|d| d.as_u64()), Some(7));
    set_json_optional_u64(&mut json, "d", None);
    let json = json.without("a");
    assert!(json.get("a").is_none());
}

#[test]
fn the_first_field_that_is_there_counts() {
    let json = parsed("{\"snake_case\":\" v \",\"n\":5,\"neg\":-5,\"yes\":true,\"blank\":\" \"}");
    assert_eq!(optional_json_string(&json, "missing"), None);
    assert_eq!(
        optional_json_string_any(&json, &["camelCase", "snake_case"]),
        optional_json_string(&json, "snake_case")
    );
    assert_eq!(optional_json_bool_any(&json, &["no", "yes"]), Some(true));
    assert_eq!(optional_json_u64_any(&json, &["n"]), Some(5));
    assert_eq!(optional_json_u64_any(&json, &["neg"]), Some(0));
    assert_eq!(optional_json_i64_any(&json, &["neg"]), Some(-5));
    assert_eq!(non_negative_i64_to_u64(-1), Some(0));
    assert_eq!(non_negative_i64_to_u64(9), Some(9));
}

#[test]
fn errors_have_the_shape_of_their_surface() {
    let reply = anthropic_json_error(400, "invalid_request_error", "bad");
    assert_eq!(reply.status, 400);
    assert_eq!(reply.body, "{\"error\":{\"message\":\"bad\",\"type\":\"invalid_request_error\"}}");
    assert_eq!(codex_error_type_for_status(404), "invalid_request_error");
    assert_eq!(codex_error_type_for_status(503), "api_error");
    let messages = codex_surface_error_response("/v1/messages?beta=1", 503, "down");
    assert_eq!(messages.body, "{\"error\":{\"message\":\"down\",\"type\":\"api_error\"}}");
    let responses = parsed(&codex_surface_error_response("/v1/responses", 503, "down").body);
    assert_eq!(responses.get2_str("error", "message"), Some("down"));
}

#[test]
fn upstream_errors_are_summarized() {
    assert_eq!(
        extract_error_message_from_json_value(&parsed("{\"error\":\"plain\"}")),
        Some("plain".to_string())
    );
    assert_eq!(
        extract_error_message_from_json_value(&parsed(
            "{\"response\":{\"error\":{\"message\":\"deep\"}}}"
        )),
        Some("deep".to_string())
    );
    assert_eq!(summarize_error_bytes(b"{\"error\":{\"message\":\" inner \"}}"), "inner");
    assert_eq!(summarize_error_bytes(b" not json "), "not json");
    assert_eq!(summarize_error_bytes(b"bad \xff byte"), "bad \u{fffd} byte");
    assert_eq!(summarize_error_bytes(b"  "), "Unknown upstream error");
}

#[test]
fn limits_are_told_from_the_body() {
    assert!(is_monthly_request_limit("{\"reason\":\"MONTHLY_REQUEST_COUNT\"}"));
    assert!(is_monthly_request_limit("text with MONTHLY_REQUEST_COUNT inside"));
    assert!(!is_monthly_request_limit("{\"reason\":\"OTHER\"}"));
    assert_eq!(daily_request_limit_cooldown("5-minute credit limit exceeded"), Some(300));
    assert_eq!(
        daily_request_limit_cooldown("{\"error\":{\"reason\":\"DAILY_REQUEST_COUNT\"}}"),
        Some(300)
    );
    assert_eq!(daily_request_limit_cooldown("busy"), None);
    assert_eq!(
        transient_invalid_model_cooldown(
            "{\"message\":\"Invalid model\",\"reason\":\"INVALID_MODEL_ID\"}"
        ),
        Some(60)
    );
    assert_eq!(transient_invalid_model_cooldown("Invalid model"), None);
}

#[test]
fn too_long_prompts_are_told_with_the_window() {
    assert_eq!(
        kiro_prompt_too_long_message(200_000, 250_000),
        "Prompt is too long: 250000 tokens > 200000 tokens for the model context window."
    );
    assert_eq!(
        kiro_prompt_too_long_message(200_000, 5),
        "Prompt is too long: 200001 tokens > 200000 tokens for the model context window."
    );
    assert_eq!(
        kiro_prompt_too_long_message(0, 0),
        "Prompt is too long: 2 tokens > 1 tokens for the model context window."
    );
    assert!(kiro_prompt_too_long_response_for_body(400, b"Input is too long.", 10, 20).is_some());
    assert!(kiro_prompt_too_long_response_for_body(413, b"", 10, 20).is_some());
    assert!(kiro_prompt_too_long_response_for_body(400, b"other", 10, 20).is_none());
}

#[test]
fn too_long_prompts_are_found_among_events() {
    let long = WireEvent::Exception {
        exception_type: "ContentLengthExceededException".to_string(),
        message: String::new(),
    };
    let other = WireEvent::Error { error_code: "x".to_string(), error_message: "y".to_string() };
    assert!(kiro_events_contain_content_length_exceeded(&vec![WireEvent::Other, long]));
    assert!(!kiro_events_contain_content_length_exceeded(&vec![other, WireEvent::Other]));
    let long = WireEvent::Error {
        error_code: "CONTENT_LENGTH_EXCEEDS_THRESHOLD".to_string(),
        error_message: String::new(),
    };
    assert!(kiro_chunk_contains_content_length_exceeded(&vec![None, Some(long)]));
    assert!(!kiro_chunk_contains_content_length_exceeded(&vec![None]));
}
