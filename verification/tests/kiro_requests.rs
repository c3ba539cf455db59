use llm_access::headers::Headers;
use llm_access::json::{parse_text, show_text, Json};
use llm_access::kiro_call::{
    call_kiro_generate_for_route, call_kiro_mcp_for_route, peek_kiro_stream, peek_outcome,
    prepare_kiro_stream_response_for_route, KiroCall, KiroCallAction, KiroCallKind, KiroPeek,
    KiroPeekAction, KiroRouteFailure, KiroRouteFailureKind, McpError, McpReply, PeekState,
};
use llm_access::kiro_dispatch::{
    websearch_message, kiro_endpoint, kiro_entry, kiro_failed_answer,
    kiro_recorded_reply, kiro_refusal_reply, kiro_request_body_with_profile_arn, kiro_request_url,
    normalized_kiro_messages_path, KiroEntry, KiroRefusal, ProfileArnError,
};
use llm_access::kiro_model::{
    apply_kiro_model_mapping, kiro_affinity_session_id, normalize_kiro_kmodel_name,
    override_kiro_thinking_from_model_name, parse_kiro_billable_model_multipliers_json,
    parse_kiro_cache_kmodels_json, remember_kiro_session_affinity,
    resolve_kiro_request_session, KiroSessionAffinity, Message, MessagesRequest, OutputConfig,
    ResolvedConversationId, SessionFallbackReason, SessionIdSource,
};
use llm_access::kiro_summary::{
    append_kiro_message_summary_parts, collect_kiro_tool_name_map, compact_preview,
    extract_last_message_from_kiro_messages, summarize_text, truncate_summary, SummaryParts,
};

fn request(model: &str) -> MessagesRequest {
    MessagesRequest {
        model: model.to_string(),
        messages: vec![],
        stream: false,
        system: None,
        thinking: None,
        output_config: None,
    }
}

fn json(text: &str) -> Json {
    parse_text(text).expect("JSON")
}

// Models and sessions

#[test]
fn model_names_are_mapped_once() {
    let map = "{\"small\":\"large\",\"large\":\"huge\"}";
    let mut payload = request("small");
    let change = apply_kiro_model_mapping(map, &mut payload).expect("a map");
    assert_eq!(change, Some(("small".to_string(), "large".to_string())));
    assert_eq!(payload.model, "large");
    let mut other = request("other");
    assert_eq!(apply_kiro_model_mapping(map, &mut other), Ok(None));
    assert_eq!(other.model, "other");
    let mut kept = request("small");
    assert!(apply_kiro_model_mapping("[1]", &mut kept).is_err());
    assert_eq!(kept.model, "small");
}

#[test]
fn thinking_follows_the_model_name() {
    let mut plain = request("opus-4.8");
    override_kiro_thinking_from_model_name(&mut plain);
    assert!(plain.thinking.is_none());
    let mut adaptive = request("OPUS-4.8-Thinking");
    override_kiro_thinking_from_model_name(&mut adaptive);
    let thinking = adaptive.thinking.expect("thinking");
    assert_eq!(thinking.thinking_type, "adaptive");
    assert_eq!(thinking.budget_tokens, 20_000);
    let config = adaptive.output_config.expect("config");
    assert_eq!(config.effort, Some("xhigh".to_string()));
    let mut chosen = request("opus-4-7-thinking");
    chosen.output_config = Some(OutputConfig { effort: Some("low".to_string()), format: None });
    override_kiro_thinking_from_model_name(&mut chosen);
    assert_eq!(chosen.output_config.expect("config").effort, Some("low".to_string()));
    let mut enabled = request("sonnet-4-5-thinking");
    override_kiro_thinking_from_model_name(&mut enabled);
    assert_eq!(enabled.thinking.expect("thinking").thinking_type, "enabled");
    assert!(enabled.output_config.is_none());
}

#[test]
fn listed_names_use_dashes() {
    assert_eq!(normalize_kiro_kmodel_name("fam", "fam-opus-4.8"), "fam-opus-4-8");
    assert_eq!(normalize_kiro_kmodel_name("fam", "fam-opus-4.6"), "fam-opus-4-6");
    assert_eq!(normalize_kiro_kmodel_name("fam", "fam-sonnet-4.5"), "fam-sonnet-4.5");
}

#[test]
fn rates_are_checked_in_order() {
    let rate = |name: &str, usable: bool| (name.to_string(), usable);
    assert_eq!(parse_kiro_cache_kmodels_json(&vec![rate("a", true)]), Ok(()));
    assert_eq!(
        parse_kiro_cache_kmodels_json(&vec![rate("a", true), rate("b", false), rate("c", false)]),
        Err("kiro cache kmodel `b` must be positive and finite".to_string())
    );
    let good = vec![rate("haiku", true), rate("opus", true), rate("sonnet", true)];
    assert_eq!(parse_kiro_billable_model_multipliers_json(&good), Ok(()));
    assert_eq!(
        parse_kiro_billable_model_multipliers_json(&vec![rate("gpt", true)]),
        Err("kiro billable multiplier family `gpt` is invalid".to_string())
    );
    assert_eq!(
        parse_kiro_billable_model_multipliers_json(&vec![rate("opus", false)]),
        Err("kiro billable multiplier `opus` must be positive and finite".to_string())
    );
}

const SESSION: &str = "8bb5523b-ec7c-4540-a9ca-beb6d79f1552";

fn headers(entries: &[(&str, &str)]) -> Headers {
    let entries =
        entries.iter().map(|(name, value)| (name.to_string(), Some(value.to_string()))).collect();
    Headers { entries }
}

fn generated() -> ResolvedConversationId {
    ResolvedConversationId {
        conversation_id: "generated".to_string(),
        source: SessionIdSource::GeneratedFallback(SessionFallbackReason::NoUsableMetadata),
        source_name: None,
        source_value: None,
    }
}

#[test]
fn a_valid_session_header_decides() {
    let names = ["x-session-id", "session_id"];
    let sent = headers(&[("x-session-id", "no uuid"), ("session_id", SESSION)]);
    let resolved = resolve_kiro_request_session(&sent, &names, generated());
    assert_eq!(resolved.conversation_id, SESSION);
    assert!(matches!(resolved.source, SessionIdSource::RequestHeader));
    assert_eq!(resolved.source_name, Some("session_id".to_string()));
    assert_eq!(kiro_affinity_session_id(&resolved), Some(SESSION.to_string()));
    let sent = headers(&[("x-session-id", "no uuid")]);
    let resolved = resolve_kiro_request_session(&sent, &names, generated());
    assert_eq!(resolved.conversation_id, "generated");
    assert!(matches!(
        resolved.source,
        SessionIdSource::GeneratedFallback(SessionFallbackReason::InvalidHeaderSessionId)
    ));
    assert_eq!(resolved.source_value, Some("no uuid".to_string()));
    assert_eq!(kiro_affinity_session_id(&resolved), None);
    let metadata = ResolvedConversationId {
        conversation_id: " from metadata ".to_string(),
        source: SessionIdSource::Metadata,
        source_name: None,
        source_value: None,
    };
    let resolved = resolve_kiro_request_session(&headers(&[]), &names, metadata);
    assert_eq!(kiro_affinity_session_id(&resolved), Some("from metadata".to_string()));
}

#[test]
fn sessions_return_to_their_account() {
    let mut affinity = KiroSessionAffinity::new();
    affinity.remember("key", "s1", "a");
    affinity.remember("key", "s2", "b");
    affinity.remember("key", "s1", "c");
    assert_eq!(affinity.lookup("key", "s1"), Some("c".to_string()));
    assert_eq!(affinity.lookup("key", "s2"), Some("b".to_string()));
    assert_eq!(affinity.lookup("other", "s1"), None);
    remember_kiro_session_affinity(&mut affinity, "key", None, "z");
    assert_eq!(affinity.lookup("key", "s1"), Some("c".to_string()));
    remember_kiro_session_affinity(&mut affinity, "key", Some("s3"), "z");
    assert_eq!(affinity.lookup("key", "s3"), Some("z".to_string()));
}

// Calls

fn failure_of(action: KiroCallAction) -> KiroRouteFailure {
    match action {
        KiroCallAction::Failed { failure, .. } => failure,
        _ => panic!("the call must have failed"),
    }
}

#[test]
fn credentials_are_refreshed_once() {
    let (mut call, first) = KiroCall::start(KiroCallKind::Generate);
    assert!(matches!(first, KiroCallAction::EnsureContext { force_refresh: false, after_ms: 0 }));
    assert!(matches!(call.on_context("a", Ok(())), KiroCallAction::Send));
    let second = call_kiro_generate_for_route(&mut call, 403, b"expired".to_vec());
    assert!(matches!(second, KiroCallAction::EnsureContext { force_refresh: true, .. }));
    let failure = failure_of(call_kiro_generate_for_route(&mut call, 403, b"expired".to_vec()));
    assert_eq!(failure.kind, KiroRouteFailureKind::RetryNext);
    assert_eq!(failure.status, 403);
    assert_eq!(failure.body_text(), "expired");
}

#[test]
fn busy_upstreams_are_asked_three_times() {
    let (mut call, _) = KiroCall::start(KiroCallKind::Generate);
    let mut sends = 1;
    loop {
        match call_kiro_generate_for_route(&mut call, 503, b"busy".to_vec()) {
            KiroCallAction::EnsureContext { .. } => sends += 1,
            action => {
                assert_eq!(failure_of(action).status, 503);
                break;
            },
        }
    }
    assert_eq!(sends, 3);
}

#[test]
fn answers_decide_what_becomes_of_the_account() {
    let kinds = [
        (402, "MONTHLY_REQUEST_COUNT", KiroRouteFailureKind::QuotaExhausted),
        (
            429,
            "5-minute credit limit exceeded",
            KiroRouteFailureKind::RateLimited { cooldown_seconds: 300, mark_proxy: false },
        ),
        (
            400,
            "{\"message\":\"Invalid model\",\"reason\":\"INVALID_MODEL_ID\"}",
            KiroRouteFailureKind::RateLimited { cooldown_seconds: 60, mark_proxy: true },
        ),
        (400, "bad", KiroRouteFailureKind::Fatal),
        (404, "gone", KiroRouteFailureKind::Fatal),
    ];
    for (status, body, kind) in kinds {
        let (mut call, _) = KiroCall::start(KiroCallKind::Generate);
        let action = call_kiro_generate_for_route(&mut call, status, body.as_bytes().to_vec());
        assert_eq!(failure_of(action).kind, kind);
    }
    let (mut call, _) = KiroCall::start(KiroCallKind::Generate);
    let ok = call_kiro_generate_for_route(&mut call, 200, vec![]);
    assert!(matches!(ok, KiroCallAction::Succeeded));
}

#[test]
fn failures_before_an_answer_are_worded() {
    let (call, _) = KiroCall::start(KiroCallKind::Mcp);
    let failure = failure_of(call.on_context("acc", Err("no token".to_string())));
    assert_eq!(failure.body_text(), "kiro mcp auth refresh failed for acc: no token");
    assert_eq!(failure.status, 502);
    let (mut call, _) = KiroCall::start(KiroCallKind::Generate);
    loop {
        match call.on_transport_error("reset") {
            KiroCallAction::EnsureContext { .. } => {},
            action => {
                let failure = failure_of(action);
                assert_eq!(failure.body_text(), "kiro upstream transport failure: reset");
                break;
            },
        }
    }
}

#[test]
fn tool_replies_are_checked() {
    let unreadable = call_kiro_mcp_for_route(Err("eof".to_string()), Err(String::new()));
    let Err(failure) = unreadable else { panic!("unreadable") };
    assert_eq!(failure.body_text(), "read kiro mcp response body: eof");
    assert_eq!(failure.kind, KiroRouteFailureKind::RetryNext);
    let odd = call_kiro_mcp_for_route(Ok("<>".to_string()), Err("expected value".to_string()));
    let Err(failure) = odd else { panic!("odd") };
    assert_eq!(failure.body_text(), "parse kiro mcp response body: expected value; body=<>");
    let error = McpError { code: None, message: None };
    let refused = call_kiro_mcp_for_route(Ok("{}".to_string()), Ok(McpReply { error: Some(error) }));
    let Err(failure) = refused else { panic!("refused") };
    assert_eq!(failure.body_text(), "MCP error: -1 - Unknown error");
    assert!(call_kiro_mcp_for_route(Ok("{}".to_string()), Ok(McpReply { error: None })).is_ok());
}

#[test]
fn streams_are_looked_at_before_they_are_sent() {
    assert!(matches!(peek_outcome(PeekState::NothingYet, false), KiroPeek::Empty));
    let some = peek_kiro_stream(PeekState::NothingYet, 10, false);
    assert!(matches!(peek_outcome(some, false), KiroPeek::Incomplete));
    let framed = peek_kiro_stream(some, 10, true);
    assert!(matches!(peek_outcome(framed, true), KiroPeek::Frames { too_long: true }));
    let again = prepare_kiro_stream_response_for_route(KiroPeek::Empty, 1, 2, "long");
    assert!(matches!(again, KiroPeekAction::CallAgain { after_ms: 400 }));
    let KiroPeekAction::Fail { failure } =
        prepare_kiro_stream_response_for_route(KiroPeek::Empty, 2, 2, "long")
    else {
        panic!("no more calls");
    };
    assert_eq!(failure.status, 502);
    let KiroPeekAction::Fail { failure } = prepare_kiro_stream_response_for_route(
        KiroPeek::Frames { too_long: true },
        0,
        2,
        "Prompt is too long",
    ) else {
        panic!("too long");
    };
    assert_eq!(failure.status, 413);
    assert_eq!(failure.body_text(), "Prompt is too long");
    let forward =
        prepare_kiro_stream_response_for_route(KiroPeek::Frames { too_long: false }, 0, 2, "");
    assert!(matches!(forward, KiroPeekAction::Forward));
}

// Endpoints and replies

#[test]
fn only_message_paths_are_served() {
    assert_eq!(normalized_kiro_messages_path("/api/kiro-gateway/v1/messages"), Some("/v1/messages"));
    assert_eq!(normalized_kiro_messages_path("/cc/v1/messages"), Some("/cc/v1/messages"));
    assert_eq!(normalized_kiro_messages_path("/v1/messages/"), None);
    assert!(matches!(kiro_entry("GET", "/v1/models"), KiroEntry::ListModels));
    assert!(matches!(
        kiro_entry("POST", "/v1/models"),
        KiroEntry::Refused { refusal: KiroRefusal::UnsupportedMethod }
    ));
    assert!(matches!(kiro_entry("POST", "/v1/messages"), KiroEntry::Dispatch));
    assert_eq!(kiro_endpoint(Some(1), "POST", "/v1/messages").ok(), Some("/v1/messages"));
    let refusals = [
        (kiro_endpoint(None, "POST", "/v1/messages"), 500),
        (kiro_endpoint(Some(0), "POST", "/v1/messages"), 503),
        (kiro_endpoint(Some(1), "POST", "/v1/other"), 404),
        (kiro_endpoint(Some(1), "GET", "/v1/messages"), 405),
    ];
    for (result, status) in refusals {
        let refusal = result.err().expect("refused");
        assert_eq!(kiro_refusal_reply(refusal).status, status);
    }
}

#[test]
fn refusals_tell_their_cause() {
    let reply = kiro_refusal_reply(KiroRefusal::InvalidJson { error: "eof".to_string() });
    assert_eq!(reply.status, 400);
    assert!(reply.body.contains("failed to parse request JSON: eof"));
    let reply = kiro_refusal_reply(KiroRefusal::InvalidModelMap { error: "bad".to_string() });
    assert_eq!(reply.status, 500);
    assert!(reply.body.contains("Kiro model mapping configuration is invalid: bad"));
    let reply = kiro_refusal_reply(KiroRefusal::InvalidCacheConfig { error: "bad".to_string() });
    assert!(reply.body.contains("Kiro cache configuration is invalid: bad"));
    for refusal in [
        KiroRefusal::EncodingFailed,
        KiroRefusal::McpEncodingFailed { error: "e".to_string() },
        KiroRefusal::UsageNotRecorded,
        KiroRefusal::StreamNotBuilt,
        KiroRefusal::ResponseNotBuilt,
    ] {
        assert_eq!(kiro_refusal_reply(refusal).status, 500);
    }
    for refusal in [KiroRefusal::BodyTooLarge, KiroRefusal::NoSearchQuery] {
        assert_eq!(kiro_refusal_reply(refusal).status, 400);
    }
}

#[test]
fn failed_answers_tell_of_long_prompts() {
    let (status, reply) = kiro_failed_answer(400, b"Input is too long", 100, 150);
    assert_eq!(status, 413);
    assert!(reply.expect("reply").body.contains("150 tokens > 100 tokens"));
    let (status, reply) = kiro_failed_answer(502, b"down", 100, 150);
    assert_eq!(status, 502);
    assert!(reply.is_none());
    let reply = kiro_refusal_reply(KiroRefusal::BodyTooLarge);
    assert_eq!(kiro_recorded_reply(true, reply).status, 400);
    let reply = kiro_refusal_reply(KiroRefusal::BodyTooLarge);
    assert!(kiro_recorded_reply(false, reply).body.contains("failed to record usage"));
}

#[test]
fn the_profile_is_part_of_the_body() {
    let body = b"{\"a\":1,\"profileArn\":\"old\"}";
    let with = kiro_request_body_with_profile_arn(body, Some(" arn:1 "));
    assert_eq!(with.ok(), Some(b"{\"a\":1,\"profileArn\":\"arn:1\"}".to_vec()));
    let without = kiro_request_body_with_profile_arn(body, None);
    assert_eq!(without.ok(), Some(b"{\"a\":1}".to_vec()));
    let odd = kiro_request_body_with_profile_arn(b"no", None);
    assert!(matches!(odd, Err(ProfileArnError::NotJson)));
    let list = kiro_request_body_with_profile_arn(b"[1]", None);
    assert!(matches!(list, Err(ProfileArnError::NotAnObject)));
}

#[test]
fn search_answers_are_messages() {
    assert_eq!(
        kiro_request_url(Some("https://h"), "/v1/messages"),
        "https://h/api/kiro-gateway/v1/messages"
    );
    assert_eq!(kiro_request_url(None, "/v1/messages"), "/api/kiro-gateway/v1/messages");
    let message = websearch_message(json("[]"), "m", json("{\"input_tokens\":1}"));
    let id = message.get_str("id").expect("id");
    assert!(id.starts_with("msg_"), "{id}");
    assert_eq!(id.len(), "msg_".len() + 32);
    let digit = |c: char| c.is_ascii_digit() || ('a'..='f').contains(&c);
    assert!(id["msg_".len()..].chars().all(digit), "{id}");
    assert_eq!(id.as_bytes()["msg_".len() + 12], b'4');
    assert_eq!(id.len(), 36);
    assert_eq!(message.get_str("role"), Some("assistant"));
    assert_eq!(message.get_str("model"), Some("m"));
    assert_eq!(message.get_str("stop_reason"), Some("end_turn"));
    assert_eq!(message.get2("usage", "input_tokens").and_then(|n| n.as_u64()), Some(1));
}

// Summaries

fn message(content: &str) -> Message {
    Message { role: "user".to_string(), content: json(content) }
}

#[test]
fn summaries_are_short() {
    assert_eq!(truncate_summary("abcdef", 3), "abc...");
    assert_eq!(truncate_summary("abc", 3), "abc");
    assert_eq!(compact_preview("  a\n\t b  ", 10), "a b");
    assert_eq!(summarize_text(" \n ", 10), None);
    assert_eq!(summarize_text(" one two ", 5), Some("one t...".to_string()));
}

#[test]
fn the_last_message_is_summarized() {
    let messages = vec![
        message("[{\"type\":\"tool_use\",\"id\":\"t1\",\"name\":\"read_file\"}]"),
        message(
            "[{\"type\":\"text\",\"text\":\"look  here\"},\
             {\"type\":\"tool_result\",\"tool_use_id\":\"t1\",\"content\":\"42\"}]",
        ),
    ];
    let results = vec!["forty two".to_string()];
    let names = collect_kiro_tool_name_map(&messages, 1);
    assert_eq!(names.get("t1"), Some(&"read_file".to_string()));
    let mut parts = SummaryParts { list: vec![], used: 0 };
    append_kiro_message_summary_parts(&mut parts, &messages[1].content, &names, &results, 50);
    assert_eq!(parts.list, vec!["look here", "[tool_result:read_file] forty two"]);
    let summary = extract_last_message_from_kiro_messages(&messages, Some((1, 2)), &results, 50, 12);
    assert_eq!(summary, Some("look here\n[t...".to_string()));
    let none = extract_last_message_from_kiro_messages(&messages, None, &results, 50, 12);
    assert_eq!(none, None);
    assert_eq!(show_text(&messages[0].content).len() > 10, true);
}
