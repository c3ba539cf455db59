use llm_access::codex_answer::{
    adapt_codex_upstream_response, adapt_codex_upstream_response_from_parts,
    answer_collected_events, codex_answer_headers, codex_body_read, codex_not_recorded,
    codex_stream_content_type, collect_codex_events, collected_answer_recorded,
    collected_body_is_json, failed_events_recorded, finish_codex_answer, finish_collected_events,
    stream_codex_upstream_response, upstream_content_type, AnswerBody, AnswerPlan, CodexAnswered,
    CodexCollected, CodexOutcome, CodexReplyBody, CodexStreamAction, CodexStreamEvent,
    CollectedAnswer,
};
use llm_access::codex_auth::{
    add_codex_upstream_headers, codex_protocol_family_for_endpoint, codex_upstream_base_url,
    codex_user_agent, compute_codex_upstream_url, is_codex_invalid_encrypted_content_response,
    is_codex_non_retryable_client_error_response, load_codex_dispatch_runtime_config,
    normalized_codex_gateway_path, resolve_codex_account_attempt_limit,
    resolve_codex_client_version, resolve_codex_upstream_session_headers,
    retry_codex_without_encrypted_reasoning, strip_codex_encrypted_reasoning_items,
    CodexAuthSnapshot,
};
use llm_access::codex_dispatch::{
    codex_message_indicates_usage_limit, codex_status_from_error_json_value,
    codex_temporary_request_failure_cooldown, has_remaining_codex_candidate,
    randomized_codex_transient_account_failure_cooldown, CodexNext,
};
use llm_access::codex_gateway::{
    arrive, dispatch_codex_proxy, CodexAction, CodexArrival, CodexDispatch, CodexEvent,
    CodexSettings,
};
use llm_access::codex_models::{
    codex_models_client_version, codex_models_json_response, codex_models_reply,
    fetch_codex_models_payload, parse_codex_models_payload, send_codex_models_request,
    summarize_body_hint, ModelsBody, ModelsEvent, ModelsPage, ModelsStep,
};
use llm_access::codex_sse::{
    completed_response_from_sse_bytes, missing_codex_usage, sse_payloads,
    CompletedCodexSseAccumulator, UsageBreakdown,
};
use llm_access::headers::Headers;
use llm_access::json::{parse_text, show_text, Json};
use llm_access::kiro_stream::{CodexStreamRecordGuard, StreamRecordState};
use llm_access::limiter::{CodexAccountCooldowns, RequestLimiter};
use llm_access::route_selection::{
    codex_route_needs_hydration, dispatch_target, hydrate_codex_route_for_dispatch,
    select_codex_route_with_account_permit, CodexSelection, DispatchTarget,
};
use llm_access::types::{
    AuthenticatedKey, GatewayResponseAdapter, PreparedGatewayRequest, ProtocolFamily,
    ProviderCodexRoute, RouteStrategy,
};
use llm_access::usage_meta::ProviderUsageMetadata;

fn json(text: &str) -> Json {
    parse_text(text).expect("JSON")
}

fn route(name: &str) -> ProviderCodexRoute {
    ProviderCodexRoute {
        account_name: name.to_string(),
        account_group_id_at_event: None,
        route_strategy_at_event: RouteStrategy::Auto,
        auth_json: "{}".to_string(),
        map_gpt53_codex_to_spark: false,
        auth_refresh_enabled: true,
        codex_fast_enabled: false,
        request_max_concurrency: None,
        request_min_start_interval_ms: Some(20),
        account_request_max_concurrency: Some(1),
        account_request_min_start_interval_ms: None,
        cached_error_message: None,
        terminal_auth_error: false,
        proxy: None,
    }
}

fn prepared(body: &str) -> PreparedGatewayRequest {
    PreparedGatewayRequest {
        original_path: "/v1/responses".to_string(),
        upstream_path: "/v1/responses".to_string(),
        client_request_body: None,
        request_body: body.as_bytes().to_vec(),
        content_type: "application/json".to_string(),
        model: Some("gpt-5".to_string()),
        client_visible_model: None,
        wants_stream: true,
        force_upstream_stream: false,
        thread_anchor: Some("anchor".to_string()),
        last_message_content: Some("hello".to_string()),
        billable_multiplier: 1,
        response_adapter: GatewayResponseAdapter::Responses,
    }
}

fn meta() -> ProviderUsageMetadata {
    ProviderUsageMetadata::from_request_parts(
        0,
        "POST".to_string(),
        "/v1/responses".to_string(),
        "1.2.3.4".to_string(),
        "Unknown".to_string(),
        "{}".to_string(),
    )
}

fn key() -> AuthenticatedKey {
    AuthenticatedKey { key_id: "k1".to_string(), key_name: "key".to_string() }
}

fn auth(token: &str) -> CodexAuthSnapshot {
    CodexAuthSnapshot {
        access_token: token.to_string(),
        account_id: Some("acct".to_string()),
        is_fedramp_account: false,
    }
}

fn headers(entries: &[(&str, &str)]) -> Headers {
    let entries =
        entries.iter().map(|(name, value)| (name.to_string(), Some(value.to_string()))).collect();
    Headers { entries }
}

fn value<'a>(list: &'a [(String, String)], name: &str) -> Option<&'a str> {
    list.iter().find(|(key, _)| key == name).map(|(_, value)| value.as_str())
}

// Paths, versions and headers

#[test]
fn aliases_have_one_path() {
    let path = |path: &str| normalized_codex_gateway_path(path);
    assert_eq!(path("/api/llm-gateway/responses"), Some("/v1/responses".to_string()));
    assert_eq!(path("/api/codex-gateway/v1/messages"), Some("/v1/messages".to_string()));
    assert_eq!(path("/v1/responses/compact"), Some("/v1/responses/compact".to_string()));
    assert_eq!(path("/api/llm-gateway/other"), None);
    assert_eq!(path("/other"), None);
    let anthropic = codex_protocol_family_for_endpoint("/v1/messages");
    assert_eq!(anthropic, ProtocolFamily::Anthropic);
    assert_eq!(codex_protocol_family_for_endpoint("/v1/responses"), ProtocolFamily::OpenAi);
    assert!(matches!(dispatch_target("codex"), DispatchTarget::Codex));
    assert!(matches!(dispatch_target("kiro"), DispatchTarget::Kiro));
    assert!(matches!(dispatch_target("else"), DispatchTarget::NotWired));
}

#[test]
fn upstream_urls_have_one_version_part() {
    let base = codex_upstream_base_url(None, None);
    assert_eq!(base, "https://chatgpt.com/backend-api/codex");
    assert_eq!(
        compute_codex_upstream_url(&base, "/v1/responses"),
        "https://chatgpt.com/backend-api/codex/responses"
    );
    assert_eq!(
        compute_codex_upstream_url("https://h/v1/", "/v1/responses"),
        "https://h/v1/responses"
    );
    assert_eq!(compute_codex_upstream_url("https://h", "/v1/models"), "https://h/v1/models");
    assert_eq!(codex_upstream_base_url(Some("a"), Some("b")), "a");
    assert_eq!(codex_upstream_base_url(None, Some("b")), "b");
}

#[test]
fn client_versions_are_checked() {
    assert_eq!(resolve_codex_client_version(Some(" 0.1.2 "), 10, "d"), "0.1.2");
    assert_eq!(resolve_codex_client_version(Some("a b"), 10, "d"), "d");
    assert_eq!(resolve_codex_client_version(Some("12345678901"), 10, "d"), "d");
    assert_eq!(resolve_codex_client_version(None, 10, "d"), "d");
    assert_eq!(resolve_codex_account_attempt_limit(0), 1);
    assert_eq!(resolve_codex_account_attempt_limit(7), 7);
    assert_eq!(codex_user_agent("codex_cli", "0.1"), "codex_cli/0.1");
    let config = load_codex_dispatch_runtime_config(Some(("x y".to_string(), 3)), 10, "d");
    let config = config.ok().expect("config");
    assert_eq!(config.client_version, "d");
    assert_eq!(config.account_attempt_limit, 3);
    let none = load_codex_dispatch_runtime_config(None, 10, "d");
    assert_eq!(none.err().map(|reply| reply.status), Some(500));
}

#[test]
fn session_headers_that_were_sent_win() {
    let sent = headers(&[
        ("session-id", "sent"),
        ("x-codex-turn-metadata", "{\"session_id\":\"told\",\"thread_id\":\"t\"}"),
    ]);
    let session = resolve_codex_upstream_session_headers(&sent, &prepared("{}"));
    assert_eq!(session.session_id, Some("sent".to_string()));
    assert_eq!(session.thread_id, Some("t".to_string()));
    assert_eq!(session.conversation_id, Some("anchor".to_string()));
    assert_eq!(session.client_request_id, Some("t".to_string()));
    let list =
        add_codex_upstream_headers(&sent, &prepared("{}"), &auth("tok"), "codex_cli", "0.1");
    assert_eq!(value(&list, "authorization"), Some("Bearer tok"));
    assert_eq!(value(&list, "accept"), Some("text/event-stream"));
    assert_eq!(value(&list, "user-agent"), Some("codex_cli/0.1"));
    assert_eq!(value(&list, "session_id"), Some("sent"));
    assert_eq!(value(&list, "chatgpt-account-id"), Some("acct"));
    assert_eq!(value(&list, "content-type"), Some("application/json"));
    assert_eq!(value(&list, "x-openai-fedramp"), None);
}

// Errors

#[test]
fn refused_encrypted_content_is_recognized() {
    let plain = b"{\"error\":{\"code\":\"invalid_encrypted_content\"}}";
    assert!(is_codex_invalid_encrypted_content_response(400, plain));
    assert!(!is_codex_invalid_encrypted_content_response(500, plain));
    let nested = b"{\"error\":{\"message\":\"{\\\"code\\\":\\\"invalid_encrypted_content\\\"}\"}}";
    assert!(is_codex_invalid_encrypted_content_response(400, nested));
    assert!(!is_codex_invalid_encrypted_content_response(400, b"\xff"));
    assert!(!is_codex_non_retryable_client_error_response(400, plain));
    let shape = b"{\"error\":{\"code\":\"unknown_parameter\",\"message\":\"x\"}}";
    assert!(is_codex_non_retryable_client_error_response(400, shape));
    let said = b"{\"error\":{\"message\":\"Missing required parameter: y\"}}";
    assert!(is_codex_non_retryable_client_error_response(400, said));
    assert!(!is_codex_non_retryable_client_error_response(429, shape));
}

#[test]
fn encrypted_reasoning_is_taken_out() {
    let body = "{\"input\":[{\"type\":\"message\"},\
                {\"type\":\"reasoning\",\"encrypted_content\":\"x\"}],\"model\":\"m\"}";
    let stripped = strip_codex_encrypted_reasoning_items(&json(body)).expect("stripped");
    let written = show_text(&stripped);
    assert!(!written.contains("encrypted_content"), "{written}");
    assert!(written.contains("\"message\""), "{written}");
    assert!(strip_codex_encrypted_reasoning_items(&stripped).is_none());
    let retry = retry_codex_without_encrypted_reasoning(&prepared(body)).expect("retry");
    assert_eq!(retry.request_body, written.as_bytes().to_vec());
    assert!(retry_codex_without_encrypted_reasoning(&prepared("{}")).is_none());
}

#[test]
fn failures_cost_what_they_are_worth() {
    assert!(codex_message_indicates_usage_limit("You hit your Usage Limit"));
    let quota = codex_temporary_request_failure_cooldown(429, b"usage limit", 900, 10, 20);
    assert_eq!(quota, Some(900));
    let busy = codex_temporary_request_failure_cooldown(503, b"busy", 900, 10, 20);
    assert!(busy.is_some_and(|ms| (10..=20).contains(&ms)));
    assert_eq!(codex_temporary_request_failure_cooldown(404, b"gone", 900, 10, 20), None);
    let drawn = randomized_codex_transient_account_failure_cooldown(5, 5);
    assert_eq!(drawn, 5);
}

#[test]
fn error_events_name_their_status() {
    let status = |text: &str| codex_status_from_error_json_value(&json(text));
    assert_eq!(status("{\"error\":{\"status\":418}}"), Some(418));
    assert_eq!(status("{\"error\":{\"code\":\"insufficient_quota\"}}"), Some(429));
    assert_eq!(status("{\"type\":\"authentication_error\"}"), Some(401));
    assert_eq!(status("{\"response\":{\"error\":{\"message\":\"usage limit\"}}}"), Some(429));
    assert_eq!(status("{\"status\":99}"), None);
}

// Streams of events

#[test]
fn events_are_separated_by_blank_lines() {
    let list = sse_payloads(b"event: a\ndata: 1\n\n: note\ndata: 2\ndata: 3\r\n\r\n");
    assert_eq!(list.len(), 2);
    assert_eq!(list[0].event, Some("a".to_string()));
    assert_eq!(list[0].data, "1");
    assert_eq!(list[1].event, None);
    assert_eq!(list[1].data, "2\n3");
}

const DONE: &str = "event: response.completed\n\
                    data: {\"type\":\"response.completed\",\"response\":{\"id\":\"r\",\"output\":[]}}\n\n";

#[test]
fn items_fill_an_empty_output() {
    let item = "data: {\"type\":\"response.output_item.done\",\"output_index\":0,\
                \"item\":{\"type\":\"message\",\"id\":\"i\"}}\n\n";
    let bytes = format!("{item}{DONE}");
    let usages = vec![None, None];
    let done = completed_response_from_sse_bytes(bytes.as_bytes(), &usages).ok().expect("done");
    assert_eq!(done.response.get_str("id"), Some("r"));
    let Some(Json::Array(output)) = done.response.get("output") else { panic!("output") };
    assert_eq!(output.len(), 1);
    assert_eq!(output[0].get_str("id"), Some("i"));
}

#[test]
fn the_first_failure_stays() {
    let mut collected = CompletedCodexSseAccumulator::new();
    let fail = |text: &str| json(&format!("{{\"type\":\"error\",\"error\":{{\"message\":\"{text}\"}}}}"));
    assert!(collected.observe_value(Some("error"), fail("first"), None).is_ok());
    assert!(collected.observe_value(Some("error"), fail("second"), None).is_ok());
    let error = collected.finish().err().expect("failed");
    assert_eq!(error.message, "first");
    let odd = collected.observe_payload(None, "{", None);
    assert_eq!(odd, Err("invalid codex upstream SSE JSON"));
    let empty = collected.observe_payload(Some("response.completed"), "{}", None);
    assert_eq!(empty, Err("codex upstream response.completed event is missing response"));
    let nothing = completed_response_from_sse_bytes(b"", &vec![]);
    assert_eq!(nothing.err().expect("nothing").status, 502);
}

// Accounts

#[test]
fn codex_accounts_are_tried_in_turn() {
    let mut limiter = RequestLimiter::new();
    let mut cooldowns = CodexAccountCooldowns::new();
    let mut revoked = route("revoked");
    revoked.terminal_auth_error = true;
    let routes = vec![revoked, route("a"), route("b")];
    let none: Vec<String> = vec![];
    cooldowns.mark_account_cooldown("a", 100, 0);
    let first =
        select_codex_route_with_account_permit(&mut limiter, &mut cooldowns, &routes, &none, 0);
    let CodexSelection::Acquired { position, permit } = first else { panic!("b is free") };
    assert_eq!(position, 2);
    let busy =
        select_codex_route_with_account_permit(&mut limiter, &mut cooldowns, &routes, &none, 0);
    assert!(matches!(busy, CodexSelection::Wait { .. }));
    limiter.release(permit);
    let failed = vec!["b".to_string()];
    let cooling =
        select_codex_route_with_account_permit(&mut limiter, &mut cooldowns, &routes, &failed, 0);
    let CodexSelection::Refused { reply } = cooling else { panic!("all are out") };
    assert_eq!(reply.status, 429);
    assert_eq!(reply.body, "quota_exceeded");
    let all = vec!["revoked".to_string(), "a".to_string(), "b".to_string()];
    let ended =
        select_codex_route_with_account_permit(&mut limiter, &mut cooldowns, &routes, &all, 0);
    let CodexSelection::Refused { reply } = ended else { panic!("all failed") };
    assert_eq!(reply.status, 502);
    assert!(has_remaining_codex_candidate(&routes, &failed, "a"));
    assert!(!has_remaining_codex_candidate(&routes, &all, "a"));
}

#[test]
fn codex_routes_are_completed_before_use() {
    let mut bare = route("a");
    bare.auth_json = String::new();
    assert!(codex_route_needs_hydration(&bare));
    let mut loaded = route("a");
    loaded.auth_json = "{\"t\":1}".to_string();
    let hydrated = hydrate_codex_route_for_dispatch(bare, Ok(Some(loaded))).ok().expect("route");
    assert_eq!(hydrated.auth_json, "{\"t\":1}");
    let mut bare = route("a");
    bare.auth_json = String::new();
    let failed = hydrate_codex_route_for_dispatch(bare, Err(()));
    assert_eq!(failed.err().map(|reply| reply.status), Some(500));
}

// The way of a request

fn settings(limit: usize) -> CodexSettings {
    CodexSettings {
        upstream_base: "https://h".to_string(),
        originator: "codex_cli".to_string(),
        client_version: "0.1".to_string(),
        account_attempt_limit: limit,
    }
}

fn start(names: &[&str], limit: usize) -> CodexDispatch {
    let routes = names.iter().map(|name| route(name)).collect();
    let arrival = arrive(
        key(),
        Some(routes),
        "POST",
        "/v1/responses",
        headers(&[]),
        settings(limit),
        meta(),
    );
    match arrival {
        CodexArrival::Dispatch(dispatch) => dispatch,
        _ => panic!("a request is dispatched"),
    }
}

fn send(dispatch: &mut CodexDispatch, cooldowns: &mut CodexAccountCooldowns, at: usize, body: &str) {
    let action =
        dispatch_codex_proxy(dispatch, cooldowns, CodexEvent::Selected { position: at, wait_ms: 1 });
    assert!(matches!(action, CodexAction::MakeReady { position } if position == at));
    let ready = CodexEvent::Ready { auth: auth("tok"), prepared: Ok(prepared(body)) };
    let action = dispatch_codex_proxy(dispatch, cooldowns, ready);
    let CodexAction::Send { url, headers } = action else { panic!("sent") };
    assert_eq!(url, "https://h/v1/responses");
    assert_eq!(value(&headers, "authorization"), Some("Bearer tok"));
}

fn let_in(dispatch: &mut CodexDispatch, cooldowns: &mut CodexAccountCooldowns) {
    let body = CodexEvent::Body { body: Some(b"client".to_vec()), read_ms: 2, created_at_ms: 7, now_ns: 0 };
    assert!(matches!(dispatch_codex_proxy(dispatch, cooldowns, body), CodexAction::Prepare));
    let event = CodexEvent::Prepared {
        prepared: Ok(prepared("{}")),
        last_message: None,
        parse_ms: 1,
        created_at_ms: 7,
        now_ns: 0,
    };
    let action = dispatch_codex_proxy(dispatch, cooldowns, event);
    assert!(matches!(
        action,
        CodexAction::AcquirePermit { max_concurrency: None, min_start_interval_ms: Some(20) }
    ));
    assert_eq!(dispatch.run.meta.last_message_content, Some("hello".to_string()));
    let action = dispatch_codex_proxy(dispatch, cooldowns, CodexEvent::Permit { rejection: None });
    assert!(matches!(action, CodexAction::Select));
}

fn error_body(text: &str) -> CodexEvent {
    CodexEvent::ErrorBody {
        bytes: Some(text.as_bytes().to_vec()),
        quota_ms: 900,
        transient_ms: 15,
        now_ns: 0,
    }
}

#[test]
fn arrivals_are_sorted() {
    let at = |routes, method: &str, path: &str| {
        arrive(key(), routes, method, path, headers(&[]), settings(2), meta())
    };
    assert!(matches!(at(Some(vec![route("a")]), "GET", "/v1/models"), CodexArrival::Models));
    for (arrival, status) in [
        (at(None, "POST", "/v1/responses"), 500),
        (at(Some(vec![]), "POST", "/v1/responses"), 503),
        (at(Some(vec![route("a")]), "POST", "/elsewhere"), 404),
    ] {
        assert!(matches!(arrival, CodexArrival::Refused(reply) if reply.status == status));
    }
}

#[test]
fn credentials_are_refreshed_once_per_account() {
    let mut cooldowns = CodexAccountCooldowns::new();
    let mut dispatch = start(&["a", "b"], 2);
    let_in(&mut dispatch, &mut cooldowns);
    send(&mut dispatch, &mut cooldowns, 0, "{}");
    let answered = CodexEvent::Answered { status: 401, now_ns: 3_000_000 };
    let action = dispatch_codex_proxy(&mut dispatch, &mut cooldowns, answered);
    assert!(matches!(action, CodexAction::RefreshCredentials));
    let refreshed = CodexEvent::Refreshed { auth: auth("fresh") };
    let action = dispatch_codex_proxy(&mut dispatch, &mut cooldowns, refreshed);
    let CodexAction::Send { headers, .. } = action else { panic!("sent again") };
    assert_eq!(value(&headers, "authorization"), Some("Bearer fresh"));
    let answered = CodexEvent::Answered { status: 401, now_ns: 4_000_000 };
    let action = dispatch_codex_proxy(&mut dispatch, &mut cooldowns, answered);
    assert!(matches!(action, CodexAction::ReadError));
    let action = dispatch_codex_proxy(&mut dispatch, &mut cooldowns, error_body("no"));
    let CodexAction::AfterFailure { refused_credentials, next } = action else { panic!("failed") };
    assert!(refused_credentials);
    assert!(matches!(next, CodexNext::Select));
    assert_eq!(dispatch.run.failed_accounts, vec!["a"]);
    assert_eq!(cooldowns.cooldown_for_account("a", 0), Some(15_000_000));

    send(&mut dispatch, &mut cooldowns, 1, "{}");
    let answered = CodexEvent::Answered { status: 200, now_ns: 5_000_000 };
    let action = dispatch_codex_proxy(&mut dispatch, &mut cooldowns, answered);
    assert!(matches!(action, CodexAction::Answer));
    assert_eq!(dispatch.body, b"client".to_vec());
}

#[test]
fn encrypted_reasoning_is_dropped_once() {
    let mut cooldowns = CodexAccountCooldowns::new();
    let mut dispatch = start(&["a", "b"], 2);
    let_in(&mut dispatch, &mut cooldowns);
    let body = "{\"input\":[{\"type\":\"reasoning\",\"encrypted_content\":\"x\"},\
                {\"type\":\"message\"}]}";
    send(&mut dispatch, &mut cooldowns, 0, body);
    let answered = CodexEvent::Answered { status: 400, now_ns: 0 };
    dispatch_codex_proxy(&mut dispatch, &mut cooldowns, answered);
    let refusal = "{\"error\":{\"code\":\"invalid_encrypted_content\"}}";
    let action = dispatch_codex_proxy(&mut dispatch, &mut cooldowns, error_body(refusal));
    assert!(matches!(action, CodexAction::Send { .. }));
    assert!(dispatch.prepared.is_some());
    let sent = dispatch.sent.as_ref().map(|sent| sent.request_body.clone());
    assert!(!String::from_utf8(sent.expect("sent")).expect("text").contains("encrypted_content"));
    let answered = CodexEvent::Answered { status: 400, now_ns: 0 };
    let action = dispatch_codex_proxy(&mut dispatch, &mut cooldowns, answered);
    assert!(matches!(action, CodexAction::ReadError));
    let action = dispatch_codex_proxy(&mut dispatch, &mut cooldowns, error_body(refusal));
    assert!(matches!(action, CodexAction::AfterFailure { next: CodexNext::Answer, .. }));
    assert_eq!(cooldowns.cooldown_for_account("a", 0), None);
    assert!(dispatch.run.failed_accounts.is_empty());
}

#[test]
fn tries_are_limited() {
    let mut cooldowns = CodexAccountCooldowns::new();
    let mut dispatch = start(&["a", "b", "c"], 2);
    let_in(&mut dispatch, &mut cooldowns);
    send(&mut dispatch, &mut cooldowns, 0, "{}");
    let unusable = CodexEvent::Unusable { cooldown_ms: 5, now_ns: 0 };
    let action = dispatch_codex_proxy(&mut dispatch, &mut cooldowns, unusable);
    assert!(matches!(action, CodexAction::AfterFailure { next: CodexNext::Select, .. }));
    send(&mut dispatch, &mut cooldowns, 1, "{}");
    assert_eq!(dispatch.run.attempts, 2);
    dispatch_codex_proxy(
        &mut dispatch,
        &mut cooldowns,
        CodexEvent::Answered { status: 503, now_ns: 0 },
    );
    let action = dispatch_codex_proxy(&mut dispatch, &mut cooldowns, error_body("busy"));
    assert!(matches!(action, CodexAction::AfterFailure { next: CodexNext::Answer, .. }));
    assert_eq!(cooldowns.cooldown_for_account("b", 0), Some(15_000_000));
    assert_eq!(dispatch.run.meta.client_request_body_json, Some(b"client".to_vec()));
}

#[test]
fn faulty_requests_cost_no_account() {
    let mut cooldowns = CodexAccountCooldowns::new();
    let mut dispatch = start(&["a", "b"], 2);
    let body = CodexEvent::Body { body: None, read_ms: 0, created_at_ms: 7, now_ns: 4_000_000 };
    let action = dispatch_codex_proxy(&mut dispatch, &mut cooldowns, body);
    let CodexAction::RecordPreflight { event, reply } = action else { panic!("refused") };
    assert_eq!(event.model, None);
    assert_eq!(event.account_name, None);
    assert_eq!(event.key_id, dispatch.key.key_id);
    assert_eq!(event.status_code, 400);
    assert_eq!(event.created_at_ms, 7);
    assert_eq!(event.error_message, Some("request body is too large".to_string()));
    assert_eq!(dispatch.run.meta.stream_finish_ms, Some(4));
    assert_eq!(reply.status, 400);
    let mut named = start(&["a"], 2);
    let body = CodexEvent::Body {
        body: Some(b"{\"model\":\"m-1\"}".to_vec()),
        read_ms: 1,
        created_at_ms: 7,
        now_ns: 0,
    };
    dispatch_codex_proxy(&mut named, &mut cooldowns, body);
    let event = CodexEvent::Prepared {
        prepared: Err((422, "no input".to_string())),
        last_message: Some("hi".to_string()),
        parse_ms: 1,
        created_at_ms: 8,
        now_ns: 0,
    };
    let action = dispatch_codex_proxy(&mut named, &mut cooldowns, event);
    let CodexAction::RecordPreflight { event, reply } = action else { panic!("refused") };
    assert_eq!(event.model, Some("m-1".to_string()));
    assert_eq!(event.status_code, 422);
    assert_eq!(event.last_message_content, Some("hi".to_string()));
    assert_eq!(reply.status, 422);
    let_in(&mut dispatch, &mut cooldowns);
    send(&mut dispatch, &mut cooldowns, 0, "{}");
    dispatch_codex_proxy(
        &mut dispatch,
        &mut cooldowns,
        CodexEvent::Answered { status: 400, now_ns: 0 },
    );
    let shape = "{\"error\":{\"code\":\"unknown_parameter\"}}";
    let action = dispatch_codex_proxy(&mut dispatch, &mut cooldowns, error_body(shape));
    assert!(matches!(action, CodexAction::AfterFailure { next: CodexNext::Answer, .. }));
    assert!(dispatch.run.failed_accounts.is_empty());
    assert_eq!(cooldowns.cooldown_for_account("a", 0), None);
}

// Answers

fn answered() -> CodexAnswered {
    CodexAnswered { key: key(), prepared: prepared("{}"), route: route("a"), meta: meta() }
}

fn usage() -> UsageBreakdown {
    UsageBreakdown {
        input_uncached_tokens: 10,
        input_cached_tokens: 4,
        output_tokens: 6,
        usage_missing: false,
    }
}

#[test]
fn answers_are_streamed_only_when_wanted() {
    let mut request = prepared("{}");
    let plan = adapt_codex_upstream_response(200, "text/event-stream", &request);
    assert!(matches!(plan, AnswerPlan::Stream));
    let plan = adapt_codex_upstream_response(500, "text/event-stream", &request);
    assert!(matches!(plan, AnswerPlan::Buffer));
    request.wants_stream = false;
    request.force_upstream_stream = true;
    let plan = adapt_codex_upstream_response(200, "text/event-stream", &request);
    assert!(matches!(plan, AnswerPlan::CollectEvents { marked: true }));
    assert!(collected_body_is_json(false, b"{\"a\":1}"));
    assert!(!collected_body_is_json(false, b"data: x"));
    let chat = GatewayResponseAdapter::ChatCompletions;
    assert_eq!(codex_stream_content_type(chat, "text/event-stream"), "text/event-stream");
}

#[test]
fn whole_answers_are_recorded() {
    let mut context = answered();
    let complete = adapt_codex_upstream_response_from_parts(
        &mut context,
        200,
        "application/json",
        b"{}",
        Some(usage()),
        16,
        1000,
        2_000_000,
    );
    assert!(matches!(complete.body, AnswerBody::Renamed));
    assert_eq!(complete.event.status_code, 200);
    assert_eq!(complete.event.input_uncached_tokens, 10);
    assert_eq!(complete.event.billable_tokens, 16);
    assert_eq!(complete.event.client_request_body_json, None);
    let mut context = answered();
    let failed = adapt_codex_upstream_response_from_parts(
        &mut context,
        429,
        "application/json",
        b"{\"error\":{\"message\":\"slow down\"}}",
        None,
        0,
        1000,
        2_000_000,
    );
    assert_eq!(failed.event.status_code, 429);
    assert_eq!(failed.event.error_message, Some("slow down".to_string()));
    assert!(failed.event.usage_missing);
    assert!(missing_codex_usage().usage_missing);
    assert_eq!(codex_not_recorded("db down").status, 500);
}

#[test]
fn collected_events_make_an_answer() {
    let mut context = answered();
    let done = collect_codex_events(&mut context, true, DONE.as_bytes(), &vec![Some(usage())], 0, 0, 0);
    let CodexCollected::Completed { response, usage: told } = done else { panic!("complete") };
    assert_eq!(response.get_str("id"), Some("r"));
    assert_eq!(told.output_tokens, 6);
    let mut context = answered();
    let whole = collect_codex_events(&mut context, false, b"{\"id\":1}", &vec![], 0, 0, 0);
    assert!(matches!(whole, CodexCollected::WholeBody));
    let mut context = answered();
    let failed = b"data: {\"type\":\"error\",\"error\":{\"status\":503,\"message\":\"down\"}}\n\n";
    let failed = collect_codex_events(&mut context, true, failed, &vec![None], 5, 0, 0);
    let CodexCollected::Failed { event, reply } = failed else { panic!("failed") };
    assert_eq!(reply.status, 503);
    assert_eq!(event.status_code, 503);
    assert_eq!(event.billable_tokens, 5);
    assert!(event.event_id.starts_with("llm-usage-"));
    let unique = event.event_id["llm-usage-".len()..].as_bytes();
    assert_eq!(unique.len(), 36);
    assert_eq!((unique[8], unique[13], unique[18], unique[23]), (b'-', b'-', b'-', b'-'));
    assert_eq!(unique[14], b'4');
    assert!(b"89ab".contains(&unique[19]));
    let told = failed_events_recorded(Err("db down".to_string()), reply);
    assert_eq!(told.status, 500);
    assert_eq!(told.body, "failed to record codex usage: db down");
}

fn sent(outcome: CodexOutcome) -> (u16, Vec<(String, String)>, Vec<u8>) {
    let CodexOutcome::Answer { reply } = outcome else { panic!("answered") };
    let body = match reply.body {
        CodexReplyBody::Bytes { bytes } => bytes,
        CodexReplyBody::Text { text } => text.into_bytes(),
    };
    (reply.status, reply.headers, body)
}

fn refused(outcome: CodexOutcome) -> (u16, String) {
    let CodexOutcome::Error { reply } = outcome else { panic!("refused") };
    (reply.status, reply.body)
}

#[test]
fn whole_answers_go_out_in_the_form_that_is_wanted() {
    let finish = |body: AnswerBody, recorded: Result<(), String>, converted: Result<Vec<u8>, String>| {
        finish_codex_answer(201, "text/x", body, b"raw".to_vec(), recorded, converted)
    };
    let (status, headers, body) = sent(finish(AnswerBody::Renamed, Ok(()), Ok(b"new".to_vec())));
    assert_eq!((status, body), (201, b"new".to_vec()));
    assert_eq!(headers, codex_answer_headers("text/x"));
    assert_eq!(value(&headers, "cache-control"), Some("no-store"));
    assert_eq!(value(&headers, "content-type"), Some("text/x"));
    let nothing: Result<Vec<u8>, String> = Err("unused".to_string());
    assert_eq!(sent(finish(AnswerBody::Renamed, Ok(()), nothing.clone())).2, b"raw".to_vec());
    let chat = finish(AnswerBody::ChatCompletion, Ok(()), Err("no choices".to_string()));
    assert_eq!(refused(chat), (502, "no choices".to_string()));
    let message = finish(AnswerBody::AnthropicMessage, Ok(()), Ok(b"msg".to_vec()));
    assert_eq!(sent(message).2, b"msg".to_vec());
    let error = AnswerBody::Error { body: "{}".to_string() };
    assert_eq!(sent(finish(error, Ok(()), nothing)).2, b"{}".to_vec());
    let lost = finish(AnswerBody::ChatCompletion, Err("db".to_string()), Ok(b"msg".to_vec()));
    assert_eq!(refused(lost), (500, "failed to record codex usage: db".to_string()));
    assert_eq!(codex_body_read(Some(b"x".to_vec())).ok(), Some(b"x".to_vec()));
    let unread = codex_body_read(None).err().expect("unread");
    assert_eq!((unread.status, unread.body.as_str()), (502, "codex upstream response read failed"));
    assert_eq!(upstream_content_type(None), "application/json");
    assert_eq!(upstream_content_type(Some("text/plain")), "text/plain");
}

#[test]
fn complete_responses_are_recorded_and_sent() {
    let context = answered();
    let unwritten = finish_collected_events(&context, 200, usage(), 16, None, 1000, 0);
    let CollectedAnswer::Refused { reply } = unwritten else { panic!("refused") };
    assert_eq!(reply.status, 502);
    assert_eq!(reply.body, "codex upstream response adaptation failed");
    let adapted = Json::new_object().with("id", Json::str("r"));
    let written = answer_collected_events(&context, 200, usage(), 16, &adapted, 1000, 0);
    let CollectedAnswer::Record { event, reply } = written else { panic!("recorded") };
    assert_eq!(event.status_code, 200);
    assert_eq!(event.output_tokens, 6);
    assert_eq!(event.billable_tokens, 16);
    let (status, headers, body) = sent(collected_answer_recorded(Ok(()), reply));
    assert_eq!((status, body), (200, b"{\"id\":\"r\"}".to_vec()));
    assert_eq!(headers, codex_answer_headers("application/json"));
    let again = finish_collected_events(&context, 200, usage(), 16, Some(vec![1]), 1000, 0);
    let CollectedAnswer::Record { reply, .. } = again else { panic!("recorded") };
    let lost = collected_answer_recorded(Err("db".to_string()), reply);
    assert_eq!(refused(lost), (500, "failed to record codex usage: db".to_string()));
}

#[test]
fn streams_are_recorded_once() {
    let mut guard = CodexStreamRecordGuard {
        key: key(),
        prepared: prepared("{}"),
        status: 200,
        route: route("a"),
        usage: Some(usage()),
        usage_meta: meta(),
        state: StreamRecordState::Pending,
        record_committed: false,
    };
    let chunk = CodexStreamEvent::Chunk { bytes_len: 12, event_type: Some("response.created") };
    let action = stream_codex_upstream_response(&mut guard, &chunk, 1_000_000);
    assert!(matches!(action, CodexStreamAction::Forward));
    let end = CodexStreamEvent::End { billable_tokens: 16, created_at_ms: 5 };
    let action = stream_codex_upstream_response(&mut guard, &end, 2_000_000);
    let CodexStreamAction::Close { event, .. } = action else { panic!("closed") };
    assert_eq!(event.stream.bytes_streamed, Some(12));
    assert_eq!(event.stream.stream_completed_cleanly, Some(true));
    assert!(guard.record_committed);
    assert!(guard.give_up(0, 0, 0).is_none());
}

// Models

#[test]
fn models_are_asked_for_with_a_version() {
    assert_eq!(codex_models_client_version("client_version=1.2", "0.1", 10, "f"), "1.2");
    assert_eq!(codex_models_client_version("", "0.1", 10, "f"), "0.1");
    let list = send_codex_models_request(&headers(&[]), &auth("tok"), "codex_cli", "0.1");
    assert_eq!(value(&list, "authorization"), Some("Bearer tok"));
    assert!(matches!(
        fetch_codex_models_payload(ModelsEvent::Answered { status: 401 }, false),
        ModelsStep::Refresh
    ));
    assert!(matches!(
        fetch_codex_models_payload(ModelsEvent::Answered { status: 401 }, true),
        ModelsStep::Read
    ));
    assert!(matches!(
        fetch_codex_models_payload(ModelsEvent::SendFailed, false),
        ModelsStep::Refuse { .. }
    ));
    let good = parse_codex_models_payload(200, "200 OK", "application/json", Some(b"{\"models\":[]}"));
    assert!(good.is_ok());
    let odd = parse_codex_models_payload(200, "200 OK", "text/html", Some(b"<html>"));
    assert_eq!(odd.err().map(|reply| reply.status), Some(502));
    assert!(!summarize_body_hint(b"<html>  x").is_empty());
    let list = codex_models_json_response(true, Some("\"e\""));
    assert_eq!(value(&list, "etag"), Some("\"e\""));
    let reply = codex_models_reply(ModelsPage::Models, ModelsBody::Ready(b"{}".to_vec()), None);
    assert_eq!(reply.status, 200);
    let reply = codex_models_reply(ModelsPage::Models, ModelsBody::NotEncoded, None);
    assert_eq!(reply.status, 500);
}
