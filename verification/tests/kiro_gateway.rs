use llm_access::compaction::AnchorTokenCounts;
use llm_access::errors::Reply;
use llm_access::json::Json;
use llm_access::kiro_call::{KiroRouteFailure, KiroRouteFailureKind};
use llm_access::kiro_dispatch::should_failover_after_kiro_route_failure;
use llm_access::kiro_gateway::{
    build_kiro_websearch_response, conclude_kiro_answer, dispatch_kiro_proxy, dispatch_kiro_websearch,
    websearch_usage, FailureStamp, KiroAction, KiroDispatch, KiroEvent, KiroSearch, PreflightStamp,
    SearchAction, SearchContent, SearchEvent, SearchFailureStep,
};
use llm_access::kiro_model::{
    build_kiro_cache_context, KiroSessionAffinity, Message, MessagesRequest, ResolvedConversationId, SessionIdSource,
};
use llm_access::kiro_stream::kiro_answer_headers;
use llm_access::limiter::{LimitReason, LimitRejection};
use llm_access::route_selection::{
    conclude_kiro_selection, hydrate_kiro_route_for_dispatch, proxy_cooldown_key_for_route,
    select_kiro_route_with_account_permit, selection_ordered_kiro_routes, KiroRouteFacts,
    KiroSelectionEnd,
};
use llm_access::types::{
    AuthenticatedKey, ProviderKiroRoute, ProviderProxyConfig, RouteStrategy,
};
use llm_access::usage_meta::ProviderUsageMetadata;

fn route(name: &str) -> ProviderKiroRoute {
    ProviderKiroRoute {
        account_name: name.to_string(),
        account_group_id_at_event: None,
        route_strategy_at_event: RouteStrategy::Auto,
        auth_json: "{}".to_string(),
        profile_arn: None,
        api_region: "us-east-1".to_string(),
        request_validation_enabled: true,
        cache_estimation_enabled: false,
        zero_cache_debug_enabled: false,
        full_request_logging_enabled: false,
        remote_media_resolution_enabled: false,
        latency_routing_enabled: false,
        model_name_map_json: "{\"small\":\"large\"}".to_string(),
        cache_kmodels_json: "{}".to_string(),
        cache_policy_json: "{}".to_string(),
        context_usage_min_request_tokens: 0,
        prefix_cache_mode: "off".to_string(),
        prefix_cache_max_tokens: 0,
        prefix_cache_entry_ttl_seconds: 0,
        conversation_anchor_max_entries: 0,
        conversation_anchor_ttl_seconds: 0,
        billable_model_multipliers_json: "{}".to_string(),
        request_max_concurrency: Some(4),
        request_min_start_interval_ms: None,
        account_request_max_concurrency: None,
        account_request_min_start_interval_ms: None,
        proxy: None,
        routing_identity: format!("id-{name}"),
        cached_status: None,
        cached_remaining_order: None,
        status_refresh_interval_seconds: 300,
        compact_trigger_tokens: 0,
    }
}

fn meta() -> ProviderUsageMetadata {
    ProviderUsageMetadata::from_request_parts(
        0,
        "POST".to_string(),
        "/v1/messages".to_string(),
        "1.2.3.4".to_string(),
        "Unknown".to_string(),
        "{}".to_string(),
    )
}

fn key() -> AuthenticatedKey {
    AuthenticatedKey { key_id: "k1".to_string(), key_name: "key".to_string() }
}

fn payload(text: &str, stream: bool) -> MessagesRequest {
    MessagesRequest {
        model: "small".to_string(),
        messages: vec![Message { role: "user".to_string(), content: Json::str(text) }],
        stream,
        system: None,
        thinking: None,
        output_config: None,
    }
}

fn session(id: &str) -> ResolvedConversationId {
    ResolvedConversationId {
        conversation_id: id.to_string(),
        source: SessionIdSource::Metadata,
        source_name: None,
        source_value: None,
    }
}

fn early() -> PreflightStamp {
    PreflightStamp { billable_tokens: Some(3), created_at_ms: 1, now_ns: 6_000_000 }
}

fn late(now_ns: u128) -> FailureStamp {
    FailureStamp {
        context_window: 100,
        resolved_input_tokens: 480,
        billable_tokens: 12,
        created_at_ms: 1,
        now_ns,
    }
}

fn start(routes: Vec<ProviderKiroRoute>) -> KiroDispatch {
    let started =
        KiroDispatch::with_routes(key(), Some(routes), "POST", "/v1/messages", None, meta());
    started.ok().expect("a dispatch")
}

/// Takes a request through to the choice of an account.
fn let_in(dispatch: &mut KiroDispatch, affinity: &mut KiroSessionAffinity, stream: bool) {
    let action = dispatch_kiro_proxy(
        dispatch,
        affinity,
        KiroEvent::Body { body: Some(b"{}".to_vec()), read_ms: 3 },
    );
    assert!(matches!(action, KiroAction::Parse));
    let action = dispatch_kiro_proxy(
        dispatch,
        affinity,
        KiroEvent::Parsed {
            payload: Ok(payload("go on", stream)),
            last_message: Some("go on".to_string()),
            parse_ms: 1,
            now_ns: 0,
        },
    );
    assert!(matches!(action, KiroAction::Examine));
    assert_eq!(dispatch.model, "large");
    let action = dispatch_kiro_proxy(
        dispatch,
        affinity,
        KiroEvent::Examined { websearch: false, session: session("s1") },
    );
    assert!(matches!(action, KiroAction::StripMedia));
    let action = dispatch_kiro_proxy(
        dispatch,
        affinity,
        KiroEvent::Media { messages: Ok(payload("go on", stream).messages), stamp: early() },
    );
    assert!(matches!(action, KiroAction::CountTokens));
    let action = dispatch_kiro_proxy(dispatch, affinity, KiroEvent::Counted { tokens: 500 });
    assert!(matches!(action, KiroAction::Convert { validate: true }));
    let action = dispatch_kiro_proxy(dispatch, affinity, KiroEvent::Converted { refusal: None, stamp: early() });
    assert!(matches!(
        action,
        KiroAction::AcquirePermit { max_concurrency: Some(4), min_start_interval_ms: None }
    ));
    let action = dispatch_kiro_proxy(dispatch, affinity, KiroEvent::Permit { rejection: None });
    assert!(matches!(action, KiroAction::Select { .. }));
}

/// Takes a request on to its call.
fn call(dispatch: &mut KiroDispatch, affinity: &mut KiroSessionAffinity, at: usize) {
    let action =
        dispatch_kiro_proxy(dispatch, affinity, KiroEvent::Selected { position: at, wait_ms: 2 });
    assert!(matches!(action, KiroAction::Hydrate { position } if position == at));
    let name = dispatch.routes[at].account_name.clone();
    let action =
        dispatch_kiro_proxy(dispatch, affinity, KiroEvent::Hydrated { route: Ok(route(&name)) });
    assert!(matches!(
        action,
        KiroAction::BuildCache { recover_session: false, recover_counts: false }
    ));
    let action = dispatch_kiro_proxy(dispatch, affinity, KiroEvent::Cached { recovered: Ok(None) });
    assert!(matches!(action, KiroAction::Encode));
    let action = dispatch_kiro_proxy(
        dispatch,
        affinity,
        KiroEvent::Encoded { body: Some(b"up".to_vec()), upstream_base: "https://q".to_string() },
    );
    assert!(matches!(
        action,
        KiroAction::Call { url } if url == "https://q/generateAssistantResponse"
    ));
}

#[test]
fn a_request_goes_its_way() {
    let mut affinity = KiroSessionAffinity::new();
    let mut dispatch = start(vec![route("a"), route("b")]);
    assert_eq!(dispatch.meta.request_url, "/api/kiro-gateway/v1/messages");
    let_in(&mut dispatch, &mut affinity, true);
    assert_eq!(dispatch.preferred, None);
    call(&mut dispatch, &mut affinity, 1);
    assert_eq!(dispatch.meta.routing_wait_ms, Some(2));
    let action =
        dispatch_kiro_proxy(&mut dispatch, &mut affinity, KiroEvent::Answered { now_ns: 5_000_000 });
    assert!(matches!(action, KiroAction::Peek));
    assert_eq!(dispatch.meta.upstream_headers_ms, Some(5));
    let action = dispatch_kiro_proxy(&mut dispatch, &mut affinity, KiroEvent::Peeked);
    assert!(matches!(action, KiroAction::Stream));
    assert_eq!(affinity.lookup("k1", "s1"), Some("b".to_string()));
    assert_eq!(dispatch.body, b"{}".to_vec());

    let mut again = start(vec![route("a"), route("b")]);
    let_in(&mut again, &mut affinity, false);
    assert_eq!(again.preferred, Some("b".to_string()));
    call(&mut again, &mut affinity, 1);
    let action =
        dispatch_kiro_proxy(&mut again, &mut affinity, KiroEvent::Answered { now_ns: 0 });
    assert!(matches!(action, KiroAction::Answer { session: Some(s) } if s == "s1"));
}

#[test]
fn whole_answers_are_remembered_once_recorded() {
    let mut affinity = KiroSessionAffinity::new();
    let mut dispatch = start(vec![route("a"), route("b")]);
    let_in(&mut dispatch, &mut affinity, false);
    call(&mut dispatch, &mut affinity, 1);
    let reply = Reply { status: 200, json: true, body: "message".to_string() };
    let told = conclude_kiro_answer(&dispatch, &mut affinity, false, reply);
    assert_eq!(told.status, 500);
    assert!(told.body.contains("failed to record usage"));
    assert_eq!(affinity.lookup("k1", "s1"), None);
    let reply = Reply { status: 200, json: true, body: "message".to_string() };
    let told = conclude_kiro_answer(&dispatch, &mut affinity, true, reply);
    assert_eq!(told.body, "message");
    assert_eq!(affinity.lookup("k1", "s1"), Some("b".to_string()));
    let headers = kiro_answer_headers(true);
    assert!(headers.contains(&("cache-control".to_string(), "no-cache".to_string())));
    assert!(headers.contains(&("connection".to_string(), "keep-alive".to_string())));
}

#[test]
fn a_failed_account_is_left_for_another() {
    let mut affinity = KiroSessionAffinity::new();
    let mut dispatch = start(vec![route("a"), route("b")]);
    let_in(&mut dispatch, &mut affinity, true);
    call(&mut dispatch, &mut affinity, 0);
    let failure = KiroRouteFailure::synthetic(502, "down", KiroRouteFailureKind::RetryNext);
    let failed =
        KiroEvent::CallFailed { failure, peeked: false, stamp: late(9_000_000) };
    let action = dispatch_kiro_proxy(&mut dispatch, &mut affinity, failed);
    let KiroAction::AfterFailure { failover, answer } = action else {
        panic!("the call failed");
    };
    assert!(failover.retry);
    assert!(answer.is_none());
    assert_eq!(dispatch.failed_accounts, vec!["a"]);
    assert_eq!(dispatch.meta.quota_failover_count, 1);

    call(&mut dispatch, &mut affinity, 1);
    let failure = KiroRouteFailure::synthetic(502, "down too", KiroRouteFailureKind::RetryNext);
    let failed =
        KiroEvent::CallFailed { failure, peeked: false, stamp: late(9_000_000) };
    let action = dispatch_kiro_proxy(&mut dispatch, &mut affinity, failed);
    let KiroAction::AfterFailure { failover, answer } = action else {
        panic!("the call failed");
    };
    assert!(!failover.retry);
    let call = answer.expect("an answer");
    assert_eq!(call.event.status_code, 502);
    assert_eq!(call.event.account_name, Some("b".to_string()));
    assert_eq!(call.event.input_uncached_tokens, 480);
    assert_eq!(call.event.output_tokens, 0);
    assert_eq!(call.event.billable_tokens, 12);
    assert_eq!(call.event.quota_failover_count, 1);
    assert!(call.replacement.is_none());
    assert_eq!(dispatch.failed_accounts, vec!["a", "b"]);
    assert_eq!(dispatch.meta.error_message, Some("down too".to_string()));
    assert_eq!(dispatch.meta.client_request_body_json, Some(b"{}".to_vec()));
    assert_eq!(affinity.lookup("k1", "s1"), None);
}

#[test]
fn refused_answers_are_recorded() {
    let mut affinity = KiroSessionAffinity::new();
    let mut dispatch = start(vec![route("a")]);
    let_in(&mut dispatch, &mut affinity, false);
    call(&mut dispatch, &mut affinity, 0);
    let refused = KiroEvent::Refused {
        status: 400,
        error_body: b"Input is too long".to_vec(),
        stamp: late(0),
    };
    let action = dispatch_kiro_proxy(&mut dispatch, &mut affinity, refused);
    let KiroAction::RecordFailure { call } = action else {
        panic!("the failure is recorded");
    };
    assert_eq!(call.event.status_code, 413);
    assert_eq!(call.event.account_name, Some("a".to_string()));
    assert_eq!(call.event.model, Some("large".to_string()));
    assert!(call.replacement.expect("reply").body.contains("500 tokens > 100 tokens"));
    let reply = Reply { status: 413, json: true, body: "told".to_string() };
    let action = dispatch_kiro_proxy(
        &mut dispatch,
        &mut affinity,
        KiroEvent::Recorded { recorded: true, reply },
    );
    assert!(matches!(action, KiroAction::Reply { reply } if reply.body == "told"));
    let reply = Reply { status: 413, json: true, body: "told".to_string() };
    let action = dispatch_kiro_proxy(
        &mut dispatch,
        &mut affinity,
        KiroEvent::Recorded { recorded: false, reply },
    );
    assert!(matches!(action, KiroAction::Reply { reply } if reply.status == 500));
}

#[test]
fn faulty_requests_are_turned_away() {
    let mut affinity = KiroSessionAffinity::new();
    let mut dispatch = start(vec![route("a")]);
    let action = dispatch_kiro_proxy(
        &mut dispatch,
        &mut affinity,
        KiroEvent::Body { body: None, read_ms: 0 },
    );
    assert!(matches!(action, KiroAction::Reply { reply } if reply.status == 400));
    let parsed = KiroEvent::Parsed {
        payload: Err("eof".to_string()),
        last_message: None,
        parse_ms: 0,
        now_ns: 0,
    };
    let action = dispatch_kiro_proxy(&mut dispatch, &mut affinity, parsed);
    let KiroAction::Reply { reply } = action else { panic!("refused") };
    assert!(reply.body.contains("failed to parse request JSON: eof"));
    let action = dispatch_kiro_proxy(
        &mut dispatch,
        &mut affinity,
        KiroEvent::Media { messages: Err("bad image".to_string()), stamp: early() },
    );
    let KiroAction::RecordPreflight { event, reply } = action else { panic!("recorded") };
    let event = event.expect("a record");
    assert_eq!(event.status_code, 400);
    assert_eq!(event.account_name, Some("a".to_string()));
    assert_eq!(event.input_uncached_tokens, 0);
    assert_eq!(event.billable_tokens, 3);
    assert_eq!(dispatch.meta.stream_finish_ms, Some(6));
    assert!(reply.body.contains("bad image"));
    assert_eq!(dispatch.meta.error_message, Some("bad image".to_string()));
    let reply = Reply { status: 400, json: true, body: String::new() };
    let action = dispatch_kiro_proxy(
        &mut dispatch,
        &mut affinity,
        KiroEvent::Converted {
            refusal: Some(("odd tool".to_string(), reply)),
            stamp: PreflightStamp { billable_tokens: None, created_at_ms: 1, now_ns: 0 },
        },
    );
    assert!(matches!(action, KiroAction::RecordPreflight { event: None, .. }));
    let rejection = LimitRejection {
        reason: LimitReason::MaxConcurrency,
        in_flight: 4,
        max_concurrency: Some(4),
        min_start_interval_ms: None,
        wait_ns: None,
        elapsed_since_last_start_ms: None,
    };
    let action = dispatch_kiro_proxy(
        &mut dispatch,
        &mut affinity,
        KiroEvent::Permit { rejection: Some(rejection) },
    );
    assert!(matches!(action, KiroAction::Reply { reply } if reply.status == 429));
    let nothing = KiroDispatch::with_routes(key(), Some(vec![]), "POST", "/v1/messages", None, meta());
    assert_eq!(nothing.err().map(|reply| reply.status), Some(503));
}

#[test]
fn long_conversations_are_asked_to_compact() {
    let mut affinity = KiroSessionAffinity::new();
    let mut dispatch = start(vec![route("a")]);
    let_in(&mut dispatch, &mut affinity, false);
    let mut guarded = route("a");
    guarded.compact_trigger_tokens = 600;
    dispatch_kiro_proxy(
        &mut dispatch,
        &mut affinity,
        KiroEvent::Selected { position: 0, wait_ms: 0 },
    );
    let action =
        dispatch_kiro_proxy(&mut dispatch, &mut affinity, KiroEvent::Hydrated { route: Ok(guarded) });
    assert!(matches!(action, KiroAction::BuildCache { recover_counts: true, .. }));
    let counts = AnchorTokenCounts { real_input_tokens: 700, local_input_tokens: 490 };
    let action = dispatch_kiro_proxy(
        &mut dispatch,
        &mut affinity,
        KiroEvent::Cached { recovered: Ok(Some(counts)) },
    );
    assert!(matches!(action, KiroAction::WordTooLong { tokens: 710, limit: 600 }));
    let reply = Reply { status: 413, json: true, body: String::new() };
    let action = dispatch_kiro_proxy(
        &mut dispatch,
        &mut affinity,
        KiroEvent::TooLong { message: "too long".to_string(), reply, stamp: early() },
    );
    let KiroAction::RecordPreflight { event, .. } = action else { panic!("recorded") };
    assert_eq!(event.expect("a record").status_code, 413);
    assert_eq!(dispatch.meta.error_message, Some("too long".to_string()));
}

fn search() -> (KiroSearch, KiroSessionAffinity) {
    let mut affinity = KiroSessionAffinity::new();
    let mut dispatch = start(vec![route("a"), route("b")]);
    let_in(&mut dispatch, &mut affinity, false);
    (KiroSearch::from_dispatch(dispatch), affinity)
}

#[test]
fn a_search_goes_its_way() {
    let (mut search, mut affinity) = search();
    let action =
        dispatch_kiro_websearch(&mut search, &mut affinity, SearchEvent::Permit { rejection: None });
    assert!(matches!(action, SearchAction::ExtractQuery));
    let action =
        dispatch_kiro_websearch(&mut search, &mut affinity, SearchEvent::Query { found: false });
    assert!(matches!(action, SearchAction::Reply { reply } if reply.status == 400));
    let action =
        dispatch_kiro_websearch(&mut search, &mut affinity, SearchEvent::Query { found: true });
    assert!(matches!(action, SearchAction::Encode));
    let encoded = SearchEvent::Encoded { body: Ok(b"q".to_vec()) };
    let action = dispatch_kiro_websearch(&mut search, &mut affinity, encoded);
    assert!(matches!(action, SearchAction::Select { preferred: None }));
    dispatch_kiro_websearch(
        &mut search,
        &mut affinity,
        SearchEvent::Selected { position: 0, wait_ms: 1 },
    );
    let hydrated =
        SearchEvent::Hydrated { route: Ok(route("a")), upstream_base: "https://q".to_string() };
    let action = dispatch_kiro_websearch(&mut search, &mut affinity, hydrated);
    assert!(matches!(action, SearchAction::Call { url } if url == "https://q/mcp"));
    let action =
        dispatch_kiro_websearch(&mut search, &mut affinity, SearchEvent::Called { now_ns: 0 });
    assert!(matches!(action, SearchAction::Answer { capture_details: false }));
    assert_eq!(affinity.lookup("k1", "s1"), Some("a".to_string()));
}

#[test]
fn a_search_is_answered_in_either_form() {
    let (mut search, _) = search();
    search.route = Some(route("a"));
    let blocks = SearchContent::Blocks { content: Json::str("found"), usage: Json::Null };
    let reply = build_kiro_websearch_response(&search, blocks, 30, 9, false, 5, 0);
    assert_eq!(reply.status, 200);
    assert_eq!(reply.headers, kiro_answer_headers(false));
    assert!(reply.body.contains("\"content\":\"found\""));
    assert!(reply.body.contains("\"model\":\"large\""));
    assert!(reply.body.contains("\"stop_reason\":\"end_turn\""));
    assert_eq!(reply.event.endpoint, "/mcp");
    assert_eq!(reply.event.input_uncached_tokens, 500);
    assert_eq!(reply.event.output_tokens, 30);
    assert_eq!(reply.event.billable_tokens, 9);
    assert_eq!(reply.event.account_name, Some("a".to_string()));
    assert!(reply.event.credit_usage_missing);
    search.stream = true;
    let events = SearchContent::Events { text: "event: done".to_string() };
    let reply = build_kiro_websearch_response(&search, events, 0, 0, true, 5, 0);
    assert_eq!(reply.body, "event: done");
    assert_eq!(reply.headers, kiro_answer_headers(true));
}

#[test]
fn a_failed_search_is_answered_without_results() {
    let (mut search, mut affinity) = search();
    dispatch_kiro_websearch(
        &mut search,
        &mut affinity,
        SearchEvent::Hydrated { route: Ok(route("a")), upstream_base: String::new() },
    );
    let failure = KiroRouteFailure::synthetic(502, "no search", KiroRouteFailureKind::Fatal);
    let failed = SearchEvent::CallFailed { failure, propagate: false, now_ns: 0 };
    let action = dispatch_kiro_websearch(&mut search, &mut affinity, failed);
    let SearchAction::AfterFailure { next, .. } = action else { panic!("failed") };
    assert!(matches!(next, SearchFailureStep::AnswerWithoutResults));
    let failure = KiroRouteFailure::synthetic(502, "no search", KiroRouteFailureKind::Fatal);
    let failed = SearchEvent::CallFailed { failure, propagate: true, now_ns: 0 };
    let action = dispatch_kiro_websearch(&mut search, &mut affinity, failed);
    let SearchAction::AfterFailure { next, .. } = action else { panic!("failed") };
    let SearchFailureStep::Reply { reply } = next else { panic!("told") };
    assert!(reply.body.contains("no search"));
    let failure = KiroRouteFailure::synthetic(502, "down", KiroRouteFailureKind::RetryNext);
    let failed = SearchEvent::CallFailed { failure, propagate: true, now_ns: 0 };
    let action = dispatch_kiro_websearch(&mut search, &mut affinity, failed);
    let SearchAction::AfterFailure { next, .. } = action else { panic!("failed") };
    assert!(matches!(next, SearchFailureStep::SelectAnother));
    assert_eq!(search.failed_accounts, vec!["a"]);
}

#[test]
fn searches_cost_tokens() {
    let usage = websearch_usage(120, 30);
    assert_eq!(usage.input_uncached_tokens, 120);
    assert_eq!(usage.output_tokens, 30);
    let headers = kiro_answer_headers(true);
    assert!(headers.contains(&("content-type".to_string(), "text/event-stream".to_string())));
    let headers = kiro_answer_headers(false);
    assert!(headers.contains(&("content-type".to_string(), "application/json".to_string())));
}

// The choice of an account

fn facts() -> KiroRouteFacts {
    KiroRouteFacts {
        proxy_in_cooldown: false,
        cooldown_ns: None,
        latency_order: None,
        last_started_ns: None,
    }
}

#[test]
fn usable_accounts_are_tried_in_order() {
    let mut rich = route("rich");
    rich.cached_remaining_order = Some(900);
    let mut poor = route("poor");
    poor.cached_remaining_order = Some(10);
    let routes = vec![poor, rich, route("failed"), route("cooling")];
    let mut cooling = facts();
    cooling.cooldown_ns = Some(77);
    let all = vec![facts(), facts(), facts(), cooling];
    let failed = vec!["failed".to_string()];
    let plan = select_kiro_route_with_account_permit(&routes, &all, &failed, None);
    assert_eq!(plan.preferred, None);
    assert_eq!(plan.attempts, vec![1, 0]);
    assert_eq!(plan.cooling, vec![Some(77)]);
    let plan = select_kiro_route_with_account_permit(&routes, &all, &failed, Some("poor"));
    assert_eq!(plan.preferred, Some(0));
    let order = selection_ordered_kiro_routes(&routes, &all);
    assert_eq!(order.len(), 4);
}

#[test]
fn no_account_means_waiting_or_an_error() {
    let routes = vec![route("a")];
    let failed = vec!["a".to_string()];
    let none: Vec<String> = vec![];
    let KiroSelectionEnd::Refused { reply } = conclude_kiro_selection(&vec![], &none, &vec![], &vec![])
    else {
        panic!("no routes");
    };
    assert_eq!(reply.status, 503);
    let KiroSelectionEnd::Refused { reply } =
        conclude_kiro_selection(&routes, &failed, &vec![], &vec![])
    else {
        panic!("all failed");
    };
    assert_eq!(reply.status, 502);
    let end = conclude_kiro_selection(&routes, &none, &vec![Some(9)], &vec![Some(5), None]);
    assert!(matches!(end, KiroSelectionEnd::Wait { wait_ns: Some(5) }));
    let end = conclude_kiro_selection(&routes, &none, &vec![], &vec![]);
    assert!(matches!(end, KiroSelectionEnd::Refused { .. }));
}

#[test]
fn failures_blame_the_right_accounts() {
    let mut twin = route("twin");
    twin.routing_identity = "id-a".to_string();
    let mut blamed = route("a");
    blamed.proxy = Some(ProviderProxyConfig {
        proxy_url: "http://p".to_string(),
        proxy_username: None,
        proxy_password: None,
    });
    assert_eq!(proxy_cooldown_key_for_route(&blamed), Some("url:http://p".to_string()));
    let routes = vec![route("a"), twin, route("b")];
    let mut failed: Vec<String> = vec![];
    let failover = should_failover_after_kiro_route_failure(
        KiroRouteFailureKind::QuotaExhausted,
        &blamed,
        &routes,
        &mut failed,
    );
    assert!(failover.retry);
    assert_eq!(failover.exhausted_accounts, vec!["a", "twin"]);
    assert_eq!(failed, vec!["a", "twin"]);
    let limited = KiroRouteFailureKind::RateLimited { cooldown_seconds: 60, mark_proxy: true };
    let failover =
        should_failover_after_kiro_route_failure(limited, &blamed, &routes, &mut failed);
    let cooldown = failover.cooldown.expect("cooldown");
    assert_eq!(cooldown.seconds, 60);
    assert_eq!(cooldown.proxy_key, Some("url:http://p".to_string()));
    let failover = should_failover_after_kiro_route_failure(
        KiroRouteFailureKind::Fatal,
        &blamed,
        &routes,
        &mut failed,
    );
    assert!(!failover.retry);
}

#[test]
fn routes_are_completed_before_use() {
    let mut bare = route("a");
    bare.auth_json = String::new();
    let mut loaded = route("a");
    loaded.auth_json = "{\"t\":1}".to_string();
    let hydrated = hydrate_kiro_route_for_dispatch(bare, Ok(Some(loaded))).ok().expect("route");
    assert_eq!(hydrated.auth_json, "{\"t\":1}");
    let mut bare = route("a");
    bare.auth_json = String::new();
    let missing = hydrate_kiro_route_for_dispatch(bare, Ok(None));
    assert_eq!(missing.err().map(|reply| reply.status), Some(502));
}

#[test]
fn the_prefix_tree_is_asked_only_where_it_counts() {
    let mut estimated = route("a");
    estimated.cache_estimation_enabled = true;
    estimated.cache_policy_json = " ".to_string();
    estimated.prefix_cache_max_tokens = 9;
    let context = build_kiro_cache_context(&estimated, true);
    assert!(context.match_prefix);
    assert!(context.default_policy);
    assert_eq!(context.simulation_config.prefix_cache_max_tokens, 9);
    assert!(!build_kiro_cache_context(&estimated, false).match_prefix);
    let plain = build_kiro_cache_context(&route("a"), true);
    assert!(!plain.match_prefix);
    assert!(!plain.default_policy);
}
