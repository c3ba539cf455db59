use llm_access::errors::WireEvent;
use llm_access::json::{parse_text, Json};
use llm_access::kiro_stream::{
    content_with_tools, finish_non_stream_kiro_response, kiro_message_reply,
    non_stream_kiro_response, stream_kiro_upstream_response, KiroBody, KiroNonStream,
    KiroStreamAction, KiroStreamRecordGuard, KiroStreamStep, SseEvent, StreamRecordState, ToolUse,
};
use llm_access::kiro_usage::{
    anthropic_usage_json_with_policy, anthropic_usage_with_policy, build_kiro_usage_summary,
    estimate_prefix_cached_tokens, kiro_billable_tokens, record_kiro_preflight_failure,
    record_kiro_usage, record_kiro_websearch_usage, zero_kiro_usage_summary, KiroUsageInputs,
    KiroUsageSummary, CacheEstimate,
};
use llm_access::types::{
    AuthenticatedKey, GatewayResponseAdapter, PreparedGatewayRequest, ProtocolFamily,
    ProviderKiroRoute, ProviderType, RouteStrategy,
};
use llm_access::usage_event::{
    record_codex_preflight_failure, usage_event_with_id, BodyDetail, UsageFacts,
};
use llm_access::usage_meta::{
    capture_client_request_body_json, capture_codex_dispatch_request_json, capture_error_bytes,
    capture_error_message, capture_upstream_request_body_json, captured_body_json,
    clamp_u64_to_i64, extract_model_from_json_body, strip_codex_stream_request_bodies,
    ProviderUsageMetadata,
};

const MS: u128 = 1_000_000;

fn meta() -> ProviderUsageMetadata {
    ProviderUsageMetadata::from_request_parts(
        10 * MS,
        "POST".to_string(),
        "/v1/messages".to_string(),
        "1.2.3.4".to_string(),
        "Unknown".to_string(),
        "{}".to_string(),
    )
}

fn key() -> AuthenticatedKey {
    AuthenticatedKey { key_id: "k1".to_string(), key_name: "key".to_string() }
}

fn route() -> ProviderKiroRoute {
    ProviderKiroRoute {
        account_name: "acc".to_string(),
        account_group_id_at_event: Some("group".to_string()),
        route_strategy_at_event: RouteStrategy::Fixed,
        auth_json: "{}".to_string(),
        profile_arn: None,
        api_region: "us-east-1".to_string(),
        request_validation_enabled: true,
        cache_estimation_enabled: false,
        zero_cache_debug_enabled: false,
        full_request_logging_enabled: false,
        remote_media_resolution_enabled: false,
        latency_routing_enabled: false,
        model_name_map_json: "{}".to_string(),
        cache_kmodels_json: "{}".to_string(),
        cache_policy_json: "{}".to_string(),
        context_usage_min_request_tokens: 0,
        prefix_cache_mode: "off".to_string(),
        prefix_cache_max_tokens: 0,
        prefix_cache_entry_ttl_seconds: 0,
        conversation_anchor_max_entries: 0,
        conversation_anchor_ttl_seconds: 0,
        billable_model_multipliers_json: "{}".to_string(),
        request_max_concurrency: None,
        request_min_start_interval_ms: None,
        account_request_max_concurrency: None,
        account_request_min_start_interval_ms: None,
        proxy: None,
        routing_identity: "id".to_string(),
        cached_status: None,
        cached_remaining_order: None,
        status_refresh_interval_seconds: 300,
        compact_trigger_tokens: 0,
    }
}

fn summary(uncached: i32, cached: i32, output: i32) -> KiroUsageSummary {
    KiroUsageSummary {
        input_uncached_tokens: uncached,
        input_cached_tokens: cached,
        output_tokens: output,
        credit_usage: Some("0.5".to_string()),
        credit_usage_missing: false,
    }
}

// What is noted of a request

#[test]
fn times_are_counted_from_the_start() {
    let mut meta = meta();
    assert_eq!(meta.elapsed_ms(35 * MS), 25);
    assert_eq!(meta.elapsed_ms(0), 0);
    meta.mark_upstream_headers(20 * MS);
    meta.mark_post_headers_body(26 * MS);
    meta.add_routing_wait(4);
    meta.add_routing_wait(5);
    meta.mark_failover();
    let timing = meta.to_timing(40 * MS);
    assert_eq!(timing.upstream_headers_ms, Some(10));
    assert_eq!(timing.post_headers_body_ms, Some(6));
    assert_eq!(timing.routing_wait_ms, Some(9));
    assert_eq!(timing.latency_ms, Some(30));
    assert_eq!(meta.quota_failover_count, 1);
}

#[test]
fn streams_are_counted() {
    let mut meta = meta();
    meta.observe_stream_write(5, Some(" message_start "), 12 * MS);
    meta.observe_stream_write(7, Some(""), 14 * MS);
    let details = meta.to_stream_details();
    assert_eq!(details.bytes_streamed, Some(12));
    assert_eq!(details.final_event_type, Some("message_start".to_string()));
    assert_eq!(details.stream_completed_cleanly, Some(false));
    assert_eq!(meta.first_sse_write_ms, Some(2));
    meta.mark_stream_completed_cleanly(15 * MS);
    assert_eq!(meta.to_stream_details().stream_completed_cleanly, Some(true));
    assert_eq!(meta.stream_finish_ms, Some(5));
}

#[test]
fn the_first_body_and_error_are_kept() {
    let mut meta = meta();
    capture_client_request_body_json(&mut meta, b"one");
    capture_client_request_body_json(&mut meta, b"two");
    assert_eq!(meta.client_request_body_json, Some(b"one".to_vec()));
    capture_upstream_request_body_json(&mut meta, b"up");
    assert_eq!(meta.upstream_request_body_json, Some(b"up".to_vec()));
    capture_error_message(&mut meta, "  ");
    assert_eq!(meta.error_message, None);
    capture_error_bytes(&mut meta, b"{\"error\":{\"message\":\"why\"}}");
    capture_error_message(&mut meta, "later");
    assert_eq!(meta.error_message, Some("why".to_string()));
    assert_eq!(captured_body_json(&Some(b"a\xffb".to_vec())), Some("a\u{fffd}b".to_string()));
    assert_eq!(captured_body_json(&None), None);
    assert_eq!(clamp_u64_to_i64(u64::MAX), i64::MAX);
    assert_eq!(extract_model_from_json_body(b"{\"model\":\"m\"}"), Some("m".to_string()));
    assert_eq!(extract_model_from_json_body(b"{"), None);
}

fn prepared() -> PreparedGatewayRequest {
    PreparedGatewayRequest {
        original_path: "/v1/messages".to_string(),
        upstream_path: "/v1/responses".to_string(),
        client_request_body: Some(b"client".to_vec()),
        request_body: b"up".to_vec(),
        content_type: "application/json".to_string(),
        model: Some("m".to_string()),
        client_visible_model: None,
        wants_stream: true,
        force_upstream_stream: false,
        thread_anchor: None,
        last_message_content: None,
        billable_multiplier: 1,
        response_adapter: GatewayResponseAdapter::AnthropicMessages,
    }
}

#[test]
fn streamed_requests_keep_no_bodies() {
    let stripped = strip_codex_stream_request_bodies(prepared());
    assert_eq!(stripped.client_request_body, None);
    assert!(stripped.request_body.is_empty());
    assert_eq!(stripped.model, Some("m".to_string()));
    let mut meta = meta();
    capture_codex_dispatch_request_json(&mut meta, b"sent", &prepared());
    assert_eq!(meta.client_request_body_json, Some(b"sent".to_vec()));
    assert_eq!(meta.upstream_request_body_json, Some(b"up".to_vec()));
}

// What is recorded

fn facts(detail: BodyDetail) -> UsageFacts {
    UsageFacts {
        provider_type: ProviderType::Kiro,
        protocol_family: ProtocolFamily::Anthropic,
        account_name: None,
        account_group_id_at_event: None,
        route_strategy_at_event: None,
        endpoint: "/v1/messages".to_string(),
        model: None,
        mapped_model: None,
        status: 500,
        request_body_bytes: None,
        input_uncached_tokens: 0,
        input_cached_tokens: 0,
        output_tokens: 0,
        billable_tokens: 0,
        credit_usage: None,
        usage_missing: true,
        credit_usage_missing: true,
        detail,
    }
}

#[test]
fn events_show_as_much_as_they_should() {
    let mut meta = meta();
    meta.client_request_body_json = Some(b"client".to_vec());
    let event = usage_event_with_id("7", facts(BodyDetail::Nothing), &key(), &meta, 1, 20 * MS);
    assert_eq!(event.event_id, "llm-usage-7");
    assert_eq!(event.client_request_body_json, None);
    assert_eq!(event.full_request_json, None);
    let event = usage_event_with_id("7", facts(BodyDetail::AsCaptured), &key(), &meta, 1, 20 * MS);
    assert_eq!(event.client_request_body_json, Some("client".to_string()));
    assert_eq!(event.full_request_json, None);
    let event = usage_event_with_id("7", facts(BodyDetail::Complete), &key(), &meta, 1, 20 * MS);
    assert_eq!(event.full_request_json, Some("client".to_string()));
    assert_eq!(event.timing.latency_ms, Some(10));
}

#[test]
fn successes_record_no_bodies() {
    let mut meta = meta();
    meta.client_request_body_json = Some(b"client".to_vec());
    let usage = summary(10, 4, 6);
    let good =
        record_kiro_usage(&key(), &route(), "/v1/messages", "m", 200, &usage, 20, &meta, 1, 20 * MS);
    assert_eq!(good.client_request_body_json, None);
    assert_eq!(good.account_name, Some("acc".to_string()));
    assert_eq!(good.input_uncached_tokens, 10);
    assert_eq!(good.input_cached_tokens, 4);
    assert_eq!(good.output_tokens, 6);
    assert_eq!(good.billable_tokens, 20);
    assert_eq!(good.credit_usage, Some("0.5".to_string()));
    assert!(good.event_id.starts_with("llm-usage-"));
    let bad =
        record_kiro_usage(&key(), &route(), "/v1/messages", "m", 502, &usage, 20, &meta, 1, 20 * MS);
    assert_eq!(bad.client_request_body_json, Some("client".to_string()));
    assert_eq!(bad.status_code, 502);
    assert_ne!(good.event_id, bad.event_id);
}

#[test]
fn refused_requests_are_recorded_too() {
    let mut kiro = meta();
    let event = record_kiro_preflight_failure(
        &key(),
        &route(),
        "/v1/messages",
        "m",
        400,
        0,
        &mut kiro,
        1,
        20 * MS,
    );
    assert_eq!(event.status_code, 400);
    assert_eq!(event.output_tokens, 0);
    let mut codex = meta();
    let event = record_codex_preflight_failure(
        &key(),
        "/v1/responses",
        Some("m".to_string()),
        400,
        &mut codex,
        1,
        20 * MS,
    );
    assert_eq!(event.account_name, None);
    assert_eq!(event.protocol_family, ProtocolFamily::OpenAi);
    assert!(event.usage_missing);
    let usage = summary(3, 0, 2);
    let search =
        record_kiro_websearch_usage(&key(), &route(), "m", 200, &usage, 5, false, &meta(), 1, 20 * MS);
    assert_eq!(search.input_uncached_tokens, 3);
}

// Tokens

#[test]
fn told_usage_adds_up() {
    let usage = anthropic_usage_with_policy(100, 7, 40, 25);
    assert_eq!(usage.cache_read_input_tokens, 40);
    assert_eq!(usage.cache_creation_input_tokens, 25);
    assert_eq!(usage.input_tokens, 35);
    assert_eq!(usage.output_tokens, 7);
    let fresh = anthropic_usage_with_policy(101, -1, 0, 25);
    assert_eq!(fresh.cache_creation_input_tokens, 50);
    assert_eq!(fresh.input_tokens, 51);
    assert_eq!(fresh.output_tokens, 0);
    let json = anthropic_usage_json_with_policy(100, 7, 40, 25);
    assert_eq!(json.get("cache_read_input_tokens").and_then(|n| n.as_u64()), Some(40));
}

#[test]
fn summaries_keep_the_input() {
    let inputs = |enabled| KiroUsageInputs {
        resolved_input_tokens: 90,
        output_tokens: 5,
        credit_usage: None,
        credit_usage_missing: true,
        cache_estimation_enabled: enabled,
    };
    let plain = build_kiro_usage_summary(inputs(false), 100, &CacheEstimate::Formula { cached: 30 });
    assert_eq!((plain.input_uncached_tokens, plain.input_cached_tokens), (90, 0));
    let estimated = build_kiro_usage_summary(inputs(true), 100, &CacheEstimate::Formula { cached: 30 });
    assert_eq!((estimated.input_uncached_tokens, estimated.input_cached_tokens), (70, 30));
    let matched = CacheEstimate::PrefixTree {
        projected_tokens: 50,
        matched_tokens: 20,
        cap_basis_points: None,
    };
    let estimated = build_kiro_usage_summary(inputs(true), 100, &matched);
    assert_eq!((estimated.input_uncached_tokens, estimated.input_cached_tokens), (60, 40));
    assert_eq!(kiro_billable_tokens(&summary(3, -1, 2)), (3, 0, 2));
    assert_eq!(zero_kiro_usage_summary().output_tokens, 0);
}

#[test]
fn cached_prefixes_are_a_share() {
    assert_eq!(estimate_prefix_cached_tokens(1000, 200, 50, None), 250);
    assert_eq!(estimate_prefix_cached_tokens(1000, 200, 500, None), 1000);
    assert_eq!(estimate_prefix_cached_tokens(1000, 200, 150, Some(5000)), 500);
    assert_eq!(estimate_prefix_cached_tokens(-5, 200, 150, None), 0);
    assert_eq!(estimate_prefix_cached_tokens(1000, 0, 0, None), 0);
}

// Streams of Kiro

fn guard() -> KiroStreamRecordGuard {
    KiroStreamRecordGuard {
        key: key(),
        route: route(),
        endpoint: "/v1/messages".to_string(),
        model: "m".to_string(),
        status: 200,
        usage_meta: meta(),
        state: StreamRecordState::Pending,
        record_committed: false,
    }
}

#[test]
fn a_finished_stream_tells_its_usage() {
    let mut guard = guard();
    let sent = KiroStreamStep::Sent { bytes_len: 9, event: "message_start".to_string() };
    let action = stream_kiro_upstream_response(&mut guard, sent, 12 * MS);
    assert!(matches!(action, KiroStreamAction::Continue));
    let delta = parse_text("{\"type\":\"message_delta\",\"usage\":{\"output_tokens\":0}}");
    let final_events = vec![
        SseEvent { event: "message_delta".to_string(), data: delta.expect("JSON") },
        SseEvent { event: "message_stop".to_string(), data: Json::new_object() },
    ];
    let ended =
        KiroStreamStep::Ended { usage: summary(60, 40, 7), by_ratio: 25, final_events };
    let action = stream_kiro_upstream_response(&mut guard, ended, 20 * MS);
    let KiroStreamAction::Finish { usage, events } = action else { panic!("finished") };
    let told = events[0].data.get2("usage", "output_tokens").and_then(|n| n.as_u64());
    assert_eq!(told, Some(7));
    assert!(events[1].data.get("usage").is_none());
    let event = guard.finish_success(&usage, 100, 1, 21 * MS);
    assert_eq!(event.stream.stream_completed_cleanly, Some(true));
    assert_eq!(event.input_cached_tokens, 40);
    assert!(guard.give_up(&usage, 0, 1, 22 * MS).is_none());
}

#[test]
fn an_abandoned_stream_is_not_clean() {
    let mut broken = guard();
    let failed = KiroStreamStep::DecodeFailed { error: "crc".to_string() };
    let action = stream_kiro_upstream_response(&mut broken, failed, 12 * MS);
    let KiroStreamAction::Abort { error } = action else { panic!("aborted") };
    assert_eq!(error, "failed to decode kiro event frame: crc");
    let event = broken.give_up(&summary(1, 0, 0), 0, 1, 13 * MS).expect("recorded");
    assert_eq!(event.stream.stream_completed_cleanly, Some(false));
    let mut left = guard();
    let event = left.give_up(&summary(1, 0, 0), 0, 1, 13 * MS).expect("recorded");
    assert_eq!(event.stream.downstream_disconnect, Some(true));
    let usage = left.current_usage_summary(8, 3, (None, true), 0, &CacheEstimate::Formula { cached: 0 });
    assert_eq!((usage.input_uncached_tokens, usage.output_tokens), (8, 3));
}

// Whole answers of Kiro

fn look(body: KiroBody) -> KiroNonStream {
    let mut meta = meta();
    non_stream_kiro_response(
        &body,
        &mut meta,
        &key(),
        &route(),
        "/v1/messages",
        "m",
        100,
        150,
        150,
        0,
        1,
        20 * MS,
    )
}

#[test]
fn whole_bodies_are_looked_at() {
    let KiroNonStream::Refused { reply } = look(KiroBody::Unreadable) else { panic!("refused") };
    assert!(reply.body.contains("failed to read kiro upstream response"));
    let undecodable = KiroBody::Undecodable { error: "bad frame".to_string() };
    let KiroNonStream::Refused { reply } = look(undecodable) else { panic!("refused") };
    assert_eq!(reply.status, 502);
    assert!(reply.body.contains("bad frame"));
    let long = WireEvent::Exception {
        exception_type: "ContentLengthExceededException".to_string(),
        message: String::new(),
    };
    let KiroNonStream::TooLong { reply, event } = look(KiroBody::Events { events: vec![long] })
    else {
        panic!("too long");
    };
    assert_eq!(reply.status, 413);
    assert_eq!(event.status_code, 413);
    assert_eq!(event.input_uncached_tokens, 150);
    assert!(matches!(look(KiroBody::Events { events: vec![WireEvent::Other] }), KiroNonStream::Complete));
}

fn tool() -> ToolUse {
    ToolUse { tool_use_id: "t1".to_string(), name: "read".to_string(), input: Json::new_object() }
}

#[test]
fn tools_follow_the_content() {
    let content = content_with_tools(vec![Json::str("text")], Some(vec![tool()]));
    let Json::Array(items) = content else { panic!("a list") };
    assert_eq!(items.len(), 2);
    assert_eq!(items[1].get_str("type"), Some("tool_use"));
    assert_eq!(items[1].get_str("id"), Some("t1"));
    let usage = summary(60, 40, 7);
    let reply = kiro_message_reply("id", 200, vec![], None, "m", "end_turn", &usage, 25);
    let message = parse_text(&reply.body).expect("JSON");
    assert_eq!(message.get_str("stop_reason"), Some("end_turn"));
    assert_eq!(message.get("stop_sequence"), Some(&Json::Null));
    assert_eq!(message.get2("usage", "output_tokens").and_then(|n| n.as_u64()), Some(7));
    let (event, reply) = finish_non_stream_kiro_response(
        200,
        vec![],
        Some(vec![tool()]),
        &key(),
        &route(),
        "/v1/messages",
        "m",
        "tool_use",
        &usage,
        25,
        100,
        &meta(),
        1,
        20 * MS,
    );
    assert_eq!(event.billable_tokens, 100);
    let message = parse_text(&reply.body).expect("JSON");
    assert!(message.get_str("id").is_some_and(|id| id.starts_with("msg_")));
}
