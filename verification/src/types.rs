//! Plain records that the gateways pass around.

use vstd::prelude::*;

verus! {

/// The provider behind a key.
#[derive(Debug, Clone, Copy, PartialEq, Eq, Structural)]
pub enum ProviderType {
    Codex,
    Kiro,
}

/// The wire protocol that the client speaks.
#[derive(Debug, Clone, Copy, PartialEq, Eq, Structural)]
pub enum ProtocolFamily {
    OpenAi,
    Anthropic,
}

/// How a key chooses among its accounts.
#[derive(Debug, Clone, Copy, PartialEq, Eq, Structural)]
pub enum RouteStrategy {
    Auto,
    Fixed,
}

/// The shape in which a completed Codex response goes back to the client.
#[derive(Debug, Clone, Copy, PartialEq, Eq, Structural)]
pub enum GatewayResponseAdapter {
    Responses,
    ChatCompletions,
    AnthropicMessages,
}

/// The key that a request was authenticated with.
pub struct AuthenticatedKey {
    pub key_id: String,
    pub key_name: String,
}

/// A proxy that an upstream call goes through.
pub struct ProviderProxyConfig {
    pub proxy_url: String,
    pub proxy_username: Option<String>,
    pub proxy_password: Option<String>,
}

/// A Codex request, ready to be sent upstream.
pub struct PreparedGatewayRequest {
    pub original_path: String,
    pub upstream_path: String,
    pub client_request_body: Option<Vec<u8>>,
    pub request_body: Vec<u8>,
    pub content_type: String,
    pub model: Option<String>,
    pub client_visible_model: Option<String>,
    pub wants_stream: bool,
    pub force_upstream_stream: bool,
    pub thread_anchor: Option<String>,
    pub last_message_content: Option<String>,
    pub billable_multiplier: u64,
    pub response_adapter: GatewayResponseAdapter,
}

/// Milestones of one request, in milliseconds.
#[derive(Debug, Clone, Copy, PartialEq, Eq)]
pub struct UsageTiming {
    pub latency_ms: Option<i64>,
    pub routing_wait_ms: Option<i64>,
    pub upstream_headers_ms: Option<i64>,
    pub post_headers_body_ms: Option<i64>,
    pub request_body_read_ms: Option<i64>,
    pub request_json_parse_ms: Option<i64>,
    pub pre_handler_ms: Option<i64>,
    pub first_sse_write_ms: Option<i64>,
    pub stream_finish_ms: Option<i64>,
}

/// How a streamed response ended.
pub struct UsageStreamDetails {
    pub stream_completed_cleanly: Option<bool>,
    pub downstream_disconnect: Option<bool>,
    pub final_event_type: Option<String>,
    pub bytes_streamed: Option<i64>,
}


/// A Codex account that a key may use.
pub struct ProviderCodexRoute {
    pub account_name: String,
    pub account_group_id_at_event: Option<String>,
    pub route_strategy_at_event: RouteStrategy,
    pub auth_json: String,
    pub map_gpt53_codex_to_spark: bool,
    pub auth_refresh_enabled: bool,
    pub codex_fast_enabled: bool,
    pub request_max_concurrency: Option<u64>,
    pub request_min_start_interval_ms: Option<u64>,
    pub account_request_max_concurrency: Option<u64>,
    pub account_request_min_start_interval_ms: Option<u64>,
    pub cached_error_message: Option<String>,
    /// Whether `cached_error_message` is an authentication error that only a new
    /// login mends.
    pub terminal_auth_error: bool,
    pub proxy: Option<ProviderProxyConfig>,
}

/// A Kiro account that a key may use. Credit amounts stand here as the integers
/// by which they are ordered.
pub struct ProviderKiroRoute {
    pub account_name: String,
    pub account_group_id_at_event: Option<String>,
    pub route_strategy_at_event: RouteStrategy,
    pub auth_json: String,
    pub profile_arn: Option<String>,
    pub api_region: String,
    pub request_validation_enabled: bool,
    pub cache_estimation_enabled: bool,
    pub zero_cache_debug_enabled: bool,
    pub full_request_logging_enabled: bool,
    pub remote_media_resolution_enabled: bool,
    pub latency_routing_enabled: bool,
    pub model_name_map_json: String,
    pub cache_kmodels_json: String,
    pub cache_policy_json: String,
    pub context_usage_min_request_tokens: u64,
    pub prefix_cache_mode: String,
    pub prefix_cache_max_tokens: u64,
    pub prefix_cache_entry_ttl_seconds: u64,
    pub conversation_anchor_max_entries: u64,
    pub conversation_anchor_ttl_seconds: u64,
    pub billable_model_multipliers_json: String,
    pub request_max_concurrency: Option<u64>,
    pub request_min_start_interval_ms: Option<u64>,
    pub account_request_max_concurrency: Option<u64>,
    pub account_request_min_start_interval_ms: Option<u64>,
    pub proxy: Option<ProviderProxyConfig>,
    pub routing_identity: String,
    pub cached_status: Option<String>,
    pub cached_remaining_order: Option<i64>,
    pub status_refresh_interval_seconds: u64,
    pub compact_trigger_tokens: u64,
}

} // verus!
