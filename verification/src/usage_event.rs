//! The record of one request for the usage journal.

use vstd::prelude::*;
use crate::codex_auth::codex_protocol_family_for_endpoint;
use crate::codex_sse::UsageBreakdown;
use crate::errors::{is_success, prefers_anthropic_errors, status_is_success};
use crate::text::{clone_opt, concat2, opt_text, starts_with};
use crate::types::{AuthenticatedKey, PreparedGatewayRequest, ProtocolFamily, ProviderCodexRoute,
    ProviderType, RouteStrategy, UsageStreamDetails, UsageTiming};
use crate::usage_meta::{body_text, captured_body_json, clamp_u64_to_i64, clamp_usize_to_i64, clamped,
    elapsed_millis, stream_details_of, timing_of, ProviderUsageMetadata};

verus! {

pub struct UsageEvent {
    pub event_id: String,
    pub created_at_ms: i64,
    pub provider_type: ProviderType,
    pub protocol_family: ProtocolFamily,
    pub key_id: String,
    pub key_name: String,
    pub account_name: Option<String>,
    pub account_group_id_at_event: Option<String>,
    pub route_strategy_at_event: Option<RouteStrategy>,
    pub request_method: String,
    pub request_url: String,
    pub endpoint: String,
    pub model: Option<String>,
    pub mapped_model: Option<String>,
    pub status_code: i64,
    pub request_body_bytes: Option<i64>,
    pub quota_failover_count: u64,
    pub routing_diagnostics_json: Option<String>,
    pub input_uncached_tokens: i64,
    pub input_cached_tokens: i64,
    pub output_tokens: i64,
    pub billable_tokens: i64,
    pub credit_usage: Option<String>,
    pub usage_missing: bool,
    pub credit_usage_missing: bool,
    pub client_ip: String,
    pub ip_region: String,
    pub request_headers_json: String,
    pub last_message_content: Option<String>,
    pub client_request_body_json: Option<String>,
    pub upstream_request_body_json: Option<String>,
    pub full_request_json: Option<String>,
    pub error_message: Option<String>,
    pub error_body: Option<String>,
    pub timing: UsageTiming,
    pub stream: UsageStreamDetails,
}

/// Which of the captured bodies go into the record.
#[derive(Debug, Clone, Copy, PartialEq, Eq, Structural)]
pub enum BodyDetail {
    Nothing,
    /// All of them; the client's body stands in for a full request that was not captured.
    Complete,
    /// All of them as they were captured.
    AsCaptured,
}

/// What a record says beyond the key and the notes on the request.
pub struct UsageFacts {
    pub provider_type: ProviderType,
    pub protocol_family: ProtocolFamily,
    pub account_name: Option<String>,
    pub account_group_id_at_event: Option<String>,
    pub route_strategy_at_event: Option<RouteStrategy>,
    pub endpoint: String,
    pub model: Option<String>,
    pub mapped_model: Option<String>,
    pub status: u16,
    pub request_body_bytes: Option<i64>,
    pub input_uncached_tokens: i64,
    pub input_cached_tokens: i64,
    pub output_tokens: i64,
    pub billable_tokens: i64,
    pub credit_usage: Option<String>,
    pub usage_missing: bool,
    pub credit_usage_missing: bool,
    pub detail: BodyDetail,
}

pub open spec fn full_request_text(meta: ProviderUsageMetadata, detail: BodyDetail) -> Option<
    Seq<char>,
> {
    match detail {
        BodyDetail::Nothing => None,
        BodyDetail::AsCaptured => body_text(meta.full_request_json),
        BodyDetail::Complete => match body_text(meta.full_request_json) {
            Some(text) => Some(text),
            None => body_text(meta.client_request_body_json),
        },
    }
}

/// A digit of a UUID as the `uuid` crate writes it.
pub open spec fn is_lower_hex(c: char) -> bool {
    ('0' <= c && c <= '9') || ('a' <= c && c <= 'f')
}

/// The digit that tells the variant of a random UUID.
pub open spec fn is_variant_digit(c: char) -> bool {
    c == '8' || c == '9' || c == 'a' || c == 'b'
}

/// A random UUID in its usual form: 36 characters, of which four are hyphens and the others
/// digits, with the version and the variant in their places.
pub open spec fn is_random_uuid(id: Seq<char>) -> bool {
    &&& id.len() == 36
    &&& forall|i: int|
        0 <= i < 36 ==> if i == 8 || i == 13 || i == 18 || i == 23 {
            #[trigger] id[i] == '-'
        } else {
            is_lower_hex(id[i])
        }
    &&& id[14] == '4'
    &&& is_variant_digit(id[19])
}

/// The id of a record: the common prefix, followed by a random UUID.
pub open spec fn is_record_id(id: Seq<char>) -> bool {
    starts_with(id, "llm-usage-"@) && is_random_uuid(id.skip("llm-usage-"@.len() as int))
}

/// The record of a request under a fresh id, taken at `now_ns`.
pub open spec fn is_usage_event(
    event: UsageEvent,
    facts: UsageFacts,
    key: AuthenticatedKey,
    meta: ProviderUsageMetadata,
    created_at_ms: i64,
    now_ns: u128,
) -> bool {
    is_record_id(event.event_id@) && event_says(event, facts, key, meta, created_at_ms, now_ns)
}

/// What the record of a request says, whatever its id.
pub open spec fn event_says(
    event: UsageEvent,
    facts: UsageFacts,
    key: AuthenticatedKey,
    meta: ProviderUsageMetadata,
    created_at_ms: i64,
    now_ns: u128,
) -> bool {
    &&& event.created_at_ms == created_at_ms
    &&& event.provider_type == facts.provider_type
    &&& event.protocol_family == facts.protocol_family
    &&& event.key_id == key.key_id
    &&& event.key_name == key.key_name
    &&& event.account_name == facts.account_name
    &&& event.account_group_id_at_event == facts.account_group_id_at_event
    &&& event.route_strategy_at_event == facts.route_strategy_at_event
    &&& event.request_method == meta.request_method
    &&& event.request_url == meta.request_url
    &&& event.endpoint == facts.endpoint
    &&& event.model == facts.model
    &&& event.mapped_model == facts.mapped_model
    &&& event.status_code == facts.status
    &&& event.request_body_bytes == facts.request_body_bytes
    &&& event.quota_failover_count == meta.quota_failover_count
    &&& event.routing_diagnostics_json == meta.routing_diagnostics_json
    &&& event.input_uncached_tokens == facts.input_uncached_tokens
    &&& event.input_cached_tokens == facts.input_cached_tokens
    &&& event.output_tokens == facts.output_tokens
    &&& event.billable_tokens == facts.billable_tokens
    &&& event.credit_usage == facts.credit_usage
    &&& event.usage_missing == facts.usage_missing
    &&& event.credit_usage_missing == facts.credit_usage_missing
    &&& event.client_ip == meta.client_ip
    &&& event.ip_region == meta.ip_region
    &&& event.request_headers_json == meta.request_headers_json
    &&& event.last_message_content == meta.last_message_content
    &&& opt_text(event.client_request_body_json) == if facts.detail == BodyDetail::Nothing {
        None
    } else {
        body_text(meta.client_request_body_json)
    }
    &&& opt_text(event.upstream_request_body_json) == if facts.detail == BodyDetail::Nothing {
        None
    } else {
        body_text(meta.upstream_request_body_json)
    }
    &&& opt_text(event.full_request_json) == full_request_text(meta, facts.detail)
    &&& event.error_message == meta.error_message
    &&& event.error_body == meta.error_body
    &&& event.timing == timing_of(meta, now_ns)
    &&& event.stream == stream_details_of(meta)
}

/// The record of a request under a given id.
pub fn usage_event_with_id(
    unique: &str,
    facts: UsageFacts,
    key: &AuthenticatedKey,
    meta: &ProviderUsageMetadata,
    created_at_ms: i64,
    now_ns: u128,
) -> (event: UsageEvent)
    ensures
        event_says(event, facts, *key, *meta, created_at_ms, now_ns),
        event.event_id@ == "llm-usage-"@ + unique@,
{
    let nothing = match facts.detail {
        BodyDetail::Nothing => true,
        _ => false,
    };
    let client_request_body_json = if nothing {
        None
    } else {
        captured_body_json(&meta.client_request_body_json)
    };
    let upstream_request_body_json = if nothing {
        None
    } else {
        captured_body_json(&meta.upstream_request_body_json)
    };
    let full_request_json = match facts.detail {
        BodyDetail::Nothing => None,
        BodyDetail::AsCaptured => captured_body_json(&meta.full_request_json),
        BodyDetail::Complete => match captured_body_json(&meta.full_request_json) {
            Some(text) => Some(text),
            None => captured_body_json(&meta.client_request_body_json),
        },
    };
    UsageEvent {
        event_id: concat2("llm-usage-", unique),
        created_at_ms,
        provider_type: facts.provider_type,
        protocol_family: facts.protocol_family,
        key_id: key.key_id.clone(),
        key_name: key.key_name.clone(),
        account_name: facts.account_name,
        account_group_id_at_event: facts.account_group_id_at_event,
        route_strategy_at_event: facts.route_strategy_at_event,
        request_method: meta.request_method.clone(),
        request_url: meta.request_url.clone(),
        endpoint: facts.endpoint,
        model: facts.model,
        mapped_model: facts.mapped_model,
        status_code: facts.status as i64,
        request_body_bytes: facts.request_body_bytes,
        quota_failover_count: meta.quota_failover_count,
        routing_diagnostics_json: clone_opt(&meta.routing_diagnostics_json),
        input_uncached_tokens: facts.input_uncached_tokens,
        input_cached_tokens: facts.input_cached_tokens,
        output_tokens: facts.output_tokens,
        billable_tokens: facts.billable_tokens,
        credit_usage: facts.credit_usage,
        usage_missing: facts.usage_missing,
        credit_usage_missing: facts.credit_usage_missing,
        client_ip: meta.client_ip.clone(),
        ip_region: meta.ip_region.clone(),
        request_headers_json: meta.request_headers_json.clone(),
        last_message_content: clone_opt(&meta.last_message_content),
        client_request_body_json,
        upstream_request_body_json,
        full_request_json,
        error_message: clone_opt(&meta.error_message),
        error_body: clone_opt(&meta.error_body),
        timing: meta.to_timing(now_ns),
        stream: meta.to_stream_details(),
    }
}

/// `uuid::Uuid::new_v4` as text: 36 characters, lower case hexadecimal digits and four
/// hyphens, with the version four and the variant in their places. The other digits rest on
/// chance.
#[verifier::external_body]
pub(crate) fn random_id() -> (id: String)
    ensures
        is_random_uuid(id@),
{
    uuid::Uuid::new_v4().to_string()
}

/// The record of a request under a fresh id.
pub fn usage_event(
    facts: UsageFacts,
    key: &AuthenticatedKey,
    meta: &ProviderUsageMetadata,
    created_at_ms: i64,
    now_ns: u128,
) -> (event: UsageEvent)
    ensures
        is_usage_event(event, facts, *key, *meta, created_at_ms, now_ns),
{
    let id = random_id();
    let event = usage_event_with_id(id.as_str(), facts, key, meta, created_at_ms, now_ns);
    assert(event.event_id@.subrange(0, "llm-usage-"@.len() as int) =~= "llm-usage-"@);
    assert(event.event_id@.skip("llm-usage-"@.len() as int) =~= id@);
    event
}

// ---------------------------------------------------------------------------
// Codex
// ---------------------------------------------------------------------------

pub open spec fn family_of(endpoint: Seq<char>) -> ProtocolFamily {
    if prefers_anthropic_errors(endpoint) {
        ProtocolFamily::Anthropic
    } else {
        ProtocolFamily::OpenAi
    }
}

/// The facts of a Codex request that failed before any account was tried.
pub open spec fn codex_preflight_facts(
    facts: UsageFacts,
    endpoint: Seq<char>,
    model: Option<String>,
    status: u16,
    meta: ProviderUsageMetadata,
) -> bool {
    &&& facts == (UsageFacts {
        provider_type: ProviderType::Codex,
        protocol_family: family_of(endpoint),
        account_name: None,
        account_group_id_at_event: None,
        route_strategy_at_event: None,
        endpoint: facts.endpoint,
        model,
        mapped_model: None,
        status,
        request_body_bytes: meta.request_body_bytes,
        input_uncached_tokens: 0,
        input_cached_tokens: 0,
        output_tokens: 0,
        billable_tokens: 0,
        credit_usage: None,
        usage_missing: true,
        credit_usage_missing: false,
        detail: BodyDetail::AsCaptured,
    })
    &&& facts.endpoint@ == endpoint
}

/// The record of a Codex request that failed before any account was tried; the request
/// ends with it.
pub fn record_codex_preflight_failure(
    key: &AuthenticatedKey,
    endpoint: &str,
    model: Option<String>,
    status: u16,
    meta: &mut ProviderUsageMetadata,
    created_at_ms: i64,
    now_ns: u128,
) -> (event: UsageEvent)
    ensures
        *final(meta) == (ProviderUsageMetadata {
            stream_finish_ms: Some(elapsed_millis(old(meta).started_at_ns, now_ns)),
            ..*old(meta)
        }),
        exists|facts: UsageFacts| #[trigger]
            codex_preflight_facts(facts, endpoint@, model, status, *final(meta))
                && is_usage_event(event, facts, *key, *final(meta), created_at_ms, now_ns),
{
    meta.mark_stream_finish(now_ns);
    let facts = UsageFacts {
        provider_type: ProviderType::Codex,
        protocol_family: codex_protocol_family_for_endpoint(endpoint),
        account_name: None,
        account_group_id_at_event: None,
        route_strategy_at_event: None,
        endpoint: endpoint.to_owned(),
        model,
        mapped_model: None,
        status,
        request_body_bytes: meta.request_body_bytes,
        input_uncached_tokens: 0,
        input_cached_tokens: 0,
        output_tokens: 0,
        billable_tokens: 0,
        credit_usage: None,
        usage_missing: true,
        credit_usage_missing: false,
        detail: BodyDetail::AsCaptured,
    };
    assert(codex_preflight_facts(facts, endpoint@, model, status, *meta));
    usage_event(facts, key, meta, created_at_ms, now_ns)
}

/// The facts of a Codex request that an account served. `billable_tokens` is what the
/// tokens cost.
pub open spec fn codex_facts(
    facts: UsageFacts,
    prepared: PreparedGatewayRequest,
    status: u16,
    route: ProviderCodexRoute,
    usage: UsageBreakdown,
    billable_tokens: u64,
    meta: ProviderUsageMetadata,
) -> bool {
    facts == (UsageFacts {
        provider_type: ProviderType::Codex,
        protocol_family: family_of(prepared.original_path@),
        account_name: Some(route.account_name),
        account_group_id_at_event: route.account_group_id_at_event,
        route_strategy_at_event: Some(route.route_strategy_at_event),
        endpoint: prepared.original_path,
        model: match prepared.client_visible_model {
            Some(model) => Some(model),
            None => prepared.model,
        },
        mapped_model: prepared.model,
        status,
        request_body_bytes: match meta.request_body_bytes {
            Some(bytes) => Some(bytes),
            None => Some(clamped(prepared.request_body@.len() as int)),
        },
        input_uncached_tokens: clamped(usage.input_uncached_tokens as int),
        input_cached_tokens: clamped(usage.input_cached_tokens as int),
        output_tokens: clamped(usage.output_tokens as int),
        billable_tokens: clamped(billable_tokens as int),
        credit_usage: None,
        usage_missing: usage.usage_missing,
        credit_usage_missing: false,
        detail: if is_success(status) {
            BodyDetail::Nothing
        } else {
            BodyDetail::Complete
        },
    })
}

/// The record of a Codex request that an account served.
pub open spec fn is_codex_record(
    event: UsageEvent,
    key: AuthenticatedKey,
    prepared: PreparedGatewayRequest,
    status: u16,
    route: ProviderCodexRoute,
    usage: UsageBreakdown,
    billable_tokens: u64,
    meta: ProviderUsageMetadata,
    created_at_ms: i64,
    now_ns: u128,
) -> bool {
    exists|facts: UsageFacts| #[trigger]
        codex_facts(facts, prepared, status, route, usage, billable_tokens, meta)
            && is_usage_event(event, facts, key, meta, created_at_ms, now_ns)
}

pub fn record_codex_usage(
    key: &AuthenticatedKey,
    prepared: &PreparedGatewayRequest,
    status: u16,
    route: &ProviderCodexRoute,
    usage: UsageBreakdown,
    billable_tokens: u64,
    meta: &ProviderUsageMetadata,
    created_at_ms: i64,
    now_ns: u128,
) -> (event: UsageEvent)
    ensures
        is_codex_record(
            event,
            *key,
            *prepared,
            status,
            *route,
            usage,
            billable_tokens,
            *meta,
            created_at_ms,
            now_ns,
        ),
{
    let facts = UsageFacts {
        provider_type: ProviderType::Codex,
        protocol_family: codex_protocol_family_for_endpoint(prepared.original_path.as_str()),
        account_name: Some(route.account_name.clone()),
        account_group_id_at_event: clone_opt(&route.account_group_id_at_event),
        route_strategy_at_event: Some(route.route_strategy_at_event),
        endpoint: prepared.original_path.clone(),
        model: match &prepared.client_visible_model {
            Some(model) => Some(model.clone()),
            None => clone_opt(&prepared.model),
        },
        mapped_model: clone_opt(&prepared.model),
        status,
        request_body_bytes: match meta.request_body_bytes {
            Some(bytes) => Some(bytes),
            None => Some(clamp_usize_to_i64(prepared.request_body.len())),
        },
        input_uncached_tokens: clamp_u64_to_i64(usage.input_uncached_tokens),
        input_cached_tokens: clamp_u64_to_i64(usage.input_cached_tokens),
        output_tokens: clamp_u64_to_i64(usage.output_tokens),
        billable_tokens: clamp_u64_to_i64(billable_tokens),
        credit_usage: None,
        usage_missing: usage.usage_missing,
        credit_usage_missing: false,
        detail: if status_is_success(status) {
            BodyDetail::Nothing
        } else {
            BodyDetail::Complete
        },
    };
    assert(codex_facts(facts, *prepared, status, *route, usage, billable_tokens, *meta));
    usage_event(facts, key, meta, created_at_ms, now_ns)
}

// ---------------------------------------------------------------------------
// Laws
// ---------------------------------------------------------------------------

/// The record of a successful Codex request never holds a body.
pub proof fn law_success_records_no_bodies(
    event: UsageEvent,
    prepared: PreparedGatewayRequest,
    status: u16,
    route: ProviderCodexRoute,
    usage: UsageBreakdown,
    billable_tokens: u64,
    key: AuthenticatedKey,
    meta: ProviderUsageMetadata,
    created_at_ms: i64,
    now_ns: u128,
)
    requires
        is_success(status),
        is_codex_record(
            event,
            key,
            prepared,
            status,
            route,
            usage,
            billable_tokens,
            meta,
            created_at_ms,
            now_ns,
        ),
    ensures
        event.client_request_body_json is None,
        event.upstream_request_body_json is None,
        event.full_request_json is None,
{
}

/// The record of an answered request tells who asked, which account answered, with what
/// status, and what it took: tokens that fit are recorded as they are. The model is the one
/// that the client named, where it named another than was asked for.
pub proof fn law_a_record_tells_what_was_taken(
    event: UsageEvent,
    prepared: PreparedGatewayRequest,
    status: u16,
    route: ProviderCodexRoute,
    usage: UsageBreakdown,
    billable_tokens: u64,
    key: AuthenticatedKey,
    meta: ProviderUsageMetadata,
    created_at_ms: i64,
    now_ns: u128,
)
    requires
        is_codex_record(
            event,
            key,
            prepared,
            status,
            route,
            usage,
            billable_tokens,
            meta,
            created_at_ms,
            now_ns,
        ),
    ensures
        event.created_at_ms == created_at_ms,
        event.provider_type == ProviderType::Codex,
        event.key_id == key.key_id,
        event.key_name == key.key_name,
        event.account_name == Some(route.account_name),
        event.status_code == status,
        event.endpoint == prepared.original_path,
        event.mapped_model == prepared.model,
        prepared.client_visible_model is Some ==> event.model == prepared.client_visible_model,
        prepared.client_visible_model is None ==> event.model == prepared.model,
        usage.input_uncached_tokens <= i64::MAX ==> event.input_uncached_tokens
            == usage.input_uncached_tokens,
        usage.input_cached_tokens <= i64::MAX ==> event.input_cached_tokens
            == usage.input_cached_tokens,
        usage.output_tokens <= i64::MAX ==> event.output_tokens == usage.output_tokens,
        billable_tokens <= i64::MAX ==> event.billable_tokens == billable_tokens,
        event.usage_missing == usage.usage_missing,
        event.quota_failover_count == meta.quota_failover_count,
        event.error_message == meta.error_message,
        event.request_url == meta.request_url,
        meta.request_body_bytes is Some ==> event.request_body_bytes == meta.request_body_bytes,
{
}

/// The record of an error keeps the bodies that were captured; where the full request was
/// not, the client's body stands in for it.
pub proof fn law_an_error_records_the_bodies(
    event: UsageEvent,
    prepared: PreparedGatewayRequest,
    status: u16,
    route: ProviderCodexRoute,
    usage: UsageBreakdown,
    billable_tokens: u64,
    key: AuthenticatedKey,
    meta: ProviderUsageMetadata,
    created_at_ms: i64,
    now_ns: u128,
)
    requires
        !(200 <= status <= 299),
        is_codex_record(
            event,
            key,
            prepared,
            status,
            route,
            usage,
            billable_tokens,
            meta,
            created_at_ms,
            now_ns,
        ),
    ensures
        meta.client_request_body_json is Some ==> event.client_request_body_json is Some
            && event.full_request_json is Some,
        meta.upstream_request_body_json is Some ==> event.upstream_request_body_json is Some,
        meta.full_request_json is None ==> opt_text(event.full_request_json) == opt_text(
            event.client_request_body_json,
        ),
        opt_text(event.client_request_body_json) == body_text(meta.client_request_body_json),
        opt_text(event.upstream_request_body_json) == body_text(meta.upstream_request_body_json),
{
}

/// The record of a request that failed before any account was tried names no account and no
/// tokens.
pub proof fn law_a_preflight_record_costs_nothing(
    event: UsageEvent,
    facts: UsageFacts,
    endpoint: Seq<char>,
    model: Option<String>,
    status: u16,
    key: AuthenticatedKey,
    meta: ProviderUsageMetadata,
    created_at_ms: i64,
    now_ns: u128,
)
    requires
        codex_preflight_facts(facts, endpoint, model, status, meta),
        is_usage_event(event, facts, key, meta, created_at_ms, now_ns),
    ensures
        event.account_name is None,
        event.status_code == status,
        event.endpoint@ == endpoint,
        event.model == model,
        event.input_uncached_tokens == 0,
        event.input_cached_tokens == 0,
        event.output_tokens == 0,
        event.billable_tokens == 0,
        event.usage_missing,
        event.key_id == key.key_id,
        endpoint == "/v1/messages"@ ==> event.protocol_family == ProtocolFamily::Anthropic,
        endpoint == "/v1/responses"@ ==> event.protocol_family == ProtocolFamily::OpenAi,
{
    reveal_strlit("/v1/messages");
    reveal_strlit("/v1/messages?");
    reveal_strlit("/v1/responses");
    assert("/v1/messages"@.len() == 12 && "/v1/responses"@.len() == 13);
    assert("/v1/messages?"@.len() == 13);
    assert("/v1/responses"@[4] == 'r' && "/v1/messages?"@[4] == 'm');
}

} // verus!
