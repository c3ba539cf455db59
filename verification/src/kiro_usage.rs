//! What a Kiro request took, and its record.

use vstd::prelude::*;
use crate::errors::{is_success, status_is_success};
use crate::json::{empty_object, Json, JsonView};
use crate::text::{clone_opt, opt_text};
use crate::types::{AuthenticatedKey, ProtocolFamily, ProviderKiroRoute, ProviderType};
use crate::usage_event::{is_usage_event, usage_event, BodyDetail, UsageEvent, UsageFacts};
use crate::usage_meta::{clamp_u64_to_i64, clamped, elapsed_millis, ProviderUsageMetadata};

verus! {

/// The tokens and credits of a request. Credits stand as the text that is recorded.
pub struct KiroUsageSummary {
    pub input_uncached_tokens: i32,
    pub input_cached_tokens: i32,
    pub output_tokens: i32,
    pub credit_usage: Option<String>,
    pub credit_usage_missing: bool,
}

/// What is known of a finished request.
pub struct KiroUsageInputs {
    pub resolved_input_tokens: i32,
    pub output_tokens: i32,
    pub credit_usage: Option<String>,
    pub credit_usage_missing: bool,
    pub cache_estimation_enabled: bool,
}

pub open spec fn minus_i32(a: i32, b: i32) -> i32 {
    if a - b > i32::MAX {
        i32::MAX
    } else if a - b < i32::MIN {
        i32::MIN
    } else {
        (a - b) as i32
    }
}

fn saturating_minus(a: i32, b: i32) -> (result: i32)
    ensures
        result == minus_i32(a, b),
{
    let difference: i64 = a as i64 - b as i64;
    if difference > 2147483647 {
        i32::MAX
    } else if difference < -2147483648 {
        i32::MIN
    } else {
        difference as i32
    }
}

/// How the cached part of the input is estimated.
pub enum CacheEstimate {
    /// From the credits that were charged; the estimate is handed in.
    Formula { cached: i32 },
    /// From the part of the prompt that the prefix tree matched.
    PrefixTree { projected_tokens: u64, matched_tokens: u64, cap_basis_points: Option<u32> },
}

/// The cached part of an input.
pub open spec fn estimated_cached(input: i32, estimate: CacheEstimate) -> i32 {
    match estimate {
        CacheEstimate::Formula { cached } => cached,
        CacheEstimate::PrefixTree {
            projected_tokens,
            matched_tokens,
            cap_basis_points,
        } => prefix_cached(input, projected_tokens, matched_tokens, cap_basis_points) as i32,
    }
}

/// The input tokens of a request, split into cached and other ones where the estimation is
/// on.
pub open spec fn usage_summary(
    usage: KiroUsageInputs,
    authoritative: i32,
    estimate: CacheEstimate,
) -> KiroUsageSummary {
    let cached = estimated_cached(authoritative, estimate);
    KiroUsageSummary {
        input_uncached_tokens: if usage.cache_estimation_enabled {
            minus_i32(authoritative, cached)
        } else {
            usage.resolved_input_tokens
        },
        input_cached_tokens: if usage.cache_estimation_enabled {
            cached
        } else {
            0
        },
        output_tokens: usage.output_tokens,
        credit_usage: usage.credit_usage,
        credit_usage_missing: usage.credit_usage_missing,
    }
}

/// Sums up what a request took. `authoritative` is the input after the cost of filling the
/// cache; it counts only where the estimation is on.
pub fn build_kiro_usage_summary(
    usage: KiroUsageInputs,
    authoritative: i32,
    estimate: &CacheEstimate,
) -> (summary: KiroUsageSummary)
    ensures
        summary == usage_summary(usage, authoritative, *estimate),
{
    if !usage.cache_estimation_enabled {
        return KiroUsageSummary {
            input_uncached_tokens: usage.resolved_input_tokens,
            input_cached_tokens: 0,
            output_tokens: usage.output_tokens,
            credit_usage: usage.credit_usage,
            credit_usage_missing: usage.credit_usage_missing,
        };
    }
    let cached: i32 = match estimate {
        CacheEstimate::Formula { cached } => *cached,
        CacheEstimate::PrefixTree {
            projected_tokens,
            matched_tokens,
            cap_basis_points,
        } => estimate_prefix_cached_tokens(
            authoritative,
            *projected_tokens,
            *matched_tokens,
            *cap_basis_points,
        ),
    };
    KiroUsageSummary {
        input_uncached_tokens: saturating_minus(authoritative, cached),
        input_cached_tokens: cached,
        output_tokens: usage.output_tokens,
        credit_usage: usage.credit_usage,
        credit_usage_missing: usage.credit_usage_missing,
    }
}

pub open spec fn at_least_zero(value: i32) -> int {
    if value < 0 {
        0
    } else {
        value as int
    }
}

pub open spec fn smaller(a: int, b: int) -> int {
    if a < b {
        a
    } else {
        b
    }
}

/// The cached part of the input: the share of the prompt that the prefix tree matched, no
/// more than the cap in basis points allows.
pub open spec fn prefix_cached(
    input: i32,
    projected_tokens: u64,
    matched_tokens: u64,
    cap_basis_points: Option<u32>,
) -> int {
    let total = if projected_tokens == 0 {
        1
    } else {
        projected_tokens as int
    };
    let matched = smaller(matched_tokens as int, total);
    let share = at_least_zero(input) * matched / total;
    match cap_basis_points {
        Some(points) => smaller(
            share,
            smaller(at_least_zero(input) * points / 10_000, at_least_zero(input)),
        ),
        None => share,
    }
}

proof fn lemma_share(input: int, matched: int, total: int)
    requires
        0 <= input,
        0 <= matched <= total,
        0 < total,
    ensures
        0 <= input * matched / total <= input,
        0 <= input * matched <= input * total,
{
    assert(input * matched <= input * total) by (nonlinear_arith)
        requires
            0 <= input,
            0 <= matched <= total,
    ;
    assert(0 <= input * matched) by (nonlinear_arith)
        requires
            0 <= input,
            0 <= matched,
    ;
    assert(input * matched / total <= input) by (nonlinear_arith)
        requires
            0 <= input * matched <= input * total,
            0 < total,
    ;
    assert(0 <= input * matched / total) by (nonlinear_arith)
        requires
            0 <= input * matched,
            0 < total,
    ;
}

proof fn lemma_floor(value: int, total: int)
    requires
        0 < total,
    ensures
        value / total * total <= value < (value / total + 1) * total,
{
    assert(value / total * total <= value < (value / total + 1) * total) by (nonlinear_arith)
        requires
            0 < total,
    ;
}

pub fn estimate_prefix_cached_tokens(
    authoritative_input_tokens: i32,
    projected_tokens: u64,
    matched_tokens: u64,
    cap_basis_points: Option<u32>,
) -> (cached: i32)
    ensures
        cached == prefix_cached(
            authoritative_input_tokens,
            projected_tokens,
            matched_tokens,
            cap_basis_points,
        ),
{
    let input: u128 = if authoritative_input_tokens < 0 {
        0
    } else {
        authoritative_input_tokens as u128
    };
    let total: u128 = if projected_tokens == 0 {
        1
    } else {
        projected_tokens as u128
    };
    let matched: u128 = if matched_tokens as u128 > total {
        total
    } else {
        matched_tokens as u128
    };
    proof {
        lemma_share(input as int, matched as int, total as int);
        assert(input * total <= 0x7fff_ffff * 0xffff_ffff_ffff_ffff) by (nonlinear_arith)
            requires
                0 <= input <= 0x7fff_ffff,
                0 <= total <= 0xffff_ffff_ffff_ffff,
        ;
    }
    let share: u128 = (input * matched) / total;
    match cap_basis_points {
        None => share as i32,
        Some(points) => {
            assert(input * (points as u128) <= 0x7fff_ffff * 0xffff_ffff) by (nonlinear_arith)
                requires
                    0 <= input <= 0x7fff_ffff,
                    0 <= points <= 0xffff_ffff,
            ;
            let ratio: u128 = (input * points as u128) / 10_000;
            let cap: u128 = if ratio > input {
                input
            } else {
                ratio
            };
            if share < cap {
                share as i32
            } else {
                cap as i32
            }
        },
    }
}

/// The usage that an Anthropic client is told.
pub struct AnthropicUsage {
    pub input_tokens: i32,
    pub output_tokens: i32,
    pub cache_creation_input_tokens: i32,
    pub cache_read_input_tokens: i32,
}

/// The usage as it is told: the cached part is read from the cache; of the rest, half
/// fills the cache where nothing was read from it, else the share `by_ratio` that the
/// policy gives.
pub open spec fn told_usage(total: i32, output: i32, cache_read: i32, by_ratio: i32) -> AnthropicUsage {
    let all = at_least_zero(total);
    let read = smaller(at_least_zero(cache_read), all);
    let rest = all - read;
    let creation = if read == 0 {
        rest / 2
    } else {
        smaller(at_least_zero(by_ratio), rest)
    };
    AnthropicUsage {
        input_tokens: (rest - creation) as i32,
        output_tokens: at_least_zero(output) as i32,
        cache_creation_input_tokens: creation as i32,
        cache_read_input_tokens: read as i32,
    }
}

pub fn anthropic_usage_with_policy(total: i32, output: i32, cache_read: i32, by_ratio: i32) -> (usage:
    AnthropicUsage)
    ensures
        usage == told_usage(total, output, cache_read, by_ratio),
{
    let all: i32 = if total < 0 {
        0
    } else {
        total
    };
    let positive: i32 = if cache_read < 0 {
        0
    } else {
        cache_read
    };
    let read: i32 = if positive < all {
        positive
    } else {
        all
    };
    let rest: i32 = all - read;
    let creation: i32 = if read == 0 {
        rest / 2
    } else if by_ratio < 0 {
        0
    } else if by_ratio < rest {
        by_ratio
    } else {
        rest
    };
    AnthropicUsage {
        input_tokens: rest - creation,
        output_tokens: if output < 0 {
            0
        } else {
            output
        },
        cache_creation_input_tokens: creation,
        cache_read_input_tokens: read,
    }
}

/// A number that is not negative.
fn count_json(value: i32) -> (json: Json)
    requires
        value >= 0,
    ensures
        json@ == JsonView::Unsigned(value as u64),
{
    Json::Unsigned(value as u64)
}

pub open spec fn usage_json(usage: AnthropicUsage) -> JsonView {
    empty_object().with("input_tokens"@, JsonView::Unsigned(usage.input_tokens as u64)).with(
        "output_tokens"@,
        JsonView::Unsigned(usage.output_tokens as u64),
    ).with(
        "cache_creation_input_tokens"@,
        JsonView::Unsigned(usage.cache_creation_input_tokens as u64),
    ).with(
        "cache_read_input_tokens"@,
        JsonView::Unsigned(usage.cache_read_input_tokens as u64),
    )
}

pub fn anthropic_usage_json_with_policy(total: i32, output: i32, cache_read: i32, by_ratio: i32) -> (json:
    Json)
    ensures
        json@ == usage_json(told_usage(total, output, cache_read, by_ratio)),
{
    let usage = anthropic_usage_with_policy(total, output, cache_read, by_ratio);
    Json::new_object().with("input_tokens", count_json(usage.input_tokens)).with(
        "output_tokens",
        count_json(usage.output_tokens),
    ).with("cache_creation_input_tokens", count_json(usage.cache_creation_input_tokens)).with(
        "cache_read_input_tokens",
        count_json(usage.cache_read_input_tokens),
    )
}

/// The usage of a summary. The summary's input must fit the type together.
pub fn anthropic_usage_json_from_summary_with_policy(usage: &KiroUsageSummary, by_ratio: i32) -> (json:
    Json)
    requires
        i32::MIN <= usage.input_uncached_tokens + usage.input_cached_tokens <= i32::MAX,
    ensures
        json@ == usage_json(
            told_usage(
                (usage.input_uncached_tokens + usage.input_cached_tokens) as i32,
                usage.output_tokens,
                usage.input_cached_tokens,
                by_ratio,
            ),
        ),
{
    anthropic_usage_json_with_policy(
        usage.input_uncached_tokens + usage.input_cached_tokens,
        usage.output_tokens,
        usage.input_cached_tokens,
        by_ratio,
    )
}

pub open spec fn zero_usage() -> KiroUsageSummary {
    KiroUsageSummary {
        input_uncached_tokens: 0,
        input_cached_tokens: 0,
        output_tokens: 0,
        credit_usage: None,
        credit_usage_missing: false,
    }
}

pub fn zero_kiro_usage_summary() -> (usage: KiroUsageSummary)
    ensures
        usage == zero_usage(),
{
    KiroUsageSummary {
        input_uncached_tokens: 0,
        input_cached_tokens: 0,
        output_tokens: 0,
        credit_usage: None,
        credit_usage_missing: false,
    }
}

/// The counts that are billed: uncached and cached input, then output.
pub fn kiro_billable_tokens(usage: &KiroUsageSummary) -> (counts: (u64, u64, u64))
    ensures
        counts.0 == at_least_zero(usage.input_uncached_tokens),
        counts.1 == at_least_zero(usage.input_cached_tokens),
        counts.2 == at_least_zero(usage.output_tokens),
{
    (
        positive_count(usage.input_uncached_tokens) as u64,
        positive_count(usage.input_cached_tokens) as u64,
        positive_count(usage.output_tokens) as u64,
    )
}

fn positive_count(value: i32) -> (result: i64)
    ensures
        result == at_least_zero(value),
{
    if value < 0 {
        0
    } else {
        value as i64
    }
}

// ---------------------------------------------------------------------------
// Records
// ---------------------------------------------------------------------------

/// Whether the bodies of a request go into its record: those of errors, and of successes
/// where the route asks for it.
pub open spec fn records_details(route: ProviderKiroRoute, status: u16, cached_tokens: i32) -> bool {
    ||| status >= 400
    ||| route.full_request_logging_enabled
    ||| route.zero_cache_debug_enabled && is_success(status) && cached_tokens <= 0
}

pub open spec fn detail_of(complete: bool) -> BodyDetail {
    if complete {
        BodyDetail::Complete
    } else {
        BodyDetail::Nothing
    }
}

pub open spec fn without_credits(usage: KiroUsageSummary) -> KiroUsageSummary {
    KiroUsageSummary { credit_usage: None, ..usage }
}

/// Which bodies the record of a web search holds: all of them where the call failed or the
/// route asks for it.
pub open spec fn search_detail(capture_request_details: bool, status: u16) -> BodyDetail {
    detail_of(capture_request_details || !is_success(status))
}

/// The facts of a Kiro request. `credit_usage` is the text that is recorded.
pub open spec fn kiro_facts(
    facts: UsageFacts,
    route: ProviderKiroRoute,
    endpoint: Seq<char>,
    model: Seq<char>,
    status: u16,
    usage: KiroUsageSummary,
    billable_tokens: u64,
    credit_usage_missing: bool,
    detail: BodyDetail,
    meta: ProviderUsageMetadata,
) -> bool {
    &&& facts == (UsageFacts {
        provider_type: ProviderType::Kiro,
        protocol_family: ProtocolFamily::Anthropic,
        account_name: Some(route.account_name),
        account_group_id_at_event: route.account_group_id_at_event,
        route_strategy_at_event: Some(route.route_strategy_at_event),
        endpoint: facts.endpoint,
        model: facts.model,
        mapped_model: None,
        status,
        request_body_bytes: meta.request_body_bytes,
        input_uncached_tokens: at_least_zero(usage.input_uncached_tokens) as i64,
        input_cached_tokens: at_least_zero(usage.input_cached_tokens) as i64,
        output_tokens: at_least_zero(usage.output_tokens) as i64,
        billable_tokens: clamped(billable_tokens as int),
        credit_usage: usage.credit_usage,
        usage_missing: false,
        credit_usage_missing,
        detail,
    })
    &&& facts.endpoint@ == endpoint
    &&& opt_text(facts.model) == Some(model)
}

/// The record of a Kiro request that an account served.
pub open spec fn is_kiro_record(
    event: UsageEvent,
    key: AuthenticatedKey,
    route: ProviderKiroRoute,
    endpoint: Seq<char>,
    model: Seq<char>,
    status: u16,
    usage: KiroUsageSummary,
    billable_tokens: u64,
    meta: ProviderUsageMetadata,
    created_at_ms: i64,
    now_ns: u128,
) -> bool {
    exists|facts: UsageFacts| #[trigger]
        kiro_facts(
            facts,
            route,
            endpoint,
            model,
            status,
            usage,
            billable_tokens,
            usage.credit_usage_missing,
            detail_of(records_details(route, status, usage.input_cached_tokens)),
            meta,
        ) && is_usage_event(event, facts, key, meta, created_at_ms, now_ns)
}

fn make_kiro_facts(
    route: &ProviderKiroRoute,
    endpoint: &str,
    model: &str,
    status: u16,
    usage: &KiroUsageSummary,
    billable_tokens: u64,
    credit_usage_missing: bool,
    detail: BodyDetail,
    meta: &ProviderUsageMetadata,
) -> (facts: UsageFacts)
    ensures
        kiro_facts(
            facts,
            *route,
            endpoint@,
            model@,
            status,
            *usage,
            billable_tokens,
            credit_usage_missing,
            detail,
            *meta,
        ),
{
    UsageFacts {
        provider_type: ProviderType::Kiro,
        protocol_family: ProtocolFamily::Anthropic,
        account_name: Some(route.account_name.clone()),
        account_group_id_at_event: clone_opt(&route.account_group_id_at_event),
        route_strategy_at_event: Some(route.route_strategy_at_event),
        endpoint: endpoint.to_owned(),
        model: Some(model.to_owned()),
        mapped_model: None,
        status,
        request_body_bytes: meta.request_body_bytes,
        input_uncached_tokens: positive_count(usage.input_uncached_tokens),
        input_cached_tokens: positive_count(usage.input_cached_tokens),
        output_tokens: positive_count(usage.output_tokens),
        billable_tokens: clamp_u64_to_i64(billable_tokens),
        credit_usage: clone_opt(&usage.credit_usage),
        usage_missing: false,
        credit_usage_missing,
        detail,
    }
}

pub fn record_kiro_usage(
    key: &AuthenticatedKey,
    route: &ProviderKiroRoute,
    endpoint: &str,
    model: &str,
    status: u16,
    usage: &KiroUsageSummary,
    billable_tokens: u64,
    meta: &ProviderUsageMetadata,
    created_at_ms: i64,
    now_ns: u128,
) -> (event: UsageEvent)
    ensures
        is_kiro_record(
            event,
            *key,
            *route,
            endpoint@,
            model@,
            status,
            *usage,
            billable_tokens,
            *meta,
            created_at_ms,
            now_ns,
        ),
{
    let complete = status >= 400 || route.full_request_logging_enabled || (
    route.zero_cache_debug_enabled && status_is_success(status) && usage.input_cached_tokens <= 0);
    let detail = if complete {
        BodyDetail::Complete
    } else {
        BodyDetail::Nothing
    };
    let facts = make_kiro_facts(
        route,
        endpoint,
        model,
        status,
        usage,
        billable_tokens,
        usage.credit_usage_missing,
        detail,
        meta,
    );
    usage_event(facts, key, meta, created_at_ms, now_ns)
}

/// The record of a Kiro request that failed before any call; the request ends with it.
pub fn record_kiro_preflight_failure(
    key: &AuthenticatedKey,
    route: &ProviderKiroRoute,
    endpoint: &str,
    model: &str,
    status: u16,
    billable_tokens: u64,
    meta: &mut ProviderUsageMetadata,
    created_at_ms: i64,
    now_ns: u128,
) -> (event: UsageEvent)
    ensures
        *final(meta) == (ProviderUsageMetadata {
            stream_finish_ms: Some(elapsed_millis(old(meta).started_at_ns, now_ns)),
            ..*old(meta)
        }),
        is_kiro_record(
            event,
            *key,
            *route,
            endpoint@,
            model@,
            status,
            zero_usage(),
            billable_tokens,
            *final(meta),
            created_at_ms,
            now_ns,
        ),
{
    meta.mark_stream_finish(now_ns);
    let usage = zero_kiro_usage_summary();
    record_kiro_usage(
        key,
        route,
        endpoint,
        model,
        status,
        &usage,
        billable_tokens,
        meta,
        created_at_ms,
        now_ns,
    )
}

/// The record of a web search: no credits are known of one.
pub fn record_kiro_websearch_usage(
    key: &AuthenticatedKey,
    route: &ProviderKiroRoute,
    model: &str,
    status: u16,
    usage: &KiroUsageSummary,
    billable_tokens: u64,
    capture_request_details: bool,
    meta: &ProviderUsageMetadata,
    created_at_ms: i64,
    now_ns: u128,
) -> (event: UsageEvent)
    ensures
        exists|facts: UsageFacts| #[trigger]
            kiro_facts(
                facts,
                *route,
                "/mcp"@,
                model@,
                status,
                without_credits(*usage),
                billable_tokens,
                true,
                search_detail(capture_request_details, status),
                *meta,
            ) && is_usage_event(event, facts, *key, *meta, created_at_ms, now_ns),
{
    let usage = KiroUsageSummary {
        input_uncached_tokens: usage.input_uncached_tokens,
        input_cached_tokens: usage.input_cached_tokens,
        output_tokens: usage.output_tokens,
        credit_usage: None,
        credit_usage_missing: usage.credit_usage_missing,
    };
    let detail = if capture_request_details || !status_is_success(status) {
        BodyDetail::Complete
    } else {
        BodyDetail::Nothing
    };
    let facts = make_kiro_facts(
        route,
        "/mcp",
        model,
        status,
        &usage,
        billable_tokens,
        true,
        detail,
        meta,
    );
    usage_event(facts, key, meta, created_at_ms, now_ns)
}

// ---------------------------------------------------------------------------
// Laws
// ---------------------------------------------------------------------------

/// What the client is told adds up to the input, and no part is negative.
pub proof fn law_told_usage_adds_up(total: i32, output: i32, cache_read: i32, by_ratio: i32)
    requires
        total >= 0,
    ensures
        ({
            let usage = told_usage(total, output, cache_read, by_ratio);
            &&& usage.input_tokens + usage.cache_creation_input_tokens
                + usage.cache_read_input_tokens == total
            &&& usage.input_tokens >= 0
            &&& usage.cache_creation_input_tokens >= 0
            &&& usage.cache_read_input_tokens >= 0
            &&& usage.output_tokens >= 0
        }),
{
}

/// An estimate is sound where what is handed in lies within the input. What the prefix tree
/// matched is brought there in any case.
pub open spec fn is_sound(estimate: CacheEstimate, input: i32) -> bool {
    estimate matches CacheEstimate::Formula { cached } ==> 0 <= cached <= at_least_zero(input)
}

/// The cached part of a summary lies within the input, and together with the rest it makes
/// up the input, for every sound estimate.
pub proof fn law_summary_keeps_the_input(
    usage: KiroUsageInputs,
    authoritative: i32,
    estimate: CacheEstimate,
)
    requires
        is_sound(estimate, authoritative),
    ensures
        ({
            let summary = usage_summary(usage, authoritative, estimate);
            let input = if usage.cache_estimation_enabled {
                authoritative
            } else {
                usage.resolved_input_tokens
            };
            &&& summary.input_uncached_tokens + summary.input_cached_tokens == input
            &&& 0 <= summary.input_cached_tokens <= at_least_zero(input)
        }),
{
    if let CacheEstimate::PrefixTree { projected_tokens, matched_tokens, cap_basis_points } =
        estimate {
        law_prefix_cached_is_bounded(
            authoritative,
            projected_tokens,
            matched_tokens,
            cap_basis_points,
        );
    }
}

/// No more is taken for cached than there is input.
pub proof fn law_prefix_cached_is_bounded(
    input: i32,
    projected_tokens: u64,
    matched_tokens: u64,
    cap_basis_points: Option<u32>,
)
    ensures
        0 <= prefix_cached(input, projected_tokens, matched_tokens, cap_basis_points)
            <= at_least_zero(input),
{
    let total = if projected_tokens == 0 {
        1
    } else {
        projected_tokens as int
    };
    lemma_share(at_least_zero(input), smaller(matched_tokens as int, total), total);
    if let Some(points) = cap_basis_points {
        assert(0 <= at_least_zero(input) * points / 10_000) by (nonlinear_arith)
            requires
                0 <= at_least_zero(input),
                0 <= points,
        ;
    }
}

/// The cached part is at most the matched share of the input, with or without a cap:
/// nothing matched means nothing cached, and a prompt that matched in full is cached in
/// full at most. Without a cap the share is told in full, up to the rounding of one token.
pub proof fn law_cached_is_at_most_the_matched_share(
    input: i32,
    projected_tokens: u64,
    matched_tokens: u64,
    cap_basis_points: Option<u32>,
)
    ensures
        ({
            let cached = prefix_cached(input, projected_tokens, matched_tokens, cap_basis_points);
            &&& matched_tokens == 0 || input <= 0 ==> cached == 0
            &&& input >= 0 ==> cached <= input
            &&& input >= 0 && 0 < projected_tokens && matched_tokens <= projected_tokens ==> cached
                * projected_tokens <= input * matched_tokens
            &&& input >= 0 && 0 < projected_tokens && matched_tokens <= projected_tokens
                && cap_basis_points is None ==> input * matched_tokens < (cached + 1)
                * projected_tokens
            &&& input >= 0 && 0 < matched_tokens && matched_tokens >= projected_tokens
                && cap_basis_points is None ==> cached == input
        }),
{
    law_prefix_cached_is_bounded(input, projected_tokens, matched_tokens, cap_basis_points);
    let all = at_least_zero(input);
    let total = if projected_tokens == 0 {
        1
    } else {
        projected_tokens as int
    };
    let matched = smaller(matched_tokens as int, total);
    let share = all * matched / total;
    lemma_share(all, matched, total);
    lemma_floor(all * matched, total);
    let cached = prefix_cached(input, projected_tokens, matched_tokens, cap_basis_points);
    assert(0 <= cached <= share);
    assert(cached * total <= share * total) by (nonlinear_arith)
        requires
            cached <= share,
            0 < total,
    ;
    assert(all * 0 == 0) by (nonlinear_arith);
    assert(0int / total == 0) by (nonlinear_arith)
        requires
            0 < total,
    ;
    assert(0 * matched == 0) by (nonlinear_arith);
    assert(all * total / total == all) by (nonlinear_arith)
        requires
            0 < total,
    ;
}

/// A cap can only lower the cached part, and it lowers it no further than to itself: the
/// result is the uncapped part, or the cap's share of the input.
pub proof fn law_a_cap_only_lowers_the_cached_part(
    input: i32,
    projected_tokens: u64,
    matched_tokens: u64,
    points: u32,
)
    requires
        input >= 0,
    ensures
        ({
            let capped = prefix_cached(input, projected_tokens, matched_tokens, Some(points));
            let uncapped = prefix_cached(input, projected_tokens, matched_tokens, None);
            &&& capped <= uncapped
            &&& capped * 10_000 <= input * points
            &&& capped < uncapped ==> input * points < (capped + 1) * 10_000
            &&& points >= 10_000 ==> capped == uncapped
        }),
{
    law_prefix_cached_is_bounded(input, projected_tokens, matched_tokens, None);
    lemma_floor(input * points, 10_000);
    if points >= 10_000 {
        assert(input * 10_000 <= input * points) by (nonlinear_arith)
            requires
                input >= 0,
                points >= 10_000,
        ;
    }
}

/// The more of the prompt matched, the more is cached.
pub proof fn law_more_matched_is_more_cached(
    input: i32,
    projected_tokens: u64,
    fewer: u64,
    more: u64,
    cap_basis_points: Option<u32>,
)
    requires
        fewer <= more,
    ensures
        prefix_cached(input, projected_tokens, fewer, cap_basis_points) <= prefix_cached(
            input,
            projected_tokens,
            more,
            cap_basis_points,
        ),
{
    let all = at_least_zero(input);
    let total = if projected_tokens == 0 {
        1
    } else {
        projected_tokens as int
    };
    let a = smaller(fewer as int, total);
    let b = smaller(more as int, total);
    assert(all * a / total <= all * b / total) by (nonlinear_arith)
        requires
            0 <= all,
            0 <= a <= b,
            0 < total,
    ;
}

/// What the client is told of an input that is not negative: no more is read from the cache
/// than was cached, nor than there is input; where nothing was read, half of the input
/// fills the cache, rounded down; where something was, what fills it is no more than the
/// policy's share.
pub proof fn law_told_cache_read_is_the_cached_part(
    total: i32,
    output: i32,
    cache_read: i32,
    by_ratio: i32,
)
    requires
        total >= 0,
    ensures
        ({
            let usage = told_usage(total, output, cache_read, by_ratio);
            &&& 0 <= cache_read <= total ==> usage.cache_read_input_tokens == cache_read
            &&& cache_read > total ==> usage.cache_read_input_tokens == total
            &&& cache_read <= 0 ==> usage.cache_read_input_tokens == 0
            &&& cache_read <= 0 ==> usage.cache_creation_input_tokens * 2 <= total
                <= usage.cache_creation_input_tokens * 2 + 1
            &&& 0 < cache_read <= total && total > 0 && 0 <= by_ratio <= total - cache_read
                ==> usage.cache_creation_input_tokens == by_ratio
            &&& 0 < cache_read <= total && by_ratio > total - cache_read
                ==> usage.input_tokens == 0
            &&& 0 < cache_read <= total && by_ratio <= 0 ==> usage.cache_creation_input_tokens == 0
            &&& output >= 0 ==> usage.output_tokens == output
            &&& output < 0 ==> usage.output_tokens == 0
        }),
{
}

/// Where the estimation is off, the input is told as it was resolved and nothing counts as
/// cached. Where it is on, what the prefix tree matched is the cached part. The output and
/// the credits stay as they are.
pub proof fn law_summary_follows_the_estimation_switch(
    usage: KiroUsageInputs,
    authoritative: i32,
    projected_tokens: u64,
    matched_tokens: u64,
    cap_basis_points: Option<u32>,
)
    ensures
        ({
            let summary = usage_summary(
                usage,
                authoritative,
                CacheEstimate::PrefixTree { projected_tokens, matched_tokens, cap_basis_points },
            );
            &&& summary.output_tokens == usage.output_tokens
            &&& summary.credit_usage == usage.credit_usage
            &&& summary.credit_usage_missing == usage.credit_usage_missing
            &&& !usage.cache_estimation_enabled ==> summary.input_cached_tokens == 0
                && summary.input_uncached_tokens == usage.resolved_input_tokens
            &&& matched_tokens == 0 ==> summary.input_cached_tokens == 0
            &&& usage.cache_estimation_enabled && authoritative >= 0 && 0 < projected_tokens
                && matched_tokens <= projected_tokens ==> summary.input_cached_tokens
                * projected_tokens <= authoritative * matched_tokens
            &&& usage.cache_estimation_enabled && authoritative >= 0 && 0 < matched_tokens
                && matched_tokens >= projected_tokens && cap_basis_points is None
                ==> summary.input_uncached_tokens == 0
        }),
{
    law_prefix_cached_is_bounded(authoritative, projected_tokens, matched_tokens, cap_basis_points);
    law_cached_is_at_most_the_matched_share(
        authoritative,
        projected_tokens,
        matched_tokens,
        cap_basis_points,
    );
}

/// The record of a request tells who asked, which account answered, with what status, and
/// what it took; a count below zero is recorded as zero.
pub proof fn law_a_kiro_record_tells_what_was_taken(
    event: UsageEvent,
    key: AuthenticatedKey,
    route: ProviderKiroRoute,
    endpoint: Seq<char>,
    model: Seq<char>,
    status: u16,
    usage: KiroUsageSummary,
    billable_tokens: u64,
    meta: ProviderUsageMetadata,
    created_at_ms: i64,
    now_ns: u128,
)
    requires
        is_kiro_record(
            event,
            key,
            route,
            endpoint,
            model,
            status,
            usage,
            billable_tokens,
            meta,
            created_at_ms,
            now_ns,
        ),
    ensures
        event.created_at_ms == created_at_ms,
        event.provider_type == ProviderType::Kiro,
        event.key_id == key.key_id,
        event.account_name == Some(route.account_name),
        event.status_code == status,
        event.endpoint@ == endpoint,
        opt_text(event.model) == Some(model),
        usage.input_uncached_tokens >= 0 ==> event.input_uncached_tokens
            == usage.input_uncached_tokens,
        usage.input_cached_tokens >= 0 ==> event.input_cached_tokens == usage.input_cached_tokens,
        usage.output_tokens >= 0 ==> event.output_tokens == usage.output_tokens,
        usage.output_tokens < 0 ==> event.output_tokens == 0,
        billable_tokens <= i64::MAX ==> event.billable_tokens == billable_tokens,
        event.credit_usage == usage.credit_usage,
        event.credit_usage_missing == usage.credit_usage_missing,
        !event.usage_missing,
        event.quota_failover_count == meta.quota_failover_count,
        status >= 400 || route.full_request_logging_enabled || (route.zero_cache_debug_enabled
            && 200 <= status <= 299 && usage.input_cached_tokens <= 0) ==> opt_text(
            event.client_request_body_json,
        ) == crate::usage_meta::body_text(meta.client_request_body_json),
        200 <= status <= 299 && !route.full_request_logging_enabled
            && !route.zero_cache_debug_enabled ==> event.client_request_body_json is None,
{
}

/// The usage that a client is told holds each count under its name.
pub proof fn law_told_usage_is_written_by_name(usage: AnthropicUsage)
    requires
        usage.input_tokens >= 0,
        usage.output_tokens >= 0,
        usage.cache_creation_input_tokens >= 0,
        usage.cache_read_input_tokens >= 0,
    ensures
        usage_json(usage).get("input_tokens"@) == Some(
            JsonView::Unsigned(usage.input_tokens as u64),
        ),
        usage_json(usage).get("output_tokens"@) == Some(
            JsonView::Unsigned(usage.output_tokens as u64),
        ),
        usage_json(usage).get("cache_creation_input_tokens"@) == Some(
            JsonView::Unsigned(usage.cache_creation_input_tokens as u64),
        ),
        usage_json(usage).get("cache_read_input_tokens"@) == Some(
            JsonView::Unsigned(usage.cache_read_input_tokens as u64),
        ),
{
    reveal_strlit("input_tokens");
    reveal_strlit("output_tokens");
    reveal_strlit("cache_creation_input_tokens");
    reveal_strlit("cache_read_input_tokens");
    assert("input_tokens"@.len() == 12);
    assert("output_tokens"@.len() == 13);
    assert("cache_creation_input_tokens"@.len() == 27);
    assert("cache_read_input_tokens"@.len() == 23);
}

/// The same of the function that estimates it, whatever the cap: no more than the matched
/// share of the input, and nothing where nothing matched.
pub proof fn law_the_estimate_is_at_most_the_matched_share(
    input: i32,
    projected_tokens: u64,
    matched_tokens: u64,
    cap_basis_points: Option<u32>,
    cached: i32,
)
    requires
        call_ensures(
            estimate_prefix_cached_tokens,
            (input, projected_tokens, matched_tokens, cap_basis_points),
            cached,
        ),
    ensures
        matched_tokens == 0 || input <= 0 ==> cached == 0,
        0 <= cached,
        input >= 0 ==> cached <= input,
        input >= 0 && 0 < projected_tokens && matched_tokens <= projected_tokens ==> cached
            * projected_tokens <= input * matched_tokens,
        input >= 0 ==> (cap_basis_points matches Some(points) ==> cached * 10_000 <= input * points),
        input >= 0 && cap_basis_points is None && 0 < projected_tokens && matched_tokens
            <= projected_tokens ==> input * matched_tokens < (cached + 1) * projected_tokens,
{
    law_prefix_cached_is_bounded(input, projected_tokens, matched_tokens, cap_basis_points);
    law_cached_is_at_most_the_matched_share(
        input,
        projected_tokens,
        matched_tokens,
        cap_basis_points,
    );
    if input >= 0 {
        if let Some(points) = cap_basis_points {
            law_a_cap_only_lowers_the_cached_part(input, projected_tokens, matched_tokens, points);
        }
    }
}

} // verus!
