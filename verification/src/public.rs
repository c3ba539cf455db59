//! What the public may ask without a login.

use vstd::prelude::*;
use crate::headers::{has_header, has_name, header_value, Headers};
use crate::kiro_model::pair_views;
use crate::order::{lemma_text_order, text_before, text_less};
use crate::support::LlmAccessSupportConfig;
use crate::text::{concat2, concat3, decimal, decimal_of, decimal_of_signed, decimal_signed,
    nonempty_trim, opt_text, same_text, texts, trim, trim_end_char, trimmed_nonempty,
    without_trailing};

verus! {

/// The most contributions that are shown.
pub const MAX_PUBLIC_ACCOUNT_CONTRIBUTIONS: usize = 24;

/// The most sponsors that are shown.
pub const MAX_PUBLIC_SPONSORS: usize = 36;

pub const PUBLIC_USAGE_LOOKUP_DEFAULT_LIMIT: usize = 20;

pub const PUBLIC_USAGE_LOOKUP_MAX_LIMIT: usize = 20;

/// How many bars the chart of a key has.
pub const PUBLIC_USAGE_LOOKUP_CHART_BUCKETS: u64 = 24;

/// The milliseconds of one bar.
pub const PUBLIC_USAGE_LOOKUP_BUCKET_MS: i64 = 3600000;

/// Where the chart of a key is asked for.
pub const USAGE_CHART_PATH: &'static str = "/admin/llm-access/usage/chart";

/// Where a page of the events of a key is asked for.
pub const USAGE_PAGE_PATH: &'static str = "/admin/llm-gateway/usage";

/// How long the public page may be kept.
pub const PUBLIC_PAGE_CACHE_CONTROL: &'static str = "public, max-age=10, stale-while-revalidate=30";

// ---------------------------------------------------------------------------
// Times
// ---------------------------------------------------------------------------

/// The start of the chart that ends with the bar of a moment.
pub open spec fn chart_start(now_ms: i64) -> int {
    let start = now_ms as int / PUBLIC_USAGE_LOOKUP_BUCKET_MS as int
        * PUBLIC_USAGE_LOOKUP_BUCKET_MS - 23 * PUBLIC_USAGE_LOOKUP_BUCKET_MS;
    if start < i64::MIN {
        i64::MIN as int
    } else {
        start
    }
}

/// The bar of a moment must start at a time that can be told.
pub fn public_usage_chart_window_start(now_ms: i64) -> (start: i64)
    requires
        now_ms as int / PUBLIC_USAGE_LOOKUP_BUCKET_MS as int * PUBLIC_USAGE_LOOKUP_BUCKET_MS
            >= i64::MIN,
    ensures
        start == chart_start(now_ms),
{
    let bucket: i64 = PUBLIC_USAGE_LOOKUP_BUCKET_MS;
    let current: i64 = if now_ms >= 0 {
        let within: i64 = now_ms % bucket;
        proof {
            vstd::arithmetic::div_mod::lemma_fundamental_div_mod(now_ms as int, bucket as int);
        }
        now_ms - within
    } else {
        let before: i64 = -(now_ms + 1);
        let within: i64 = before % bucket;
        proof {
            vstd::arithmetic::div_mod::lemma_fundamental_div_mod(before as int, bucket as int);
            let q = before as int / bucket as int;
            let rest = bucket - 1 - within;
            assert(now_ms == bucket * (-q - 1) + rest) by (nonlinear_arith)
                requires
                    before == -(now_ms + 1),
                    before == bucket * q + within,
                    rest == bucket - 1 - within,
            ;
            vstd::arithmetic::div_mod::lemma_fundamental_div_mod_converse(
                now_ms as int,
                bucket as int,
                -q - 1,
                rest,
            );
        }
        now_ms - (bucket - 1 - within)
    };
    if current < i64::MIN + 23 * PUBLIC_USAGE_LOOKUP_BUCKET_MS {
        i64::MIN
    } else {
        current - 23 * PUBLIC_USAGE_LOOKUP_BUCKET_MS
    }
}

/// A bound that counts: later than the epoch.
pub open spec fn bound(value: Option<i64>) -> Option<i64> {
    match value {
        Some(ms) => if ms > 0 {
            Some(ms)
        } else {
            None
        },
        None => None,
    }
}

/// The range of a question: a range that ends before it starts ends right after its start.
pub open spec fn time_range(start_ms: Option<i64>, end_ms: Option<i64>) -> (
    Option<i64>,
    Option<i64>,
) {
    match (bound(start_ms), bound(end_ms)) {
        (Some(start), Some(end)) => if start >= end {
            (
                Some(start),
                Some(
                    if start == i64::MAX {
                        i64::MAX
                    } else {
                        (start + 1) as i64
                    },
                ),
            )
        } else {
            (Some(start), Some(end))
        },
        other => other,
    }
}

pub fn normalize_usage_time_range(start_ms: Option<i64>, end_ms: Option<i64>) -> (range: (
    Option<i64>,
    Option<i64>,
))
    ensures
        range == time_range(start_ms, end_ms),
{
    let start: Option<i64> = match start_ms {
        Some(ms) => if ms > 0 {
            Some(ms)
        } else {
            None
        },
        None => None,
    };
    let end: Option<i64> = match end_ms {
        Some(ms) => if ms > 0 {
            Some(ms)
        } else {
            None
        },
        None => None,
    };
    match (start, end) {
        (Some(a), Some(b)) => if a >= b {
            (
                Some(a),
                Some(
                    if a == i64::MAX {
                        i64::MAX
                    } else {
                        a + 1
                    },
                ),
            )
        } else {
            (Some(a), Some(b))
        },
        other => other,
    }
}

// ---------------------------------------------------------------------------
// Questions about the usage of a key
// ---------------------------------------------------------------------------

/// A question about the usage of a key.
pub struct PublicLlmGatewayUsageLookupRequest {
    pub api_key: String,
    pub limit: Option<usize>,
    pub offset: Option<usize>,
    pub start_ms: Option<i64>,
    pub end_ms: Option<i64>,
}

/// An answer that says what went wrong.
#[derive(Debug, Clone, Copy, PartialEq, Eq)]
pub struct PublicError {
    pub status: u16,
    pub message: &'static str,
}

pub open spec fn is_error(error: PublicError, status: u16, message: Seq<char>) -> bool {
    error.status == status && error.message@ == message
}

/// The key of a question; there must be one.
pub fn presented_key(api_key: &str) -> (result: Result<String, PublicError>)
    ensures
        match result {
            Ok(key) => nonempty_trim(api_key@) == Some(key@),
            Err(error) => nonempty_trim(api_key@) is None && is_error(
                error,
                400,
                "api_key is required"@,
            ),
        },
{
    match trimmed_nonempty(api_key) {
        Some(key) => Ok(key),
        None => Err(PublicError { status: 400, message: "api_key is required" }),
    }
}

/// What the store knows of a key.
pub enum FoundKey<'a> {
    /// Its status.
    Status(&'a str),
    Nothing,
    /// The store could not tell.
    Failed,
}

/// What is wrong with a key that was found, if anything.
pub open spec fn key_error(found: FoundKey) -> Option<(u16, Seq<char>)> {
    match found {
        FoundKey::Status(status) => if status@ == "active"@ {
            None
        } else {
            Some((404, "queryable key not found"@))
        },
        FoundKey::Nothing => Some((404, "queryable key not found"@)),
        FoundKey::Failed => Some((500, "public usage store error"@)),
    }
}

/// Only an active key may be asked about; to the public any other is none.
pub fn check_lookup_key(found: &FoundKey) -> (result: Result<(), PublicError>)
    ensures
        match result {
            Ok(_) => key_error(*found) is None,
            Err(error) => key_error(*found) == Some((error.status, error.message@)),
        },
{
    match found {
        FoundKey::Status(status) => if same_text(status, "active") {
            Ok(())
        } else {
            Err(PublicError { status: 404, message: "queryable key not found" })
        },
        FoundKey::Nothing => Err(PublicError { status: 404, message: "queryable key not found" }),
        FoundKey::Failed => Err(PublicError { status: 500, message: "public usage store error" }),
    }
}

/// How many events are shown: at least one.
pub open spec fn shown_limit(limit: Option<usize>) -> usize {
    match limit {
        Some(limit) => if limit < 1 {
            1
        } else if limit > PUBLIC_USAGE_LOOKUP_MAX_LIMIT {
            PUBLIC_USAGE_LOOKUP_MAX_LIMIT
        } else {
            limit
        },
        None => PUBLIC_USAGE_LOOKUP_DEFAULT_LIMIT,
    }
}

fn limit_of(limit: Option<usize>) -> (result: usize)
    ensures
        result == shown_limit(limit),
{
    match limit {
        Some(limit) => if limit < 1 {
            1
        } else if limit > PUBLIC_USAGE_LOOKUP_MAX_LIMIT {
            PUBLIC_USAGE_LOOKUP_MAX_LIMIT
        } else {
            limit
        },
        None => PUBLIC_USAGE_LOOKUP_DEFAULT_LIMIT,
    }
}

pub open spec fn chart_params(key_id: Seq<char>, start: int) -> Seq<(Seq<char>, Seq<char>)> {
    seq![
        ("key_id"@, key_id),
        ("start_ms"@, decimal_signed(start)),
        ("bucket_ms"@, decimal_signed(PUBLIC_USAGE_LOOKUP_BUCKET_MS as int)),
        ("bucket_count"@, decimal(PUBLIC_USAGE_LOOKUP_CHART_BUCKETS as nat)),
    ]
}

/// The question for the chart of a key.
pub fn usage_chart_params(key_id: &str, now_ms: i64) -> (params: Vec<(String, String)>)
    requires
        now_ms as int / PUBLIC_USAGE_LOOKUP_BUCKET_MS as int * PUBLIC_USAGE_LOOKUP_BUCKET_MS
            >= i64::MIN,
    ensures
        pair_views(params@) == chart_params(key_id@, chart_start(now_ms)),
{
    let start: i64 = public_usage_chart_window_start(now_ms);
    let mut params: Vec<(String, String)> = Vec::new();
    params.push(("key_id".to_owned(), key_id.to_owned()));
    params.push(("start_ms".to_owned(), decimal_of_signed(start)));
    params.push(("bucket_ms".to_owned(), decimal_of_signed(PUBLIC_USAGE_LOOKUP_BUCKET_MS)));
    params.push(("bucket_count".to_owned(), decimal_of(PUBLIC_USAGE_LOOKUP_CHART_BUCKETS)));
    assert(pair_views(params@) =~= chart_params(key_id@, chart_start(now_ms)));
    params
}

pub open spec fn with_bound(
    params: Seq<(Seq<char>, Seq<char>)>,
    name: Seq<char>,
    value: Option<i64>,
) -> Seq<(Seq<char>, Seq<char>)> {
    match value {
        Some(ms) => params.push((name, decimal_signed(ms as int))),
        None => params,
    }
}

pub open spec fn page_params(
    key_id: Seq<char>,
    request: PublicLlmGatewayUsageLookupRequest,
) -> Seq<(Seq<char>, Seq<char>)> {
    let range = time_range(request.start_ms, request.end_ms);
    let offset = match request.offset {
        Some(offset) => offset,
        None => 0,
    };
    with_bound(
        with_bound(
            seq![
                ("key_id"@, key_id),
                ("source"@, "all"@),
                ("limit"@, decimal(shown_limit(request.limit) as nat)),
                ("offset"@, decimal(offset as nat)),
            ],
            "start_ms"@,
            range.0,
        ),
        "end_ms"@,
        range.1,
    )
}

/// The question for a page of the events of a key.
pub fn usage_page_params(key_id: &str, request: &PublicLlmGatewayUsageLookupRequest) -> (params: Vec<
    (String, String),
>)
    ensures
        pair_views(params@) == page_params(key_id@, *request),
{
    let (start_ms, end_ms) = normalize_usage_time_range(request.start_ms, request.end_ms);
    let offset: usize = match request.offset {
        Some(offset) => offset,
        None => 0,
    };
    let mut params: Vec<(String, String)> = Vec::new();
    params.push(("key_id".to_owned(), key_id.to_owned()));
    params.push(("source".to_owned(), "all".to_owned()));
    params.push(("limit".to_owned(), decimal_of(limit_of(request.limit) as u64)));
    params.push(("offset".to_owned(), decimal_of(offset as u64)));
    let ghost head: Seq<(Seq<char>, Seq<char>)> = seq![
        ("key_id"@, key_id@),
        ("source"@, "all"@),
        ("limit"@, decimal(shown_limit(request.limit) as nat)),
        ("offset"@, decimal(offset as nat)),
    ];
    assert(pair_views(params@) =~= head);
    if let Some(ms) = start_ms {
        params.push(("start_ms".to_owned(), decimal_of_signed(ms)));
    }
    let ghost middle = with_bound(head, "start_ms"@, start_ms);
    assert(pair_views(params@) =~= middle);
    if let Some(ms) = end_ms {
        params.push(("end_ms".to_owned(), decimal_of_signed(ms)));
    }
    assert(pair_views(params@) =~= with_bound(middle, "end_ms"@, end_ms));
    params
}

/// Where a question about usage goes.
pub fn usage_worker_url(base_url: &str, path: &str) -> (url: String)
    ensures
        url@ == trim_end_char(base_url@, '/') + path@,
{
    concat2(without_trailing(base_url, '/').as_str(), path)
}

/// How the one who knows the usage answered.
#[derive(Debug, Clone, Copy, PartialEq, Eq)]
pub enum WorkerAnswer {
    /// It is not known where it is, or nothing can be sent.
    Unprepared,
    /// It could not be reached.
    Unreachable,
    /// It answered with a status, and the answer could be read or not.
    Answered {
        status: u16,
        readable: bool,
    },
}

/// What is wrong with an answer, if anything.
pub open spec fn worker_error(answer: WorkerAnswer) -> Option<(u16, Seq<char>)> {
    match answer {
        WorkerAnswer::Unprepared => Some((500, "public usage store error"@)),
        WorkerAnswer::Unreachable => Some((503, "usage worker is unavailable"@)),
        WorkerAnswer::Answered { status, readable } => if 200 <= status < 300 && readable {
            None
        } else {
            Some((503, "usage worker is unavailable"@))
        },
    }
}

/// An answer counts where it is a success that can be read.
pub fn check_worker_answer(answer: WorkerAnswer) -> (result: Result<(), PublicError>)
    ensures
        match result {
            Ok(_) => worker_error(answer) is None,
            Err(error) => worker_error(answer) == Some((error.status, error.message@)),
        },
{
    if let WorkerAnswer::Unprepared = answer {
        return Err(PublicError { status: 500, message: "public usage store error" });
    }
    if let WorkerAnswer::Answered { status, readable } = answer {
        if 200 <= status && status < 300 && readable {
            return Ok(());
        }
    }
    Err(PublicError { status: 503, message: "usage worker is unavailable" })
}

/// A question about the usage of a key on its way.
pub struct UsageLookup {
    pub request: PublicLlmGatewayUsageLookupRequest,
    /// The key, once it was found.
    pub key_id: String,
    /// The moment for which the answer is made.
    pub now_ms: i64,
}

/// What has happened to a question.
pub enum LookupEvent<'a> {
    Asked,
    /// The store was asked for the key.
    Found { key: FoundKey<'a>, key_id: &'a str, now_ms: i64 },
    /// The chart was asked for.
    Chart { answer: WorkerAnswer },
    /// The page was asked for.
    Page { answer: WorkerAnswer },
}

/// What is to be done for a question.
pub enum LookupStep {
    /// Look for the key of a secret.
    FindKey { secret: String },
    Ask { path: &'static str, params: Vec<(String, String)> },
    /// Answer with the key, the chart and the page as they were told; no one may keep it.
    Answer { generated_at: i64 },
    Refused { error: PublicError },
}

pub open spec fn refuses(step: LookupStep, error: (u16, Seq<char>)) -> bool {
    step matches LookupStep::Refused { error: told } && is_error(told, error.0, error.1)
}

pub open spec fn asks(
    step: LookupStep,
    path: Seq<char>,
    params: Seq<(Seq<char>, Seq<char>)>,
) -> bool {
    step matches LookupStep::Ask { path: at, params: list } && at@ == path && pair_views(list@)
        == params
}

/// What an event makes of a question: first the key is found, then the chart is asked for,
/// then the page.
pub open spec fn lookup_step(
    before: UsageLookup,
    event: LookupEvent,
    after: UsageLookup,
    step: LookupStep,
) -> bool {
    match event {
        LookupEvent::Asked => {
            &&& after == before
            &&& match nonempty_trim(before.request.api_key@) {
                Some(key) => step matches LookupStep::FindKey { secret } && secret@ == key,
                None => refuses(step, (400, "api_key is required"@)),
            }
        },
        LookupEvent::Found { key, key_id, now_ms } => match key_error(key) {
            Some(error) => after == before && refuses(step, error),
            None => {
                &&& after == (UsageLookup { key_id: after.key_id, now_ms, ..before })
                &&& after.key_id@ == key_id@
                &&& asks(step, USAGE_CHART_PATH@, chart_params(key_id@, chart_start(now_ms)))
            },
        },
        LookupEvent::Chart { answer } => {
            &&& after == before
            &&& match worker_error(answer) {
                Some(error) => refuses(step, error),
                None => asks(
                    step,
                    USAGE_PAGE_PATH@,
                    page_params(before.key_id@, before.request),
                ),
            }
        },
        LookupEvent::Page { answer } => {
            &&& after == before
            &&& match worker_error(answer) {
                Some(error) => refuses(step, error),
                None => step == (LookupStep::Answer { generated_at: before.now_ms }),
            }
        },
    }
}

/// The bar of the moment must start at a time that can be told.
pub open spec fn lookup_can_happen(event: LookupEvent) -> bool {
    event matches LookupEvent::Found { now_ms, .. } ==> now_ms as int
        / PUBLIC_USAGE_LOOKUP_BUCKET_MS as int * PUBLIC_USAGE_LOOKUP_BUCKET_MS >= i64::MIN
}

/// Takes a question about the usage of a key one step further.
pub fn post_llm_gateway_public_usage_query(lookup: &mut UsageLookup, event: &LookupEvent) -> (step:
    LookupStep)
    requires
        lookup_can_happen(*event),
    ensures
        lookup_step(*old(lookup), *event, *final(lookup), step),
{
    match event {
        LookupEvent::Asked => match presented_key(lookup.request.api_key.as_str()) {
            Ok(secret) => LookupStep::FindKey { secret },
            Err(error) => LookupStep::Refused { error },
        },
        LookupEvent::Found { key, key_id, now_ms } => {
            if let Err(error) = check_lookup_key(key) {
                return LookupStep::Refused { error };
            }
            lookup.key_id = (*key_id).to_owned();
            lookup.now_ms = *now_ms;
            let params = usage_chart_params(key_id, *now_ms);
            LookupStep::Ask { path: USAGE_CHART_PATH, params }
        },
        LookupEvent::Chart { answer } => {
            if let Err(error) = check_worker_answer(*answer) {
                return LookupStep::Refused { error };
            }
            let params = usage_page_params(lookup.key_id.as_str(), &lookup.request);
            LookupStep::Ask { path: USAGE_PAGE_PATH, params }
        },
        LookupEvent::Page { answer } => {
            if let Err(error) = check_worker_answer(*answer) {
                return LookupStep::Refused { error };
            }
            LookupStep::Answer { generated_at: lookup.now_ms }
        },
    }
}

// ---------------------------------------------------------------------------
// Addresses and pages
// ---------------------------------------------------------------------------

/// The host that a request was sent to.
pub open spec fn told_host(headers: Headers) -> Option<Seq<char>> {
    if has_name(headers.entries@, "x-forwarded-host"@) {
        headers.value("x-forwarded-host"@)
    } else {
        headers.value("host"@)
    }
}

/// The site that a request was sent to, as a client names it.
pub open spec fn origin(headers: Headers) -> Option<Seq<char>> {
    match told_host(headers) {
        Some(host) => Some(
            match headers.value("x-forwarded-proto"@) {
                Some(scheme) => scheme,
                None => "http"@,
            } + "://"@ + host,
        ),
        None => None,
    }
}

pub fn external_origin(headers: &Headers) -> (result: Option<String>)
    ensures
        opt_text(result) == origin(*headers),
{
    let told = if has_header(headers, "x-forwarded-host") {
        header_value(headers, "x-forwarded-host")
    } else {
        header_value(headers, "host")
    };
    let host = match told {
        Some(host) => host,
        None => return None,
    };
    let scheme = match header_value(headers, "x-forwarded-proto") {
        Some(scheme) => scheme,
        None => "http".to_owned(),
    };
    Some(concat3(scheme.as_str(), "://", host.as_str()))
}

/// A path of the service as a client reaches it.
pub open spec fn reached_at(headers: Headers, path: Seq<char>) -> Seq<char> {
    match origin(headers) {
        Some(origin) => origin + path,
        None => path,
    }
}

fn base_url(headers: &Headers, path: &str) -> (url: String)
    ensures
        url@ == reached_at(*headers, path@),
{
    match external_origin(headers) {
        Some(origin) => concat2(origin.as_str(), path),
        None => path.to_owned(),
    }
}

/// How the gateway is reached.
pub struct GatewayAccess {
    pub base_url: String,
    pub gateway_path: String,
    pub model_catalog_path: Option<String>,
    pub auth_cache_ttl_seconds: u64,
}

/// How the gateway of the one provider is reached.
pub fn llm_gateway_access(headers: &Headers, auth_cache_ttl_seconds: u64) -> (access: GatewayAccess)
    ensures
        access.base_url@ == reached_at(*headers, "/api/llm-gateway/v1"@),
        access.gateway_path@ == "/api/llm-gateway/v1"@,
        opt_text(access.model_catalog_path) == Some("/api/llm-gateway/model-catalog.json"@),
        access.auth_cache_ttl_seconds == auth_cache_ttl_seconds,
{
    GatewayAccess {
        base_url: base_url(headers, "/api/llm-gateway/v1"),
        gateway_path: "/api/llm-gateway/v1".to_owned(),
        model_catalog_path: Some("/api/llm-gateway/model-catalog.json".to_owned()),
        auth_cache_ttl_seconds,
    }
}

/// How the gateway of the other provider is reached.
pub fn kiro_gateway_access(headers: &Headers, auth_cache_ttl_seconds: u64) -> (access: GatewayAccess)
    ensures
        access.base_url@ == reached_at(*headers, "/api/kiro-gateway"@),
        access.gateway_path@ == "/api/kiro-gateway"@,
        access.model_catalog_path is None,
        access.auth_cache_ttl_seconds == auth_cache_ttl_seconds,
{
    GatewayAccess {
        base_url: base_url(headers, "/api/kiro-gateway"),
        gateway_path: "/api/kiro-gateway".to_owned(),
        model_catalog_path: None,
        auth_cache_ttl_seconds,
    }
}

/// The support page as it is shown.
pub struct LlmGatewaySupportConfigView {
    pub sponsor_title: String,
    pub sponsor_intro: String,
    pub group_name: String,
    pub qq_group_number: String,
    pub group_invite_text: String,
    pub alipay_qr_url: String,
    pub wechat_qr_url: String,
    pub qq_group_qr_url: Option<String>,
    pub generated_at: i64,
}

/// The address of a picture of the support page.
pub open spec fn asset_url(file_name: Seq<char>) -> Seq<char> {
    "/api/llm-gateway/support-assets/"@ + file_name
}

/// Shows the settings of the support page. `files` are the files that exist.
pub fn build_llm_gateway_support_config_response(
    config: LlmAccessSupportConfig,
    files: &Vec<String>,
    generated_at: i64,
) -> (view: LlmGatewaySupportConfigView)
    ensures
        view.sponsor_title == config.sponsor_title,
        view.sponsor_intro == config.sponsor_intro,
        view.group_name == config.group_name,
        view.qq_group_number == config.qq_group_number,
        view.group_invite_text == config.group_invite_text,
        view.alipay_qr_url@ == asset_url("alipay_qr.png"@),
        view.wechat_qr_url@ == asset_url("wechat_qr.png"@),
        opt_text(view.qq_group_qr_url) == (if texts(files@).contains(
            crate::paths::inside(config.base_dir@, "qq_group_qr.png"@),
        ) {
            Some(asset_url("qq_group_qr.png"@))
        } else {
            None
        }),
        view.generated_at == generated_at,
{
    let qq_group_qr_url = if config.has_group_qr(files) {
        Some(concat2("/api/llm-gateway/support-assets/", "qq_group_qr.png"))
    } else {
        None
    };
    LlmGatewaySupportConfigView {
        sponsor_title: config.sponsor_title,
        sponsor_intro: config.sponsor_intro,
        group_name: config.group_name,
        qq_group_number: config.qq_group_number,
        group_invite_text: config.group_invite_text,
        alipay_qr_url: concat2("/api/llm-gateway/support-assets/", "alipay_qr.png"),
        wechat_qr_url: concat2("/api/llm-gateway/support-assets/", "wechat_qr.png"),
        qq_group_qr_url,
        generated_at,
    }
}

// ---------------------------------------------------------------------------
// The account of the public catalog
// ---------------------------------------------------------------------------

/// What is left of an account's allowance. The number orders percentages: it is positive
/// for those above zero and grows with them.
#[derive(Debug, Clone, Copy, PartialEq, Eq)]
pub enum RemainingPercent {
    Known(i64),
    /// It was told, and is no number.
    Broken,
    Untold,
}

/// The number of one hundred percent.
pub const FULL_PERCENT: i64 = 0x4059_0000_0000_0000;

pub open spec fn percent_rank(value: RemainingPercent) -> i64 {
    match value {
        RemainingPercent::Known(rank) => rank,
        _ => FULL_PERCENT,
    }
}

/// The rank of a percentage, and whether it was told and is no number.
pub fn sanitize_remaining_percent(value: RemainingPercent) -> (result: (i64, bool))
    ensures
        result.0 == percent_rank(value),
        result.1 == value is Broken,
{
    match value {
        RemainingPercent::Known(rank) => (rank, false),
        RemainingPercent::Broken => (FULL_PERCENT, true),
        RemainingPercent::Untold => (FULL_PERCENT, false),
    }
}

/// An account as the public sees it.
pub struct CodexPublicAccountStatus {
    pub name: String,
    pub status: String,
    pub primary_remaining_percent: RemainingPercent,
    pub secondary_remaining_percent: RemainingPercent,
}

/// An account with something left.
pub open spec fn is_candidate(account: CodexPublicAccountStatus) -> bool {
    account.status@ == "active"@ && percent_rank(account.primary_remaining_percent) > 0
        && percent_rank(account.secondary_remaining_percent) > 0
}

pub open spec fn is_doubtful(account: CodexPublicAccountStatus) -> bool {
    account.primary_remaining_percent is Broken || account.secondary_remaining_percent is Broken
}

/// `a` is preferred to `b`: undoubted first, then what has more left, then by name.
pub open spec fn preferred(a: CodexPublicAccountStatus, b: CodexPublicAccountStatus) -> bool {
    if is_doubtful(a) != is_doubtful(b) {
        !is_doubtful(a)
    } else if percent_rank(a.primary_remaining_percent) != percent_rank(
        b.primary_remaining_percent,
    ) {
        percent_rank(a.primary_remaining_percent) > percent_rank(b.primary_remaining_percent)
    } else if percent_rank(a.secondary_remaining_percent) != percent_rank(
        b.secondary_remaining_percent,
    ) {
        percent_rank(a.secondary_remaining_percent) > percent_rank(b.secondary_remaining_percent)
    } else {
        text_before(a.name@, b.name@)
    }
}

fn public_codex_account_candidate(account: &CodexPublicAccountStatus) -> (result: bool)
    ensures
        result == is_candidate(*account),
{
    same_text(account.status.as_str(), "active") && sanitize_remaining_percent(
        account.primary_remaining_percent,
    ).0 > 0 && sanitize_remaining_percent(account.secondary_remaining_percent).0 > 0
}

fn public_codex_account_before(a: &CodexPublicAccountStatus, b: &CodexPublicAccountStatus) -> (result:
    bool)
    ensures
        result == preferred(*a, *b),
{
    let (a_primary, a_primary_broken) = sanitize_remaining_percent(a.primary_remaining_percent);
    let (b_primary, b_primary_broken) = sanitize_remaining_percent(b.primary_remaining_percent);
    let (a_second, a_second_broken) = sanitize_remaining_percent(a.secondary_remaining_percent);
    let (b_second, b_second_broken) = sanitize_remaining_percent(b.secondary_remaining_percent);
    let a_doubtful = a_primary_broken || a_second_broken;
    let b_doubtful = b_primary_broken || b_second_broken;
    if a_doubtful != b_doubtful {
        !a_doubtful
    } else if a_primary != b_primary {
        a_primary > b_primary
    } else if a_second != b_second {
        a_second > b_second
    } else {
        text_less(a.name.as_str(), b.name.as_str())
    }
}

/// The account at `at` is a candidate, and none is preferred to it.
pub open spec fn is_best(accounts: Seq<CodexPublicAccountStatus>, at: int) -> bool {
    &&& 0 <= at < accounts.len()
    &&& is_candidate(accounts[at])
    &&& forall|j: int|
        0 <= j < accounts.len() && is_candidate(#[trigger] accounts[j]) ==> !preferred(
            accounts[j],
            accounts[at],
        )
}

/// The account whose catalog the public sees.
pub fn preferred_public_codex_account_name(accounts: &Vec<CodexPublicAccountStatus>) -> (name: Option<
    String,
>)
    ensures
        match name {
            Some(name) => exists|at: int| #[trigger]
                is_best(accounts@, at) && name == accounts@[at].name,
            None => forall|j: int|
                0 <= j < accounts@.len() ==> !is_candidate(#[trigger] accounts@[j]),
        },
{
    let mut best: Option<usize> = None;
    let mut i: usize = 0;
    while i < accounts.len()
        invariant
            i <= accounts.len(),
            match best {
                Some(b) => b < i && is_candidate(accounts@[b as int]) && forall|j: int|
                    0 <= j < i && is_candidate(#[trigger] accounts@[j]) ==> !preferred(
                        accounts@[j],
                        accounts@[b as int],
                    ),
                None => forall|j: int| 0 <= j < i ==> !is_candidate(#[trigger] accounts@[j]),
            },
        decreases accounts.len() - i,
    {
        if public_codex_account_candidate(&accounts[i]) {
            match best {
                Some(b) => {
                    if public_codex_account_before(&accounts[i], &accounts[b]) {
                        proof {
                            let x = accounts@[i as int];
                            let y = accounts@[b as int];
                            assert forall|j: int|
                                0 <= j <= i && is_candidate(#[trigger] accounts@[j]) implies !preferred(
                                accounts@[j],
                                x,
                            ) by {
                                let z = accounts@[j];
                                lemma_preference(z, x, y);
                                lemma_preference(x, x, y);
                            }
                        }
                        best = Some(i);
                    }
                },
                None => {
                    proof {
                        lemma_preference(
                            accounts@[i as int],
                            accounts@[i as int],
                            accounts@[i as int],
                        );
                    }
                    best = Some(i);
                },
            }
        }
        i += 1;
    }
    match best {
        Some(b) => {
            assert(is_best(accounts@, b as int));
            Some(accounts[b].name.clone())
        },
        None => None,
    }
}

proof fn lemma_preference(
    a: CodexPublicAccountStatus,
    b: CodexPublicAccountStatus,
    c: CodexPublicAccountStatus,
)
    ensures
        !preferred(a, a),
        preferred(a, b) && preferred(b, c) ==> preferred(a, c),
{
    lemma_text_order(a.name@, b.name@, c.name@);
    lemma_text_order(a.name@, a.name@, a.name@);
}

/// A number of seconds from the configuration, where there is one; a negative one is none.
pub fn configured_seconds(configured: Option<i64>, default_seconds: u64) -> (seconds: u64)
    ensures
        seconds == match configured {
            Some(value) => if value < 0 {
                0
            } else {
                value as int
            },
            None => default_seconds as int,
        },
{
    match configured {
        Some(value) => if value < 0 {
            0
        } else {
            value as u64
        },
        None => default_seconds,
    }
}

// ---------------------------------------------------------------------------
// Laws
// ---------------------------------------------------------------------------

/// Nothing is asked about a key that was not found active.
pub proof fn law_only_active_keys_are_asked_about(
    before: UsageLookup,
    key: FoundKey,
    key_id: &str,
    now_ms: i64,
    after: UsageLookup,
    step: LookupStep,
)
    requires
        lookup_step(before, LookupEvent::Found { key, key_id, now_ms }, after, step),
        step is Ask,
    ensures
        key matches FoundKey::Status(status) && status@ == "active"@,
{
}

/// A range of two bounds is never empty: it starts before it ends. The latest of all times
/// is left out, for nothing ends after it.
pub proof fn law_time_range_is_not_empty(start_ms: Option<i64>, end_ms: Option<i64>)
    requires
        start_ms != Some(i64::MAX),
    ensures
        time_range(start_ms, end_ms) matches (Some(start), Some(end)) ==> 0 < start < end,
{
}

/// A range that was made to hold stays as it is.
pub proof fn law_time_range_is_stable(start_ms: Option<i64>, end_ms: Option<i64>)
    ensures
        time_range(time_range(start_ms, end_ms).0, time_range(start_ms, end_ms).1) == time_range(
            start_ms,
            end_ms,
        ),
{
}

/// The chart has room for the bar of its moment, and that bar is the last.
pub proof fn law_chart_ends_with_now(now_ms: i64)
    requires
        now_ms >= 0,
    ensures
        chart_start(now_ms) + 23 * PUBLIC_USAGE_LOOKUP_BUCKET_MS <= now_ms,
        now_ms < chart_start(now_ms) + 24 * PUBLIC_USAGE_LOOKUP_BUCKET_MS,
{
    vstd::arithmetic::div_mod::lemma_fundamental_div_mod(
        now_ms as int,
        PUBLIC_USAGE_LOOKUP_BUCKET_MS as int,
    );
}

/// The preferred account is the same however often it is asked for, and whichever of equal
/// accounts is met first: two best accounts have one name.
pub proof fn law_best_account_is_one(
    accounts: Seq<CodexPublicAccountStatus>,
    a: int,
    b: int,
)
    requires
        is_best(accounts, a),
        is_best(accounts, b),
    ensures
        accounts[a].name@ == accounts[b].name@,
{
    lemma_text_order(accounts[a].name@, accounts[b].name@, accounts[a].name@);
    assert(!preferred(accounts[a], accounts[b]));
    assert(!preferred(accounts[b], accounts[a]));
}

/// The way of a lookup: without a secret it is refused with 400; a key that is not there, or
/// not active, with 404; then the chart is asked for, then the page, then the answer goes
/// out for the moment at which the key was found. A worker that cannot be reached, answers
/// with an error or illegibly ends it with 503.
pub proof fn law_the_way_of_a_lookup(
    before: UsageLookup,
    event: LookupEvent,
    after: UsageLookup,
    step: LookupStep,
)
    requires
        lookup_step(before, event, after, step),
    ensures
        event is Asked && trim(before.request.api_key@).len() == 0 ==> (
        step matches LookupStep::Refused { error } && error.status == 400),
        event is Asked && trim(before.request.api_key@).len() > 0 ==> (
        step matches LookupStep::FindKey { secret } && secret@ == trim(before.request.api_key@)),
        event matches LookupEvent::Found { key, key_id, now_ms } ==> match key {
            FoundKey::Nothing => step matches LookupStep::Refused { error } && error.status == 404,
            FoundKey::Failed => step matches LookupStep::Refused { error } && error.status == 500,
            FoundKey::Status(status) => (status@ != "active"@ ==> (
            step matches LookupStep::Refused { error } && error.status == 404)) && (status@
                == "active"@ ==> (step matches LookupStep::Ask { path, params } && path@
                == "/admin/llm-access/usage/chart"@ && params@.len() == 4) && after.key_id@
                == key_id@ && after.now_ms == now_ms),
        },
        event matches LookupEvent::Chart { answer } ==> match answer {
            WorkerAnswer::Unprepared => step matches LookupStep::Refused { error } && error.status
                == 500,
            WorkerAnswer::Unreachable => step matches LookupStep::Refused { error } && error.status
                == 503,
            WorkerAnswer::Answered { status, readable } => (200 <= status <= 299 && readable ==> (
            step matches LookupStep::Ask { path, params } && path@ == "/admin/llm-gateway/usage"@))
                && (!(200 <= status <= 299) || !readable ==> (
            step matches LookupStep::Refused { error } && error.status == 503)),
        },
        event matches LookupEvent::Page { answer } ==> match answer {
            WorkerAnswer::Unprepared => step matches LookupStep::Refused { error } && error.status
                == 500,
            WorkerAnswer::Unreachable => step matches LookupStep::Refused { error } && error.status
                == 503,
            WorkerAnswer::Answered { status, readable } => (200 <= status <= 299 && readable
                ==> step == (LookupStep::Answer { generated_at: before.now_ms })) && (!(200
                <= status <= 299) || !readable ==> (step matches LookupStep::Refused { error }
                && error.status == 503)),
        },
{
    if let LookupStep::Ask { path, params } = step {
        assert(pair_views(params@).len() == params@.len());
    }
}

/// The page shows at most twenty entries and one at least, from the offset that was asked
/// for, of the key that was found, in the range that was asked for.
pub proof fn law_what_the_page_is_asked_for(
    key_id: Seq<char>,
    request: PublicLlmGatewayUsageLookupRequest,
)
    ensures
        1 <= shown_limit(request.limit) <= 20,
        request.limit matches Some(limit) ==> (1 <= limit <= 20 ==> shown_limit(request.limit)
            == limit),
        request.limit is None ==> shown_limit(request.limit) == 20,
        page_params(key_id, request)[0] == ("key_id"@, key_id),
        page_params(key_id, request)[1] == ("source"@, "all"@),
        page_params(key_id, request)[2] == (
            "limit"@,
            decimal(shown_limit(request.limit) as nat),
        ),
        request.offset matches Some(offset) ==> page_params(key_id, request)[3] == (
            "offset"@,
            decimal(offset as nat),
        ),
        request.offset is None ==> page_params(key_id, request)[3] == ("offset"@, decimal(0)),
        request.start_ms matches Some(start) ==> (start > 0 ==> page_params(key_id, request)[4] == (
            "start_ms"@,
            decimal_signed(start as int),
        )),
        request.start_ms is None && request.end_ms is None ==> page_params(key_id, request).len()
            == 4,
{
}

/// A bound that is not above zero is none; two bounds in order stay as they are, and an end
/// that is not behind its start is moved right behind it.
pub proof fn law_which_range_is_asked_for(start: i64, end: i64)
    ensures
        0 < start < end ==> time_range(Some(start), Some(end)) == (Some(start), Some(end)),
        0 < end <= start < i64::MAX ==> time_range(Some(start), Some(end)) == (
            Some(start),
            Some((start + 1) as i64),
        ),
        start <= 0 && end > 0 ==> time_range(Some(start), Some(end)) == (None::<i64>, Some(end)),
        start > 0 && end <= 0 ==> time_range(Some(start), Some(end)) == (Some(start), None::<i64>),
        time_range(None, None) == (None::<i64>, None::<i64>),
{
}

/// The chart has a day of whole hours, the last of which is the present one.
pub proof fn law_the_chart_shows_a_day(now_ms: i64)
    requires
        0 <= now_ms,
    ensures
        chart_start(now_ms) + 23 * 3_600_000 <= now_ms < chart_start(now_ms) + 24 * 3_600_000,
        chart_start(now_ms) % 3_600_000 == 0,
{
}

/// The account that is shown is active and has something left of both windows; one whose
/// numbers were told comes before one whose are broken, then one with more left of the first
/// window, then of the second, then by the name.
pub proof fn law_which_account_is_shown(accounts: Seq<CodexPublicAccountStatus>, at: int, j: int)
    requires
        is_best(accounts, at),
        0 <= j < accounts.len(),
        accounts[j].status@ == "active"@,
    ensures
        accounts[at].status@ == "active"@,
        accounts[at].primary_remaining_percent matches RemainingPercent::Known(rank) ==> rank > 0,
        accounts[at].secondary_remaining_percent matches RemainingPercent::Known(rank) ==> rank > 0,
        accounts[j].primary_remaining_percent matches RemainingPercent::Known(first) ==> (
        accounts[j].secondary_remaining_percent matches RemainingPercent::Known(second) ==> (first
            > 0 && second > 0 ==> !(accounts[at].primary_remaining_percent is Broken) && !(
        accounts[at].secondary_remaining_percent is Broken))),
        accounts[j].primary_remaining_percent matches RemainingPercent::Known(first) ==> (
        accounts[j].secondary_remaining_percent matches RemainingPercent::Known(second) ==> (
        accounts[at].primary_remaining_percent matches RemainingPercent::Known(shown) ==> (first > 0
            && second > 0 ==> shown >= first))),
        accounts[j].primary_remaining_percent matches RemainingPercent::Known(first) ==> (
        accounts[j].secondary_remaining_percent matches RemainingPercent::Known(second) ==> (
        accounts[at].secondary_remaining_percent matches RemainingPercent::Known(shown) ==> (first
            > 0 && second > 0 && accounts[at].primary_remaining_percent
            == RemainingPercent::Known(first) ==> shown >= second))),
{
    assert(is_candidate(accounts[j]) ==> !preferred(accounts[j], accounts[at]));
}

/// The address that clients are told: the host that was asked for, or the one that a proxy
/// names, under the scheme that a proxy names, or the plain one; without a host, the path
/// alone.
pub proof fn law_the_told_address(headers: Headers, path: Seq<char>, host: Seq<char>)
    ensures
        told_host(headers) == Some(host) && headers.value("x-forwarded-proto"@) is None
            ==> reached_at(headers, path) == "http"@ + "://"@ + host + path,
        told_host(headers) == Some(host) ==> (headers.value("x-forwarded-proto"@) matches Some(
            scheme,
        ) ==> reached_at(headers, path) == scheme + "://"@ + host + path),
        told_host(headers) is None ==> reached_at(headers, path) == path,
        !has_name(headers.entries@, "x-forwarded-host"@) ==> told_host(headers) == headers.value(
            "host"@,
        ),
        has_name(headers.entries@, "x-forwarded-host"@) ==> told_host(headers) == headers.value(
            "x-forwarded-host"@,
        ),
{
}

} // verus!
