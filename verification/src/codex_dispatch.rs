//! What an error of the Codex upstream means, and how a request goes from account to
//! account.

use vstd::prelude::*;
use crate::codex_auth::{blames_request_shape, codex_gateway_path, encrypted_content_refused,
    is_codex_invalid_encrypted_content_response, normalized_codex_gateway_path,
    refuses_encrypted_content, request_shape_blamed, retry_codex_without_encrypted_reasoning,
    same_but_body, stripped};
use crate::errors::{codex_surface_error_body, error_message, extract_error_message_from_json_value,
    is_server_error, is_success, lossy_text, status_is_server_error, status_is_success,
    surface_error, text_of_bytes, text_reply, Reply};
use crate::json::{opt_bytes, opt_json, parse_bytes, parsed_bytes, shown_text, written_bytes, Json,
    JsonView};
use crate::kiro_dispatch::{add_name, failover_counted};
use crate::limiter::{marked, CodexAccountCooldowns};
use crate::route_selection::is_text_reply;
use crate::text::{contains, list_has, lower, lowered, nonempty_trim, opt_text, same_text,
    text_contains, texts};
use crate::types::{PreparedGatewayRequest, ProviderCodexRoute};
use crate::usage_meta::{capture_codex_dispatch_request_json, capture_error_body,
    capture_error_message, first_kept, or_zero, saturating_sum, ProviderUsageMetadata,
    NANOS_PER_MILLI};

verus! {

// ---------------------------------------------------------------------------
// What an error means
// ---------------------------------------------------------------------------

/// Messages that speak of a used up quota.
pub open spec fn says_usage_limit(message: Seq<char>) -> bool {
    let m = lower(message);
    ||| contains(m, "usage limit"@)
    ||| contains(m, "insufficient_quota"@)
    ||| contains(m, "quota_exceeded"@)
    ||| contains(m, "quota exceeded"@)
}

pub fn codex_message_indicates_usage_limit(message: &str) -> (result: bool)
    ensures
        result == says_usage_limit(message@),
{
    let m = lowered(message);
    text_contains(m.as_str(), "usage limit") || text_contains(m.as_str(), "insufficient_quota")
        || text_contains(m.as_str(), "quota_exceeded") || text_contains(m.as_str(), "quota exceeded")
}

/// A field of an error at the three places where errors stand: inside `error`, at the
/// top, inside `response.error`.
pub open spec fn error_field(value: JsonView, name: Seq<char>, place: int) -> Option<JsonView> {
    if place == 0 {
        value.get2("error"@, name)
    } else if place == 1 {
        value.get(name)
    } else {
        match value.get2("response"@, "error"@) {
            Some(error) => error.get(name),
            None => None,
        }
    }
}

fn read_error_field<'a>(value: &'a Json, name: &str, place: usize) -> (field: Option<&'a Json>)
    ensures
        crate::json::opt_json_ref(field) == error_field(value@, name@, place as int),
{
    if place == 0 {
        value.get2("error", name)
    } else if place == 1 {
        value.get(name)
    } else {
        match value.get2("response", "error") {
            Some(error) => error.get(name),
            None => None,
        }
    }
}

pub open spec fn error_text(value: JsonView, name: Seq<char>, place: int) -> Option<Seq<char>> {
    match error_field(value, name, place) {
        Some(field) => field.as_str(),
        None => None,
    }
}

fn read_error_text<'a>(value: &'a Json, name: &str, place: usize) -> (text: Option<&'a str>)
    ensures
        crate::text::opt_str(text) == error_text(value@, name@, place as int),
{
    match read_error_field(value, name, place) {
        Some(field) => field.as_str(),
        None => None,
    }
}

/// An error that says that the quota is used up.
pub open spec fn names_exhausted_quota(value: JsonView) -> bool {
    ||| error_text(value, "code"@, 0) == Some("insufficient_quota"@)
    ||| error_text(value, "code"@, 1) == Some("insufficient_quota"@)
    ||| error_text(value, "code"@, 2) == Some("insufficient_quota"@)
    ||| error_text(value, "message"@, 0) matches Some(m) && says_usage_limit(m)
    ||| error_text(value, "message"@, 1) matches Some(m) && says_usage_limit(m)
    ||| error_text(value, "message"@, 2) matches Some(m) && says_usage_limit(m)
}

fn code_is_insufficient_quota(value: &Json, place: usize) -> (result: bool)
    ensures
        result == (error_text(value@, "code"@, place as int) == Some("insufficient_quota"@)),
{
    match read_error_text(value, "code", place) {
        Some(code) => same_text(code, "insufficient_quota"),
        None => false,
    }
}

fn message_says_usage_limit(value: &Json, place: usize) -> (result: bool)
    ensures
        result == (error_text(value@, "message"@, place as int) matches Some(m)
            && says_usage_limit(m)),
{
    match read_error_text(value, "message", place) {
        Some(message) => codex_message_indicates_usage_limit(message),
        None => false,
    }
}

/// A refusal for a used up quota, given the body as JSON and as text.
pub open spec fn is_quota_refusal(status: u16, parsed: Option<JsonView>, text: Seq<char>) -> bool {
    &&& status == 429 || status == 402 || status == 403
    &&& (parsed matches Some(value) && names_exhausted_quota(value)) || says_usage_limit(text)
}

pub fn codex_quota_exhausted(status: u16, parsed: &Option<Json>, text: &str) -> (result: bool)
    ensures
        result == is_quota_refusal(status, opt_json(*parsed), text@),
{
    if status != 429 && status != 402 && status != 403 {
        return false;
    }
    if let Some(value) = parsed {
        if code_is_insufficient_quota(value, 0) || code_is_insufficient_quota(value, 1)
            || code_is_insufficient_quota(value, 2) || message_says_usage_limit(value, 0)
            || message_says_usage_limit(value, 1) || message_says_usage_limit(value, 2) {
            return true;
        }
    }
    codex_message_indicates_usage_limit(text)
}

/// How long an account that answered with an error is kept out.
#[derive(Debug, Clone, Copy, PartialEq, Eq, Structural)]
pub enum FailureCooldown {
    /// Not at all: the request is to blame.
    Free,
    /// As long as a used up quota takes.
    Quota,
    /// A short time, chosen at random.
    Transient,
}

pub open spec fn failure_cooldown(
    status: u16,
    parsed: Option<JsonView>,
    text: Seq<char>,
    bytes: Seq<u8>,
) -> FailureCooldown {
    if refuses_encrypted_content(status, parsed, bytes) {
        FailureCooldown::Free
    } else if is_quota_refusal(status, parsed, text) {
        FailureCooldown::Quota
    } else if is_server_error(status) || status == 401 || status == 403 || status == 402 || status
        == 429 || status == 408 {
        FailureCooldown::Transient
    } else {
        FailureCooldown::Free
    }
}

pub fn classify_failure(status: u16, parsed: &Option<Json>, text: &str, bytes: &[u8]) -> (result:
    FailureCooldown)
    ensures
        result == failure_cooldown(status, opt_json(*parsed), text@, bytes@),
{
    if encrypted_content_refused(status, parsed, bytes) {
        return FailureCooldown::Free;
    }
    if codex_quota_exhausted(status, parsed, text) {
        return FailureCooldown::Quota;
    }
    if status_is_server_error(status) || status == 401 || status == 403 || status == 402 || status
        == 429 || status == 408 {
        return FailureCooldown::Transient;
    }
    FailureCooldown::Free
}

/// `rand::Rng::gen_range` on the thread's generator: some number of the inclusive range.
/// Which one rests on chance.
#[verifier::external_body]
pub(crate) fn random_between(min: u64, max: u64) -> (value: u64)
    requires
        min <= max,
    ensures
        min <= value <= max,
{
    rand::Rng::gen_range(&mut rand::thread_rng(), min..=max)
}

/// A short cooldown in milliseconds, chosen at random between two bounds.
pub fn randomized_codex_transient_account_failure_cooldown(min_ms: u64, max_ms: u64) -> (ms: u64)
    requires
        min_ms <= max_ms,
    ensures
        min_ms <= ms <= max_ms,
{
    random_between(min_ms, max_ms)
}

/// The cooldown in milliseconds of an account that answered with an error.
pub fn codex_temporary_request_failure_cooldown(
    status: u16,
    bytes: &[u8],
    quota_ms: u64,
    min_ms: u64,
    max_ms: u64,
) -> (result: Option<u64>)
    requires
        min_ms <= max_ms,
    ensures
        match failure_cooldown(status, parsed_bytes(bytes@), lossy_text(bytes@), bytes@) {
            FailureCooldown::Free => result is None,
            FailureCooldown::Quota => result == Some(quota_ms),
            FailureCooldown::Transient => result matches Some(ms) && min_ms <= ms <= max_ms,
        },
{
    let parsed = parse_bytes(bytes);
    let text = text_of_bytes(bytes);
    match classify_failure(status, &parsed, text.as_str(), bytes) {
        FailureCooldown::Free => None,
        FailureCooldown::Quota => Some(quota_ms),
        FailureCooldown::Transient => Some(
            randomized_codex_transient_account_failure_cooldown(min_ms, max_ms),
        ),
    }
}

// ---------------------------------------------------------------------------
// The status that an error event stands for
// ---------------------------------------------------------------------------

/// A number that is an HTTP status.
pub open spec fn valid_status(number: Option<u64>) -> Option<u16> {
    match number {
        Some(n) => if 100 <= n < 1000 {
            Some(n as u16)
        } else {
            None
        },
        None => None,
    }
}

pub open spec fn status_at(value: JsonView, place: int) -> Option<u16> {
    match error_field(value, "status"@, place) {
        Some(field) => valid_status(field.as_u64()),
        None => None,
    }
}

pub open spec fn code_status(code: Option<Seq<char>>) -> Option<u16> {
    match code {
        Some(code) => if code == "invalid_api_key"@ {
            Some(401)
        } else if code == "insufficient_quota"@ || code == "quota_exceeded"@ || code
            == "rate_limit_exceeded"@ {
            Some(429)
        } else if code == "bad_gateway"@ {
            Some(502)
        } else {
            None
        },
        None => None,
    }
}

pub open spec fn type_status(kind: Option<Seq<char>>) -> Option<u16> {
    match kind {
        Some(kind) => if kind == "invalid_request_error"@ {
            Some(400)
        } else if kind == "authentication_error"@ {
            Some(401)
        } else if kind == "permission_error"@ {
            Some(403)
        } else if kind == "not_found_error"@ {
            Some(404)
        } else if kind == "rate_limit_error"@ {
            Some(429)
        } else if kind == "api_error"@ {
            Some(502)
        } else {
            None
        },
        None => None,
    }
}

pub open spec fn first_status(a: Option<u16>, b: Option<u16>, c: Option<u16>) -> Option<u16> {
    match a {
        Some(status) => Some(status),
        None => match b {
            Some(status) => Some(status),
            None => c,
        },
    }
}

/// The status of an error: the one that it names, else that of its code, of its type,
/// or of a message about the quota.
pub open spec fn error_status(value: JsonView) -> Option<u16> {
    let named = first_status(status_at(value, 0), status_at(value, 1), status_at(value, 2));
    let coded = first_status(
        code_status(error_text(value, "code"@, 0)),
        code_status(error_text(value, "code"@, 1)),
        code_status(error_text(value, "code"@, 2)),
    );
    let typed = first_status(
        type_status(error_text(value, "type"@, 0)),
        type_status(error_text(value, "type"@, 1)),
        type_status(error_text(value, "type"@, 2)),
    );
    let limited = match error_message(value) {
        Some(message) => if says_usage_limit(message) {
            Some(429u16)
        } else {
            None
        },
        None => None,
    };
    first_status(named, first_status(coded, typed, None), limited)
}

fn read_status(value: &Json, place: usize) -> (status: Option<u16>)
    ensures
        status == status_at(value@, place as int),
{
    match read_error_field(value, "status", place) {
        Some(field) => match field.as_u64() {
            Some(n) => if 100 <= n && n < 1000 {
                Some(n as u16)
            } else {
                None
            },
            None => None,
        },
        None => None,
    }
}

fn read_code_status(value: &Json, place: usize) -> (status: Option<u16>)
    ensures
        status == code_status(error_text(value@, "code"@, place as int)),
{
    match read_error_text(value, "code", place) {
        Some(code) => if same_text(code, "invalid_api_key") {
            Some(401)
        } else if same_text(code, "insufficient_quota") || same_text(code, "quota_exceeded")
            || same_text(code, "rate_limit_exceeded") {
            Some(429)
        } else if same_text(code, "bad_gateway") {
            Some(502)
        } else {
            None
        },
        None => None,
    }
}

fn read_type_status(value: &Json, place: usize) -> (status: Option<u16>)
    ensures
        status == type_status(error_text(value@, "type"@, place as int)),
{
    match read_error_text(value, "type", place) {
        Some(kind) => if same_text(kind, "invalid_request_error") {
            Some(400)
        } else if same_text(kind, "authentication_error") {
            Some(401)
        } else if same_text(kind, "permission_error") {
            Some(403)
        } else if same_text(kind, "not_found_error") {
            Some(404)
        } else if same_text(kind, "rate_limit_error") {
            Some(429)
        } else if same_text(kind, "api_error") {
            Some(502)
        } else {
            None
        },
        None => None,
    }
}

pub fn codex_status_from_error_json_value(value: &Json) -> (status: Option<u16>)
    ensures
        status == error_status(value@),
{
    let named0 = read_status(value, 0);
    if named0.is_some() {
        return named0;
    }
    let named1 = read_status(value, 1);
    if named1.is_some() {
        return named1;
    }
    let named2 = read_status(value, 2);
    if named2.is_some() {
        return named2;
    }
    let coded0 = read_code_status(value, 0);
    if coded0.is_some() {
        return coded0;
    }
    let coded1 = read_code_status(value, 1);
    if coded1.is_some() {
        return coded1;
    }
    let coded2 = read_code_status(value, 2);
    if coded2.is_some() {
        return coded2;
    }
    let typed0 = read_type_status(value, 0);
    if typed0.is_some() {
        return typed0;
    }
    let typed1 = read_type_status(value, 1);
    if typed1.is_some() {
        return typed1;
    }
    let typed2 = read_type_status(value, 2);
    if typed2.is_some() {
        return typed2;
    }
    match extract_error_message_from_json_value(value) {
        Some(message) => if codex_message_indicates_usage_limit(message.as_str()) {
            Some(429)
        } else {
            None
        },
        None => None,
    }
}

// ---------------------------------------------------------------------------
// Before the first account
// ---------------------------------------------------------------------------

/// What a request comes to once the routes of its key are known.
pub enum CodexEntry {
    /// The list of models is asked for.
    Models,
    /// The request goes to the endpoint with this canonical path.
    Endpoint { path: String },
    Refused { reply: Reply },
}

/// What a request comes to: `routes` is the number of routes of its key, or nothing
/// where they could not be resolved.
pub fn codex_entry(routes: Option<usize>, method: &str, path: &str) -> (entry: CodexEntry)
    ensures
        match routes {
            None => entry matches CodexEntry::Refused { reply } && is_text_reply(
                reply,
                500,
                "codex route resolution failed"@,
            ),
            Some(count) => if count == 0 {
                entry matches CodexEntry::Refused { reply } && is_text_reply(
                    reply,
                    503,
                    "codex route is not configured"@,
                )
            } else {
                match codex_gateway_path(path@) {
                    None => entry matches CodexEntry::Refused { reply } && is_text_reply(
                        reply,
                        404,
                        "unsupported codex gateway endpoint"@,
                    ),
                    Some(canonical) => if canonical == "/v1/models"@ && method@ == "GET"@ {
                        entry == CodexEntry::Models
                    } else {
                        entry matches CodexEntry::Endpoint { path: p } && p@ == canonical
                    },
                }
            },
        },
{
    match routes {
        None => CodexEntry::Refused { reply: text_reply(500, "codex route resolution failed") },
        Some(count) => {
            if count == 0 {
                return CodexEntry::Refused {
                    reply: text_reply(503, "codex route is not configured"),
                };
            }
            match normalized_codex_gateway_path(path) {
                None => CodexEntry::Refused {
                    reply: text_reply(404, "unsupported codex gateway endpoint"),
                },
                Some(canonical) => if same_text(canonical.as_str(), "/v1/models") && same_text(
                    method,
                    "GET",
                ) {
                    CodexEntry::Models
                } else {
                    CodexEntry::Endpoint { path: canonical }
                },
            }
        },
    }
}

/// Notes why a request fails before any account is tried, in the words and the shape
/// that the client gets.
pub fn note_codex_preflight_failure(
    meta: &mut ProviderUsageMetadata,
    endpoint: &str,
    status: u16,
    message: &str,
)
    ensures
        *final(meta) == (ProviderUsageMetadata {
            error_message: final(meta).error_message,
            error_body: final(meta).error_body,
            ..*old(meta)
        }),
        opt_text(final(meta).error_message) == first_kept(
            opt_text(old(meta).error_message),
            nonempty_trim(message@),
        ),
        opt_text(final(meta).error_body) == first_kept(
            opt_text(old(meta).error_body),
            nonempty_trim(shown_text(surface_error(endpoint@, status, message@))),
        ),
{
    capture_error_message(meta, message);
    let body = codex_surface_error_body(endpoint, status, message);
    capture_error_body(meta, body.as_str());
}

// ---------------------------------------------------------------------------
// From account to account
// ---------------------------------------------------------------------------

/// A request on its way through the accounts.
pub struct CodexRun {
    pub attempts: usize,
    pub attempt_limit: usize,
    pub failed_accounts: Vec<String>,
    pub meta: ProviderUsageMetadata,
}

/// What to do with a request next.
pub enum CodexNext {
    /// Select another account.
    Select,
    /// Give the upstream's answer to the client.
    Answer,
    Refused { reply: Reply },
}

/// Some route is neither of the current account nor of a failed one.
pub open spec fn another_codex_candidate(
    routes: Seq<ProviderCodexRoute>,
    failed: Seq<Seq<char>>,
    current: Seq<char>,
) -> bool {
    exists|i: int|
        0 <= i < routes.len() && (#[trigger] routes[i]).account_name@ != current
            && !failed.contains(routes[i].account_name@)
}

pub fn has_remaining_codex_candidate(
    routes: &Vec<ProviderCodexRoute>,
    failed_accounts: &Vec<String>,
    current_account_name: &str,
) -> (result: bool)
    ensures
        result == another_codex_candidate(
            routes@,
            texts(failed_accounts@),
            current_account_name@,
        ),
{
    let mut i: usize = 0;
    while i < routes.len()
        invariant
            i <= routes.len(),
            forall|k: int|
                0 <= k < i ==> (#[trigger] routes@[k]).account_name@ == current_account_name@
                    || texts(failed_accounts@).contains(routes@[k].account_name@),
        decreases routes.len() - i,
    {
        let name = routes[i].account_name.as_str();
        if !list_has(failed_accounts, name) && !same_text(name, current_account_name) {
            assert(routes@[i as int].account_name@ != current_account_name@);
            return true;
        }
        i += 1;
    }
    false
}

/// The failed accounts after one more.
pub open spec fn one_more_failed(
    before: Seq<Seq<char>>,
    after: Seq<Seq<char>>,
    account: Seq<char>,
) -> bool {
    forall|name: Seq<char>| #[trigger]
        after.contains(name) == (before.contains(name) || name == account)
}

pub open spec fn one_more_attempt(attempts: usize) -> usize {
    if attempts == usize::MAX {
        usize::MAX
    } else {
        (attempts + 1) as usize
    }
}

/// Whether an error sends the request to another account.
pub open spec fn moves_on(
    run: CodexRun,
    routes: Seq<ProviderCodexRoute>,
    account: Seq<char>,
    status: u16,
    parsed: Option<JsonView>,
    bytes: Seq<u8>,
) -> bool {
    &&& !refuses_encrypted_content(status, parsed, bytes)
    &&& !blames_request_shape(status, parsed, bytes)
    &&& run.attempts < run.attempt_limit
    &&& another_codex_candidate(routes, texts(run.failed_accounts@), account)
}

/// The accounts that are kept out, after an account was kept out for some milliseconds.
pub open spec fn kept_out(
    blocked: Map<Seq<char>, u128>,
    account: Seq<char>,
    cooldown_ms: u64,
    now_ns: u128,
) -> Map<Seq<char>, u128> {
    marked(blocked, account, (cooldown_ms * NANOS_PER_MILLI) as u128, now_ns)
}

/// The request goes on with another account.
pub open spec fn goes_on(
    before: CodexRun,
    account: Seq<char>,
    after: CodexRun,
    next: CodexNext,
) -> bool {
    &&& next == CodexNext::Select
    &&& after == (CodexRun {
        failed_accounts: after.failed_accounts,
        meta: failover_counted(before.meta),
        ..before
    })
    &&& one_more_failed(texts(before.failed_accounts@), texts(after.failed_accounts@), account)
}

/// The answer of the upstream is the answer.
pub open spec fn is_answered(
    before: CodexRun,
    client_body: Seq<u8>,
    prepared: PreparedGatewayRequest,
    after: CodexRun,
    next: CodexNext,
) -> bool {
    &&& next == CodexNext::Answer
    &&& after == (CodexRun { meta: after.meta, ..before })
    &&& request_noted(before.meta, after.meta, client_body, prepared)
}

/// An account could not be used at all.
pub open spec fn unusable_step(
    before: CodexRun,
    blocked: Map<Seq<char>, u128>,
    account: Seq<char>,
    cooldown_ms: u64,
    now_ns: u128,
    after: CodexRun,
    blocked_after: Map<Seq<char>, u128>,
    next: CodexNext,
) -> bool {
    &&& blocked_after == kept_out(blocked, account, cooldown_ms, now_ns)
    &&& after == (CodexRun {
        failed_accounts: after.failed_accounts,
        meta: failover_counted(before.meta),
        ..before
    })
    &&& one_more_failed(texts(before.failed_accounts@), texts(after.failed_accounts@), account)
    &&& if before.attempts >= before.attempt_limit {
        next matches CodexNext::Refused { reply } && is_text_reply(
            reply,
            502,
            "all eligible codex accounts failed for this request"@,
        )
    } else {
        next == CodexNext::Select
    }
}

/// The credentials of an account were refused for good.
pub open spec fn credentials_refused_step(
    before: CodexRun,
    blocked: Map<Seq<char>, u128>,
    routes: Seq<ProviderCodexRoute>,
    account: Seq<char>,
    client_body: Seq<u8>,
    prepared: PreparedGatewayRequest,
    cooldown_ms: u64,
    now_ns: u128,
    after: CodexRun,
    blocked_after: Map<Seq<char>, u128>,
    next: CodexNext,
) -> bool {
    &&& blocked_after == kept_out(blocked, account, cooldown_ms, now_ns)
    &&& if before.attempts < before.attempt_limit && another_codex_candidate(
        routes,
        texts(before.failed_accounts@),
        account,
    ) {
        goes_on(before, account, after, next)
    } else {
        is_answered(before, client_body, prepared, after, next)
    }
}

/// An account answered with an error.
pub open spec fn error_step(
    before: CodexRun,
    blocked: Map<Seq<char>, u128>,
    routes: Seq<ProviderCodexRoute>,
    account: Seq<char>,
    status: u16,
    parsed: Option<JsonView>,
    bytes: Seq<u8>,
    client_body: Seq<u8>,
    prepared: PreparedGatewayRequest,
    cooldown_ms: Option<u64>,
    now_ns: u128,
    after: CodexRun,
    blocked_after: Map<Seq<char>, u128>,
    next: CodexNext,
) -> bool {
    &&& blocked_after == match cooldown_ms {
        Some(ms) => kept_out(blocked, account, ms, now_ns),
        None => blocked,
    }
    &&& if moves_on(before, routes, account, status, parsed, bytes) {
        goes_on(before, account, after, next)
    } else {
        is_answered(before, client_body, prepared, after, next)
    }
}

impl CodexRun {
    /// A request that holds its key permit.
    pub fn with_permit(attempt_limit: usize, meta: ProviderUsageMetadata) -> (run: Self)
        ensures
            run.attempts == 0,
            run.attempt_limit == attempt_limit,
            run.failed_accounts@.len() == 0,
            run.meta == meta,
    {
        CodexRun { attempts: 0, attempt_limit, failed_accounts: Vec::new(), meta }
    }

    /// An account was selected after a wait.
    pub fn route_selected(&mut self, wait_ms: i64)
        ensures
            *final(self) == (CodexRun {
                attempts: one_more_attempt(old(self).attempts),
                meta: ProviderUsageMetadata {
                    routing_wait_ms: Some(
                        saturating_sum(or_zero(old(self).meta.routing_wait_ms), wait_ms),
                    ),
                    ..old(self).meta
                },
                ..*old(self)
            }),
    {
        self.meta.add_routing_wait(wait_ms);
        self.attempts = self.attempts.saturating_add(1);
    }

    /// The account could not be used at all: its credentials, its proxy or the connection
    /// failed. It is kept out for `cooldown_ms`.
    pub fn account_unusable(
        &mut self,
        cooldowns: &mut CodexAccountCooldowns,
        account_name: &str,
        cooldown_ms: u64,
        now_ns: u128,
    ) -> (next: CodexNext)
        requires
            now_ns + cooldown_ms * NANOS_PER_MILLI <= u128::MAX,
        ensures
            unusable_step(
                *old(self),
                old(cooldowns).view(),
                account_name@,
                cooldown_ms,
                now_ns,
                *final(self),
                final(cooldowns).view(),
                next,
            ),
    {
        cooldowns.mark_account_cooldown(
            account_name,
            cooldown_ms as u128 * NANOS_PER_MILLI,
            now_ns,
        );
        self.meta.mark_failover();
        add_name(&mut self.failed_accounts, account_name);
        if self.attempts >= self.attempt_limit {
            return CodexNext::Refused {
                reply: text_reply(502, "all eligible codex accounts failed for this request"),
            };
        }
        CodexNext::Select
    }

    /// The upstream refused the credentials even after a refresh. The account is kept out
    /// for `cooldown_ms`; where no other is left, the refusal is the answer.
    pub fn credentials_refused(
        &mut self,
        cooldowns: &mut CodexAccountCooldowns,
        routes: &Vec<ProviderCodexRoute>,
        account_name: &str,
        client_body: &[u8],
        prepared: &PreparedGatewayRequest,
        cooldown_ms: u64,
        now_ns: u128,
    ) -> (next: CodexNext)
        requires
            now_ns + cooldown_ms * NANOS_PER_MILLI <= u128::MAX,
        ensures
            credentials_refused_step(
                *old(self),
                old(cooldowns).view(),
                routes@,
                account_name@,
                client_body@,
                *prepared,
                cooldown_ms,
                now_ns,
                *final(self),
                final(cooldowns).view(),
                next,
            ),
    {
        cooldowns.mark_account_cooldown(
            account_name,
            cooldown_ms as u128 * NANOS_PER_MILLI,
            now_ns,
        );
        if self.attempts < self.attempt_limit && has_remaining_codex_candidate(
            routes,
            &self.failed_accounts,
            account_name,
        ) {
            self.meta.mark_failover();
            add_name(&mut self.failed_accounts, account_name);
            return CodexNext::Select;
        }
        capture_codex_dispatch_request_json(&mut self.meta, client_body, prepared);
        CodexNext::Answer
    }

    /// The upstream answered with an error other than a refusal of the credentials.
    /// `cooldown_ms` is how long the account is to be kept out for it.
    pub fn error_answered(
        &mut self,
        cooldowns: &mut CodexAccountCooldowns,
        routes: &Vec<ProviderCodexRoute>,
        account_name: &str,
        status: u16,
        bytes: &[u8],
        parsed: &Option<Json>,
        client_body: &[u8],
        prepared: &PreparedGatewayRequest,
        cooldown_ms: Option<u64>,
        now_ns: u128,
    ) -> (next: CodexNext)
        requires
            cooldown_ms matches Some(ms) ==> now_ns + ms * NANOS_PER_MILLI <= u128::MAX,
        ensures
            error_step(
                *old(self),
                old(cooldowns).view(),
                routes@,
                account_name@,
                status,
                opt_json(*parsed),
                bytes@,
                client_body@,
                *prepared,
                cooldown_ms,
                now_ns,
                *final(self),
                final(cooldowns).view(),
                next,
            ),
    {
        if let Some(ms) = cooldown_ms {
            cooldowns.mark_account_cooldown(
                account_name,
                ms as u128 * NANOS_PER_MILLI,
                now_ns,
            );
        }
        if !encrypted_content_refused(status, parsed, bytes) && !request_shape_blamed(
            status,
            parsed,
            bytes,
        ) && self.attempts < self.attempt_limit && has_remaining_codex_candidate(
            routes,
            &self.failed_accounts,
            account_name,
        ) {
            self.meta.mark_failover();
            add_name(&mut self.failed_accounts, account_name);
            return CodexNext::Select;
        }
        capture_codex_dispatch_request_json(&mut self.meta, client_body, prepared);
        CodexNext::Answer
    }
}

/// The notes after the bodies of the answered request were captured.
pub open spec fn request_noted(
    before: ProviderUsageMetadata,
    after: ProviderUsageMetadata,
    client_body: Seq<u8>,
    prepared: PreparedGatewayRequest,
) -> bool {
    &&& after == (ProviderUsageMetadata {
        client_request_body_json: after.client_request_body_json,
        upstream_request_body_json: after.upstream_request_body_json,
        ..before
    })
    &&& opt_bytes(after.client_request_body_json) == first_kept(
        opt_bytes(before.client_request_body_json),
        Some(client_body),
    )
    &&& opt_bytes(after.upstream_request_body_json) == Some(prepared.request_body@)
}

/// What the status of an answer alone decides.
#[derive(Debug, Clone, Copy, PartialEq, Eq, Structural)]
pub enum CodexAnswer {
    Success,
    /// The credentials were refused; they are refreshed once.
    RefreshCredentials,
    CredentialsRefused,
    Error,
}

/// What an answer is: `refreshed` tells whether the credentials were already refreshed
/// for this account.
pub open spec fn answer_kind(status: u16, refreshed: bool) -> CodexAnswer {
    if status == 401 || status == 403 {
        if refreshed {
            CodexAnswer::CredentialsRefused
        } else {
            CodexAnswer::RefreshCredentials
        }
    } else if is_success(status) {
        CodexAnswer::Success
    } else {
        CodexAnswer::Error
    }
}

pub fn judge_codex_answer(status: u16, refreshed: bool) -> (answer: CodexAnswer)
    ensures
        answer == answer_kind(status, refreshed),
{
    if status == 401 || status == 403 {
        if refreshed {
            CodexAnswer::CredentialsRefused
        } else {
            CodexAnswer::RefreshCredentials
        }
    } else if status_is_success(status) {
        CodexAnswer::Success
    } else {
        CodexAnswer::Error
    }
}

/// The request without encrypted reasoning, where there was some and it was refused.
pub open spec fn is_retry(
    status: u16,
    bytes: Seq<u8>,
    prepared: PreparedGatewayRequest,
    retry: Option<PreparedGatewayRequest>,
) -> bool {
    if !refuses_encrypted_content(status, parsed_bytes(bytes), bytes) {
        retry is None
    } else {
        match parsed_bytes(prepared.request_body@) {
            Some(root) => match stripped(root) {
                Some(changed) => match written_bytes(changed) {
                    Some(body) => retry matches Some(request) && same_but_body(request, prepared)
                        && request.request_body@ == body,
                    None => retry is None,
                },
                None => retry is None,
            },
            None => retry is None,
        }
    }
}

/// The request to send once more on the same account after an error: only where encrypted
/// content was refused and the body holds some.
pub fn codex_error_retry(status: u16, bytes: &[u8], prepared: &PreparedGatewayRequest) -> (retry:
    Option<PreparedGatewayRequest>)
    ensures
        is_retry(status, bytes@, *prepared, retry),
{
    if !is_codex_invalid_encrypted_content_response(status, bytes) {
        return None;
    }
    retry_codex_without_encrypted_reasoning(prepared)
}

// ---------------------------------------------------------------------------
// Laws
// ---------------------------------------------------------------------------

/// An error that blames the request never costs an account: it is neither kept out nor
/// passed over for another.
pub proof fn law_encrypted_content_costs_no_account(
    run: CodexRun,
    routes: Seq<ProviderCodexRoute>,
    account: Seq<char>,
    status: u16,
    parsed: Option<JsonView>,
    text: Seq<char>,
    bytes: Seq<u8>,
)
    requires
        refuses_encrypted_content(status, parsed, bytes),
    ensures
        failure_cooldown(status, parsed, text, bytes) == FailureCooldown::Free,
        !moves_on(run, routes, account, status, parsed, bytes),
{
}

/// Once the attempts are used up no error sends the request on.
pub proof fn law_attempts_are_bounded(
    run: CodexRun,
    routes: Seq<ProviderCodexRoute>,
    account: Seq<char>,
    status: u16,
    parsed: Option<JsonView>,
    bytes: Seq<u8>,
)
    requires
        run.attempts >= run.attempt_limit,
    ensures
        !moves_on(run, routes, account, status, parsed, bytes),
{
}

/// The status of an error event is always a valid one.
pub proof fn law_error_status_is_valid(value: JsonView)
    ensures
        error_status(value) matches Some(status) ==> 100 <= status < 1000,
{
}

/// Every error of an account sends the request to another one where attempts are left and
/// another account has not failed: whatever its status, a used up quota and trouble upstream
/// among them. Only a body of status 400 that refuses encrypted content or blames the shape
/// of the request does not. The account is among the failed ones afterwards, no other one
/// was added or lost, and the failover is counted.
pub proof fn law_account_errors_fail_over(
    before: CodexRun,
    blocked: Map<Seq<char>, u128>,
    routes: Seq<ProviderCodexRoute>,
    account: Seq<char>,
    status: u16,
    parsed: Option<JsonView>,
    bytes: Seq<u8>,
    client_body: Seq<u8>,
    prepared: PreparedGatewayRequest,
    cooldown_ms: Option<u64>,
    now_ns: u128,
    after: CodexRun,
    blocked_after: Map<Seq<char>, u128>,
    next: CodexNext,
    other: int,
)
    requires
        error_step(
            before,
            blocked,
            routes,
            account,
            status,
            parsed,
            bytes,
            client_body,
            prepared,
            cooldown_ms,
            now_ns,
            after,
            blocked_after,
            next,
        ),
        status != 400 || (!refuses_encrypted_content(status, parsed, bytes)
            && !blames_request_shape(status, parsed, bytes)),
        before.attempts < before.attempt_limit,
        0 <= other < routes.len(),
        routes[other].account_name@ != account,
        !texts(before.failed_accounts@).contains(routes[other].account_name@),
    ensures
        next == CodexNext::Select,
        texts(after.failed_accounts@).contains(account),
        forall|name: Seq<char>|
            name != account ==> #[trigger] texts(after.failed_accounts@).contains(name) == texts(
                before.failed_accounts@,
            ).contains(name),
        before.meta.quota_failover_count < u64::MAX ==> after.meta.quota_failover_count
            == before.meta.quota_failover_count + 1,
        after.attempts == before.attempts,
        after.attempt_limit == before.attempt_limit,
{
}

/// Where no attempt is left, or every other account has failed, or the body of status 400
/// blames the request, the error is the answer: no account is added to the failed ones, no
/// failover is counted, and both bodies are noted.
pub proof fn law_other_errors_are_the_answer(
    before: CodexRun,
    blocked: Map<Seq<char>, u128>,
    routes: Seq<ProviderCodexRoute>,
    account: Seq<char>,
    status: u16,
    parsed: Option<JsonView>,
    bytes: Seq<u8>,
    client_body: Seq<u8>,
    prepared: PreparedGatewayRequest,
    cooldown_ms: Option<u64>,
    now_ns: u128,
    after: CodexRun,
    blocked_after: Map<Seq<char>, u128>,
    next: CodexNext,
)
    requires
        error_step(
            before,
            blocked,
            routes,
            account,
            status,
            parsed,
            bytes,
            client_body,
            prepared,
            cooldown_ms,
            now_ns,
            after,
            blocked_after,
            next,
        ),
        before.attempts >= before.attempt_limit || refuses_encrypted_content(status, parsed, bytes)
            || blames_request_shape(status, parsed, bytes) || forall|i: int|
            0 <= i < routes.len() ==> (#[trigger] routes[i]).account_name@ == account || texts(
                before.failed_accounts@,
            ).contains(routes[i].account_name@),
    ensures
        next == CodexNext::Answer,
        after.failed_accounts == before.failed_accounts,
        after.meta.quota_failover_count == before.meta.quota_failover_count,
        opt_bytes(after.meta.upstream_request_body_json) == Some(prepared.request_body@),
        before.meta.client_request_body_json is None ==> opt_bytes(
            after.meta.client_request_body_json,
        ) == Some(client_body),
{
}

/// An account that answered with an error is kept out for the cooldown that was chosen for
/// it, and no other account is; without a cooldown nothing changes.
pub proof fn law_an_error_keeps_out_its_account_alone(
    before: CodexRun,
    blocked: Map<Seq<char>, u128>,
    routes: Seq<ProviderCodexRoute>,
    account: Seq<char>,
    status: u16,
    parsed: Option<JsonView>,
    bytes: Seq<u8>,
    client_body: Seq<u8>,
    prepared: PreparedGatewayRequest,
    cooldown_ms: Option<u64>,
    now_ns: u128,
    after: CodexRun,
    blocked_after: Map<Seq<char>, u128>,
    next: CodexNext,
)
    requires
        error_step(
            before,
            blocked,
            routes,
            account,
            status,
            parsed,
            bytes,
            client_body,
            prepared,
            cooldown_ms,
            now_ns,
            after,
            blocked_after,
            next,
        ),
        cooldown_ms matches Some(ms) ==> now_ns + ms * 1_000_000 <= u128::MAX,
    ensures
        cooldown_ms is None ==> blocked_after == blocked,
        cooldown_ms matches Some(ms) ==> (ms > 0 ==> blocked_after.dom().contains(account)
            && blocked_after[account] >= now_ns + ms * 1_000_000),
        cooldown_ms matches Some(ms) ==> (ms > 0 && !blocked.dom().contains(account)
            ==> blocked_after[account] == now_ns + ms * 1_000_000),
        forall|name: Seq<char>|
            name != account ==> #[trigger] blocked_after.dom().contains(name)
                == blocked.dom().contains(name) && (blocked.dom().contains(name)
                ==> blocked_after[name] == blocked[name]),
{
}

/// An account whose credentials were refused for good is kept out, and the request goes to
/// another one where attempts are left and one has not failed; else the refusal is the
/// answer.
pub proof fn law_refused_credentials_fail_over(
    before: CodexRun,
    blocked: Map<Seq<char>, u128>,
    routes: Seq<ProviderCodexRoute>,
    account: Seq<char>,
    client_body: Seq<u8>,
    prepared: PreparedGatewayRequest,
    cooldown_ms: u64,
    now_ns: u128,
    after: CodexRun,
    blocked_after: Map<Seq<char>, u128>,
    next: CodexNext,
)
    requires
        credentials_refused_step(
            before,
            blocked,
            routes,
            account,
            client_body,
            prepared,
            cooldown_ms,
            now_ns,
            after,
            blocked_after,
            next,
        ),
        now_ns + cooldown_ms * 1_000_000 <= u128::MAX,
    ensures
        next == CodexNext::Select <==> before.attempts < before.attempt_limit && exists|i: int|
            0 <= i < routes.len() && (#[trigger] routes[i]).account_name@ != account && !texts(
                before.failed_accounts@,
            ).contains(routes[i].account_name@),
        next == CodexNext::Select ==> texts(after.failed_accounts@).contains(account),
        next == CodexNext::Select && before.meta.quota_failover_count < u64::MAX
            ==> after.meta.quota_failover_count == before.meta.quota_failover_count + 1,
        next != CodexNext::Select ==> next == CodexNext::Answer && after.failed_accounts
            == before.failed_accounts,
        cooldown_ms > 0 ==> blocked_after.dom().contains(account) && blocked_after[account]
            >= now_ns + cooldown_ms * 1_000_000,
{
}

/// An account that could not be used at all counts as failed and is kept out; the request is
/// refused only where no attempt is left.
pub proof fn law_an_unusable_account_is_passed_over(
    before: CodexRun,
    blocked: Map<Seq<char>, u128>,
    account: Seq<char>,
    cooldown_ms: u64,
    now_ns: u128,
    after: CodexRun,
    blocked_after: Map<Seq<char>, u128>,
    next: CodexNext,
)
    requires
        unusable_step(
            before,
            blocked,
            account,
            cooldown_ms,
            now_ns,
            after,
            blocked_after,
            next,
        ),
        now_ns + cooldown_ms * 1_000_000 <= u128::MAX,
    ensures
        before.attempts < before.attempt_limit ==> next == CodexNext::Select,
        before.attempts >= before.attempt_limit ==> (next matches CodexNext::Refused { reply }
            && reply.status == 502),
        texts(after.failed_accounts@).contains(account),
        forall|name: Seq<char>|
            texts(before.failed_accounts@).contains(name) ==> #[trigger] texts(
                after.failed_accounts@,
            ).contains(name),
        before.meta.quota_failover_count < u64::MAX ==> after.meta.quota_failover_count
            == before.meta.quota_failover_count + 1,
        cooldown_ms > 0 ==> blocked_after.dom().contains(account) && blocked_after[account]
            >= now_ns + cooldown_ms * 1_000_000,
{
}

/// Trouble upstream, refused credentials and limits keep an account out for a while; a
/// request that could not succeed elsewhere either does not.
pub proof fn law_which_errors_keep_an_account_out(
    status: u16,
    parsed: Option<JsonView>,
    text: Seq<char>,
    bytes: Seq<u8>,
)
    ensures
        500 <= status <= 599 || status == 401 || status == 402 || status == 403 || status == 408
            || status == 429 ==> failure_cooldown(status, parsed, text, bytes)
            != FailureCooldown::Free,
        status < 500 && status != 401 && status != 402 && status != 403 && status != 408 && status
            != 429 ==> failure_cooldown(status, parsed, text, bytes) == FailureCooldown::Free,
        500 <= status <= 599 || status == 401 || status == 408 ==> failure_cooldown(
            status,
            parsed,
            text,
            bytes,
        ) == FailureCooldown::Transient,
        (status == 402 || status == 403 || status == 429) && contains(lower(text), "usage limit"@)
            ==> failure_cooldown(status, parsed, text, bytes) == FailureCooldown::Quota,
        (status == 402 || status == 403 || status == 429) && contains(
            lower(text),
            "insufficient_quota"@,
        ) ==> failure_cooldown(status, parsed, text, bytes) == FailureCooldown::Quota,
        (status == 402 || status == 403 || status == 429) && contains(
            lower(text),
            "quota_exceeded"@,
        ) ==> failure_cooldown(status, parsed, text, bytes) == FailureCooldown::Quota,
        (status == 402 || status == 403 || status == 429) && contains(
            lower(text),
            "quota exceeded"@,
        ) ==> failure_cooldown(status, parsed, text, bytes) == FailureCooldown::Quota,
        (status == 402 || status == 403 || status == 429) && (parsed matches Some(value) && (
        value.get2_str("error"@, "code"@) == Some("insufficient_quota"@) || value.get_str("code"@)
            == Some("insufficient_quota"@))) ==> failure_cooldown(status, parsed, text, bytes)
            == FailureCooldown::Quota,
        parsed is None && !contains(lower(text), "usage limit"@) && !contains(
            lower(text),
            "insufficient_quota"@,
        ) && !contains(lower(text), "quota_exceeded"@) && !contains(lower(text), "quota exceeded"@)
            ==> failure_cooldown(status, parsed, text, bytes) != FailureCooldown::Quota,
{
}

/// The credentials are refreshed on the first refusal of an account and given up on the
/// second; every other answer outside 2xx is an error.
pub proof fn law_what_the_status_decides(status: u16, refreshed: bool)
    ensures
        (status == 401 || status == 403) && !refreshed ==> answer_kind(status, refreshed)
            == CodexAnswer::RefreshCredentials,
        (status == 401 || status == 403) && refreshed ==> answer_kind(status, refreshed)
            == CodexAnswer::CredentialsRefused,
        200 <= status <= 299 ==> answer_kind(status, refreshed) == CodexAnswer::Success,
        status != 401 && status != 403 && !(200 <= status <= 299) ==> answer_kind(status, refreshed)
            == CodexAnswer::Error,
{
}

/// The status of an error event: one that it names inside `error` counts before any other;
/// where it names none, a code decides before a type, and a type before the message.
pub proof fn law_which_status_an_error_has(value: JsonView, named: u64)
    ensures
        100 <= named <= 999 && value.get2("error"@, "status"@) == Some(JsonView::Unsigned(named))
            ==> (error_status(value) matches Some(status) && status == named),
        100 <= named <= 999 && value.get2("error"@, "status"@) is None && value.get("status"@)
            == Some(JsonView::Unsigned(named)) ==> (error_status(value) matches Some(status)
            && status == named),
        names_no_status(value) && value.get2_str("error"@, "code"@) == Some("invalid_api_key"@)
            ==> error_status(value) == Some(401u16),
        names_no_status(value) && (value.get2_str("error"@, "code"@) == Some("insufficient_quota"@)
            || value.get2_str("error"@, "code"@) == Some("quota_exceeded"@) || value.get2_str(
            "error"@,
            "code"@,
        ) == Some("rate_limit_exceeded"@)) ==> error_status(value) == Some(429u16),
        names_no_status(value) && names_no_code(value) && value.get2_str("error"@, "type"@) == Some(
            "invalid_request_error"@,
        ) ==> error_status(value) == Some(400u16),
        names_no_status(value) && names_no_code(value) && value.get2_str("error"@, "type"@) == Some(
            "authentication_error"@,
        ) ==> error_status(value) == Some(401u16),
        names_no_status(value) && names_no_code(value) && value.get2_str("error"@, "type"@) == Some(
            "permission_error"@,
        ) ==> error_status(value) == Some(403u16),
        names_no_status(value) && names_no_code(value) && value.get2_str("error"@, "type"@) == Some(
            "not_found_error"@,
        ) ==> error_status(value) == Some(404u16),
        names_no_status(value) && names_no_code(value) && value.get2_str("error"@, "type"@) == Some(
            "rate_limit_error"@,
        ) ==> error_status(value) == Some(429u16),
{
    reveal_strlit("invalid_api_key");
    reveal_strlit("insufficient_quota");
    reveal_strlit("quota_exceeded");
    reveal_strlit("rate_limit_exceeded");
    reveal_strlit("invalid_request_error");
    reveal_strlit("authentication_error");
    reveal_strlit("permission_error");
    reveal_strlit("not_found_error");
    reveal_strlit("rate_limit_error");
    assert("invalid_api_key"@.len() == 15);
    assert("insufficient_quota"@.len() == 18);
    assert("quota_exceeded"@.len() == 14);
    assert("rate_limit_exceeded"@.len() == 19);
    assert("invalid_request_error"@.len() == 21);
    assert("authentication_error"@.len() == 20);
    assert("permission_error"@.len() == 16);
    assert("not_found_error"@.len() == 15);
    assert("rate_limit_error"@.len() == 16);
    assert("permission_error"@[0] == 'p' && "rate_limit_error"@[0] == 'r');
}

/// No status stands at any of the places of an error.
pub open spec fn names_no_status(value: JsonView) -> bool {
    &&& value.get2("error"@, "status"@) is None
    &&& value.get("status"@) is None
    &&& value.get2("response"@, "error"@) is None
}

/// No code stands at any of the places of an error.
pub open spec fn names_no_code(value: JsonView) -> bool {
    &&& value.get2("error"@, "code"@) is None
    &&& value.get("code"@) is None
    &&& value.get2("response"@, "error"@) is None
}

/// What a request enters: without accounts it is refused, and so is one for an endpoint that
/// is not served; the list of models is read, and every other request goes to its endpoint.
pub proof fn law_what_a_request_enters(
    routes: Option<usize>,
    method: &str,
    path: &str,
    entry: CodexEntry,
)
    requires
        call_ensures(codex_entry, (routes, method, path), entry),
    ensures
        routes is None ==> (entry matches CodexEntry::Refused { reply } && reply.status == 500),
        routes == Some(0usize) ==> (entry matches CodexEntry::Refused { reply } && reply.status
            == 503),
        routes matches Some(count) ==> (count > 0 && codex_gateway_path(path@) is None ==> (
        entry matches CodexEntry::Refused { reply } && reply.status == 404)),
        routes matches Some(count) ==> (count > 0 ==> (codex_gateway_path(path@) matches Some(known)
            ==> (known != "/v1/models"@ ==> (entry matches CodexEntry::Endpoint { path: at } && at@
            == known)))),
        routes matches Some(count) ==> (count > 0 && codex_gateway_path(path@) == Some(
            "/v1/models"@,
        ) ==> (entry == CodexEntry::Models <==> method@ == "GET"@)),
{
}

/// How long an account rests after an error, of the function that says so: a used up quota
/// takes its own time, trouble upstream a time between the two bounds, and an error of the
/// request none.
pub proof fn law_how_long_an_account_rests(
    status: u16,
    bytes: &[u8],
    quota_ms: u64,
    min_ms: u64,
    max_ms: u64,
    result: Option<u64>,
)
    requires
        min_ms <= max_ms,
        call_ensures(
            codex_temporary_request_failure_cooldown,
            (status, bytes, quota_ms, min_ms, max_ms),
            result,
        ),
    ensures
        500 <= status <= 599 || status == 401 || status == 408 ==> (result matches Some(ms)
            && min_ms <= ms <= max_ms),
        status == 402 || status == 403 || status == 429 ==> (result matches Some(ms) && (ms
            == quota_ms || min_ms <= ms <= max_ms)),
        (status == 402 || status == 403 || status == 429) && contains(
            lower(lossy_text(bytes@)),
            "usage limit"@,
        ) ==> result == Some(quota_ms),
        status < 500 && status != 401 && status != 402 && status != 403 && status != 408 && status
            != 429 ==> result is None,
{
}

} // verus!
