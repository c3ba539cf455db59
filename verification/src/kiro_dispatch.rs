//! The Kiro gateway: what is refused before a call, when another account is tried,
//! and what the client is told in the end.

use vstd::prelude::*;
use crate::errors::{anthropic_error, anthropic_json_error, anthropic_json_error_body, is_too_long,
    kiro_prompt_too_long_response_for_body, lossy_text, prompt_too_long, Reply};
use crate::json::{empty_object, opt_bytes, parse_bytes, parsed_bytes, set_or_remove, shown_text,
    write_bytes, written_bytes, Json, JsonView};
use crate::kiro_call::KiroRouteFailureKind;
use crate::route_selection::{is_kiro_error, kiro_failed, proxy_cooldown_key_for_route};
use crate::text::{concat2, concat3, list_has, nonempty_trim, opt_str, opt_text, same_text, texts,
    trimmed_nonempty};
use crate::types::ProviderKiroRoute;
use crate::usage_event::{is_lower_hex, is_variant_digit};
use crate::usage_meta::{capture_client_request_body_json, capture_error_body, capture_error_bytes,
    capture_error_message, capture_upstream_request_body_json, elapsed_millis, first_kept,
    ProviderUsageMetadata};

verus! {

// ---------------------------------------------------------------------------
// Endpoints
// ---------------------------------------------------------------------------

/// The public path of a messages endpoint, with or without the gateway's prefix.
pub open spec fn kiro_messages_path(path: Seq<char>) -> Option<Seq<char>> {
    if path == "/cc/v1/messages"@ || path == "/api/kiro-gateway/cc/v1/messages"@ {
        Some("/cc/v1/messages"@)
    } else if path == "/v1/messages"@ || path == "/api/kiro-gateway/v1/messages"@ {
        Some("/v1/messages"@)
    } else {
        None
    }
}

pub fn normalized_kiro_messages_path(path: &str) -> (result: Option<&'static str>)
    ensures
        opt_str(result) == kiro_messages_path(path@),
{
    if same_text(path, "/cc/v1/messages") || same_text(path, "/api/kiro-gateway/cc/v1/messages") {
        Some("/cc/v1/messages")
    } else if same_text(path, "/v1/messages") || same_text(path, "/api/kiro-gateway/v1/messages") {
        Some("/v1/messages")
    } else {
        None
    }
}

/// The reasons for which the gateway itself refuses a request.
pub enum KiroRefusal {
    UnsupportedMethod,
    RouteNotConfigured,
    RouteResolutionFailed,
    UnsupportedEndpoint,
    BodyTooLarge,
    InvalidJson { error: String },
    InvalidModelMap { error: String },
    InvalidCacheConfig { error: String },
    EncodingFailed,
    McpEncodingFailed { error: String },
    NoSearchQuery,
    UsageNotRecorded,
    StreamNotBuilt,
    ResponseNotBuilt,
}

pub open spec fn refusal_status(refusal: KiroRefusal) -> u16 {
    match refusal {
        KiroRefusal::UnsupportedMethod => 405,
        KiroRefusal::RouteNotConfigured => 503,
        KiroRefusal::UnsupportedEndpoint => 404,
        KiroRefusal::BodyTooLarge => 400,
        KiroRefusal::InvalidJson { .. } => 400,
        KiroRefusal::NoSearchQuery => 400,
        _ => 500,
    }
}

pub open spec fn refusal_type(refusal: KiroRefusal) -> Seq<char> {
    match refusal {
        KiroRefusal::UnsupportedMethod => "invalid_request_error"@,
        KiroRefusal::UnsupportedEndpoint => "invalid_request_error"@,
        KiroRefusal::BodyTooLarge => "invalid_request_error"@,
        KiroRefusal::InvalidJson { .. } => "invalid_request_error"@,
        KiroRefusal::NoSearchQuery => "invalid_request_error"@,
        _ => "api_error"@,
    }
}

pub open spec fn refusal_message(refusal: KiroRefusal) -> Seq<char> {
    match refusal {
        KiroRefusal::UnsupportedMethod => "unsupported method"@,
        KiroRefusal::RouteNotConfigured => "route is not configured"@,
        KiroRefusal::RouteResolutionFailed => "route resolution failed"@,
        KiroRefusal::UnsupportedEndpoint => "unsupported endpoint"@,
        KiroRefusal::BodyTooLarge => "request body is too large"@,
        KiroRefusal::InvalidJson { error } => "failed to parse request JSON: "@ + error@,
        KiroRefusal::InvalidModelMap { error } => "Kiro model mapping configuration is invalid: "@
            + error@,
        KiroRefusal::InvalidCacheConfig { error } => "Kiro cache configuration is invalid: "@
            + error@,
        KiroRefusal::EncodingFailed => "failed to encode kiro request"@,
        KiroRefusal::McpEncodingFailed { error } => "failed to encode kiro mcp request: "@ + error@,
        KiroRefusal::NoSearchQuery => "Unable to extract web search query from messages."@,
        KiroRefusal::UsageNotRecorded => "failed to record usage"@,
        KiroRefusal::StreamNotBuilt => "failed to build stream response"@,
        KiroRefusal::ResponseNotBuilt => "failed to build response"@,
    }
}

pub fn kiro_refusal_reply(refusal: KiroRefusal) -> (reply: Reply)
    ensures
        is_kiro_error(
            reply,
            refusal_status(refusal),
            refusal_type(refusal),
            refusal_message(refusal),
        ),
{
    match refusal {
        KiroRefusal::UnsupportedMethod => anthropic_json_error(
            405,
            "invalid_request_error",
            "unsupported method",
        ),
        KiroRefusal::RouteNotConfigured => anthropic_json_error(
            503,
            "api_error",
            "route is not configured",
        ),
        KiroRefusal::RouteResolutionFailed => anthropic_json_error(
            500,
            "api_error",
            "route resolution failed",
        ),
        KiroRefusal::UnsupportedEndpoint => anthropic_json_error(
            404,
            "invalid_request_error",
            "unsupported endpoint",
        ),
        KiroRefusal::BodyTooLarge => anthropic_json_error(
            400,
            "invalid_request_error",
            "request body is too large",
        ),
        KiroRefusal::InvalidJson { error } => {
            let message = concat2("failed to parse request JSON: ", error.as_str());
            anthropic_json_error(400, "invalid_request_error", message.as_str())
        },
        KiroRefusal::InvalidModelMap { error } => {
            let message = concat2("Kiro model mapping configuration is invalid: ", error.as_str());
            anthropic_json_error(500, "api_error", message.as_str())
        },
        KiroRefusal::InvalidCacheConfig { error } => {
            let message = concat2("Kiro cache configuration is invalid: ", error.as_str());
            anthropic_json_error(500, "api_error", message.as_str())
        },
        KiroRefusal::EncodingFailed => anthropic_json_error(
            500,
            "api_error",
            "failed to encode kiro request",
        ),
        KiroRefusal::McpEncodingFailed { error } => {
            let message = concat2("failed to encode kiro mcp request: ", error.as_str());
            anthropic_json_error(500, "api_error", message.as_str())
        },
        KiroRefusal::NoSearchQuery => anthropic_json_error(
            400,
            "invalid_request_error",
            "Unable to extract web search query from messages.",
        ),
        KiroRefusal::UsageNotRecorded => anthropic_json_error(
            500,
            "api_error",
            "failed to record usage",
        ),
        KiroRefusal::StreamNotBuilt => anthropic_json_error(
            500,
            "api_error",
            "failed to build stream response",
        ),
        KiroRefusal::ResponseNotBuilt => anthropic_json_error(
            500,
            "api_error",
            "failed to build response",
        ),
    }
}

/// What the request line alone decides.
pub enum KiroEntry {
    ListModels,
    Dispatch,
    Refused { refusal: KiroRefusal },
}

pub fn kiro_entry(method: &str, path: &str) -> (entry: KiroEntry)
    ensures
        if path@ == "/v1/models"@ {
            if method@ == "GET"@ {
                entry == KiroEntry::ListModels
            } else {
                entry == (KiroEntry::Refused { refusal: KiroRefusal::UnsupportedMethod })
            }
        } else {
            entry == KiroEntry::Dispatch
        },
{
    if same_text(path, "/v1/models") {
        if same_text(method, "GET") {
            return KiroEntry::ListModels;
        }
        return KiroEntry::Refused { refusal: KiroRefusal::UnsupportedMethod };
    }
    KiroEntry::Dispatch
}

/// The public path of a request, once the routes of its key are known: `routes` is
/// their number, or nothing where they could not be resolved.
pub fn kiro_endpoint(routes: Option<usize>, method: &str, path: &str) -> (result: Result<
    &'static str,
    KiroRefusal,
>)
    ensures
        match routes {
            None => result == Err::<&'static str, KiroRefusal>(KiroRefusal::RouteResolutionFailed),
            Some(count) => if count == 0 {
                result == Err::<&'static str, KiroRefusal>(KiroRefusal::RouteNotConfigured)
            } else if kiro_messages_path(path@) is None {
                result == Err::<&'static str, KiroRefusal>(KiroRefusal::UnsupportedEndpoint)
            } else if method@ != "POST"@ {
                result == Err::<&'static str, KiroRefusal>(KiroRefusal::UnsupportedMethod)
            } else {
                result matches Ok(public) && Some(public@) == kiro_messages_path(path@)
            },
        },
{
    match routes {
        None => Err(KiroRefusal::RouteResolutionFailed),
        Some(count) => {
            if count == 0 {
                return Err(KiroRefusal::RouteNotConfigured);
            }
            match normalized_kiro_messages_path(path) {
                None => Err(KiroRefusal::UnsupportedEndpoint),
                Some(public) => if same_text(method, "POST") {
                    Ok(public)
                } else {
                    Err(KiroRefusal::UnsupportedMethod)
                },
            }
        },
    }
}

/// The URL that usage is recorded under.
pub fn kiro_request_url(origin: Option<&str>, public_path: &str) -> (url: String)
    ensures
        url@ == match origin {
            Some(origin) => origin@ + "/api/kiro-gateway"@ + public_path@,
            None => "/api/kiro-gateway"@ + public_path@,
        },
{
    match origin {
        Some(origin) => concat3(origin, "/api/kiro-gateway", public_path),
        None => concat2("/api/kiro-gateway", public_path),
    }
}

// ---------------------------------------------------------------------------
// Notes on failures
// ---------------------------------------------------------------------------

/// The notes of a request that fails before any call.
pub open spec fn preflight_noted(
    before: ProviderUsageMetadata,
    after: ProviderUsageMetadata,
    message: Seq<char>,
    body: Seq<u8>,
) -> bool {
    &&& after == (ProviderUsageMetadata {
        error_message: after.error_message,
        error_body: after.error_body,
        client_request_body_json: after.client_request_body_json,
        ..before
    })
    &&& opt_text(after.error_message) == first_kept(
        opt_text(before.error_message),
        nonempty_trim(message),
    )
    &&& opt_text(after.error_body) == first_kept(
        opt_text(before.error_body),
        nonempty_trim(shown_text(anthropic_error("invalid_request_error"@, message))),
    )
    &&& opt_bytes(after.client_request_body_json) == first_kept(
        opt_bytes(before.client_request_body_json),
        Some(body),
    )
}

/// Notes why a request fails before any call, with the body that the client sent.
pub fn note_preflight_failure(meta: &mut ProviderUsageMetadata, message: &str, body: &[u8])
    ensures
        preflight_noted(*old(meta), *final(meta), message@, body@),
{
    capture_error_message(meta, message);
    let error_body = anthropic_json_error_body("invalid_request_error", message);
    capture_error_body(meta, error_body.as_str());
    capture_client_request_body_json(meta, body);
}

/// Notes the bodies of a request where its route asks for them.
pub fn note_logged_bodies(
    meta: &mut ProviderUsageMetadata,
    route: &ProviderKiroRoute,
    client_body: &[u8],
    upstream_body: &[u8],
)
    ensures
        if route.zero_cache_debug_enabled || route.full_request_logging_enabled {
            &&& *final(meta) == (ProviderUsageMetadata {
                client_request_body_json: final(meta).client_request_body_json,
                upstream_request_body_json: final(meta).upstream_request_body_json,
                ..*old(meta)
            })
            &&& opt_bytes(final(meta).client_request_body_json) == first_kept(
                opt_bytes(old(meta).client_request_body_json),
                Some(client_body@),
            )
            &&& opt_bytes(final(meta).upstream_request_body_json) == first_kept(
                opt_bytes(old(meta).upstream_request_body_json),
                Some(upstream_body@),
            )
        } else {
            *final(meta) == *old(meta)
        },
{
    if route.zero_cache_debug_enabled || route.full_request_logging_enabled {
        capture_client_request_body_json(meta, client_body);
        capture_upstream_request_body_json(meta, upstream_body);
    }
}

/// The notes of a request after an upstream error.
pub open spec fn upstream_noted(
    before: ProviderUsageMetadata,
    after: ProviderUsageMetadata,
    client_body: Seq<u8>,
    upstream_body: Seq<u8>,
    error_body: Seq<u8>,
    now_ns: u128,
) -> bool {
    &&& after == (ProviderUsageMetadata {
        client_request_body_json: after.client_request_body_json,
        upstream_request_body_json: after.upstream_request_body_json,
        error_message: after.error_message,
        error_body: after.error_body,
        stream_finish_ms: Some(elapsed_millis(before.started_at_ns, now_ns)),
        ..before
    })
    &&& opt_bytes(after.client_request_body_json) == first_kept(
        opt_bytes(before.client_request_body_json),
        Some(client_body),
    )
    &&& opt_bytes(after.upstream_request_body_json) == first_kept(
        opt_bytes(before.upstream_request_body_json),
        Some(upstream_body),
    )
    &&& opt_text(after.error_message) == first_kept(
        opt_text(before.error_message),
        nonempty_trim(
            crate::errors::error_summary(parsed_bytes(error_body), lossy_text(error_body)),
        ),
    )
    &&& opt_text(after.error_body) == first_kept(
        opt_text(before.error_body),
        nonempty_trim(lossy_text(error_body)),
    )
}

/// Notes an error that came from upstream, with both bodies and the time.
pub fn note_upstream_failure(
    meta: &mut ProviderUsageMetadata,
    client_body: &[u8],
    upstream_body: &[u8],
    error_body: &[u8],
    now_ns: u128,
)
    ensures
        upstream_noted(
            *old(meta),
            *final(meta),
            client_body@,
            upstream_body@,
            error_body@,
            now_ns,
        ),
{
    capture_client_request_body_json(meta, client_body);
    capture_upstream_request_body_json(meta, upstream_body);
    capture_error_bytes(meta, error_body);
    meta.mark_stream_finish(now_ns);
}

/// The status that is recorded for an upstream error, and the reply that takes the
/// place of the upstream's where the prompt was too long.
pub fn kiro_failed_answer(
    status: u16,
    body: &[u8],
    context_window: i32,
    request_input_tokens: i32,
) -> (result: (u16, Option<Reply>))
    ensures
        result.0 == if is_too_long(status, lossy_text(body@)) {
            413
        } else {
            status
        },
        match result.1 {
            Some(reply) => is_too_long(status, lossy_text(body@)) && is_kiro_error(
                reply,
                413,
                "invalid_request_error"@,
                prompt_too_long(context_window, request_input_tokens),
            ),
            None => !is_too_long(status, lossy_text(body@)),
        },
{
    let reply = kiro_prompt_too_long_response_for_body(
        status,
        body,
        context_window,
        request_input_tokens,
    );
    match reply {
        Some(reply) => (413, Some(reply)),
        None => (status, None),
    }
}

// ---------------------------------------------------------------------------
// Other accounts
// ---------------------------------------------------------------------------

/// The accounts of a routing identity, in the order of the routes.
pub open spec fn identity_accounts(routes: Seq<ProviderKiroRoute>, identity: Seq<char>) -> Seq<
    Seq<char>,
>
    decreases routes.len(),
{
    if routes.len() == 0 {
        Seq::empty()
    } else {
        let before = identity_accounts(routes.drop_last(), identity);
        if routes.last().routing_identity@ == identity {
            before.push(routes.last().account_name@)
        } else {
            before
        }
    }
}

pub fn account_names_for_kiro_routing_identity(
    routes: &Vec<ProviderKiroRoute>,
    routing_identity: &str,
) -> (names: Vec<String>)
    ensures
        texts(names@) == identity_accounts(routes@, routing_identity@),
{
    let mut names: Vec<String> = Vec::new();
    let mut i: usize = 0;
    assert(routes@.take(0) =~= Seq::<ProviderKiroRoute>::empty());
    assert(texts(names@) =~= Seq::<Seq<char>>::empty());
    while i < routes.len()
        invariant
            i <= routes.len(),
            texts(names@) == identity_accounts(routes@.take(i as int), routing_identity@),
        decreases routes.len() - i,
    {
        broadcast use crate::text::lemma_texts_push;

        assert(routes@.take(i as int + 1).drop_last() =~= routes@.take(i as int));
        if same_text(routes[i].routing_identity.as_str(), routing_identity) {
            names.push(routes[i].account_name.clone());
        }
        i += 1;
    }
    assert(routes@.take(i as int) =~= routes@);
    names
}

/// Some route is neither of the current account nor of a failed one.
pub open spec fn another_candidate(
    routes: Seq<ProviderKiroRoute>,
    failed: Seq<Seq<char>>,
    current: Seq<char>,
) -> bool {
    exists|i: int|
        0 <= i < routes.len() && (#[trigger] routes[i]).account_name@ != current && !kiro_failed(
            routes[i],
            failed,
        )
}

pub fn has_remaining_kiro_candidate(
    routes: &Vec<ProviderKiroRoute>,
    failed_accounts: &Vec<String>,
    current_account_name: &str,
) -> (result: bool)
    ensures
        result == another_candidate(routes@, texts(failed_accounts@), current_account_name@),
{
    let mut i: usize = 0;
    while i < routes.len()
        invariant
            i <= routes.len(),
            forall|k: int|
                0 <= k < i ==> (#[trigger] routes@[k]).account_name@ == current_account_name@
                    || kiro_failed(routes@[k], texts(failed_accounts@)),
        decreases routes.len() - i,
    {
        let name = routes[i].account_name.as_str();
        if !same_text(name, current_account_name) && !list_has(failed_accounts, name) {
            assert(routes@[i as int].account_name@ != current_account_name@);
            return true;
        }
        i += 1;
    }
    false
}

/// Adds a name to a set of names.
pub fn add_name(names: &mut Vec<String>, name: &str)
    ensures
        forall|other: Seq<char>| #[trigger]
            texts(final(names)@).contains(other) == (texts(old(names)@).contains(other) || other
                == name@),
{
    if list_has(names, name) {
        return;
    }
    let ghost before = texts(names@);
    names.push(name.to_owned());
    proof {
        crate::text::lemma_texts_push(old(names)@, names@.last());
        assert(names@ =~= old(names)@.push(names@.last()));
        assert forall|other: Seq<char>| #[trigger] texts(names@).contains(other) == (
        before.contains(other) || other == name@) by {
            let after = before.push(name@);
            assert(texts(names@) == after);
            if before.contains(other) {
                let k = choose|k: int| 0 <= k < before.len() && before[k] == other;
                assert(after[k] == other);
            }
            if other == name@ {
                assert(after[before.len() as int] == other);
            }
            if after.contains(other) {
                let k = choose|k: int| 0 <= k < after.len() && after[k] == other;
                if k < before.len() {
                    assert(before[k] == other);
                }
            }
        }
    }
}

/// An account, and its proxy where one is named, that must rest.
pub struct KiroCooldown {
    pub routing_identity: String,
    pub seconds: u64,
    pub proxy_key: Option<String>,
}

/// What follows from a failed call.
pub struct KiroFailover {
    /// Whether the request goes on with another selection.
    pub retry: bool,
    /// The accounts whose quota is to be marked as exhausted.
    pub exhausted_accounts: Vec<String>,
    pub cooldown: Option<KiroCooldown>,
}

pub open spec fn route_proxy_key(route: ProviderKiroRoute) -> Option<Seq<char>> {
    match route.proxy {
        Some(proxy) => Some("url:"@ + proxy.proxy_url@),
        None => None,
    }
}

/// What follows from a failure of a given kind. `after` are the failed accounts then.
pub open spec fn failover_of(
    kind: KiroRouteFailureKind,
    route: ProviderKiroRoute,
    routes: Seq<ProviderKiroRoute>,
    before: Seq<Seq<char>>,
    after: Seq<Seq<char>>,
    failover: KiroFailover,
) -> bool {
    match kind {
        KiroRouteFailureKind::QuotaExhausted => {
            let accounts = identity_accounts(routes, route.routing_identity@);
            &&& forall|name: Seq<char>| #[trigger]
                after.contains(name) == (before.contains(name) || accounts.contains(name))
            &&& texts(failover.exhausted_accounts@) == accounts
            &&& failover.cooldown is None
            &&& failover.retry == another_candidate(routes, after, route.account_name@)
        },
        KiroRouteFailureKind::RateLimited { cooldown_seconds, mark_proxy } => {
            &&& after == before
            &&& failover.exhausted_accounts@.len() == 0
            &&& failover.retry
            &&& failover.cooldown matches Some(cooldown) && {
                &&& cooldown.routing_identity@ == route.routing_identity@
                &&& cooldown.seconds == cooldown_seconds
                &&& opt_text(cooldown.proxy_key) == if mark_proxy {
                    route_proxy_key(route)
                } else {
                    None
                }
            }
        },
        KiroRouteFailureKind::RetryNext => {
            &&& forall|name: Seq<char>| #[trigger]
                after.contains(name) == (before.contains(name) || name == route.account_name@)
            &&& failover.exhausted_accounts@.len() == 0
            &&& failover.cooldown is None
            &&& failover.retry == another_candidate(routes, after, route.account_name@)
        },
        KiroRouteFailureKind::Fatal => {
            &&& after == before
            &&& failover.exhausted_accounts@.len() == 0
            &&& failover.cooldown is None
            &&& !failover.retry
        },
    }
}

/// Decides whether a request goes on after a failed call, and what becomes of the
/// account.
pub fn should_failover_after_kiro_route_failure(
    kind: KiroRouteFailureKind,
    route: &ProviderKiroRoute,
    routes: &Vec<ProviderKiroRoute>,
    failed_accounts: &mut Vec<String>,
) -> (failover: KiroFailover)
    ensures
        failover_of(
            kind,
            *route,
            routes@,
            texts(old(failed_accounts)@),
            texts(final(failed_accounts)@),
            failover,
        ),
{
    match kind {
        KiroRouteFailureKind::QuotaExhausted => {
            let names = account_names_for_kiro_routing_identity(
                routes,
                route.routing_identity.as_str(),
            );
            let ghost accounts = texts(names@);
            let mut i: usize = 0;
            while i < names.len()
                invariant
                    i <= names.len(),
                    accounts == texts(names@),
                    forall|name: Seq<char>| #[trigger]
                        texts(failed_accounts@).contains(name) == (texts(
                            old(failed_accounts)@,
                        ).contains(name) || accounts.take(i as int).contains(name)),
                decreases names.len() - i,
            {
                let ghost before = texts(failed_accounts@);
                add_name(failed_accounts, names[i].as_str());
                i += 1;
                proof {
                    let head = accounts.take(i as int);
                    assert(head =~= accounts.take(i - 1).push(accounts[i - 1]));
                    assert forall|name: Seq<char>| #[trigger]
                        texts(failed_accounts@).contains(name) == (texts(
                            old(failed_accounts)@,
                        ).contains(name) || head.contains(name)) by {
                        lemma_push_contains(accounts.take(i - 1), accounts[i - 1], name);
                        assert(before.contains(name) == (texts(old(failed_accounts)@).contains(name)
                            || accounts.take(i - 1).contains(name)));
                    }
                }
            }
            assert(accounts.take(i as int) =~= accounts);
            let retry = has_remaining_kiro_candidate(
                routes,
                failed_accounts,
                route.account_name.as_str(),
            );
            KiroFailover { retry, exhausted_accounts: names, cooldown: None }
        },
        KiroRouteFailureKind::RateLimited { cooldown_seconds, mark_proxy } => {
            let proxy_key = if mark_proxy {
                proxy_cooldown_key_for_route(route)
            } else {
                None
            };
            KiroFailover {
                retry: true,
                exhausted_accounts: Vec::new(),
                cooldown: Some(
                    KiroCooldown {
                        routing_identity: route.routing_identity.clone(),
                        seconds: cooldown_seconds,
                        proxy_key,
                    },
                ),
            }
        },
        KiroRouteFailureKind::RetryNext => {
            add_name(failed_accounts, route.account_name.as_str());
            let retry = has_remaining_kiro_candidate(
                routes,
                failed_accounts,
                route.account_name.as_str(),
            );
            KiroFailover { retry, exhausted_accounts: Vec::new(), cooldown: None }
        },
        KiroRouteFailureKind::Fatal => KiroFailover {
            retry: false,
            exhausted_accounts: Vec::new(),
            cooldown: None,
        },
    }
}

proof fn lemma_push_contains(list: Seq<Seq<char>>, item: Seq<char>, name: Seq<char>)
    ensures
        list.push(item).contains(name) == (list.contains(name) || name == item),
{
    let all = list.push(item);
    if list.contains(name) {
        let k = choose|k: int| 0 <= k < list.len() && list[k] == name;
        assert(all[k] == name);
    }
    if name == item {
        assert(all[list.len() as int] == name);
    }
    if all.contains(name) {
        let k = choose|k: int| 0 <= k < all.len() && all[k] == name;
        if k < list.len() {
            assert(list[k] == name);
        }
    }
}

/// The notes after one more failover.
pub open spec fn failover_counted(meta: ProviderUsageMetadata) -> ProviderUsageMetadata {
    ProviderUsageMetadata {
        quota_failover_count: if meta.quota_failover_count == u64::MAX {
            u64::MAX
        } else {
            (meta.quota_failover_count + 1) as u64
        },
        ..meta
    }
}

// ---------------------------------------------------------------------------
// The request body
// ---------------------------------------------------------------------------

#[derive(Debug, Clone, Copy, PartialEq, Eq, Structural)]
pub enum ProfileArnError {
    NotJson,
    NotAnObject,
    NotWritten,
}

pub open spec fn arn_member(profile_arn: Option<Seq<char>>) -> Option<JsonView> {
    match profile_arn {
        Some(arn) => match nonempty_trim(arn) {
            Some(arn) => Some(JsonView::Str(arn)),
            None => None,
        },
        None => None,
    }
}

/// The object with its `profileArn` set, or removed where there is none.
pub open spec fn arn_body(value: JsonView, profile_arn: Option<Seq<char>>) -> JsonView {
    set_or_remove(value, "profileArn"@, arn_member(profile_arn))
}

pub fn json_with_profile_arn(value: Json, profile_arn: Option<&str>) -> (result: Json)
    ensures
        result@ == arn_body(value@, opt_str(profile_arn)),
{
    let arn = match profile_arn {
        Some(arn) => trimmed_nonempty(arn),
        None => None,
    };
    match arn {
        Some(arn) => value.with("profileArn", Json::Str(arn)),
        None => value.without("profileArn"),
    }
}

/// The body of a generate request with the profile of the account.
pub fn kiro_request_body_with_profile_arn(request_body: &[u8], profile_arn: Option<&str>) -> (result:
    Result<Vec<u8>, ProfileArnError>)
    ensures
        match parsed_bytes(request_body@) {
            None => result == Err::<Vec<u8>, ProfileArnError>(ProfileArnError::NotJson),
            Some(value) => if value is Object {
                match written_bytes(arn_body(value, opt_str(profile_arn))) {
                    Some(bytes) => result matches Ok(body) && body@ == bytes,
                    None => result == Err::<Vec<u8>, ProfileArnError>(ProfileArnError::NotWritten),
                }
            } else {
                result == Err::<Vec<u8>, ProfileArnError>(ProfileArnError::NotAnObject)
            },
        },
{
    let value = match parse_bytes(request_body) {
        Some(value) => value,
        None => return Err(ProfileArnError::NotJson),
    };
    match &value {
        Json::Object(_) => {},
        _ => return Err(ProfileArnError::NotAnObject),
    }
    let changed = json_with_profile_arn(value, profile_arn);
    match write_bytes(&changed) {
        Some(bytes) => Ok(bytes),
        None => Err(ProfileArnError::NotWritten),
    }
}

// ---------------------------------------------------------------------------
// Web search
// ---------------------------------------------------------------------------

/// A complete assistant message.
pub open spec fn assistant_message(
    id: Seq<char>,
    content: JsonView,
    model: Seq<char>,
    stop_reason: Seq<char>,
    usage: JsonView,
) -> JsonView {
    empty_object().with("id"@, JsonView::Str("msg_"@ + id)).with(
        "type"@,
        JsonView::Str("message"@),
    ).with("role"@, JsonView::Str("assistant"@)).with("content"@, content).with(
        "model"@,
        JsonView::Str(model),
    ).with("stop_reason"@, JsonView::Str(stop_reason)).with("stop_sequence"@, JsonView::Null).with(
        "usage"@,
        usage,
    )
}

/// A random UUID in its simple form: 32 digits, with the version and the variant in their
/// places.
pub open spec fn is_simple_uuid(id: Seq<char>) -> bool {
    &&& id.len() == 32
    &&& forall|i: int| 0 <= i < 32 ==> is_lower_hex(#[trigger] id[i])
    &&& id[12] == '4'
    &&& is_variant_digit(id[16])
}

/// `uuid::Uuid::new_v4` in its simple format: 32 lower case hexadecimal digits, with the
/// version four and the variant in their places. The other digits rest on chance.
#[verifier::external_body]
pub(crate) fn random_simple_id() -> (id: String)
    ensures
        is_simple_uuid(id@),
{
    uuid::Uuid::new_v4().simple().to_string()
}

pub fn build_assistant_message(
    id: &str,
    content: Json,
    model: &str,
    stop_reason: &str,
    usage: Json,
) -> (message: Json)
    ensures
        message@ == assistant_message(id@, content@, model@, stop_reason@, usage@),
{
    Json::new_object().with("id", Json::Str(concat2("msg_", id))).with(
        "type",
        Json::str("message"),
    ).with("role", Json::str("assistant")).with("content", content).with(
        "model",
        Json::str(model),
    ).with("stop_reason", Json::str(stop_reason)).with("stop_sequence", Json::Null).with(
        "usage",
        usage,
    )
}

/// The message that answers a web search, under a fresh id.
pub fn websearch_message(content: Json, model: &str, usage: Json) -> (message: Json)
    ensures
        exists|id: Seq<char>|
            is_simple_uuid(id) && #[trigger] assistant_message(
                id,
                content@,
                model@,
                "end_turn"@,
                usage@,
            ) == message@,
{
    let id = random_simple_id();
    build_assistant_message(id.as_str(), content, model, "end_turn", usage)
}

/// The reply after the usage of a failed request was recorded, or was not.
pub fn kiro_recorded_reply(recorded: bool, reply: Reply) -> (result: Reply)
    ensures
        recorded ==> result == reply,
        !recorded ==> is_kiro_error(result, 500, "api_error"@, "failed to record usage"@),
{
    if recorded {
        reply
    } else {
        kiro_refusal_reply(KiroRefusal::UsageNotRecorded)
    }
}

// ---------------------------------------------------------------------------
// Laws
// ---------------------------------------------------------------------------

/// Accounts that failed stay failed through every failover.
pub proof fn law_failed_accounts_stay_failed(
    kind: KiroRouteFailureKind,
    route: ProviderKiroRoute,
    routes: Seq<ProviderKiroRoute>,
    before: Seq<Seq<char>>,
    after: Seq<Seq<char>>,
    failover: KiroFailover,
    name: Seq<char>,
)
    requires
        failover_of(kind, route, routes, before, after, failover),
        before.contains(name),
    ensures
        after.contains(name),
{
}

/// A failure that blames the account takes it out: the next selection passes it over.
pub proof fn law_blamed_account_is_out(
    kind: KiroRouteFailureKind,
    route: ProviderKiroRoute,
    routes: Seq<ProviderKiroRoute>,
    before: Seq<Seq<char>>,
    after: Seq<Seq<char>>,
    failover: KiroFailover,
    position: int,
)
    requires
        failover_of(kind, route, routes, before, after, failover),
        kind == KiroRouteFailureKind::RetryNext || kind == KiroRouteFailureKind::QuotaExhausted,
        0 <= position < routes.len(),
        routes[position] == route,
    ensures
        kiro_failed(route, after),
{
    if kind == KiroRouteFailureKind::QuotaExhausted {
        lemma_identity_accounts_contains(routes, route.routing_identity@, position);
    }
}

proof fn lemma_identity_accounts_contains(
    routes: Seq<ProviderKiroRoute>,
    identity: Seq<char>,
    position: int,
)
    requires
        0 <= position < routes.len(),
        routes[position].routing_identity@ == identity,
    ensures
        identity_accounts(routes, identity).contains(routes[position].account_name@),
    decreases routes.len(),
{
    let head = routes.drop_last();
    let before = identity_accounts(head, identity);
    let all = identity_accounts(routes, identity);
    if position < head.len() {
        lemma_identity_accounts_contains(head, identity, position);
        let k = choose|k: int|
            0 <= k < before.len() && before[k] == routes[position].account_name@;
        assert(all[k] == routes[position].account_name@);
    } else {
        assert(all[all.len() - 1] == routes[position].account_name@);
    }
}

/// An account that used up its quota takes every account of its identity with it, and no
/// other one: they are all out and to be marked. The request goes on where another account
/// is left.
pub proof fn law_a_used_up_quota_takes_out_the_identity(
    route: ProviderKiroRoute,
    routes: Seq<ProviderKiroRoute>,
    before: Seq<Seq<char>>,
    after: Seq<Seq<char>>,
    failover: KiroFailover,
)
    requires
        failover_of(KiroRouteFailureKind::QuotaExhausted, route, routes, before, after, failover),
    ensures
        forall|i: int|
            0 <= i < routes.len() && (#[trigger] routes[i]).routing_identity@
                == route.routing_identity@ ==> after.contains(routes[i].account_name@) && texts(
                failover.exhausted_accounts@,
            ).contains(routes[i].account_name@),
        forall|name: Seq<char>| #[trigger]
            after.contains(name) && !before.contains(name) ==> texts(
                failover.exhausted_accounts@,
            ).contains(name),
        forall|name: Seq<char>| #[trigger]
            texts(failover.exhausted_accounts@).contains(name) ==> exists|i: int|
                0 <= i < routes.len() && (#[trigger] routes[i]).routing_identity@
                    == route.routing_identity@ && routes[i].account_name@ == name,
        failover.cooldown is None,
        failover.retry <==> exists|i: int|
            0 <= i < routes.len() && (#[trigger] routes[i]).account_name@ != route.account_name@
                && !after.contains(routes[i].account_name@),
{
    assert forall|i: int|
        0 <= i < routes.len() && (#[trigger] routes[i]).routing_identity@
            == route.routing_identity@ implies after.contains(routes[i].account_name@) && texts(
        failover.exhausted_accounts@,
    ).contains(routes[i].account_name@) by {
        lemma_identity_accounts_contains(routes, route.routing_identity@, i);
    }
    assert forall|name: Seq<char>| #[trigger]
        texts(failover.exhausted_accounts@).contains(name) implies exists|i: int|
        0 <= i < routes.len() && (#[trigger] routes[i]).routing_identity@ == route.routing_identity@
            && routes[i].account_name@ == name by {
        lemma_identity_accounts_from_routes(routes, route.routing_identity@, name);
    }
}

proof fn lemma_identity_accounts_from_routes(
    routes: Seq<ProviderKiroRoute>,
    identity: Seq<char>,
    name: Seq<char>,
)
    requires
        identity_accounts(routes, identity).contains(name),
    ensures
        exists|i: int|
            0 <= i < routes.len() && (#[trigger] routes[i]).routing_identity@ == identity
                && routes[i].account_name@ == name,
    decreases routes.len(),
{
    if routes.len() > 0 {
        let head = routes.drop_last();
        let before = identity_accounts(head, identity);
        let all = identity_accounts(routes, identity);
        let k = choose|k: int| 0 <= k < all.len() && all[k] == name;
        if k < before.len() {
            assert(before[k] == name);
            lemma_identity_accounts_from_routes(head, identity, name);
            let i = choose|i: int|
                0 <= i < head.len() && (#[trigger] head[i]).routing_identity@ == identity
                    && head[i].account_name@ == name;
            assert(routes[i] == head[i]);
        } else {
            assert(routes[routes.len() - 1].account_name@ == name);
        }
    }
}

/// A rate limit lets the account rest for its time and takes no account out: the request
/// goes on. The proxy rests with it exactly where it is to.
pub proof fn law_a_rate_limit_lets_the_account_rest(
    cooldown_seconds: u64,
    mark_proxy: bool,
    route: ProviderKiroRoute,
    routes: Seq<ProviderKiroRoute>,
    before: Seq<Seq<char>>,
    after: Seq<Seq<char>>,
    failover: KiroFailover,
)
    requires
        failover_of(
            KiroRouteFailureKind::RateLimited { cooldown_seconds, mark_proxy },
            route,
            routes,
            before,
            after,
            failover,
        ),
    ensures
        failover.retry,
        after == before,
        failover.exhausted_accounts@.len() == 0,
        failover.cooldown matches Some(cooldown) && cooldown.seconds == cooldown_seconds
            && cooldown.routing_identity@ == route.routing_identity@,
        failover.cooldown matches Some(cooldown) && (cooldown.proxy_key is Some <==> mark_proxy
            && route.proxy is Some),
        mark_proxy ==> (route.proxy matches Some(proxy) ==> (
        failover.cooldown matches Some(cooldown) && opt_text(cooldown.proxy_key) == Some(
            "url:"@ + proxy.proxy_url@,
        ))),
{
}

/// A failure that blames the account alone takes this one out; the request goes on where
/// another is left. A fatal one ends the request and changes nothing.
pub proof fn law_which_failures_go_on(
    kind: KiroRouteFailureKind,
    route: ProviderKiroRoute,
    routes: Seq<ProviderKiroRoute>,
    before: Seq<Seq<char>>,
    after: Seq<Seq<char>>,
    failover: KiroFailover,
)
    requires
        failover_of(kind, route, routes, before, after, failover),
    ensures
        kind == KiroRouteFailureKind::Fatal ==> !failover.retry && after == before
            && failover.cooldown is None && failover.exhausted_accounts@.len() == 0,
        kind == KiroRouteFailureKind::RetryNext ==> after.contains(route.account_name@),
        kind == KiroRouteFailureKind::RetryNext ==> forall|name: Seq<char>|
            name != route.account_name@ ==> #[trigger] after.contains(name) == before.contains(name),
        kind == KiroRouteFailureKind::RetryNext ==> (failover.retry <==> exists|i: int|
            0 <= i < routes.len() && (#[trigger] routes[i]).account_name@ != route.account_name@
                && !before.contains(routes[i].account_name@)),
        kind == KiroRouteFailureKind::RetryNext ==> failover.cooldown is None
            && failover.exhausted_accounts@.len() == 0,
{
    if kind == KiroRouteFailureKind::RetryNext {
        assert forall|i: int|
            0 <= i < routes.len() && (#[trigger] routes[i]).account_name@ != route.account_name@
                && !before.contains(routes[i].account_name@) implies failover.retry by {
            assert(!after.contains(routes[i].account_name@));
            assert(!kiro_failed(routes[i], after));
        }
        if failover.retry {
            let i = choose|i: int|
                0 <= i < routes.len() && (#[trigger] routes[i]).account_name@ != route.account_name@
                    && !kiro_failed(routes[i], after);
            assert(!after.contains(routes[i].account_name@));
            assert(!before.contains(routes[i].account_name@));
        }
    }
}

/// A refusal that blames the client has a status of 4xx and says so in its type, and no
/// other refusal does.
pub proof fn law_client_faults_are_told_as_such(refusal: KiroRefusal)
    ensures
        400 <= refusal_status(refusal) <= 499 <==> refusal_type(refusal)
            == "invalid_request_error"@,
        400 <= refusal_status(refusal) <= 499 || 500 <= refusal_status(refusal) <= 599,
        refusal is InvalidJson || refusal is BodyTooLarge || refusal is NoSearchQuery
            ==> refusal_status(refusal) == 400,
        refusal is UnsupportedMethod ==> refusal_status(refusal) == 405,
        refusal is UnsupportedEndpoint ==> refusal_status(refusal) == 404,
        refusal is RouteNotConfigured ==> refusal_status(refusal) == 503,
{
    reveal_strlit("invalid_request_error");
    reveal_strlit("api_error");
    assert("invalid_request_error"@.len() == 21 && "api_error"@.len() == 9);
}

/// The profile goes into the body without the space around it and takes the place of any
/// other; without one, the body has none. Every other member stays as it is.
pub proof fn law_the_profile_goes_into_the_body(value: JsonView, profile_arn: Option<Seq<char>>)
    requires
        value is Object,
    ensures
        profile_arn matches Some(arn) ==> (crate::text::trim(arn).len() > 0 ==> arn_body(
            value,
            profile_arn,
        ).get_str("profileArn"@) == Some(crate::text::trim(arn))),
        profile_arn matches Some(arn) ==> (crate::text::trim(arn).len() == 0 ==> arn_body(
            value,
            profile_arn,
        ).get("profileArn"@) is None),
        profile_arn is None ==> arn_body(value, profile_arn).get("profileArn"@) is None,
        forall|key: Seq<char>|
            key != "profileArn"@ ==> #[trigger] arn_body(value, profile_arn).get(key) == value.get(
                key,
            ),
{
}

/// A path is served with or without the gateway's prefix, under the same public path, and
/// that path is its own.
pub proof fn law_the_prefix_does_not_matter(path: Seq<char>)
    ensures
        kiro_messages_path(path) matches Some(public) ==> kiro_messages_path(public) == Some(public),
        kiro_messages_path(path) matches Some(public) ==> path == public || path
            == "/api/kiro-gateway"@ + public,
        kiro_messages_path("/v1/messages"@) == Some("/v1/messages"@),
        kiro_messages_path("/cc/v1/messages"@) == Some("/cc/v1/messages"@),
        kiro_messages_path("/api/kiro-gateway/v1/messages"@) == Some("/v1/messages"@),
        kiro_messages_path("/api/kiro-gateway/cc/v1/messages"@) == Some("/cc/v1/messages"@),
{
    reveal_strlit("/v1/messages");
    reveal_strlit("/cc/v1/messages");
    reveal_strlit("/api/kiro-gateway");
    reveal_strlit("/api/kiro-gateway/v1/messages");
    reveal_strlit("/api/kiro-gateway/cc/v1/messages");
    assert("/v1/messages"@.len() == 12 && "/cc/v1/messages"@.len() == 15);
    assert("/api/kiro-gateway/v1/messages"@.len() == 29);
    assert("/api/kiro-gateway/cc/v1/messages"@.len() == 32);
    assert("/api/kiro-gateway"@ + "/v1/messages"@ =~= "/api/kiro-gateway/v1/messages"@);
    assert("/api/kiro-gateway"@ + "/cc/v1/messages"@ =~= "/api/kiro-gateway/cc/v1/messages"@);
}

/// What a request for messages enters: only a request that posts to one of the served paths
/// does, and each other is refused for its own reason.
pub proof fn law_what_a_message_request_enters(
    routes: Option<usize>,
    method: &str,
    path: &str,
    result: Result<&'static str, KiroRefusal>,
)
    requires
        call_ensures(kiro_endpoint, (routes, method, path), result),
    ensures
        result is Ok <==> (routes matches Some(count) && count > 0) && kiro_messages_path(path@)
            is Some && method@ == "POST"@,
        result matches Ok(public) ==> Some(public@) == kiro_messages_path(path@),
        routes is None ==> (result matches Err(refusal) && refusal_status(refusal) == 500),
        routes == Some(0usize) ==> (result matches Err(refusal) && refusal_status(refusal) == 503),
        routes matches Some(count) ==> (count > 0 && kiro_messages_path(path@) is None ==> (
        result matches Err(refusal) && refusal_status(refusal) == 404)),
        routes matches Some(count) ==> (count > 0 && kiro_messages_path(path@) is Some && method@
            != "POST"@ ==> (result matches Err(refusal) && refusal_status(refusal) == 405)),
{
}

/// The answer that stands for a failed call: one that says that the prompt was too long is
/// told as such, any other as the upstream did.
pub proof fn law_too_long_prompts_are_told_as_such(
    status: u16,
    body: &[u8],
    context_window: i32,
    request_input_tokens: i32,
    result: (u16, Option<Reply>),
)
    requires
        call_ensures(
            kiro_failed_answer,
            (status, body, context_window, request_input_tokens),
            result,
        ),
    ensures
        status == 413 ==> result.0 == 413 && (result.1 matches Some(reply) && reply.status == 413),
        crate::text::contains(
            crate::text::lower(lossy_text(body@)),
            "input is too long"@,
        ) ==> result.0 == 413 && result.1 is Some,
        result.1 is None ==> result.0 == status,
        result.1 is Some ==> result.0 == 413,
{
}

/// A message of the assistant holds what it was made of, each under its name.
pub proof fn law_what_a_message_holds(
    id: &str,
    content: Json,
    model: &str,
    stop_reason: &str,
    usage: Json,
    message: Json,
)
    requires
        call_ensures(build_assistant_message, (id, content, model, stop_reason, usage), message),
    ensures
        message@.get("content"@) == Some(content@),
        message@.get("model"@) == Some(JsonView::Str(model@)),
        message@.get("stop_reason"@) == Some(JsonView::Str(stop_reason@)),
        message@.get("stop_sequence"@) == Some(JsonView::Null),
        message@.get("usage"@) == Some(usage@),
        message@.get("role"@) == Some(JsonView::Str("assistant"@)),
        message@.get("type"@) == Some(JsonView::Str("message"@)),
        message@.get("id"@) == Some(JsonView::Str("msg_"@ + id@)),
{
    reveal_strlit("id");
    reveal_strlit("type");
    reveal_strlit("role");
    reveal_strlit("content");
    reveal_strlit("model");
    reveal_strlit("stop_reason");
    reveal_strlit("stop_sequence");
    reveal_strlit("usage");
    assert("id"@.len() == 2);
    assert("type"@.len() == 4 && "type"@[0] == 't');
    assert("role"@.len() == 4 && "role"@[0] == 'r');
    assert("content"@.len() == 7);
    assert("model"@.len() == 5 && "model"@[0] == 'm');
    assert("usage"@.len() == 5 && "usage"@[0] == 'u');
    assert("stop_reason"@.len() == 11);
    assert("stop_sequence"@.len() == 13);
}

/// A failure before the call notes the message and the request, but not over what was noted
/// before.
pub proof fn law_a_failure_before_the_call_is_noted(
    before: ProviderUsageMetadata,
    after: ProviderUsageMetadata,
    message: Seq<char>,
    body: Seq<u8>,
)
    requires
        preflight_noted(before, after, message, body),
    ensures
        before.error_message is Some ==> opt_text(after.error_message) == opt_text(
            before.error_message,
        ),
        before.error_message is None && crate::text::trim(message).len() > 0 ==> opt_text(
            after.error_message,
        ) == Some(crate::text::trim(message)),
        before.client_request_body_json is None ==> opt_bytes(after.client_request_body_json)
            == Some(body),
        before.client_request_body_json is Some ==> opt_bytes(after.client_request_body_json)
            == opt_bytes(before.client_request_body_json),
        after.started_at_ns == before.started_at_ns,
{
}

} // verus!
