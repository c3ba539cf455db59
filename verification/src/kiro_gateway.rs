//! The course of a request through the Kiro gateway, from its arrival to the reply.

use vstd::prelude::*;
use crate::compaction::{compaction_guard, effective_tokens, estimate_effective_input_tokens, guard,
    is_summary_request, AnchorTokenCounts};
use crate::errors::{anthropic_json_error, is_too_long, lossy_text, prompt_too_long, Reply};
use crate::json::{opt_bytes, show_text, shown_text, Json};
use crate::kiro_call::{generate_url, kiro_generate_url, kiro_mcp_url, mcp_url, KiroRouteFailure,
    KiroRouteFailureKind};
use crate::kiro_dispatch::{add_name, another_candidate, assistant_message, failover_counted, failover_of,
    has_remaining_kiro_candidate, is_simple_uuid, kiro_endpoint, kiro_failed_answer, kiro_messages_path,
    kiro_recorded_reply, kiro_refusal_reply, kiro_request_url, note_logged_bodies,
    note_preflight_failure, note_upstream_failure, preflight_noted, refusal_message,
    refusal_status, refusal_type, should_failover_after_kiro_route_failure, upstream_noted,
    websearch_message, KiroFailover, KiroRefusal};
use crate::kiro_model::{apply_kiro_model_mapping, kiro_affinity_session_id, map_error, mapped_name,
    override_kiro_thinking_from_model_name, pair_views, remember_kiro_session_affinity,
    thinking_override,
    unicode_lower, KiroSessionAffinity, Message, MessagesRequest, ResolvedConversationId,
    SessionIdSource};
use crate::kiro_stream::{kiro_answer_headers, kiro_headers, refused_usage};
use crate::kiro_usage::{is_kiro_record, kiro_facts, record_kiro_preflight_failure,
    record_kiro_usage, record_kiro_websearch_usage, search_detail, zero_usage, KiroUsageSummary};
use crate::limiter::{kiro_key_limit_response, kiro_limit_message, LimitRejection};
use crate::route_selection::{is_kiro_error, kiro_failed};
use crate::text::{clone_opt, nonempty_trim, opt_text, texts, trim};
use crate::types::{AuthenticatedKey, ProviderKiroRoute};
use crate::usage_event::{is_usage_event, UsageEvent, UsageFacts};
use crate::usage_meta::{capture_client_request_body_json, capture_upstream_request_body_json,
    clamped, elapsed_millis, first_kept, or_zero, saturating_difference, saturating_sum,
    ProviderUsageMetadata};

verus! {

// ---------------------------------------------------------------------------
// Messages
// ---------------------------------------------------------------------------

/// A request for messages on its way.
pub struct KiroDispatch {
    pub key: AuthenticatedKey,
    /// The accounts that the key may use; there is one at least.
    pub routes: Vec<ProviderKiroRoute>,
    pub public_path: String,
    /// The body as the client sent it.
    pub body: Vec<u8>,
    pub payload: MessagesRequest,
    /// The model after renaming.
    pub model: String,
    pub websearch: bool,
    /// The session that accounts are remembered under.
    pub session: Option<String>,
    pub source: SessionIdSource,
    pub input_tokens: i32,
    /// The account that served the session before.
    pub preferred: Option<String>,
    /// The position of the selected account.
    pub selected: usize,
    /// The selected account, with its credentials.
    pub route: Option<ProviderKiroRoute>,
    /// The body as it goes upstream.
    pub upstream_body: Vec<u8>,
    pub failed_accounts: Vec<String>,
    pub meta: ProviderUsageMetadata,
}

/// What the caller knows of a request that fails before any call: what is billed for it, or
/// nothing where the settings of the account cannot be read, and the time.
#[derive(Clone, Copy)]
pub struct PreflightStamp {
    pub billable_tokens: Option<u64>,
    pub created_at_ms: i64,
    pub now_ns: u128,
}

/// What the caller knows of a call that failed: the room and the length of the prompt as the
/// upstream counts them, what is billed for it, and the time.
#[derive(Clone, Copy)]
pub struct FailureStamp {
    pub context_window: i32,
    pub resolved_input_tokens: i32,
    pub billable_tokens: u64,
    pub created_at_ms: i64,
    pub now_ns: u128,
}

/// A call that failed for good: what is recorded of it, and the reply that takes the place
/// of the upstream's where there is one.
pub struct FailedCall {
    pub event: UsageEvent,
    pub replacement: Option<Reply>,
}

/// What has happened to a request.
pub enum KiroEvent {
    /// The body was read, or was too large.
    Body { body: Option<Vec<u8>>, read_ms: i64 },
    /// The body was read as a request, or the reason why it is none.
    Parsed {
        payload: Result<MessagesRequest, String>,
        last_message: Option<String>,
        parse_ms: i64,
        now_ns: u128,
    },
    /// It is known whether the request searches the web, and what session it belongs to.
    Examined { websearch: bool, session: ResolvedConversationId },
    /// The media of the messages were fetched or taken out; or one could not be fetched.
    Media { messages: Result<Vec<Message>, String>, stamp: PreflightStamp },
    /// The tokens of the request were counted.
    Counted { tokens: i32 },
    /// The words for a request that must be compacted first.
    TooLong { message: String, reply: Reply, stamp: PreflightStamp },
    /// The request was put in the upstream's form; or the reason why it cannot be.
    Converted { refusal: Option<(String, Reply)>, stamp: PreflightStamp },
    /// The permit of the key was had or refused.
    Permit { rejection: Option<LimitRejection> },
    /// No account can be selected.
    NoAccount { reply: Reply },
    Selected { position: usize, wait_ms: i64 },
    /// The credentials of the account were had or not.
    Hydrated { route: Result<ProviderKiroRoute, Reply> },
    /// What is known of earlier turns; or the reason why the settings are not usable.
    Cached { recovered: Result<Option<AnchorTokenCounts>, String> },
    /// The request was encoded. `upstream_base` is where the region of the account is served.
    Encoded { body: Option<Vec<u8>>, upstream_base: String },
    /// The call failed; `peeked` where the failure came with the first look at a stream.
    CallFailed { failure: KiroRouteFailure, peeked: bool, stamp: FailureStamp },
    /// The call was answered with an error.
    Refused { status: u16, error_body: Vec<u8>, stamp: FailureStamp },
    /// The call was answered.
    Answered { now_ns: u128 },
    /// The first frame of the stream is there.
    Peeked,
    /// The usage of a failed request was recorded or not.
    Recorded { recorded: bool, reply: Reply },
}

/// What is to be done for a request.
pub enum KiroAction {
    ReadBody,
    Parse,
    Examine,
    ResolveMedia,
    StripMedia,
    CountTokens,
    /// Find words for a prompt of `tokens` that the limit stops.
    WordTooLong { tokens: i32, limit: i32 },
    Convert { validate: bool },
    AcquirePermit { max_concurrency: Option<u64>, min_start_interval_ms: Option<u64> },
    Select { preferred: Option<String> },
    Hydrate { position: usize },
    BuildCache { recover_session: bool, recover_counts: bool },
    Encode,
    /// Send the encoded request to the address.
    Call { url: String },
    /// See to the failed account; then select another, or record the failure and answer
    /// with it: by the reply, or as the upstream did.
    AfterFailure { failover: KiroFailover, answer: Option<FailedCall> },
    /// Record the failure and answer: by the reply, or as the upstream did.
    RecordFailure { call: FailedCall },
    Peek,
    Stream,
    /// Hand the whole answer on; its record goes first, and decides whether the session is
    /// remembered.
    Answer { session: Option<String> },
    Search,
    /// Record that the request failed before any call, where there is a record, and answer,
    /// whether it could be recorded or not.
    RecordPreflight { event: Option<UsageEvent>, reply: Reply },
    Reply { reply: Reply },
}

pub open spec fn is_refusal(action: KiroAction, refusal: KiroRefusal) -> bool {
    action matches KiroAction::Reply { reply } && is_kiro_error(
        reply,
        refusal_status(refusal),
        refusal_type(refusal),
        refusal_message(refusal),
    )
}

fn refuse(refusal: KiroRefusal) -> (action: KiroAction)
    ensures
        is_refusal(action, refusal),
{
    KiroAction::Reply { reply: kiro_refusal_reply(refusal) }
}

/// The account that a session prefers.
pub open spec fn preferred_account(
    affinity: Map<(Seq<char>, Seq<char>), Seq<char>>,
    key_id: Seq<char>,
    session: Option<Seq<char>>,
) -> Option<Seq<char>> {
    match session {
        Some(session) => if affinity.dom().contains((key_id, session)) {
            Some(affinity[(key_id, session)])
        } else {
            None
        },
        None => None,
    }
}

fn look_up_preferred(affinity: &KiroSessionAffinity, key_id: &str, session: &Option<String>) -> (result:
    Option<String>)
    ensures
        opt_text(result) == preferred_account(affinity.view(), key_id@, opt_text(*session)),
{
    match session {
        Some(session) => affinity.lookup(key_id, session.as_str()),
        None => None,
    }
}

/// The accounts that are remembered after an account served a session.
pub open spec fn remembered(
    affinity: Map<(Seq<char>, Seq<char>), Seq<char>>,
    key_id: Seq<char>,
    session: Option<Seq<char>>,
    account: Seq<char>,
) -> Map<(Seq<char>, Seq<char>), Seq<char>> {
    match session {
        Some(session) => affinity.insert((key_id, session), account),
        None => affinity,
    }
}

pub open spec fn selects(action: KiroAction, preferred: Option<String>) -> bool {
    action matches KiroAction::Select { preferred: named } && opt_text(named) == opt_text(preferred)
}

/// The session that accounts are remembered under: none for a generated one.
pub open spec fn session_of(resolved: ResolvedConversationId) -> Option<Seq<char>> {
    if resolved.source is GeneratedFallback {
        None
    } else {
        nonempty_trim(resolved.conversation_id@)
    }
}

/// The counts that the guard goes by: none where the guard is off.
pub open spec fn counts_used(
    trigger: u64,
    recovered: Option<AnchorTokenCounts>,
) -> Option<AnchorTokenCounts> {
    if trigger > 0 {
        recovered
    } else {
        None
    }
}

pub open spec fn failed_views(dispatch: KiroDispatch) -> Seq<Seq<char>> {
    texts(dispatch.failed_accounts@)
}

/// The failed accounts with one more.
pub open spec fn one_more(before: Seq<Seq<char>>, after: Seq<Seq<char>>, name: Seq<char>) -> bool {
    forall|other: Seq<char>| #[trigger]
        after.contains(other) == (before.contains(other) || other == name)
}

pub open spec fn body_step(
    before: KiroDispatch,
    body: Option<Vec<u8>>,
    read_ms: i64,
    after: KiroDispatch,
    action: KiroAction,
) -> bool {
    match body {
        None => after == before && is_refusal(action, KiroRefusal::BodyTooLarge),
        Some(body) => {
            &&& action == KiroAction::Parse
            &&& after == (KiroDispatch {
                body,
                meta: ProviderUsageMetadata {
                    request_body_bytes: Some(clamped(body@.len() as int)),
                    request_body_read_ms: Some(read_ms),
                    ..before.meta
                },
                ..before
            })
        },
    }
}

/// The notes after the request was read.
pub open spec fn parse_noted(
    meta: ProviderUsageMetadata,
    last_message: Option<String>,
    parse_ms: i64,
    now_ns: u128,
) -> ProviderUsageMetadata {
    ProviderUsageMetadata {
        request_json_parse_ms: Some(parse_ms),
        pre_handler_ms: Some(elapsed_millis(meta.started_at_ns, now_ns)),
        last_message_content: last_message,
        ..meta
    }
}

pub open spec fn parsed_step(
    before: KiroDispatch,
    payload: Result<MessagesRequest, String>,
    last_message: Option<String>,
    parse_ms: i64,
    now_ns: u128,
    after: KiroDispatch,
    action: KiroAction,
) -> bool {
    match payload {
        Err(error) => after == before && is_refusal(action, KiroRefusal::InvalidJson { error }),
        Ok(payload) => {
            let map_json = before.routes@[0].model_name_map_json@;
            let meta = parse_noted(before.meta, last_message, parse_ms, now_ns);
            match map_error(map_json) {
                Some(message) => {
                    &&& after == (KiroDispatch { meta, ..before })
                    &&& exists|error: String|
                        error@ == message && #[trigger] is_refusal(
                            action,
                            KiroRefusal::InvalidModelMap { error },
                        )
                },
                None => {
                    &&& action == KiroAction::Examine
                    &&& after == (KiroDispatch {
                        payload: after.payload,
                        model: after.model,
                        meta,
                        ..before
                    })
                    &&& after.payload == (MessagesRequest { model: after.payload.model, ..payload })
                    &&& after.payload.model@ == mapped_name(map_json, payload.model@)
                    &&& after.model@ == after.payload.model@
                },
            }
        },
    }
}

pub open spec fn examined_step(
    before: KiroDispatch,
    websearch: bool,
    session: ResolvedConversationId,
    after: KiroDispatch,
    action: KiroAction,
) -> bool {
    &&& after == (KiroDispatch {
        websearch,
        session: after.session,
        source: session.source,
        ..before
    })
    &&& opt_text(after.session) == session_of(session)
    &&& action == if before.routes@[0].remote_media_resolution_enabled {
        KiroAction::ResolveMedia
    } else {
        KiroAction::StripMedia
    }
}

/// The account that a failure is recorded for: the one in use, or else the first.
pub open spec fn recorded_route(dispatch: KiroDispatch) -> ProviderKiroRoute {
    match dispatch.route {
        Some(route) => route,
        None => dispatch.routes@[0],
    }
}

/// The notes with the time at which the request ended.
pub open spec fn finish_noted(meta: ProviderUsageMetadata, now_ns: u128) -> ProviderUsageMetadata {
    ProviderUsageMetadata {
        stream_finish_ms: Some(elapsed_millis(meta.started_at_ns, now_ns)),
        ..meta
    }
}

/// The request fails before any call. It is recorded as one that cost nothing upstream,
/// unless the settings of the account cannot be read.
pub open spec fn preflight_step(
    before: KiroDispatch,
    message: Seq<char>,
    status: u16,
    stamp: PreflightStamp,
    after: KiroDispatch,
    event: Option<UsageEvent>,
) -> bool {
    &&& after == (KiroDispatch { meta: after.meta, ..before })
    &&& exists|noted: ProviderUsageMetadata| #[trigger]
        preflight_noted(before.meta, noted, message, before.body@) && after.meta == finish_noted(
            noted,
            stamp.now_ns,
        )
    &&& match stamp.billable_tokens {
        None => event is None,
        Some(billable_tokens) => event matches Some(event) && is_kiro_record(
            event,
            before.key,
            recorded_route(before),
            before.public_path@,
            before.model@,
            status,
            zero_usage(),
            billable_tokens,
            after.meta,
            stamp.created_at_ms,
            stamp.now_ns,
        ),
    }
}

pub open spec fn media_step(
    before: KiroDispatch,
    messages: Result<Vec<Message>, String>,
    stamp: PreflightStamp,
    after: KiroDispatch,
    action: KiroAction,
) -> bool {
    match messages {
        Ok(messages) => {
            &&& action == KiroAction::CountTokens
            &&& after == (KiroDispatch {
                payload: MessagesRequest { messages, ..before.payload },
                ..before
            })
        },
        Err(message) => {
            action matches KiroAction::RecordPreflight { event, reply } && preflight_step(
                before,
                message@,
                400,
                stamp,
                after,
                event,
            ) && is_kiro_error(reply, 400, "invalid_request_error"@, message@)
        },
    }
}

/// The notes with the client's body, where the account asks for all requests.
pub open spec fn search_noted(
    before: ProviderUsageMetadata,
    after: ProviderUsageMetadata,
    logged: bool,
    body: Seq<u8>,
) -> bool {
    if logged {
        &&& after == (ProviderUsageMetadata {
            client_request_body_json: after.client_request_body_json,
            ..before
        })
        &&& opt_bytes(after.client_request_body_json) == first_kept(
            opt_bytes(before.client_request_body_json),
            Some(body),
        )
    } else {
        after == before
    }
}

pub open spec fn counted_step(
    before: KiroDispatch,
    tokens: i32,
    after: KiroDispatch,
    action: KiroAction,
) -> bool {
    let first = before.routes@[0];
    &&& after == (KiroDispatch {
        payload: after.payload,
        input_tokens: tokens,
        meta: after.meta,
        ..before
    })
    &&& thinking_override(unicode_lower(before.payload.model@), before.payload, after.payload)
    &&& if before.websearch {
        match guard(first.compact_trigger_tokens, tokens, is_summary_request(after.payload)) {
            Some(limit) => action == (KiroAction::WordTooLong { tokens, limit }) && after.meta
                == before.meta,
            None => action == KiroAction::Search && search_noted(
                before.meta,
                after.meta,
                first.full_request_logging_enabled,
                before.body@,
            ),
        }
    } else {
        action == (KiroAction::Convert { validate: first.request_validation_enabled })
            && after.meta == before.meta
    }
}

pub open spec fn hydrated_step(
    before: KiroDispatch,
    route: Result<ProviderKiroRoute, Reply>,
    after: KiroDispatch,
    action: KiroAction,
) -> bool {
    match route {
        Ok(route) => {
            &&& after == (KiroDispatch { route: Some(route), ..before })
            &&& action == (KiroAction::BuildCache {
                recover_session: before.source is GeneratedFallback,
                recover_counts: route.compact_trigger_tokens > 0,
            })
        },
        Err(reply) => {
            &&& after == (KiroDispatch {
                failed_accounts: after.failed_accounts,
                meta: failover_counted(before.meta),
                ..before
            })
            &&& one_more(
                failed_views(before),
                failed_views(after),
                before.routes@[before.selected as int].account_name@,
            )
            &&& if another_candidate(before.routes@, failed_views(after), Seq::empty()) {
                selects(action, before.preferred)
            } else {
                action == (KiroAction::Reply { reply })
            }
        },
    }
}

pub open spec fn cached_step(
    before: KiroDispatch,
    recovered: Result<Option<AnchorTokenCounts>, String>,
    after: KiroDispatch,
    action: KiroAction,
) -> bool {
    &&& after == before
    &&& match recovered {
        Err(error) => is_refusal(action, KiroRefusal::InvalidCacheConfig { error }),
        Ok(recovered) => {
            let trigger = before.route->0.compact_trigger_tokens;
            let tokens = effective_tokens(before.input_tokens, counts_used(trigger, recovered));
            match guard(trigger, tokens as i32, is_summary_request(before.payload)) {
                Some(limit) => action == (KiroAction::WordTooLong { tokens: tokens as i32, limit }),
                None => action == KiroAction::Encode,
            }
        },
    }
}

/// The notes with both bodies, where the account asks for them.
pub open spec fn bodies_noted(
    before: ProviderUsageMetadata,
    after: ProviderUsageMetadata,
    route: ProviderKiroRoute,
    client_body: Seq<u8>,
    upstream_body: Seq<u8>,
) -> bool {
    if route.zero_cache_debug_enabled || route.full_request_logging_enabled {
        &&& after == (ProviderUsageMetadata {
            client_request_body_json: after.client_request_body_json,
            upstream_request_body_json: after.upstream_request_body_json,
            ..before
        })
        &&& opt_bytes(after.client_request_body_json) == first_kept(
            opt_bytes(before.client_request_body_json),
            Some(client_body),
        )
        &&& opt_bytes(after.upstream_request_body_json) == first_kept(
            opt_bytes(before.upstream_request_body_json),
            Some(upstream_body),
        )
    } else {
        after == before
    }
}

pub open spec fn encoded_step(
    before: KiroDispatch,
    body: Option<Vec<u8>>,
    upstream_base: Seq<char>,
    after: KiroDispatch,
    action: KiroAction,
) -> bool {
    match body {
        None => after == before && is_refusal(action, KiroRefusal::EncodingFailed),
        Some(body) => {
            &&& action matches KiroAction::Call { url } && url@ == generate_url(upstream_base)
            &&& after == (KiroDispatch { upstream_body: body, meta: after.meta, ..before })
            &&& bodies_noted(before.meta, after.meta, before.route->0, before.body@, body@)
        },
    }
}

/// The status that is recorded for an error of the upstream, and the reply that takes the
/// place of the upstream's where the prompt was too long.
pub open spec fn is_failed_answer(
    answer: (u16, Option<Reply>),
    status: u16,
    too_long: bool,
    context_window: i32,
    input_tokens: i32,
) -> bool {
    if too_long {
        &&& answer.0 == 413
        &&& answer.1 matches Some(reply) && is_kiro_error(
            reply,
            413,
            "invalid_request_error"@,
            prompt_too_long(context_window, input_tokens),
        )
    } else {
        answer.0 == status && answer.1 is None
    }
}

/// A call that failed for good: the client learns whether the prompt was too long, and the
/// record tells of the prompt alone.
pub open spec fn is_failed_call(
    call: FailedCall,
    dispatch: KiroDispatch,
    status: u16,
    too_long: bool,
    stamp: FailureStamp,
) -> bool {
    let told: u16 = if too_long {
        413
    } else {
        status
    };
    &&& is_failed_answer(
        (told, call.replacement),
        status,
        too_long,
        stamp.context_window,
        dispatch.input_tokens,
    )
    &&& is_kiro_record(
        call.event,
        dispatch.key,
        dispatch.route->0,
        dispatch.public_path@,
        dispatch.model@,
        told,
        refused_usage(stamp.resolved_input_tokens),
        stamp.billable_tokens,
        dispatch.meta,
        stamp.created_at_ms,
        stamp.now_ns,
    )
}

pub open spec fn call_failed_step(
    before: KiroDispatch,
    failure: KiroRouteFailure,
    peeked: bool,
    stamp: FailureStamp,
    after: KiroDispatch,
    action: KiroAction,
) -> bool {
    &&& after == (KiroDispatch {
        failed_accounts: after.failed_accounts,
        meta: after.meta,
        ..before
    })
    &&& action matches KiroAction::AfterFailure { failover, answer } && {
        &&& failover_of(
            failure.kind,
            before.route->0,
            before.routes@,
            failed_views(before),
            failed_views(after),
            failover,
        )
        &&& if failover.retry {
            answer is None && after.meta == failover_counted(before.meta)
        } else {
            &&& upstream_noted(
                before.meta,
                after.meta,
                before.body@,
                before.upstream_body@,
                failure.body@,
                stamp.now_ns,
            )
            &&& answer matches Some(call) && is_failed_call(
                call,
                after,
                failure.status,
                !peeked && is_too_long(failure.status, lossy_text(failure.body@)),
                stamp,
            )
        }
    }
}

/// The notes with the time at which the upstream answered.
pub open spec fn headers_noted(meta: ProviderUsageMetadata, now_ns: u128) -> ProviderUsageMetadata {
    ProviderUsageMetadata {
        upstream_headers_ms: Some(elapsed_millis(meta.started_at_ns, now_ns)),
        ..meta
    }
}

pub open spec fn refused_step(
    before: KiroDispatch,
    status: u16,
    body: Seq<u8>,
    stamp: FailureStamp,
    after: KiroDispatch,
    action: KiroAction,
) -> bool {
    &&& after == (KiroDispatch { meta: after.meta, ..before })
    &&& upstream_noted(
        headers_noted(before.meta, stamp.now_ns),
        after.meta,
        before.body@,
        before.upstream_body@,
        body,
        stamp.now_ns,
    )
    &&& action matches KiroAction::RecordFailure { call } && is_failed_call(
        call,
        after,
        status,
        is_too_long(status, lossy_text(body)),
        stamp,
    )
}

/// What an event makes of a request, and what is to be done then.
pub open spec fn kiro_step(
    before: KiroDispatch,
    affinity: Map<(Seq<char>, Seq<char>), Seq<char>>,
    event: KiroEvent,
    after: KiroDispatch,
    affinity_after: Map<(Seq<char>, Seq<char>), Seq<char>>,
    action: KiroAction,
) -> bool {
    &&& affinity_after == if event is Peeked {
        remembered(
            affinity,
            before.key.key_id@,
            opt_text(before.session),
            before.route->0.account_name@,
        )
    } else {
        affinity
    }
    &&& match event {
        KiroEvent::Body { body, read_ms } => body_step(before, body, read_ms, after, action),
        KiroEvent::Parsed { payload, last_message, parse_ms, now_ns } => parsed_step(
            before,
            payload,
            last_message,
            parse_ms,
            now_ns,
            after,
            action,
        ),
        KiroEvent::Examined { websearch, session } => examined_step(
            before,
            websearch,
            session,
            after,
            action,
        ),
        KiroEvent::Media { messages, stamp } => media_step(before, messages, stamp, after, action),
        KiroEvent::Counted { tokens } => counted_step(before, tokens, after, action),
        KiroEvent::TooLong { message, reply, stamp } => {
            action matches KiroAction::RecordPreflight { event, reply: told } && told == reply
                && preflight_step(before, message@, 413, stamp, after, event)
        },
        KiroEvent::Converted { refusal, stamp } => match refusal {
            Some((message, reply)) => {
                action matches KiroAction::RecordPreflight { event, reply: told } && told == reply
                    && preflight_step(before, message@, 400, stamp, after, event)
            },
            None => {
                &&& after == before
                &&& action == (KiroAction::AcquirePermit {
                    max_concurrency: before.routes@[0].request_max_concurrency,
                    min_start_interval_ms: before.routes@[0].request_min_start_interval_ms,
                })
            },
        },
        KiroEvent::Permit { rejection } => match rejection {
            Some(rejection) => {
                &&& after == before
                &&& action matches KiroAction::Reply { reply } && is_kiro_error(
                    reply,
                    429,
                    "rate_limit_error"@,
                    kiro_limit_message(rejection),
                )
            },
            None => {
                &&& after == (KiroDispatch { preferred: after.preferred, ..before })
                &&& opt_text(after.preferred) == preferred_account(
                    affinity,
                    before.key.key_id@,
                    opt_text(before.session),
                )
                &&& selects(action, after.preferred)
            },
        },
        KiroEvent::NoAccount { reply } => after == before && action == (KiroAction::Reply {
            reply,
        }),
        KiroEvent::Selected { position, wait_ms } => {
            &&& action == (KiroAction::Hydrate { position })
            &&& after == (KiroDispatch {
                selected: position,
                meta: ProviderUsageMetadata {
                    routing_wait_ms: Some(
                        saturating_sum(or_zero(before.meta.routing_wait_ms), wait_ms),
                    ),
                    ..before.meta
                },
                ..before
            })
        },
        KiroEvent::Hydrated { route } => hydrated_step(before, route, after, action),
        KiroEvent::Cached { recovered } => cached_step(before, recovered, after, action),
        KiroEvent::Encoded { body, upstream_base } => encoded_step(
            before,
            body,
            upstream_base@,
            after,
            action,
        ),
        KiroEvent::CallFailed { failure, peeked, stamp } => call_failed_step(
            before,
            failure,
            peeked,
            stamp,
            after,
            action,
        ),
        KiroEvent::Refused { status, error_body, stamp } => refused_step(
            before,
            status,
            error_body@,
            stamp,
            after,
            action,
        ),
        KiroEvent::Answered { now_ns } => {
            &&& after == (KiroDispatch { meta: headers_noted(before.meta, now_ns), ..before })
            &&& if before.payload.stream {
                action == KiroAction::Peek
            } else {
                action matches KiroAction::Answer { session } && opt_text(session) == opt_text(
                    before.session,
                )
            }
        },
        KiroEvent::Peeked => after == before && action == KiroAction::Stream,
        KiroEvent::Recorded { recorded, reply } => {
            &&& after == before
            &&& action matches KiroAction::Reply { reply: told } && if recorded {
                told == reply
            } else {
                is_kiro_error(told, 500, "api_error"@, "failed to record usage"@)
            }
        },
    }
}

/// A request has its accounts, and the selected one is among them.
pub open spec fn is_under_way(dispatch: KiroDispatch) -> bool {
    dispatch.selected < dispatch.routes@.len()
}

/// Nothing has happened to a request yet.
pub open spec fn is_fresh(dispatch: KiroDispatch) -> bool {
    &&& dispatch.body@.len() == 0
    &&& dispatch.payload.model@.len() == 0
    &&& dispatch.payload.messages@.len() == 0
    &&& !dispatch.payload.stream
    &&& dispatch.payload.system is None
    &&& dispatch.payload.thinking is None
    &&& dispatch.payload.output_config is None
    &&& dispatch.model@.len() == 0
    &&& !dispatch.websearch
    &&& dispatch.session is None
    &&& dispatch.source == SessionIdSource::Metadata
    &&& dispatch.input_tokens == 0
    &&& dispatch.preferred is None
    &&& dispatch.selected == 0
    &&& dispatch.route is None
    &&& dispatch.upstream_body@.len() == 0
    &&& dispatch.failed_accounts@.len() == 0
}

/// An event that can happen to a request: an account is selected among those there are, and
/// what concerns the selected account happens once it is there.
pub open spec fn can_happen(dispatch: KiroDispatch, event: KiroEvent) -> bool {
    match event {
        KiroEvent::Selected { position, .. } => position < dispatch.routes@.len(),
        KiroEvent::Cached { .. } => dispatch.route is Some,
        KiroEvent::Encoded { .. } => dispatch.route is Some,
        KiroEvent::CallFailed { .. } => dispatch.route is Some,
        KiroEvent::Refused { .. } => dispatch.route is Some,
        KiroEvent::Peeked => dispatch.route is Some,
        _ => true,
    }
}

impl KiroDispatch {
    /// A request for messages, once the routes of its key are known; `routes` is nothing
    /// where they could not be resolved. `origin` is the site that the client named.
    pub fn with_routes(
        key: AuthenticatedKey,
        routes: Option<Vec<ProviderKiroRoute>>,
        method: &str,
        path: &str,
        origin: Option<&str>,
        meta: ProviderUsageMetadata,
    ) -> (result: Result<KiroDispatch, Reply>)
        ensures
            match result {
                Ok(dispatch) => {
                    &&& is_under_way(dispatch)
                    &&& dispatch.key == key
                    &&& Some(dispatch.routes) == routes
                    &&& method@ == "POST"@
                    &&& Some(dispatch.public_path@) == kiro_messages_path(path@)
                    &&& dispatch.meta == (ProviderUsageMetadata {
                        request_url: dispatch.meta.request_url,
                        ..meta
                    })
                    &&& dispatch.meta.request_url@ == match origin {
                        Some(origin) => origin@ + "/api/kiro-gateway"@ + dispatch.public_path@,
                        None => "/api/kiro-gateway"@ + dispatch.public_path@,
                    }
                    &&& is_fresh(dispatch)
                },
                Err(reply) => {
                    let refusal = match routes {
                        None => KiroRefusal::RouteResolutionFailed,
                        Some(routes) => if routes@.len() == 0 {
                            KiroRefusal::RouteNotConfigured
                        } else if kiro_messages_path(path@) is None {
                            KiroRefusal::UnsupportedEndpoint
                        } else {
                            KiroRefusal::UnsupportedMethod
                        },
                    };
                    &&& (refusal == KiroRefusal::UnsupportedMethod ==> method@ != "POST"@)
                    &&& is_kiro_error(
                        reply,
                        refusal_status(refusal),
                        refusal_type(refusal),
                        refusal_message(refusal),
                    )
                },
            },
    {
        let count: Option<usize> = match &routes {
            Some(routes) => Some(routes.len()),
            None => None,
        };
        let public_path = match kiro_endpoint(count, method, path) {
            Ok(public_path) => public_path,
            Err(refusal) => return Err(kiro_refusal_reply(refusal)),
        };
        let mut meta = meta;
        meta.request_url = kiro_request_url(origin, public_path);
        match routes {
            Some(routes) => Ok(
                KiroDispatch {
                    key,
                    routes,
                    public_path: public_path.to_owned(),
                    body: Vec::new(),
                    payload: MessagesRequest {
                        model: String::new(),
                        messages: Vec::new(),
                        stream: false,
                        system: None,
                        thinking: None,
                        output_config: None,
                    },
                    model: String::new(),
                    websearch: false,
                    session: None,
                    source: SessionIdSource::Metadata,
                    input_tokens: 0,
                    preferred: None,
                    selected: 0,
                    route: None,
                    upstream_body: Vec::new(),
                    failed_accounts: Vec::new(),
                    meta,
                },
            ),
            None => Err(kiro_refusal_reply(KiroRefusal::RouteResolutionFailed)),
        }
    }

    fn on_body(&mut self, body: Option<Vec<u8>>, read_ms: i64) -> (action: KiroAction)
        ensures
            body_step(*old(self), body, read_ms, *final(self), action),
    {
        match body {
            None => refuse(KiroRefusal::BodyTooLarge),
            Some(body) => {
                self.meta.with_request_body(body.len(), read_ms);
                self.body = body;
                KiroAction::Parse
            },
        }
    }

    fn on_parsed(
        &mut self,
        payload: Result<MessagesRequest, String>,
        last_message: Option<String>,
        parse_ms: i64,
        now_ns: u128,
    ) -> (action: KiroAction)
        requires
            is_under_way(*old(self)),
        ensures
            parsed_step(
                *old(self),
                payload,
                last_message,
                parse_ms,
                now_ns,
                *final(self),
                action,
            ),
    {
        let mut payload = match payload {
            Ok(payload) => payload,
            Err(error) => return refuse(KiroRefusal::InvalidJson { error }),
        };
        self.meta.mark_pre_handler_done(parse_ms, now_ns);
        self.meta.last_message_content = last_message;
        match apply_kiro_model_mapping(self.routes[0].model_name_map_json.as_str(), &mut payload) {
            Err(error) => refuse(KiroRefusal::InvalidModelMap { error }),
            Ok(_) => {
                self.model = payload.model.clone();
                self.payload = payload;
                KiroAction::Examine
            },
        }
    }

    fn on_examined(&mut self, websearch: bool, session: ResolvedConversationId) -> (action: KiroAction)
        requires
            is_under_way(*old(self)),
        ensures
            examined_step(*old(self), websearch, session, *final(self), action),
    {
        self.websearch = websearch;
        self.session = kiro_affinity_session_id(&session);
        self.source = session.source;
        if self.routes[0].remote_media_resolution_enabled {
            KiroAction::ResolveMedia
        } else {
            KiroAction::StripMedia
        }
    }

    /// Notes and records that the request fails before any call.
    fn fail_before_call(&mut self, message: &str, status: u16, stamp: PreflightStamp) -> (event:
        Option<UsageEvent>)
        requires
            is_under_way(*old(self)),
        ensures
            preflight_step(*old(self), message@, status, stamp, *final(self), event),
    {
        note_preflight_failure(&mut self.meta, message, self.body.as_slice());
        let ghost noted = self.meta;
        assert(preflight_noted(old(self).meta, noted, message@, old(self).body@));
        match stamp.billable_tokens {
            None => {
                self.meta.mark_stream_finish(stamp.now_ns);
                None
            },
            Some(billable_tokens) => {
                let route = match &self.route {
                    Some(route) => route,
                    None => &self.routes[0],
                };
                Some(
                    record_kiro_preflight_failure(
                        &self.key,
                        route,
                        self.public_path.as_str(),
                        self.model.as_str(),
                        status,
                        billable_tokens,
                        &mut self.meta,
                        stamp.created_at_ms,
                        stamp.now_ns,
                    ),
                )
            },
        }
    }

    /// What is recorded of a call that failed for good.
    fn failed_call(&self, status: u16, replacement: Option<Reply>, stamp: FailureStamp) -> (call:
        FailedCall)
        requires
            self.route is Some,
        ensures
            call.replacement == replacement,
            is_kiro_record(
                call.event,
                self.key,
                self.route->0,
                self.public_path@,
                self.model@,
                status,
                refused_usage(stamp.resolved_input_tokens),
                stamp.billable_tokens,
                self.meta,
                stamp.created_at_ms,
                stamp.now_ns,
            ),
    {
        let usage = KiroUsageSummary {
            input_uncached_tokens: stamp.resolved_input_tokens,
            input_cached_tokens: 0,
            output_tokens: 0,
            credit_usage: None,
            credit_usage_missing: true,
        };
        let route = match &self.route {
            Some(route) => route,
            None => &self.routes[0],
        };
        let event = record_kiro_usage(
            &self.key,
            route,
            self.public_path.as_str(),
            self.model.as_str(),
            status,
            &usage,
            stamp.billable_tokens,
            &self.meta,
            stamp.created_at_ms,
            stamp.now_ns,
        );
        FailedCall { event, replacement }
    }

    fn on_media(&mut self, messages: Result<Vec<Message>, String>, stamp: PreflightStamp) -> (action:
        KiroAction)
        requires
            is_under_way(*old(self)),
        ensures
            media_step(*old(self), messages, stamp, *final(self), action),
    {
        match messages {
            Ok(messages) => {
                self.payload.messages = messages;
                KiroAction::CountTokens
            },
            Err(message) => {
                let event = self.fail_before_call(message.as_str(), 400, stamp);
                KiroAction::RecordPreflight {
                    event,
                    reply: anthropic_json_error(400, "invalid_request_error", message.as_str()),
                }
            },
        }
    }

    fn on_counted(&mut self, tokens: i32) -> (action: KiroAction)
        requires
            is_under_way(*old(self)),
        ensures
            counted_step(*old(self), tokens, *final(self), action),
    {
        self.input_tokens = tokens;
        override_kiro_thinking_from_model_name(&mut self.payload);
        if !self.websearch {
            return KiroAction::Convert { validate: self.routes[0].request_validation_enabled };
        }
        match compaction_guard(self.routes[0].compact_trigger_tokens, tokens, &self.payload) {
            Some(limit) => KiroAction::WordTooLong { tokens, limit },
            None => {
                if self.routes[0].full_request_logging_enabled {
                    capture_client_request_body_json(&mut self.meta, self.body.as_slice());
                }
                KiroAction::Search
            },
        }
    }

    fn on_permit(&mut self, affinity: &KiroSessionAffinity, rejection: Option<LimitRejection>) -> (action:
        KiroAction)
        ensures
            match rejection {
                Some(rejection) => {
                    &&& *final(self) == *old(self)
                    &&& action matches KiroAction::Reply { reply } && is_kiro_error(
                        reply,
                        429,
                        "rate_limit_error"@,
                        kiro_limit_message(rejection),
                    )
                },
                None => {
                    &&& *final(self) == (KiroDispatch {
                        preferred: final(self).preferred,
                        ..*old(self)
                    })
                    &&& opt_text(final(self).preferred) == preferred_account(
                        affinity.view(),
                        old(self).key.key_id@,
                        opt_text(old(self).session),
                    )
                    &&& selects(action, final(self).preferred)
                },
            },
    {
        match rejection {
            Some(rejection) => KiroAction::Reply { reply: kiro_key_limit_response(&rejection) },
            None => {
                self.preferred = look_up_preferred(
                    affinity,
                    self.key.key_id.as_str(),
                    &self.session,
                );
                KiroAction::Select { preferred: clone_opt(&self.preferred) }
            },
        }
    }

    fn on_hydrated(&mut self, route: Result<ProviderKiroRoute, Reply>) -> (action: KiroAction)
        requires
            is_under_way(*old(self)),
        ensures
            hydrated_step(*old(self), route, *final(self), action),
    {
        match route {
            Ok(route) => {
                let recover_session = match self.source {
                    SessionIdSource::GeneratedFallback(_) => true,
                    _ => false,
                };
                let recover_counts = route.compact_trigger_tokens > 0;
                self.route = Some(route);
                KiroAction::BuildCache { recover_session, recover_counts }
            },
            Err(reply) => {
                let name = self.routes[self.selected].account_name.clone();
                self.meta.mark_failover();
                add_name(&mut self.failed_accounts, name.as_str());
                proof {
                    reveal_strlit("");
                    assert(""@ =~= Seq::<char>::empty());
                }
                if has_remaining_kiro_candidate(&self.routes, &self.failed_accounts, "") {
                    KiroAction::Select { preferred: clone_opt(&self.preferred) }
                } else {
                    KiroAction::Reply { reply }
                }
            },
        }
    }

    fn on_cached(&mut self, recovered: Result<Option<AnchorTokenCounts>, String>) -> (action: KiroAction)
        requires
            old(self).route is Some,
        ensures
            cached_step(*old(self), recovered, *final(self), action),
    {
        let recovered = match recovered {
            Ok(recovered) => recovered,
            Err(error) => return refuse(KiroRefusal::InvalidCacheConfig { error }),
        };
        let trigger: u64 = match &self.route {
            Some(route) => route.compact_trigger_tokens,
            None => 0,
        };
        let used = if trigger > 0 {
            recovered
        } else {
            None
        };
        let tokens: i32 = estimate_effective_input_tokens(self.input_tokens, used);
        match compaction_guard(trigger, tokens, &self.payload) {
            Some(limit) => KiroAction::WordTooLong { tokens, limit },
            None => KiroAction::Encode,
        }
    }

    fn on_encoded(&mut self, body: Option<Vec<u8>>, upstream_base: &str) -> (action: KiroAction)
        requires
            old(self).route is Some,
        ensures
            encoded_step(*old(self), body, upstream_base@, *final(self), action),
    {
        match body {
            None => refuse(KiroRefusal::EncodingFailed),
            Some(body) => {
                if let Some(route) = &self.route {
                    note_logged_bodies(
                        &mut self.meta,
                        route,
                        self.body.as_slice(),
                        body.as_slice(),
                    );
                }
                self.upstream_body = body;
                KiroAction::Call { url: kiro_generate_url(upstream_base) }
            },
        }
    }

    fn on_call_failed(
        &mut self,
        failure: KiroRouteFailure,
        peeked: bool,
        stamp: FailureStamp,
    ) -> (action: KiroAction)
        requires
            old(self).route is Some,
        ensures
            call_failed_step(*old(self), failure, peeked, stamp, *final(self), action),
    {
        let failover = match &self.route {
            Some(route) => should_failover_after_kiro_route_failure(
                failure.kind,
                route,
                &self.routes,
                &mut self.failed_accounts,
            ),
            None => KiroFailover { retry: false, exhausted_accounts: Vec::new(), cooldown: None },
        };
        if failover.retry {
            self.meta.mark_failover();
            return KiroAction::AfterFailure { failover, answer: None };
        }
        let (status, replacement) = if peeked {
            (failure.status, None)
        } else {
            kiro_failed_answer(
                failure.status,
                failure.body.as_slice(),
                stamp.context_window,
                self.input_tokens,
            )
        };
        note_upstream_failure(
            &mut self.meta,
            self.body.as_slice(),
            self.upstream_body.as_slice(),
            failure.body.as_slice(),
            stamp.now_ns,
        );
        let call = self.failed_call(status, replacement, stamp);
        KiroAction::AfterFailure { failover, answer: Some(call) }
    }

    fn on_refused(&mut self, status: u16, body: &Vec<u8>, stamp: FailureStamp) -> (action:
        KiroAction)
        requires
            old(self).route is Some,
        ensures
            refused_step(*old(self), status, body@, stamp, *final(self), action),
    {
        self.meta.mark_upstream_headers(stamp.now_ns);
        note_upstream_failure(
            &mut self.meta,
            self.body.as_slice(),
            self.upstream_body.as_slice(),
            body.as_slice(),
            stamp.now_ns,
        );
        let (told, replacement) = kiro_failed_answer(
            status,
            body.as_slice(),
            stamp.context_window,
            self.input_tokens,
        );
        KiroAction::RecordFailure { call: self.failed_call(told, replacement, stamp) }
    }
}

/// Takes a request one step further: what an event makes of it, and what is to be done.
pub fn dispatch_kiro_proxy(
    dispatch: &mut KiroDispatch,
    affinity: &mut KiroSessionAffinity,
    event: KiroEvent,
) -> (action: KiroAction)
    requires
        is_under_way(*old(dispatch)),
        can_happen(*old(dispatch), event),
    ensures
        is_under_way(*final(dispatch)),
        kiro_step(
            *old(dispatch),
            old(affinity).view(),
            event,
            *final(dispatch),
            final(affinity).view(),
            action,
        ),
{
    match event {
        KiroEvent::Body { body, read_ms } => dispatch.on_body(body, read_ms),
        KiroEvent::Parsed { payload, last_message, parse_ms, now_ns } => dispatch.on_parsed(
            payload,
            last_message,
            parse_ms,
            now_ns,
        ),
        KiroEvent::Examined { websearch, session } => dispatch.on_examined(websearch, session),
        KiroEvent::Media { messages, stamp } => dispatch.on_media(messages, stamp),
        KiroEvent::Counted { tokens } => dispatch.on_counted(tokens),
        KiroEvent::TooLong { message, reply, stamp } => {
            let event = dispatch.fail_before_call(message.as_str(), 413, stamp);
            KiroAction::RecordPreflight { event, reply }
        },
        KiroEvent::Converted { refusal, stamp } => match refusal {
            Some((message, reply)) => {
                let event = dispatch.fail_before_call(message.as_str(), 400, stamp);
                KiroAction::RecordPreflight { event, reply }
            },
            None => KiroAction::AcquirePermit {
                max_concurrency: dispatch.routes[0].request_max_concurrency,
                min_start_interval_ms: dispatch.routes[0].request_min_start_interval_ms,
            },
        },
        KiroEvent::Permit { rejection } => dispatch.on_permit(affinity, rejection),
        KiroEvent::NoAccount { reply } => KiroAction::Reply { reply },
        KiroEvent::Selected { position, wait_ms } => {
            dispatch.selected = position;
            dispatch.meta.add_routing_wait(wait_ms);
            KiroAction::Hydrate { position }
        },
        KiroEvent::Hydrated { route } => dispatch.on_hydrated(route),
        KiroEvent::Cached { recovered } => dispatch.on_cached(recovered),
        KiroEvent::Encoded { body, upstream_base } => dispatch.on_encoded(
            body,
            upstream_base.as_str(),
        ),
        KiroEvent::CallFailed { failure, peeked, stamp } => dispatch.on_call_failed(
            failure,
            peeked,
            stamp,
        ),
        KiroEvent::Refused { status, error_body, stamp } => dispatch.on_refused(
            status,
            &error_body,
            stamp,
        ),
        KiroEvent::Answered { now_ns } => {
            dispatch.meta.mark_upstream_headers(now_ns);
            if dispatch.payload.stream {
                KiroAction::Peek
            } else {
                KiroAction::Answer { session: clone_opt(&dispatch.session) }
            }
        },
        KiroEvent::Peeked => {
            if let Some(route) = &dispatch.route {
                let session = match &dispatch.session {
                    Some(session) => Some(session.as_str()),
                    None => None,
                };
                remember_kiro_session_affinity(
                    affinity,
                    dispatch.key.key_id.as_str(),
                    session,
                    route.account_name.as_str(),
                );
            }
            KiroAction::Stream
        },
        KiroEvent::Recorded { recorded, reply } => KiroAction::Reply {
            reply: kiro_recorded_reply(recorded, reply),
        },
    }
}

/// Concludes an answer that is not streamed, once its record was written or could not be.
/// The session keeps to the account only where the record is there.
pub fn conclude_kiro_answer(
    dispatch: &KiroDispatch,
    affinity: &mut KiroSessionAffinity,
    recorded: bool,
    reply: Reply,
) -> (told: Reply)
    requires
        dispatch.route is Some,
    ensures
        recorded ==> told == reply && final(affinity).view() == remembered(
            old(affinity).view(),
            dispatch.key.key_id@,
            opt_text(dispatch.session),
            dispatch.route->0.account_name@,
        ),
        !recorded ==> final(affinity).view() == old(affinity).view() && is_kiro_error(
            told,
            500,
            "api_error"@,
            "failed to record usage"@,
        ),
{
    if recorded {
        if let Some(route) = &dispatch.route {
            let session = match &dispatch.session {
                Some(session) => Some(session.as_str()),
                None => None,
            };
            remember_kiro_session_affinity(
                affinity,
                dispatch.key.key_id.as_str(),
                session,
                route.account_name.as_str(),
            );
        }
    }
    kiro_recorded_reply(recorded, reply)
}

// ---------------------------------------------------------------------------
// Web searches
// ---------------------------------------------------------------------------

/// A web search on its way.
pub struct KiroSearch {
    pub key: AuthenticatedKey,
    /// The accounts that the key may use; there is one at least.
    pub routes: Vec<ProviderKiroRoute>,
    /// The model after renaming.
    pub model: String,
    /// The client wants the answer as events.
    pub stream: bool,
    pub session: Option<String>,
    pub preferred: Option<String>,
    pub selected: usize,
    pub route: Option<ProviderKiroRoute>,
    /// The body as it goes upstream.
    pub request_body: Vec<u8>,
    pub input_tokens: i32,
    pub failed_accounts: Vec<String>,
    pub meta: ProviderUsageMetadata,
}

/// What has happened to a web search.
pub enum SearchEvent {
    /// The permit of the key was had or refused.
    Permit { rejection: Option<LimitRejection> },
    /// The messages name something to search for, or do not.
    Query { found: bool },
    Encoded { body: Result<Vec<u8>, String> },
    NoAccount { reply: Reply },
    Selected { position: usize, wait_ms: i64 },
    /// The credentials of the account were had or not. `upstream_base` is where the region
    /// of the account is served.
    Hydrated { route: Result<ProviderKiroRoute, Reply>, upstream_base: String },
    /// The search was made.
    Called { now_ns: u128 },
    /// The search failed; `propagate` where the client must see the error.
    CallFailed { failure: KiroRouteFailure, propagate: bool, now_ns: u128 },
}

/// What is to be done for a web search.
pub enum SearchAction {
    ExtractQuery,
    Encode,
    Select { preferred: Option<String> },
    Hydrate { position: usize },
    /// Send the search to the address.
    Call { url: String },
    /// Answer with what was found; `capture_details` where the bodies are recorded.
    Answer { capture_details: bool },
    /// See to the failed account; then select another, answer with the reply, or answer
    /// that nothing was found.
    AfterFailure { failover: KiroFailover, next: SearchFailureStep },
    Reply { reply: Reply },
}

pub enum SearchFailureStep {
    SelectAnother,
    Reply { reply: Reply },
    AnswerWithoutResults,
}

pub open spec fn search_selects(action: SearchAction, preferred: Option<String>) -> bool {
    action matches SearchAction::Select { preferred: named } && opt_text(named) == opt_text(
        preferred,
    )
}

pub open spec fn is_search_refusal(action: SearchAction, refusal: KiroRefusal) -> bool {
    action matches SearchAction::Reply { reply } && is_kiro_error(
        reply,
        refusal_status(refusal),
        refusal_type(refusal),
        refusal_message(refusal),
    )
}

/// The notes with the body that went upstream.
pub open spec fn upstream_body_noted(
    before: ProviderUsageMetadata,
    after: ProviderUsageMetadata,
    body: Seq<u8>,
) -> bool {
    &&& after == (ProviderUsageMetadata {
        upstream_request_body_json: after.upstream_request_body_json,
        ..before
    })
    &&& opt_bytes(after.upstream_request_body_json) == first_kept(
        opt_bytes(before.upstream_request_body_json),
        Some(body),
    )
}

/// The notes with the times of a search that was made at one moment.
pub open spec fn search_timed(meta: ProviderUsageMetadata, now_ns: u128) -> ProviderUsageMetadata {
    let at = elapsed_millis(meta.started_at_ns, now_ns);
    ProviderUsageMetadata {
        upstream_headers_ms: Some(at),
        post_headers_body_ms: Some(saturating_difference(at, at)),
        stream_finish_ms: Some(at),
        ..meta
    }
}

pub open spec fn called_step(
    before: KiroSearch,
    now_ns: u128,
    after: KiroSearch,
    action: SearchAction,
) -> bool {
    let logged = before.route->0.full_request_logging_enabled;
    &&& after == (KiroSearch { meta: after.meta, ..before })
    &&& exists|noted: ProviderUsageMetadata| #[trigger]
        search_timed(noted, now_ns) == after.meta && (if logged {
            upstream_body_noted(before.meta, noted, before.request_body@)
        } else {
            noted == before.meta
        })
    &&& action == (SearchAction::Answer { capture_details: logged })
}

pub open spec fn search_failed_step(
    before: KiroSearch,
    failure: KiroRouteFailure,
    propagate: bool,
    now_ns: u128,
    after: KiroSearch,
    action: SearchAction,
) -> bool {
    &&& after == (KiroSearch { failed_accounts: after.failed_accounts, meta: after.meta, ..before })
    &&& action matches SearchAction::AfterFailure { failover, next } && {
        &&& failover_of(
            failure.kind,
            before.route->0,
            before.routes@,
            texts(before.failed_accounts@),
            texts(after.failed_accounts@),
            failover,
        )
        &&& if failover.retry {
            next == SearchFailureStep::SelectAnother && after.meta == failover_counted(before.meta)
        } else if propagate {
            &&& after.meta == before.meta
            &&& next matches SearchFailureStep::Reply { reply } && is_kiro_error(
                reply,
                502,
                "api_error"@,
                lossy_text(failure.body@),
            )
        } else {
            &&& next == SearchFailureStep::AnswerWithoutResults
            &&& exists|noted: ProviderUsageMetadata| #[trigger]
                upstream_body_noted(before.meta, noted, before.request_body@) && after.meta == (
                ProviderUsageMetadata {
                    stream_finish_ms: Some(elapsed_millis(noted.started_at_ns, now_ns)),
                    ..noted
                })
        }
    }
}

pub open spec fn search_hydrated_step(
    before: KiroSearch,
    route: Result<ProviderKiroRoute, Reply>,
    upstream_base: Seq<char>,
    after: KiroSearch,
    action: SearchAction,
) -> bool {
    match route {
        Ok(route) => {
            &&& after == (KiroSearch { route: Some(route), ..before })
            &&& action matches SearchAction::Call { url } && url@ == mcp_url(upstream_base)
        },
        Err(reply) => {
            &&& after == (KiroSearch {
                failed_accounts: after.failed_accounts,
                meta: failover_counted(before.meta),
                ..before
            })
            &&& one_more(
                texts(before.failed_accounts@),
                texts(after.failed_accounts@),
                before.routes@[before.selected as int].account_name@,
            )
            &&& if another_candidate(before.routes@, texts(after.failed_accounts@), Seq::empty()) {
                search_selects(action, before.preferred)
            } else {
                action == (SearchAction::Reply { reply })
            }
        },
    }
}

/// What an event makes of a web search, and what is to be done then.
pub open spec fn search_step(
    before: KiroSearch,
    affinity: Map<(Seq<char>, Seq<char>), Seq<char>>,
    event: SearchEvent,
    after: KiroSearch,
    affinity_after: Map<(Seq<char>, Seq<char>), Seq<char>>,
    action: SearchAction,
) -> bool {
    &&& affinity_after == if event is Called {
        remembered(
            affinity,
            before.key.key_id@,
            opt_text(before.session),
            before.route->0.account_name@,
        )
    } else {
        affinity
    }
    &&& match event {
        SearchEvent::Permit { rejection } => {
            &&& after == before
            &&& match rejection {
                Some(rejection) => action matches SearchAction::Reply { reply } && is_kiro_error(
                    reply,
                    429,
                    "rate_limit_error"@,
                    kiro_limit_message(rejection),
                ),
                None => action == SearchAction::ExtractQuery,
            }
        },
        SearchEvent::Query { found } => {
            &&& after == before
            &&& if found {
                action == SearchAction::Encode
            } else {
                is_search_refusal(action, KiroRefusal::NoSearchQuery)
            }
        },
        SearchEvent::Encoded { body } => match body {
            Err(error) => after == before && is_search_refusal(
                action,
                KiroRefusal::McpEncodingFailed { error },
            ),
            Ok(body) => {
                &&& after == (KiroSearch {
                    request_body: body,
                    preferred: after.preferred,
                    ..before
                })
                &&& opt_text(after.preferred) == preferred_account(
                    affinity,
                    before.key.key_id@,
                    opt_text(before.session),
                )
                &&& search_selects(action, after.preferred)
            },
        },
        SearchEvent::NoAccount { reply } => after == before && action == (SearchAction::Reply {
            reply,
        }),
        SearchEvent::Selected { position, wait_ms } => {
            &&& action == (SearchAction::Hydrate { position })
            &&& after == (KiroSearch {
                selected: position,
                meta: ProviderUsageMetadata {
                    routing_wait_ms: Some(
                        saturating_sum(or_zero(before.meta.routing_wait_ms), wait_ms),
                    ),
                    ..before.meta
                },
                ..before
            })
        },
        SearchEvent::Hydrated { route, upstream_base } => search_hydrated_step(
            before,
            route,
            upstream_base@,
            after,
            action,
        ),
        SearchEvent::Called { now_ns } => called_step(before, now_ns, after, action),
        SearchEvent::CallFailed { failure, propagate, now_ns } => search_failed_step(
            before,
            failure,
            propagate,
            now_ns,
            after,
            action,
        ),
    }
}

pub open spec fn search_is_under_way(search: KiroSearch) -> bool {
    search.selected < search.routes@.len()
}

/// An event that can happen to a web search.
pub open spec fn search_can_happen(search: KiroSearch, event: SearchEvent) -> bool {
    match event {
        SearchEvent::Selected { position, .. } => position < search.routes@.len(),
        SearchEvent::Called { .. } => search.route is Some,
        SearchEvent::CallFailed { .. } => search.route is Some,
        _ => true,
    }
}

impl KiroSearch {
    /// The web search that a request for messages is.
    pub fn from_dispatch(dispatch: KiroDispatch) -> (search: Self)
        requires
            is_under_way(dispatch),
        ensures
            search_is_under_way(search),
            search.key == dispatch.key,
            search.routes == dispatch.routes,
            search.model == dispatch.payload.model,
            search.stream == dispatch.payload.stream,
            search.session == dispatch.session,
            search.input_tokens == dispatch.input_tokens,
            search.meta == dispatch.meta,
            search.failed_accounts@.len() == 0,
            search.preferred is None,
            search.route is None,
            search.request_body@.len() == 0,
    {
        KiroSearch {
            key: dispatch.key,
            routes: dispatch.routes,
            model: dispatch.payload.model,
            stream: dispatch.payload.stream,
            session: dispatch.session,
            preferred: None,
            selected: dispatch.selected,
            route: None,
            request_body: Vec::new(),
            input_tokens: dispatch.input_tokens,
            failed_accounts: Vec::new(),
            meta: dispatch.meta,
        }
    }

    fn on_hydrated(&mut self, route: Result<ProviderKiroRoute, Reply>, upstream_base: &str) -> (action:
        SearchAction)
        requires
            search_is_under_way(*old(self)),
        ensures
            search_hydrated_step(*old(self), route, upstream_base@, *final(self), action),
    {
        match route {
            Ok(route) => {
                self.route = Some(route);
                SearchAction::Call { url: kiro_mcp_url(upstream_base) }
            },
            Err(reply) => {
                let name = self.routes[self.selected].account_name.clone();
                self.meta.mark_failover();
                add_name(&mut self.failed_accounts, name.as_str());
                proof {
                    reveal_strlit("");
                    assert(""@ =~= Seq::<char>::empty());
                }
                if has_remaining_kiro_candidate(&self.routes, &self.failed_accounts, "") {
                    SearchAction::Select { preferred: clone_opt(&self.preferred) }
                } else {
                    SearchAction::Reply { reply }
                }
            },
        }
    }

    fn on_called(&mut self, now_ns: u128) -> (action: SearchAction)
        requires
            old(self).route is Some,
        ensures
            called_step(*old(self), now_ns, *final(self), action),
    {
        let logged = match &self.route {
            Some(route) => route.full_request_logging_enabled,
            None => false,
        };
        if logged {
            capture_upstream_request_body_json(&mut self.meta, self.request_body.as_slice());
        }
        let ghost noted = self.meta;
        self.meta.mark_upstream_headers(now_ns);
        self.meta.mark_post_headers_body(now_ns);
        self.meta.mark_stream_finish(now_ns);
        assert(search_timed(noted, now_ns) == self.meta);
        SearchAction::Answer { capture_details: logged }
    }

    fn on_call_failed(&mut self, failure: KiroRouteFailure, propagate: bool, now_ns: u128) -> (action:
        SearchAction)
        requires
            old(self).route is Some,
        ensures
            search_failed_step(*old(self), failure, propagate, now_ns, *final(self), action),
    {
        let failover = match &self.route {
            Some(route) => should_failover_after_kiro_route_failure(
                failure.kind,
                route,
                &self.routes,
                &mut self.failed_accounts,
            ),
            None => KiroFailover { retry: false, exhausted_accounts: Vec::new(), cooldown: None },
        };
        if failover.retry {
            self.meta.mark_failover();
            return SearchAction::AfterFailure {
                failover,
                next: SearchFailureStep::SelectAnother,
            };
        }
        if propagate {
            let reply = anthropic_json_error(502, "api_error", failure.body_text().as_str());
            return SearchAction::AfterFailure {
                failover,
                next: SearchFailureStep::Reply { reply },
            };
        }
        capture_upstream_request_body_json(&mut self.meta, self.request_body.as_slice());
        let ghost noted = self.meta;
        assert(upstream_body_noted(old(self).meta, noted, old(self).request_body@));
        self.meta.mark_stream_finish(now_ns);
        SearchAction::AfterFailure { failover, next: SearchFailureStep::AnswerWithoutResults }
    }
}

/// Takes a web search one step further: what an event makes of it, and what is to be done.
pub fn dispatch_kiro_websearch(
    search: &mut KiroSearch,
    affinity: &mut KiroSessionAffinity,
    event: SearchEvent,
) -> (action: SearchAction)
    requires
        search_is_under_way(*old(search)),
        search_can_happen(*old(search), event),
    ensures
        search_is_under_way(*final(search)),
        search_step(
            *old(search),
            old(affinity).view(),
            event,
            *final(search),
            final(affinity).view(),
            action,
        ),
{
    match event {
        SearchEvent::Permit { rejection } => match rejection {
            Some(rejection) => SearchAction::Reply { reply: kiro_key_limit_response(&rejection) },
            None => SearchAction::ExtractQuery,
        },
        SearchEvent::Query { found } => if found {
            SearchAction::Encode
        } else {
            SearchAction::Reply { reply: kiro_refusal_reply(KiroRefusal::NoSearchQuery) }
        },
        SearchEvent::Encoded { body } => match body {
            Err(error) => SearchAction::Reply {
                reply: kiro_refusal_reply(KiroRefusal::McpEncodingFailed { error }),
            },
            Ok(body) => {
                search.request_body = body;
                search.preferred = look_up_preferred(
                    affinity,
                    search.key.key_id.as_str(),
                    &search.session,
                );
                SearchAction::Select { preferred: clone_opt(&search.preferred) }
            },
        },
        SearchEvent::NoAccount { reply } => SearchAction::Reply { reply },
        SearchEvent::Selected { position, wait_ms } => {
            search.selected = position;
            search.meta.add_routing_wait(wait_ms);
            SearchAction::Hydrate { position }
        },
        SearchEvent::Hydrated { route, upstream_base } => search.on_hydrated(
            route,
            upstream_base.as_str(),
        ),
        SearchEvent::Called { now_ns } => {
            if let Some(route) = &search.route {
                let session = match &search.session {
                    Some(session) => Some(session.as_str()),
                    None => None,
                };
                remember_kiro_session_affinity(
                    affinity,
                    search.key.key_id.as_str(),
                    session,
                    route.account_name.as_str(),
                );
            }
            search.on_called(now_ns)
        },
        SearchEvent::CallFailed { failure, propagate, now_ns } => search.on_call_failed(
            failure,
            propagate,
            now_ns,
        ),
    }
}

/// What a web search costs: nothing of its input was cached, and no credits are told.
pub open spec fn search_usage(request_input_tokens: i32, output_tokens: i32) -> KiroUsageSummary {
    KiroUsageSummary {
        input_uncached_tokens: request_input_tokens,
        input_cached_tokens: 0,
        output_tokens,
        credit_usage: None,
        credit_usage_missing: true,
    }
}

pub fn websearch_usage(request_input_tokens: i32, output_tokens: i32) -> (usage: KiroUsageSummary)
    ensures
        usage == search_usage(request_input_tokens, output_tokens),
{
    KiroUsageSummary {
        input_uncached_tokens: request_input_tokens,
        input_cached_tokens: 0,
        output_tokens,
        credit_usage: None,
        credit_usage_missing: true,
    }
}

/// What a search came to: the events that tell of it, or the blocks of a message and the
/// usage that the message shows.
pub enum SearchContent {
    Events { text: String },
    Blocks { content: Json, usage: Json },
}

/// The answer to a web search, and what is recorded of it first.
pub struct SearchReply {
    pub event: UsageEvent,
    pub status: u16,
    pub headers: Vec<(String, String)>,
    pub body: String,
}

/// What is recorded of a search that is answered.
pub open spec fn is_search_record(
    event: UsageEvent,
    search: KiroSearch,
    output_tokens: i32,
    billable_tokens: u64,
    capture_details: bool,
    created_at_ms: i64,
    now_ns: u128,
) -> bool {
    exists|facts: UsageFacts| #[trigger]
        kiro_facts(
            facts,
            search.route->0,
            "/mcp"@,
            search.model@,
            200,
            search_usage(search.input_tokens, output_tokens),
            billable_tokens,
            true,
            search_detail(capture_details, 200),
            search.meta,
        ) && is_usage_event(event, facts, search.key, search.meta, created_at_ms, now_ns)
}

/// The body of the answer: the events as they are, or one message under a fresh id.
pub open spec fn is_search_body(body: Seq<char>, content: SearchContent, model: Seq<char>) -> bool {
    match content {
        SearchContent::Events { text } => body == text@,
        SearchContent::Blocks { content, usage } => exists|id: Seq<char>|
            is_simple_uuid(id) && body == shown_text(
                #[trigger] assistant_message(id, content@, model, "end_turn"@, usage@),
            ),
    }
}

/// Answers a web search that was made, or that found nothing. `output_tokens` is the length
/// of its summary.
pub fn build_kiro_websearch_response(
    search: &KiroSearch,
    content: SearchContent,
    output_tokens: i32,
    billable_tokens: u64,
    capture_details: bool,
    created_at_ms: i64,
    now_ns: u128,
) -> (reply: SearchReply)
    requires
        search.route is Some,
        search.stream == (content is Events),
    ensures
        is_search_record(
            reply.event,
            *search,
            output_tokens,
            billable_tokens,
            capture_details,
            created_at_ms,
            now_ns,
        ),
        reply.status == 200,
        pair_views(reply.headers@) == kiro_headers(search.stream),
        is_search_body(reply.body@, content, search.model@),
{
    let usage = websearch_usage(search.input_tokens, output_tokens);
    let route = match &search.route {
        Some(route) => route,
        None => &search.routes[0],
    };
    let event = record_kiro_websearch_usage(
        &search.key,
        route,
        search.model.as_str(),
        200,
        &usage,
        billable_tokens,
        capture_details,
        &search.meta,
        created_at_ms,
        now_ns,
    );
    let headers = kiro_answer_headers(search.stream);
    let body = match content {
        SearchContent::Events { text } => text,
        SearchContent::Blocks { content, usage } => {
            let message = websearch_message(content, search.model.as_str(), usage);
            show_text(&message)
        },
    };
    SearchReply { event, status: 200, headers, body }
}

// ---------------------------------------------------------------------------
// Laws
// ---------------------------------------------------------------------------

/// What the client sent is read once and never changed.
pub proof fn law_client_body_stays(
    before: KiroDispatch,
    affinity: Map<(Seq<char>, Seq<char>), Seq<char>>,
    event: KiroEvent,
    after: KiroDispatch,
    affinity_after: Map<(Seq<char>, Seq<char>), Seq<char>>,
    action: KiroAction,
)
    requires
        kiro_step(before, affinity, event, after, affinity_after, action),
        !(event is Body),
    ensures
        after.body == before.body,
{
}

/// An account that failed a request is never forgotten while the request lasts.
pub proof fn law_failed_accounts_are_not_forgotten(
    before: KiroDispatch,
    affinity: Map<(Seq<char>, Seq<char>), Seq<char>>,
    event: KiroEvent,
    after: KiroDispatch,
    affinity_after: Map<(Seq<char>, Seq<char>), Seq<char>>,
    action: KiroAction,
    name: Seq<char>,
)
    requires
        kiro_step(before, affinity, event, after, affinity_after, action),
        failed_views(before).contains(name),
    ensures
        failed_views(after).contains(name),
{
}

/// No account is asked for without the permit of the key: the search for one begins with
/// the permit, and goes on only after an account failed.
pub proof fn law_no_account_without_permit(
    before: KiroDispatch,
    affinity: Map<(Seq<char>, Seq<char>), Seq<char>>,
    event: KiroEvent,
    after: KiroDispatch,
    affinity_after: Map<(Seq<char>, Seq<char>), Seq<char>>,
    action: KiroAction,
)
    requires
        kiro_step(before, affinity, event, after, affinity_after, action),
        action is Select,
    ensures
        event is Permit || event is Hydrated,
        event matches KiroEvent::Permit { rejection } ==> rejection is None,
{
}

/// A call that fails for good is recorded before the client is answered, for the key that
/// asked and the account that failed, and its notes hold the bodies of both sides.
pub proof fn law_failed_calls_are_recorded(
    before: KiroDispatch,
    affinity: Map<(Seq<char>, Seq<char>), Seq<char>>,
    failure: KiroRouteFailure,
    peeked: bool,
    stamp: FailureStamp,
    after: KiroDispatch,
    affinity_after: Map<(Seq<char>, Seq<char>), Seq<char>>,
    action: KiroAction,
)
    requires
        kiro_step(
            before,
            affinity,
            KiroEvent::CallFailed { failure, peeked, stamp },
            after,
            affinity_after,
            action,
        ),
        failure.kind == KiroRouteFailureKind::Fatal,
    ensures
        action matches KiroAction::AfterFailure { answer: Some(call), .. }
            && call.event.key_id@ == before.key.key_id@ && opt_text(call.event.account_name)
            == Some(before.route->0.account_name@),
        after.meta.client_request_body_json is Some,
        after.meta.upstream_request_body_json is Some,
        after.meta.stream_finish_ms is Some,
{
}

/// The next request of a session prefers the account that served the last one.
pub proof fn law_session_returns_to_its_account(
    affinity: Map<(Seq<char>, Seq<char>), Seq<char>>,
    key_id: Seq<char>,
    session: Seq<char>,
    account: Seq<char>,
)
    ensures
        preferred_account(
            remembered(affinity, key_id, Some(session), account),
            key_id,
            Some(session),
        ) == Some(account),
{
}

/// A request for a summary is never turned away as too long.
pub proof fn law_summaries_are_not_turned_away(
    before: KiroDispatch,
    affinity: Map<(Seq<char>, Seq<char>), Seq<char>>,
    recovered: Result<Option<AnchorTokenCounts>, String>,
    after: KiroDispatch,
    affinity_after: Map<(Seq<char>, Seq<char>), Seq<char>>,
    action: KiroAction,
)
    requires
        is_summary_request(before.payload),
        kiro_step(before, affinity, KiroEvent::Cached { recovered }, after, affinity_after, action),
    ensures
        !(action is WordTooLong),
{
}

/// The way of a request up to its account: what cannot be read or prepared is answered with
/// 400, what the key may not start with 429, and everything else goes on to the next step
/// with what was read.
pub proof fn law_the_way_to_an_account(
    before: KiroDispatch,
    affinity: Map<(Seq<char>, Seq<char>), Seq<char>>,
    event: KiroEvent,
    after: KiroDispatch,
    affinity_after: Map<(Seq<char>, Seq<char>), Seq<char>>,
    action: KiroAction,
)
    requires
        kiro_step(before, affinity, event, after, affinity_after, action),
    ensures
        event matches KiroEvent::Body { body, .. } ==> match body {
            Some(body) => action == KiroAction::Parse && after.body == body,
            None => action matches KiroAction::Reply { reply } && reply.status == 400,
        },
        event matches KiroEvent::Parsed { payload, .. } ==> match payload {
            Ok(payload) => (action == KiroAction::Examine ==> after.payload.messages
                == payload.messages && after.payload.stream == payload.stream && after.payload.system
                == payload.system && after.model@ == after.payload.model@) && (action
                != KiroAction::Examine ==> (action matches KiroAction::Reply { reply }
                && reply.status == 500)),
            Err(_) => action matches KiroAction::Reply { reply } && reply.status == 400,
        },
        event matches KiroEvent::Examined { websearch, session } ==> {
            &&& after.websearch == websearch
            &&& session.source is GeneratedFallback ==> after.session is None
            &&& !(session.source is GeneratedFallback) && trim(session.conversation_id@).len() > 0
                ==> opt_text(after.session) == Some(trim(session.conversation_id@))
            &&& before.routes@[0].remote_media_resolution_enabled <==> action
                == KiroAction::ResolveMedia
            &&& !before.routes@[0].remote_media_resolution_enabled <==> action
                == KiroAction::StripMedia
        },
        event matches KiroEvent::Media { messages, .. } ==> match messages {
            Ok(messages) => action == KiroAction::CountTokens && after.payload.messages == messages,
            Err(_) => action matches KiroAction::RecordPreflight { event: record, reply }
                && reply.status == 400,
        },
        event matches KiroEvent::Counted { tokens } ==> {
            &&& after.input_tokens == tokens
            &&& !before.websearch ==> action == (KiroAction::Convert {
                validate: before.routes@[0].request_validation_enabled,
            })
            &&& before.websearch && before.routes@[0].compact_trigger_tokens == 0 ==> action
                == KiroAction::Search
        },
        event matches KiroEvent::Converted { refusal, .. } ==> match refusal {
            Some(refusal) => action matches KiroAction::RecordPreflight { event: record, reply }
                && reply == refusal.1,
            None => action == (KiroAction::AcquirePermit {
                max_concurrency: before.routes@[0].request_max_concurrency,
                min_start_interval_ms: before.routes@[0].request_min_start_interval_ms,
            }),
        },
        event matches KiroEvent::Permit { rejection } ==> match rejection {
            Some(_) => action matches KiroAction::Reply { reply } && reply.status == 429,
            None => action is Select,
        },
        event matches KiroEvent::NoAccount { reply } ==> action == (KiroAction::Reply { reply }),
        event matches KiroEvent::Selected { position, .. } ==> action == (KiroAction::Hydrate {
            position,
        }) && after.selected == position && after.failed_accounts == before.failed_accounts,
{
}

/// A request of a session prefers the account that served the session under the same key,
/// and no other; a stream that has begun has its account remembered for the session, and
/// nothing else.
pub proof fn law_sessions_are_remembered_per_key(
    before: KiroDispatch,
    affinity: Map<(Seq<char>, Seq<char>), Seq<char>>,
    event: KiroEvent,
    after: KiroDispatch,
    affinity_after: Map<(Seq<char>, Seq<char>), Seq<char>>,
    action: KiroAction,
)
    requires
        kiro_step(before, affinity, event, after, affinity_after, action),
    ensures
        event matches KiroEvent::Permit { rejection } ==> (rejection is None ==> (
        action matches KiroAction::Select { preferred } && opt_text(preferred) == (
        match before.session {
            Some(session) => if affinity.dom().contains((before.key.key_id@, session@)) {
                Some(affinity[(before.key.key_id@, session@)])
            } else {
                None
            },
            None => None::<Seq<char>>,
        }))),
        event == KiroEvent::Peeked ==> action == KiroAction::Stream && (
        before.session matches Some(session) ==> affinity_after.dom().contains(
            (before.key.key_id@, session@),
        ) && affinity_after[(before.key.key_id@, session@)] == before.route->0.account_name@),
        forall|other: (Seq<char>, Seq<char>)|
            (event != KiroEvent::Peeked || before.session is None || other != (
                before.key.key_id@,
                (before.session->0)@,
            )) ==> #[trigger] affinity_after.dom().contains(other) == affinity.dom().contains(other)
                && (affinity.dom().contains(other) ==> affinity_after[other] == affinity[other]),
{
}

/// An account whose credentials cannot be had counts as failed, and another one is selected
/// where a named one is left; else the client is told. An account that is ready is taken.
pub proof fn law_accounts_without_credentials_are_passed_over(
    before: KiroDispatch,
    affinity: Map<(Seq<char>, Seq<char>), Seq<char>>,
    route: Result<ProviderKiroRoute, Reply>,
    after: KiroDispatch,
    affinity_after: Map<(Seq<char>, Seq<char>), Seq<char>>,
    action: KiroAction,
)
    requires
        kiro_step(before, affinity, KiroEvent::Hydrated { route }, after, affinity_after, action),
        before.selected < before.routes@.len(),
    ensures
        match route {
            Ok(route) => action is BuildCache && after.route == Some(route)
                && after.failed_accounts == before.failed_accounts && after.meta == before.meta,
            Err(reply) => {
                &&& texts(after.failed_accounts@).contains(
                    before.routes@[before.selected as int].account_name@,
                )
                &&& forall|name: Seq<char>|
                    name != before.routes@[before.selected as int].account_name@
                        ==> #[trigger] texts(after.failed_accounts@).contains(name) == texts(
                        before.failed_accounts@,
                    ).contains(name)
                &&& before.meta.quota_failover_count < u64::MAX ==> after.meta.quota_failover_count
                    == before.meta.quota_failover_count + 1
                &&& action is Select <==> exists|i: int|
                    0 <= i < before.routes@.len() && (#[trigger] before.routes@[i]).account_name@
                        != Seq::<char>::empty() && !texts(after.failed_accounts@).contains(
                        before.routes@[i].account_name@,
                    )
                &&& !(action is Select) ==> action == (KiroAction::Reply { reply })
            },
        },
{
    if route is Err {
        let failed = failed_views(after);
        if another_candidate(before.routes@, failed, Seq::empty()) {
            let i = choose|i: int|
                0 <= i < before.routes@.len() && (#[trigger] before.routes@[i]).account_name@
                    != Seq::<char>::empty() && !kiro_failed(before.routes@[i], failed);
            assert(!failed.contains(before.routes@[i].account_name@));
        }
        assert forall|i: int|
            0 <= i < before.routes@.len() && (#[trigger] before.routes@[i]).account_name@
                != Seq::<char>::empty() && !failed.contains(
                before.routes@[i].account_name@,
            ) implies another_candidate(before.routes@, failed, Seq::empty()) by {
            assert(!kiro_failed(before.routes@[i], failed));
        }
    }
}

/// An encoded request goes to the address of the region, with the body that was encoded; an
/// answer to a streamed request is looked at first, any other is handed on.
pub proof fn law_the_encoded_request_is_called(
    before: KiroDispatch,
    affinity: Map<(Seq<char>, Seq<char>), Seq<char>>,
    event: KiroEvent,
    after: KiroDispatch,
    affinity_after: Map<(Seq<char>, Seq<char>), Seq<char>>,
    action: KiroAction,
)
    requires
        kiro_step(before, affinity, event, after, affinity_after, action),
    ensures
        event matches KiroEvent::Cached { recovered } ==> match recovered {
            Ok(_) => before.route->0.compact_trigger_tokens == 0 ==> action == KiroAction::Encode,
            Err(_) => action matches KiroAction::Reply { reply } && reply.status == 500,
        },
        event matches KiroEvent::Encoded { body, upstream_base } ==> match body {
            Some(body) => (action matches KiroAction::Call { url } && url@ == upstream_base@
                + "/generateAssistantResponse"@) && after.upstream_body == body,
            None => action matches KiroAction::Reply { reply } && reply.status == 500,
        },
        event matches KiroEvent::Answered { .. } ==> (before.payload.stream <==> action
            == KiroAction::Peek) && (!before.payload.stream <==> action is Answer),
        event matches KiroEvent::Recorded { recorded, reply } ==> (
        action matches KiroAction::Reply { reply: told } && (recorded ==> told == reply) && (
        !recorded ==> told.status == 500)),
        event matches KiroEvent::TooLong { reply, .. } ==> (
        action matches KiroAction::RecordPreflight { event: record, reply: told } && told == reply),
{
}

/// A failed call that blames the account goes on with another one where one is left, is
/// counted and told nothing of; a rate limit goes on in any case. A fatal one is answered,
/// and so is the last account's failure.
pub proof fn law_failed_calls_go_on_or_are_answered(
    before: KiroDispatch,
    affinity: Map<(Seq<char>, Seq<char>), Seq<char>>,
    failure: KiroRouteFailure,
    peeked: bool,
    stamp: FailureStamp,
    after: KiroDispatch,
    affinity_after: Map<(Seq<char>, Seq<char>), Seq<char>>,
    action: KiroAction,
)
    requires
        kiro_step(
            before,
            affinity,
            KiroEvent::CallFailed { failure, peeked, stamp },
            after,
            affinity_after,
            action,
        ),
    ensures
        action matches KiroAction::AfterFailure { failover, answer } && {
            &&& failover.retry <==> answer is None
            &&& failure.kind is RateLimited ==> failover.retry && failover.cooldown is Some
            &&& failure.kind == KiroRouteFailureKind::Fatal ==> !failover.retry
                && texts(after.failed_accounts@) == texts(before.failed_accounts@)
            &&& failure.kind == KiroRouteFailureKind::RetryNext ==> texts(
                after.failed_accounts@,
            ).contains(before.route->0.account_name@)
            &&& failover.retry && before.meta.quota_failover_count < u64::MAX
                ==> after.meta.quota_failover_count == before.meta.quota_failover_count + 1
            &&& !failover.retry ==> after.meta.quota_failover_count
                == before.meta.quota_failover_count
            &&& peeked ==> (answer matches Some(call) ==> call.replacement is None)
            &&& !peeked && failure.status == 413 ==> (answer matches Some(call) ==> (
            call.replacement matches Some(reply) && reply.status == 413))
        },
        after.routes == before.routes,
        after.upstream_body == before.upstream_body,
{
}

/// The same of a search: one that failed goes on with another account, or tells the client
/// of the failure where it must, or answers without results.
pub proof fn law_failed_searches_go_on_or_are_answered(
    before: KiroSearch,
    affinity: Map<(Seq<char>, Seq<char>), Seq<char>>,
    failure: KiroRouteFailure,
    propagate: bool,
    now_ns: u128,
    after: KiroSearch,
    affinity_after: Map<(Seq<char>, Seq<char>), Seq<char>>,
    action: SearchAction,
)
    requires
        search_step(
            before,
            affinity,
            SearchEvent::CallFailed { failure, propagate, now_ns },
            after,
            affinity_after,
            action,
        ),
    ensures
        action matches SearchAction::AfterFailure { failover, next } && {
            &&& failover.retry <==> next == SearchFailureStep::SelectAnother
            &&& failure.kind is RateLimited ==> failover.retry
            &&& failure.kind == KiroRouteFailureKind::Fatal ==> !failover.retry
            &&& !failover.retry && propagate ==> (next matches SearchFailureStep::Reply { reply }
                && reply.status == 502)
            &&& !failover.retry && !propagate ==> next == SearchFailureStep::AnswerWithoutResults
            &&& failure.kind == KiroRouteFailureKind::RetryNext ==> texts(
                after.failed_accounts@,
            ).contains(before.route->0.account_name@)
        },
        affinity_after == affinity,
{
}

/// The way of a search: without a permit it is answered with 429, without words to search
/// for with 400; else it goes to the tool address of an account's region, and its account is
/// remembered for the session.
pub proof fn law_the_way_of_a_search(
    before: KiroSearch,
    affinity: Map<(Seq<char>, Seq<char>), Seq<char>>,
    event: SearchEvent,
    after: KiroSearch,
    affinity_after: Map<(Seq<char>, Seq<char>), Seq<char>>,
    action: SearchAction,
)
    requires
        search_step(before, affinity, event, after, affinity_after, action),
    ensures
        event matches SearchEvent::Permit { rejection } ==> match rejection {
            Some(_) => action matches SearchAction::Reply { reply } && reply.status == 429,
            None => action == SearchAction::ExtractQuery,
        },
        event matches SearchEvent::Query { found } ==> (found ==> action == SearchAction::Encode)
            && (!found ==> (action matches SearchAction::Reply { reply } && reply.status == 400)),
        event matches SearchEvent::Encoded { body } ==> match body {
            Ok(body) => action is Select && after.request_body == body,
            Err(_) => action matches SearchAction::Reply { reply } && reply.status == 500,
        },
        event matches SearchEvent::Selected { position, .. } ==> action == (SearchAction::Hydrate {
            position,
        }) && after.selected == position,
        event matches SearchEvent::Hydrated { route, upstream_base } ==> (route matches Ok(ready)
            ==> after.route == Some(ready) && (action matches SearchAction::Call { url } && url@
            == upstream_base@ + "/mcp"@)),
        event matches SearchEvent::Hydrated { route, upstream_base } ==> (route is Err ==> texts(
            after.failed_accounts@,
        ).contains(before.routes@[before.selected as int].account_name@)),
        event is Called ==> (action matches SearchAction::Answer { capture_details }
            && capture_details == before.route->0.full_request_logging_enabled),
        event is Called ==> (before.session matches Some(session) ==> affinity_after.dom().contains(
            (before.key.key_id@, session@),
        ) && affinity_after[(before.key.key_id@, session@)] == before.route->0.account_name@),
        !(event is Called) ==> affinity_after == affinity,
{
}

/// A search takes its whole input uncached, and is told no credits.
pub proof fn law_what_a_search_takes(
    request_input_tokens: i32,
    output_tokens: i32,
    usage: KiroUsageSummary,
)
    requires
        call_ensures(websearch_usage, (request_input_tokens, output_tokens), usage),
    ensures
        usage.input_uncached_tokens == request_input_tokens,
        usage.input_cached_tokens == 0,
        usage.output_tokens == output_tokens,
        usage.credit_usage is None,
        usage.credit_usage_missing,
{
}

/// A search is answered with 200, and a stream of events goes out as it is.
pub proof fn law_a_search_is_answered_with_what_was_found(
    search: &KiroSearch,
    content: SearchContent,
    output_tokens: i32,
    billable_tokens: u64,
    capture_details: bool,
    created_at_ms: i64,
    now_ns: u128,
    reply: SearchReply,
)
    requires
        call_ensures(
            build_kiro_websearch_response,
            (
                search,
                content,
                output_tokens,
                billable_tokens,
                capture_details,
                created_at_ms,
                now_ns,
            ),
            reply,
        ),
        search.route is Some,
    ensures
        reply.status == 200,
        content matches SearchContent::Events { text } ==> reply.body@ == text@,
        pair_views(reply.headers@)[0] == ("content-type"@, if search.stream {
            "text/event-stream"@
        } else {
            "application/json"@
        }),
        reply.event.status_code == 200,
        billable_tokens <= i64::MAX ==> reply.event.billable_tokens == billable_tokens,
{
}

} // verus!
