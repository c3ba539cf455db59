//! The course of a request through the Codex gateway, from its arrival to the answer.

use vstd::prelude::*;
use vstd::utf8::*;
use crate::codex_auth::{add_codex_upstream_headers, anchor_of, compute_codex_upstream_url,
    header_views, is_standard_path, metadata_field, session_headers_are, stripped, turn_metadata,
    upstream_headers, upstream_url, CodexAuthSnapshot, CodexUpstreamSessionHeaders};
use crate::codex_dispatch::{answer_kind, classify_failure, codex_entry, codex_error_retry,
    credentials_refused_step, error_step, failure_cooldown, is_retry, judge_codex_answer,
    note_codex_preflight_failure, one_more_attempt, unusable_step, CodexAnswer, CodexEntry,
    CodexNext, CodexRun, FailureCooldown};
use crate::errors::{codex_surface_error_response, is_success, lossy_text,
    status_is_success, surface_error, text_of_bytes, text_reply, Reply};
use crate::headers::Headers;
use crate::json::{opt_bytes, parse_bytes, parsed_bytes, shown_text, written_bytes, JsonView};
use crate::limiter::{codex_key_limit_response, codex_limit_message, CodexAccountCooldowns,
    LimitRejection};
use crate::route_selection::is_text_reply;
use crate::text::{clone_opt, contains, nonempty_trim, opt_text, texts};
use crate::types::{AuthenticatedKey, PreparedGatewayRequest, ProviderCodexRoute};
use crate::usage_event::{codex_preflight_facts, is_usage_event, record_codex_preflight_failure,
    UsageEvent, UsageFacts};
use crate::usage_meta::{capture_client_request_body_json, clamped, elapsed_millis,
    extract_model_from_json_body, first_kept, model_of, or_zero, saturating_sum,
    ProviderUsageMetadata, NANOS_PER_MILLI};

verus! {

/// A request on its way.
pub struct CodexDispatch {
    pub key: AuthenticatedKey,
    /// The accounts that the key may use; there is one at least.
    pub routes: Vec<ProviderCodexRoute>,
    /// The canonical path of the endpoint.
    pub endpoint: String,
    /// The headers that the client sent.
    pub headers: Headers,
    pub upstream_base: String,
    pub originator: String,
    pub client_version: String,
    /// The body as the client sent it.
    pub body: Vec<u8>,
    /// The request in the upstream's form, from which the form for each account is made.
    pub prepared: Option<PreparedGatewayRequest>,
    /// The request as it goes to the selected account.
    pub sent: Option<PreparedGatewayRequest>,
    pub auth: CodexAuthSnapshot,
    /// The position of the selected account.
    pub selected: usize,
    /// The credentials of the selected account were refreshed for this request.
    pub refreshed: bool,
    /// The request was sent once more to the selected account, without reasoning that it
    /// could not read.
    pub stripped: bool,
    /// The status of the last answer.
    pub status: u16,
    pub run: CodexRun,
}

/// What has happened to a request.
pub enum CodexEvent {
    /// The body was read, or was too large.
    Body { body: Option<Vec<u8>>, read_ms: i64, created_at_ms: i64, now_ns: u128 },
    /// The request was put in the upstream's form; or the reason why it cannot be.
    Prepared {
        prepared: Result<PreparedGatewayRequest, (u16, String)>,
        last_message: Option<String>,
        parse_ms: i64,
        created_at_ms: i64,
        now_ns: u128,
    },
    /// The permit of the key was had or refused.
    Permit { rejection: Option<LimitRejection> },
    /// No account can be selected.
    NoAccount { reply: Reply },
    Selected { position: usize, wait_ms: i64 },
    /// The selected account cannot be used: its credentials, its proxy or the connection
    /// failed.
    Unusable { cooldown_ms: u64, now_ns: u128 },
    /// The credentials of the selected account are there, and the request is in the form
    /// that the account takes; or the reason why it cannot be.
    Ready {
        auth: CodexAuthSnapshot,
        prepared: Result<PreparedGatewayRequest, (u16, String)>,
    },
    /// The upstream answered.
    Answered { status: u16, now_ns: u128 },
    /// The credentials were refreshed.
    Refreshed { auth: CodexAuthSnapshot },
    /// The body of an error was read, or could not be. `quota_ms` and `transient_ms` are how
    /// long an account is kept out for a used up quota, and for a passing failure.
    ErrorBody { bytes: Option<Vec<u8>>, quota_ms: u64, transient_ms: u64, now_ns: u128 },
}

/// What is to be done for a request.
pub enum CodexAction {
    Prepare,
    AcquirePermit { max_concurrency: Option<u64>, min_start_interval_ms: Option<u64> },
    Select,
    MakeReady { position: usize },
    /// Send the prepared body to the address, with the headers.
    Send { url: String, headers: Vec<(String, String)> },
    RefreshCredentials,
    ReadError,
    /// Pass the answer on to the client.
    Answer,
    /// An account failed: select another, pass its error on, or answer with the reply.
    /// `refused_credentials` where the account's credentials are to be marked.
    AfterFailure { refused_credentials: bool, next: CodexNext },
    /// Record that the request failed before any account was tried, and answer, whether it
    /// could be recorded or not.
    RecordPreflight { event: UsageEvent, reply: Reply },
    Reply { reply: Reply },
}

pub open spec fn is_surface_reply(
    reply: Reply,
    endpoint: Seq<char>,
    status: u16,
    message: Seq<char>,
) -> bool {
    reply.status == status && reply.json && reply.body@ == shown_text(
        surface_error(endpoint, status, message),
    )
}

/// The notes with the reason for which a request fails before any account is tried.
pub open spec fn failure_noted(
    before: ProviderUsageMetadata,
    after: ProviderUsageMetadata,
    endpoint: Seq<char>,
    status: u16,
    message: Seq<char>,
) -> bool {
    &&& after == (ProviderUsageMetadata {
        error_message: after.error_message,
        error_body: after.error_body,
        ..before
    })
    &&& opt_text(after.error_message) == first_kept(
        opt_text(before.error_message),
        nonempty_trim(message),
    )
    &&& opt_text(after.error_body) == first_kept(
        opt_text(before.error_body),
        nonempty_trim(shown_text(surface_error(endpoint, status, message))),
    )
}

/// The notes with the body that the client sent, and its last message where none is noted.
pub open spec fn client_noted(
    before: ProviderUsageMetadata,
    after: ProviderUsageMetadata,
    body: Seq<u8>,
    last_message: Option<String>,
) -> bool {
    &&& after == (ProviderUsageMetadata {
        client_request_body_json: after.client_request_body_json,
        last_message_content: first_kept(before.last_message_content, last_message),
        ..before
    })
    &&& opt_bytes(after.client_request_body_json) == first_kept(
        opt_bytes(before.client_request_body_json),
        Some(body),
    )
}

pub open spec fn with_meta(before: CodexDispatch, meta: ProviderUsageMetadata) -> CodexDispatch {
    CodexDispatch { run: CodexRun { meta, ..before.run }, ..before }
}

/// The request fails before any account is tried: the notes hold the reason and the end, and
/// the record names no account and no tokens.
pub open spec fn preflight_step(
    before: ProviderUsageMetadata,
    dispatch: CodexDispatch,
    model: Option<Seq<char>>,
    status: u16,
    message: Seq<char>,
    created_at_ms: i64,
    now_ns: u128,
    after: ProviderUsageMetadata,
    event: UsageEvent,
) -> bool {
    &&& exists|noted: ProviderUsageMetadata| #[trigger]
        failure_noted(before, noted, dispatch.endpoint@, status, message) && after == (
        ProviderUsageMetadata {
            stream_finish_ms: Some(elapsed_millis(noted.started_at_ns, now_ns)),
            ..noted
        })
    &&& exists|facts: UsageFacts, named: Option<String>| #[trigger]
        codex_preflight_facts(facts, dispatch.endpoint@, named, status, after) && opt_text(named)
            == model && is_usage_event(event, facts, dispatch.key, after, created_at_ms, now_ns)
}

pub open spec fn body_step(
    before: CodexDispatch,
    body: Option<Vec<u8>>,
    read_ms: i64,
    created_at_ms: i64,
    now_ns: u128,
    after: CodexDispatch,
    action: CodexAction,
) -> bool {
    match body {
        None => {
            &&& after == with_meta(before, after.run.meta)
            &&& action matches CodexAction::RecordPreflight { event, reply } && preflight_step(
                before.run.meta,
                before,
                None,
                400,
                "request body is too large"@,
                created_at_ms,
                now_ns,
                after.run.meta,
                event,
            ) && is_surface_reply(reply, before.endpoint@, 400, "request body is too large"@)
        },
        Some(body) => {
            &&& action == CodexAction::Prepare
            &&& after == (CodexDispatch {
                body,
                ..with_meta(
                    before,
                    ProviderUsageMetadata {
                        request_body_bytes: Some(clamped(body@.len() as int)),
                        request_body_read_ms: Some(read_ms),
                        ..before.run.meta
                    },
                )
            })
        },
    }
}

/// The model that a body names.
pub open spec fn body_model(body: Seq<u8>) -> Option<Seq<char>> {
    match parsed_bytes(body) {
        Some(value) => model_of(value),
        None => None,
    }
}

pub open spec fn prepared_step(
    before: CodexDispatch,
    prepared: Result<PreparedGatewayRequest, (u16, String)>,
    last_message: Option<String>,
    parse_ms: i64,
    created_at_ms: i64,
    now_ns: u128,
    after: CodexDispatch,
    action: CodexAction,
) -> bool {
    match prepared {
        Ok(prepared) => {
            &&& after == (CodexDispatch {
                prepared: Some(prepared),
                ..with_meta(
                    before,
                    ProviderUsageMetadata {
                        request_json_parse_ms: Some(parse_ms),
                        pre_handler_ms: Some(elapsed_millis(before.run.meta.started_at_ns, now_ns)),
                        last_message_content: prepared.last_message_content,
                        ..before.run.meta
                    },
                )
            })
            &&& action == (CodexAction::AcquirePermit {
                max_concurrency: before.routes@[0].request_max_concurrency,
                min_start_interval_ms: before.routes@[0].request_min_start_interval_ms,
            })
        },
        Err(failure) => {
            &&& after == with_meta(before, after.run.meta)
            &&& action matches CodexAction::RecordPreflight { event, reply } && {
                &&& exists|noted: ProviderUsageMetadata| #[trigger]
                    client_noted(before.run.meta, noted, before.body@, last_message)
                        && preflight_step(
                        noted,
                        before,
                        body_model(before.body@),
                        failure.0,
                        failure.1@,
                        created_at_ms,
                        now_ns,
                        after.run.meta,
                        event,
                    )
                &&& is_surface_reply(reply, before.endpoint@, failure.0, failure.1@)
            }
        },
    }
}

/// The action sends a request: to the upstream's address for its path, with the headers of
/// the client, of the account and of the session.
pub open spec fn sends(
    action: CodexAction,
    dispatch: CodexDispatch,
    prepared: PreparedGatewayRequest,
) -> bool {
    action matches CodexAction::Send { url, headers } && {
        &&& url@ == upstream_url(dispatch.upstream_base@, prepared.upstream_path@)
        &&& exists|session: CodexUpstreamSessionHeaders| #[trigger]
            session_headers_are(
                dispatch.headers,
                anchor_of(prepared),
                is_standard_path(prepared.upstream_path@),
                metadata_field(turn_metadata(dispatch.headers), "session_id"@),
                metadata_field(turn_metadata(dispatch.headers), "thread_id"@),
                session,
            ) && header_views(headers@) == upstream_headers(
                dispatch.headers,
                prepared,
                dispatch.auth,
                session,
                dispatch.originator@,
                dispatch.client_version@,
            )
    }
}

pub open spec fn ready_step(
    before: CodexDispatch,
    auth: CodexAuthSnapshot,
    prepared: Result<PreparedGatewayRequest, (u16, String)>,
    after: CodexDispatch,
    action: CodexAction,
) -> bool {
    match prepared {
        Err(failure) => {
            &&& after == before
            &&& action matches CodexAction::Reply { reply } && is_text_reply(
                reply,
                failure.0,
                failure.1@,
            )
        },
        Ok(prepared) => {
            &&& after == (CodexDispatch {
                auth,
                sent: Some(prepared),
                refreshed: false,
                stripped: false,
                ..before
            })
            &&& sends(action, after, prepared)
        },
    }
}

pub open spec fn answered_step(
    before: CodexDispatch,
    status: u16,
    now_ns: u128,
    after: CodexDispatch,
    action: CodexAction,
) -> bool {
    &&& after == (CodexDispatch {
        status,
        ..with_meta(
            before,
            ProviderUsageMetadata {
                upstream_headers_ms: Some(elapsed_millis(before.run.meta.started_at_ns, now_ns)),
                ..before.run.meta
            },
        )
    })
    &&& action == if before.stripped {
        if is_success(status) {
            CodexAction::Answer
        } else {
            CodexAction::ReadError
        }
    } else {
        match answer_kind(status, before.refreshed) {
            CodexAnswer::Success => CodexAction::Answer,
            CodexAnswer::RefreshCredentials => CodexAction::RefreshCredentials,
            CodexAnswer::CredentialsRefused => CodexAction::ReadError,
            CodexAnswer::Error => CodexAction::ReadError,
        }
    }
}

/// The name of the selected account.
pub open spec fn account_of(dispatch: CodexDispatch) -> Seq<char> {
    dispatch.routes@[dispatch.selected as int].account_name@
}

/// The answer refuses the credentials that were just refreshed.
pub open spec fn refuses_credentials(dispatch: CodexDispatch) -> bool {
    !dispatch.stripped && (dispatch.status == 401 || dispatch.status == 403)
}

/// How long an account is kept out for an error.
pub open spec fn cooldown_for(
    status: u16,
    bytes: Seq<u8>,
    quota_ms: u64,
    transient_ms: u64,
) -> Option<u64> {
    match failure_cooldown(status, parsed_bytes(bytes), lossy_text(bytes), bytes) {
        FailureCooldown::Free => None,
        FailureCooldown::Quota => Some(quota_ms),
        FailureCooldown::Transient => Some(transient_ms),
    }
}

pub open spec fn error_body_step(
    before: CodexDispatch,
    blocked: Map<Seq<char>, u128>,
    bytes: Option<Vec<u8>>,
    quota_ms: u64,
    transient_ms: u64,
    now_ns: u128,
    after: CodexDispatch,
    blocked_after: Map<Seq<char>, u128>,
    action: CodexAction,
) -> bool {
    match bytes {
        None => {
            &&& after == before
            &&& blocked_after == blocked
            &&& action matches CodexAction::Reply { reply } && is_text_reply(
                reply,
                502,
                "codex upstream response read failed"@,
            )
        },
        Some(bytes) => if refuses_credentials(before) {
            &&& after == (CodexDispatch { run: after.run, ..before })
            &&& action matches CodexAction::AfterFailure { refused_credentials, next }
                && refused_credentials && credentials_refused_step(
                before.run,
                blocked,
                before.routes@,
                account_of(before),
                before.body@,
                before.sent->0,
                transient_ms,
                now_ns,
                after.run,
                blocked_after,
                next,
            )
        } else if !before.stripped && !is_retry(before.status, bytes@, before.sent->0, None) {
            &&& blocked_after == blocked
            &&& after == (CodexDispatch { sent: after.sent, stripped: true, ..before })
            &&& is_retry(before.status, bytes@, before.sent->0, after.sent)
            &&& sends(action, before, after.sent->0)
        } else {
            &&& after == (CodexDispatch { run: after.run, ..before })
            &&& action matches CodexAction::AfterFailure { refused_credentials, next }
                && !refused_credentials && error_step(
                before.run,
                blocked,
                before.routes@,
                account_of(before),
                before.status,
                parsed_bytes(bytes@),
                bytes@,
                before.body@,
                before.sent->0,
                cooldown_for(before.status, bytes@, quota_ms, transient_ms),
                now_ns,
                after.run,
                blocked_after,
                next,
            )
        },
    }
}

/// What an event makes of a request and of the accounts that are kept out, and what is to
/// be done then.
pub open spec fn codex_step(
    before: CodexDispatch,
    blocked: Map<Seq<char>, u128>,
    event: CodexEvent,
    after: CodexDispatch,
    blocked_after: Map<Seq<char>, u128>,
    action: CodexAction,
) -> bool {
    &&& !(event is Unusable) && !(event is ErrorBody) ==> blocked_after == blocked
    &&& match event {
        CodexEvent::Body { body, read_ms, created_at_ms, now_ns } => body_step(
            before,
            body,
            read_ms,
            created_at_ms,
            now_ns,
            after,
            action,
        ),
        CodexEvent::Prepared { prepared, last_message, parse_ms, created_at_ms, now_ns } => {
            prepared_step(
                before,
                prepared,
                last_message,
                parse_ms,
                created_at_ms,
                now_ns,
                after,
                action,
            )
        },
        CodexEvent::Permit { rejection } => {
            &&& after == before
            &&& match rejection {
                Some(rejection) => action matches CodexAction::Reply { reply } && is_text_reply(
                    reply,
                    429,
                    codex_limit_message(rejection),
                ),
                None => action == CodexAction::Select,
            }
        },
        CodexEvent::NoAccount { reply } => after == before && action == (CodexAction::Reply {
            reply,
        }),
        CodexEvent::Selected { position, wait_ms } => {
            &&& action == (CodexAction::MakeReady { position })
            &&& after == (CodexDispatch {
                selected: position,
                run: CodexRun {
                    attempts: one_more_attempt(before.run.attempts),
                    meta: ProviderUsageMetadata {
                        routing_wait_ms: Some(
                            saturating_sum(or_zero(before.run.meta.routing_wait_ms), wait_ms),
                        ),
                        ..before.run.meta
                    },
                    ..before.run
                },
                ..before
            })
        },
        CodexEvent::Unusable { cooldown_ms, now_ns } => {
            &&& after == (CodexDispatch { run: after.run, ..before })
            &&& action matches CodexAction::AfterFailure { refused_credentials, next }
                && !refused_credentials && unusable_step(
                before.run,
                blocked,
                account_of(before),
                cooldown_ms,
                now_ns,
                after.run,
                blocked_after,
                next,
            )
        },
        CodexEvent::Ready { auth, prepared } => ready_step(before, auth, prepared, after, action),
        CodexEvent::Answered { status, now_ns } => answered_step(
            before,
            status,
            now_ns,
            after,
            action,
        ),
        CodexEvent::Refreshed { auth } => {
            &&& after == (CodexDispatch { auth, refreshed: true, ..before })
            &&& sends(action, after, before.sent->0)
        },
        CodexEvent::ErrorBody { bytes, quota_ms, transient_ms, now_ns } => error_body_step(
            before,
            blocked,
            bytes,
            quota_ms,
            transient_ms,
            now_ns,
            after,
            blocked_after,
            action,
        ),
    }
}

/// A request has its accounts, and the selected one is among them.
pub open spec fn is_under_way(dispatch: CodexDispatch) -> bool {
    dispatch.selected < dispatch.routes@.len()
}

/// A time that can be told lies `ms` milliseconds after a moment.
pub open spec fn can_be_told(now_ns: u128, ms: u64) -> bool {
    now_ns + ms * NANOS_PER_MILLI <= u128::MAX
}

/// An event that can happen to a request: an account is selected among those there are, what
/// concerns the sent request happens once there is one, and times can be told.
pub open spec fn can_happen(dispatch: CodexDispatch, event: CodexEvent) -> bool {
    match event {
        CodexEvent::Selected { position, .. } => position < dispatch.routes@.len(),
        CodexEvent::Unusable { cooldown_ms, now_ns } => can_be_told(now_ns, cooldown_ms),
        CodexEvent::Refreshed { .. } => dispatch.sent is Some,
        CodexEvent::ErrorBody { quota_ms, transient_ms, now_ns, .. } => dispatch.sent is Some
            && can_be_told(now_ns, quota_ms) && can_be_told(now_ns, transient_ms),
        _ => true,
    }
}

/// What a request comes to when it arrives.
pub enum CodexArrival {
    Models,
    Dispatch(CodexDispatch),
    Refused(Reply),
}

/// What is the same for all requests.
pub struct CodexSettings {
    pub upstream_base: String,
    pub originator: String,
    pub client_version: String,
    pub account_attempt_limit: usize,
}

/// A request that goes to an endpoint, before anything was tried.
pub open spec fn is_fresh(
    dispatch: CodexDispatch,
    key: AuthenticatedKey,
    routes: Vec<ProviderCodexRoute>,
    path: Seq<char>,
    headers: Headers,
    settings: CodexSettings,
    meta: ProviderUsageMetadata,
) -> bool {
    &&& is_under_way(dispatch)
    &&& dispatch.key == key
    &&& dispatch.routes == routes
    &&& crate::codex_auth::codex_gateway_path(path) == Some(dispatch.endpoint@)
    &&& dispatch.headers == headers
    &&& dispatch.upstream_base == settings.upstream_base
    &&& dispatch.originator == settings.originator
    &&& dispatch.client_version == settings.client_version
    &&& dispatch.run.attempts == 0
    &&& dispatch.run.attempt_limit == settings.account_attempt_limit
    &&& dispatch.run.failed_accounts@.len() == 0
    &&& dispatch.run.meta == meta
    &&& !dispatch.refreshed
    &&& !dispatch.stripped
    &&& dispatch.prepared is None
    &&& dispatch.sent is None
}

/// A request, once the routes of its key are known; `routes` is nothing where they could not
/// be resolved.
pub fn arrive(
    key: AuthenticatedKey,
    routes: Option<Vec<ProviderCodexRoute>>,
    method: &str,
    path: &str,
    headers: Headers,
    settings: CodexSettings,
    meta: ProviderUsageMetadata,
) -> (arrival: CodexArrival)
    ensures
        match routes {
            None => arrival matches CodexArrival::Refused(reply) && is_text_reply(
                reply,
                500,
                "codex route resolution failed"@,
            ),
            Some(routes) => if routes@.len() == 0 {
                arrival matches CodexArrival::Refused(reply) && is_text_reply(
                    reply,
                    503,
                    "codex route is not configured"@,
                )
            } else {
                match crate::codex_auth::codex_gateway_path(path@) {
                    None => arrival matches CodexArrival::Refused(reply) && is_text_reply(
                        reply,
                        404,
                        "unsupported codex gateway endpoint"@,
                    ),
                    Some(canonical) => if canonical == "/v1/models"@ && method@ == "GET"@ {
                        arrival == CodexArrival::Models
                    } else {
                        arrival matches CodexArrival::Dispatch(dispatch) && is_fresh(
                            dispatch,
                            key,
                            routes,
                            path@,
                            headers,
                            settings,
                            meta,
                        )
                    },
                }
            },
        },
{
    let count: Option<usize> = match &routes {
        Some(routes) => Some(routes.len()),
        None => None,
    };
    let endpoint = match codex_entry(count, method, path) {
        CodexEntry::Models => return CodexArrival::Models,
        CodexEntry::Refused { reply } => return CodexArrival::Refused(reply),
        CodexEntry::Endpoint { path } => path,
    };
    match routes {
        None => CodexArrival::Refused(text_reply(500, "codex route resolution failed")),
        Some(routes) => CodexArrival::Dispatch(
            CodexDispatch {
                key,
                routes,
                endpoint,
                headers,
                upstream_base: settings.upstream_base,
                originator: settings.originator,
                client_version: settings.client_version,
                body: Vec::new(),
                prepared: None,
                sent: None,
                auth: CodexAuthSnapshot {
                    access_token: String::new(),
                    account_id: None,
                    is_fedramp_account: false,
                },
                selected: 0,
                refreshed: false,
                stripped: false,
                status: 0,
                run: CodexRun::with_permit(settings.account_attempt_limit, meta),
            },
        ),
    }
}

impl CodexDispatch {
    fn send(&self, prepared: &PreparedGatewayRequest) -> (action: CodexAction)
        ensures
            sends(action, *self, *prepared),
    {
        let url = compute_codex_upstream_url(
            self.upstream_base.as_str(),
            prepared.upstream_path.as_str(),
        );
        let headers = add_codex_upstream_headers(
            &self.headers,
            prepared,
            &self.auth,
            self.originator.as_str(),
            self.client_version.as_str(),
        );
        CodexAction::Send { url, headers }
    }

    /// Notes and records that the request fails before any account is tried.
    fn fail_before_send(
        &mut self,
        model: Option<String>,
        status: u16,
        message: &str,
        created_at_ms: i64,
        now_ns: u128,
    ) -> (event: UsageEvent)
        ensures
            *final(self) == with_meta(*old(self), final(self).run.meta),
            preflight_step(
                old(self).run.meta,
                *old(self),
                opt_text(model),
                status,
                message@,
                created_at_ms,
                now_ns,
                final(self).run.meta,
                event,
            ),
    {
        note_codex_preflight_failure(
            &mut self.run.meta,
            self.endpoint.as_str(),
            status,
            message,
        );
        let ghost noted = self.run.meta;
        assert(failure_noted(old(self).run.meta, noted, old(self).endpoint@, status, message@));
        record_codex_preflight_failure(
            &self.key,
            self.endpoint.as_str(),
            model,
            status,
            &mut self.run.meta,
            created_at_ms,
            now_ns,
        )
    }

    fn on_body(
        &mut self,
        body: Option<Vec<u8>>,
        read_ms: i64,
        created_at_ms: i64,
        now_ns: u128,
    ) -> (action: CodexAction)
        ensures
            body_step(*old(self), body, read_ms, created_at_ms, now_ns, *final(self), action),
    {
        match body {
            None => {
                let event = self.fail_before_send(
                    None,
                    400,
                    "request body is too large",
                    created_at_ms,
                    now_ns,
                );
                let reply = codex_surface_error_response(
                    self.endpoint.as_str(),
                    400,
                    "request body is too large",
                );
                CodexAction::RecordPreflight { event, reply }
            },
            Some(body) => {
                self.run.meta.with_request_body(body.len(), read_ms);
                self.body = body;
                CodexAction::Prepare
            },
        }
    }

    fn on_prepared(
        &mut self,
        prepared: Result<PreparedGatewayRequest, (u16, String)>,
        last_message: Option<String>,
        parse_ms: i64,
        created_at_ms: i64,
        now_ns: u128,
    ) -> (action: CodexAction)
        requires
            is_under_way(*old(self)),
        ensures
            prepared_step(
                *old(self),
                prepared,
                last_message,
                parse_ms,
                created_at_ms,
                now_ns,
                *final(self),
                action,
            ),
    {
        match prepared {
            Ok(prepared) => {
                self.run.meta.mark_pre_handler_done(parse_ms, now_ns);
                self.run.meta.last_message_content = clone_opt(&prepared.last_message_content);
                self.prepared = Some(prepared);
                CodexAction::AcquirePermit {
                    max_concurrency: self.routes[0].request_max_concurrency,
                    min_start_interval_ms: self.routes[0].request_min_start_interval_ms,
                }
            },
            Err(failure) => {
                capture_client_request_body_json(&mut self.run.meta, self.body.as_slice());
                if self.run.meta.last_message_content.is_none() {
                    self.run.meta.last_message_content = last_message;
                }
                let ghost noted = self.run.meta;
                assert(client_noted(old(self).run.meta, noted, old(self).body@, last_message));
                let model = extract_model_from_json_body(self.body.as_slice());
                let event = self.fail_before_send(
                    model,
                    failure.0,
                    failure.1.as_str(),
                    created_at_ms,
                    now_ns,
                );
                let reply = codex_surface_error_response(
                    self.endpoint.as_str(),
                    failure.0,
                    failure.1.as_str(),
                );
                CodexAction::RecordPreflight { event, reply }
            },
        }
    }

    fn on_ready(
        &mut self,
        auth: CodexAuthSnapshot,
        prepared: Result<PreparedGatewayRequest, (u16, String)>,
    ) -> (action: CodexAction)
        ensures
            ready_step(*old(self), auth, prepared, *final(self), action),
    {
        match prepared {
            Err(failure) => CodexAction::Reply {
                reply: text_reply(failure.0, failure.1.as_str()),
            },
            Ok(prepared) => {
                self.auth = auth;
                self.refreshed = false;
                self.stripped = false;
                let action = self.send(&prepared);
                self.sent = Some(prepared);
                assert(sends(action, *self, prepared));
                action
            },
        }
    }

    fn on_answered(&mut self, status: u16, now_ns: u128) -> (action: CodexAction)
        ensures
            answered_step(*old(self), status, now_ns, *final(self), action),
    {
        self.status = status;
        self.run.meta.mark_upstream_headers(now_ns);
        if self.stripped {
            return if status_is_success(status) {
                CodexAction::Answer
            } else {
                CodexAction::ReadError
            };
        }
        match judge_codex_answer(status, self.refreshed) {
            CodexAnswer::Success => CodexAction::Answer,
            CodexAnswer::RefreshCredentials => CodexAction::RefreshCredentials,
            CodexAnswer::CredentialsRefused => CodexAction::ReadError,
            CodexAnswer::Error => CodexAction::ReadError,
        }
    }

    fn on_refreshed(&mut self, auth: CodexAuthSnapshot) -> (action: CodexAction)
        requires
            old(self).sent is Some,
        ensures
            *final(self) == (CodexDispatch { auth, refreshed: true, ..*old(self) }),
            sends(action, *final(self), old(self).sent->0),
    {
        self.auth = auth;
        self.refreshed = true;
        match &self.sent {
            Some(prepared) => self.send(prepared),
            None => CodexAction::ReadError,
        }
    }

    fn on_error_body(
        &mut self,
        cooldowns: &mut CodexAccountCooldowns,
        bytes: Option<Vec<u8>>,
        quota_ms: u64,
        transient_ms: u64,
        now_ns: u128,
    ) -> (action: CodexAction)
        requires
            is_under_way(*old(self)),
            old(self).sent is Some,
            can_be_told(now_ns, quota_ms),
            can_be_told(now_ns, transient_ms),
        ensures
            error_body_step(
                *old(self),
                old(cooldowns).view(),
                bytes,
                quota_ms,
                transient_ms,
                now_ns,
                *final(self),
                final(cooldowns).view(),
                action,
            ),
    {
        let bytes = match bytes {
            Some(bytes) => bytes,
            None => return CodexAction::Reply {
                reply: text_reply(502, "codex upstream response read failed"),
            },
        };
        let account = self.routes[self.selected].account_name.clone();
        let status: u16 = self.status;
        let refused = !self.stripped && (status == 401 || status == 403);
        let retry = match &self.sent {
            Some(prepared) => if refused || self.stripped {
                None
            } else {
                codex_error_retry(status, bytes.as_slice(), prepared)
            },
            None => None,
        };
        if let Some(prepared) = retry {
            let action = self.send(&prepared);
            self.sent = Some(prepared);
            self.stripped = true;
            return action;
        }
        let parsed = parse_bytes(bytes.as_slice());
        let text = text_of_bytes(bytes.as_slice());
        let cooldown: Option<u64> = match classify_failure(
            status,
            &parsed,
            text.as_str(),
            bytes.as_slice(),
        ) {
            FailureCooldown::Free => None,
            FailureCooldown::Quota => Some(quota_ms),
            FailureCooldown::Transient => Some(transient_ms),
        };
        let next = match &self.sent {
            Some(prepared) => if refused {
                self.run.credentials_refused(
                    cooldowns,
                    &self.routes,
                    account.as_str(),
                    self.body.as_slice(),
                    prepared,
                    transient_ms,
                    now_ns,
                )
            } else {
                self.run.error_answered(
                    cooldowns,
                    &self.routes,
                    account.as_str(),
                    status,
                    bytes.as_slice(),
                    &parsed,
                    self.body.as_slice(),
                    prepared,
                    cooldown,
                    now_ns,
                )
            },
            None => CodexNext::Answer,
        };
        CodexAction::AfterFailure { refused_credentials: refused, next }
    }
}

/// Takes a request one step further: what an event makes of it, and what is to be done.
pub fn dispatch_codex_proxy(
    dispatch: &mut CodexDispatch,
    cooldowns: &mut CodexAccountCooldowns,
    event: CodexEvent,
) -> (action: CodexAction)
    requires
        is_under_way(*old(dispatch)),
        can_happen(*old(dispatch), event),
    ensures
        is_under_way(*final(dispatch)),
        codex_step(
            *old(dispatch),
            old(cooldowns).view(),
            event,
            *final(dispatch),
            final(cooldowns).view(),
            action,
        ),
{
    match event {
        CodexEvent::Body { body, read_ms, created_at_ms, now_ns } => dispatch.on_body(
            body,
            read_ms,
            created_at_ms,
            now_ns,
        ),
        CodexEvent::Prepared { prepared, last_message, parse_ms, created_at_ms, now_ns } => {
            dispatch.on_prepared(prepared, last_message, parse_ms, created_at_ms, now_ns)
        },
        CodexEvent::Permit { rejection } => match rejection {
            Some(rejection) => CodexAction::Reply { reply: codex_key_limit_response(&rejection) },
            None => CodexAction::Select,
        },
        CodexEvent::NoAccount { reply } => CodexAction::Reply { reply },
        CodexEvent::Selected { position, wait_ms } => {
            dispatch.selected = position;
            dispatch.run.route_selected(wait_ms);
            CodexAction::MakeReady { position }
        },
        CodexEvent::Unusable { cooldown_ms, now_ns } => {
            let account = dispatch.routes[dispatch.selected].account_name.clone();
            let next = dispatch.run.account_unusable(
                cooldowns,
                account.as_str(),
                cooldown_ms,
                now_ns,
            );
            CodexAction::AfterFailure { refused_credentials: false, next }
        },
        CodexEvent::Ready { auth, prepared } => dispatch.on_ready(auth, prepared),
        CodexEvent::Answered { status, now_ns } => dispatch.on_answered(status, now_ns),
        CodexEvent::Refreshed { auth } => dispatch.on_refreshed(auth),
        CodexEvent::ErrorBody { bytes, quota_ms, transient_ms, now_ns } => dispatch.on_error_body(
            cooldowns,
            bytes,
            quota_ms,
            transient_ms,
            now_ns,
        ),
    }
}

// ---------------------------------------------------------------------------
// Laws
// ---------------------------------------------------------------------------

/// The credentials of an account are refreshed once at most for a request.
pub proof fn law_credentials_are_refreshed_once(
    before: CodexDispatch,
    blocked: Map<Seq<char>, u128>,
    event: CodexEvent,
    after: CodexDispatch,
    blocked_after: Map<Seq<char>, u128>,
    action: CodexAction,
)
    requires
        codex_step(before, blocked, event, after, blocked_after, action),
        action is RefreshCredentials,
    ensures
        !before.refreshed,
        !before.stripped,
{
}

/// A request is stripped of reasoning once at most for an account.
pub proof fn law_stripped_once(
    before: CodexDispatch,
    blocked: Map<Seq<char>, u128>,
    event: CodexEvent,
    after: CodexDispatch,
    blocked_after: Map<Seq<char>, u128>,
    action: CodexAction,
)
    requires
        codex_step(before, blocked, event, after, blocked_after, action),
        event is ErrorBody,
        action is Send,
    ensures
        !before.stripped,
        after.stripped,
{
}

/// No account is tried beyond the limit: after a failure another is selected only while fewer
/// were tried than the limit allows.
pub proof fn law_tries_are_limited(
    before: CodexDispatch,
    blocked: Map<Seq<char>, u128>,
    event: CodexEvent,
    after: CodexDispatch,
    blocked_after: Map<Seq<char>, u128>,
    action: CodexAction,
)
    requires
        codex_step(before, blocked, event, after, blocked_after, action),
        action matches CodexAction::AfterFailure { next, .. } && next is Select,
    ensures
        before.run.attempts < before.run.attempt_limit,
        after.run.attempts == before.run.attempts,
{
}

/// A request that is at fault itself costs no account: nothing is kept out for it.
pub proof fn law_faulty_requests_cost_no_account(
    before: CodexDispatch,
    blocked: Map<Seq<char>, u128>,
    bytes: Vec<u8>,
    quota_ms: u64,
    transient_ms: u64,
    now_ns: u128,
    after: CodexDispatch,
    blocked_after: Map<Seq<char>, u128>,
    action: CodexAction,
)
    requires
        codex_step(
            before,
            blocked,
            CodexEvent::ErrorBody { bytes: Some(bytes), quota_ms, transient_ms, now_ns },
            after,
            blocked_after,
            action,
        ),
        !refuses_credentials(before),
        crate::codex_auth::refuses_encrypted_content(
            before.status,
            parsed_bytes(bytes@),
            bytes@,
        ),
    ensures
        blocked_after == blocked,
        !(action matches CodexAction::AfterFailure { next, .. } && next is Select),
{
}

/// The request that the form for each account is made from is prepared once and never
/// changed, whatever was stripped for an account before.
pub proof fn law_prepared_request_stays(
    before: CodexDispatch,
    blocked: Map<Seq<char>, u128>,
    event: CodexEvent,
    after: CodexDispatch,
    blocked_after: Map<Seq<char>, u128>,
    action: CodexAction,
)
    requires
        codex_step(before, blocked, event, after, blocked_after, action),
        !(event is Prepared),
    ensures
        after.prepared == before.prepared,
{
}

/// What the client sent is read once and never changed.
pub proof fn law_client_body_stays(
    before: CodexDispatch,
    blocked: Map<Seq<char>, u128>,
    event: CodexEvent,
    after: CodexDispatch,
    blocked_after: Map<Seq<char>, u128>,
    action: CodexAction,
)
    requires
        codex_step(before, blocked, event, after, blocked_after, action),
        !(event is Body),
    ensures
        after.body == before.body,
{
}

/// What follows an answer: one of 2xx goes to the client; the first refusal of the
/// credentials has them refreshed; of any other the error is read. No account is kept out or
/// counted as failed for it yet.
pub proof fn law_what_follows_an_answer(
    before: CodexDispatch,
    blocked: Map<Seq<char>, u128>,
    status: u16,
    now_ns: u128,
    after: CodexDispatch,
    blocked_after: Map<Seq<char>, u128>,
    action: CodexAction,
)
    requires
        codex_step(
            before,
            blocked,
            CodexEvent::Answered { status, now_ns },
            after,
            blocked_after,
            action,
        ),
    ensures
        200 <= status <= 299 ==> action == CodexAction::Answer,
        (status == 401 || status == 403) && !before.refreshed && !before.stripped ==> action
            == CodexAction::RefreshCredentials,
        (status == 401 || status == 403) && (before.refreshed || before.stripped) ==> action
            == CodexAction::ReadError,
        status != 401 && status != 403 && !(200 <= status <= 299) ==> action
            == CodexAction::ReadError,
        after.status == status,
        after.run.failed_accounts == before.run.failed_accounts,
        after.run.attempts == before.run.attempts,
        blocked_after == blocked,
{
}

/// An error of an account, a used up quota or trouble upstream among them, sends the request
/// to another account where attempts are left and one has not failed, whatever its body
/// says; only a bad request is looked at more closely. The account is marked as refused
/// exactly where its credentials were refused.
pub proof fn law_account_errors_lead_to_another_account(
    before: CodexDispatch,
    blocked: Map<Seq<char>, u128>,
    bytes: Vec<u8>,
    quota_ms: u64,
    transient_ms: u64,
    now_ns: u128,
    after: CodexDispatch,
    blocked_after: Map<Seq<char>, u128>,
    action: CodexAction,
    other: int,
)
    requires
        codex_step(
            before,
            blocked,
            CodexEvent::ErrorBody { bytes: Some(bytes), quota_ms, transient_ms, now_ns },
            after,
            blocked_after,
            action,
        ),
        before.status != 400,
        before.run.attempts < before.run.attempt_limit,
        before.selected < before.routes@.len(),
        0 <= other < before.routes@.len(),
        before.routes@[other].account_name@ != before.routes@[before.selected as int].account_name@,
        !texts(before.run.failed_accounts@).contains(before.routes@[other].account_name@),
    ensures
        action == (CodexAction::AfterFailure {
            refused_credentials: !before.stripped && (before.status == 401 || before.status == 403),
            next: CodexNext::Select,
        }),
        texts(after.run.failed_accounts@).contains(
            before.routes@[before.selected as int].account_name@,
        ),
        !texts(after.run.failed_accounts@).contains(before.routes@[other].account_name@),
        before.run.meta.quota_failover_count < u64::MAX ==> after.run.meta.quota_failover_count
            == before.run.meta.quota_failover_count + 1,
        after.run.attempts == before.run.attempts,
        after.prepared == before.prepared,
{
}

/// Trouble upstream, limits and refused credentials keep the account out for at least the
/// shorter of the two cooldowns.
pub proof fn law_a_failed_account_is_kept_out(
    before: CodexDispatch,
    blocked: Map<Seq<char>, u128>,
    bytes: Vec<u8>,
    quota_ms: u64,
    transient_ms: u64,
    now_ns: u128,
    after: CodexDispatch,
    blocked_after: Map<Seq<char>, u128>,
    action: CodexAction,
    least_ms: u64,
)
    requires
        codex_step(
            before,
            blocked,
            CodexEvent::ErrorBody { bytes: Some(bytes), quota_ms, transient_ms, now_ns },
            after,
            blocked_after,
            action,
        ),
        before.selected < before.routes@.len(),
        now_ns + quota_ms * 1_000_000 <= u128::MAX,
        now_ns + transient_ms * 1_000_000 <= u128::MAX,
        0 < least_ms <= quota_ms,
        least_ms <= transient_ms,
        500 <= before.status <= 599 || before.status == 401 || before.status == 402
            || before.status == 403 || before.status == 408 || before.status == 429,
    ensures
        blocked_after.dom().contains(before.routes@[before.selected as int].account_name@),
        blocked_after[before.routes@[before.selected as int].account_name@] >= now_ns + least_ms
            * 1_000_000,
        500 <= before.status <= 599 && !blocked.dom().contains(
            before.routes@[before.selected as int].account_name@,
        ) ==> blocked_after[before.routes@[before.selected as int].account_name@] == now_ns
            + transient_ms * 1_000_000,
{
}

/// An error whose body could not be read is answered with 502 and costs no account.
pub proof fn law_an_unreadable_error_is_answered(
    before: CodexDispatch,
    blocked: Map<Seq<char>, u128>,
    quota_ms: u64,
    transient_ms: u64,
    now_ns: u128,
    after: CodexDispatch,
    blocked_after: Map<Seq<char>, u128>,
    action: CodexAction,
)
    requires
        codex_step(
            before,
            blocked,
            CodexEvent::ErrorBody { bytes: None, quota_ms, transient_ms, now_ns },
            after,
            blocked_after,
            action,
        ),
    ensures
        action matches CodexAction::Reply { reply } && reply.status == 502,
        after == before,
        blocked_after == blocked,
{
}

/// Encrypted reasoning that an account refused is taken out, and the request sent once more
/// to the same account, which is neither kept out nor counted as failed.
pub proof fn law_refused_reasoning_is_taken_out(
    before: CodexDispatch,
    blocked: Map<Seq<char>, u128>,
    bytes: Vec<u8>,
    quota_ms: u64,
    transient_ms: u64,
    now_ns: u128,
    after: CodexDispatch,
    blocked_after: Map<Seq<char>, u128>,
    action: CodexAction,
    root: JsonView,
)
    requires
        codex_step(
            before,
            blocked,
            CodexEvent::ErrorBody { bytes: Some(bytes), quota_ms, transient_ms, now_ns },
            after,
            blocked_after,
            action,
        ),
        before.status == 400,
        !before.stripped,
        valid_utf8(bytes@),
        contains(decode_utf8(bytes@), "invalid_encrypted_content"@),
        before.sent is Some,
        parsed_bytes((before.sent->0).request_body@) == Some(root),
        stripped(root) is Some,
        written_bytes(stripped(root)->0) is Some,
    ensures
        action is Send,
        after.stripped,
        after.sent matches Some(request) && Some(request.request_body@) == written_bytes(
            stripped(root)->0,
        ),
        after.run == before.run,
        after.selected == before.selected,
        blocked_after == blocked,
{
    assert(!is_retry(before.status, bytes@, before.sent->0, None));
}

/// The way to the first request: a body that could be read is prepared, one that was too
/// large is answered with 400; a prepared request asks for a permit under the limits of the
/// key, one that could not be is answered as the reason says; a permit leads to the choice
/// of an account, a refusal is answered with 429.
pub proof fn law_the_way_to_the_first_request(
    before: CodexDispatch,
    blocked: Map<Seq<char>, u128>,
    event: CodexEvent,
    after: CodexDispatch,
    blocked_after: Map<Seq<char>, u128>,
    action: CodexAction,
)
    requires
        codex_step(before, blocked, event, after, blocked_after, action),
    ensures
        event matches CodexEvent::Body { body, .. } ==> match body {
            Some(body) => action == CodexAction::Prepare && after.body == body
                && after.run.meta.request_body_bytes is Some,
            None => action matches CodexAction::RecordPreflight { event: record, reply }
                && reply.status == 400,
        },
        event matches CodexEvent::Prepared { prepared, .. } ==> match prepared {
            Ok(request) => after.prepared == Some(request) && action == (
            CodexAction::AcquirePermit {
                max_concurrency: before.routes@[0].request_max_concurrency,
                min_start_interval_ms: before.routes@[0].request_min_start_interval_ms,
            }),
            Err(failure) => action matches CodexAction::RecordPreflight { event: record, reply }
                && reply.status == failure.0,
        },
        event matches CodexEvent::Permit { rejection } ==> match rejection {
            Some(_) => action matches CodexAction::Reply { reply } && reply.status == 429,
            None => action == CodexAction::Select,
        },
        event matches CodexEvent::NoAccount { reply } ==> action == (CodexAction::Reply { reply }),
        after.run.failed_accounts != before.run.failed_accounts ==> event is Unusable
            || event is ErrorBody,
        blocked_after != blocked ==> event is Unusable || event is ErrorBody,
{
}

/// The selected account takes one attempt and is made ready; once it is, the request goes to
/// it, as nothing but the first request to this account. Fresh credentials have the same
/// request sent again.
pub proof fn law_a_selected_account_is_asked(
    before: CodexDispatch,
    blocked: Map<Seq<char>, u128>,
    event: CodexEvent,
    after: CodexDispatch,
    blocked_after: Map<Seq<char>, u128>,
    action: CodexAction,
)
    requires
        codex_step(before, blocked, event, after, blocked_after, action),
    ensures
        event matches CodexEvent::Selected { position, wait_ms } ==> {
            &&& action == (CodexAction::MakeReady { position })
            &&& after.selected == position
            &&& before.run.attempts < usize::MAX ==> after.run.attempts == before.run.attempts + 1
            &&& after.run.failed_accounts == before.run.failed_accounts
            &&& after.prepared == before.prepared
        },
        event matches CodexEvent::Ready { auth, prepared } ==> match prepared {
            Ok(request) => {
                &&& action is Send
                &&& after.sent == Some(request)
                &&& after.auth == auth
                &&& !after.refreshed
                &&& !after.stripped
                &&& after.run == before.run
            },
            Err(failure) => action matches CodexAction::Reply { reply } && reply.status
                == failure.0 && reply.body@ == failure.1@,
        },
        event matches CodexEvent::Refreshed { auth } ==> {
            &&& action is Send
            &&& after.auth == auth
            &&& after.refreshed
            &&& after.sent == before.sent
            &&& after.run == before.run
        },
{
}

/// A request that is served is dispatched as one that has not begun, on the accounts and
/// under the limits that it came with; every other is refused with the status of its entry.
pub proof fn law_a_request_begins_afresh(
    key: AuthenticatedKey,
    routes: Option<Vec<ProviderCodexRoute>>,
    method: &str,
    path: &str,
    headers: Headers,
    settings: CodexSettings,
    meta: ProviderUsageMetadata,
    arrival: CodexArrival,
)
    requires
        call_ensures(arrive, (key, routes, method, path, headers, settings, meta), arrival),
    ensures
        arrival matches CodexArrival::Dispatch(dispatch) ==> {
            &&& routes == Some(dispatch.routes)
            &&& dispatch.routes@.len() > 0
            &&& dispatch.key == key
            &&& dispatch.run.attempts == 0
            &&& dispatch.run.attempt_limit == settings.account_attempt_limit
            &&& dispatch.run.failed_accounts@.len() == 0
            &&& dispatch.headers == headers
            &&& dispatch.sent is None
            &&& !dispatch.refreshed
            &&& !dispatch.stripped
        },
        routes is None ==> (arrival matches CodexArrival::Refused(reply) && reply.status == 500),
        routes matches Some(list) ==> (list@.len() == 0 ==> (arrival matches CodexArrival::Refused(
            reply,
        ) && reply.status == 503)),
        routes matches Some(list) ==> (list@.len() > 0 && crate::codex_auth::codex_gateway_path(
            path@,
        ) is None ==> (arrival matches CodexArrival::Refused(reply) && reply.status == 404)),
{
}

} // verus!
