//! Answers on their way to the client: the record that every stream leaves, and the
//! complete answer of a Kiro request that is not streamed.

use vstd::prelude::*;
use crate::codex_sse::{missing_codex_usage, UsageBreakdown};
use crate::errors::{anthropic_error, anthropic_json_error, anthropic_json_error_body, event_too_long,
    kiro_events_contain_content_length_exceeded, kiro_prompt_too_long_message, prompt_too_long, Reply,
    WireEvent};
use crate::json::{array_view, empty_object, lemma_array_view_push, show_text, shown_text, Json,
    JsonView};
use crate::kiro_dispatch::{assistant_message, build_assistant_message, is_simple_uuid,
    random_simple_id};
use crate::kiro_model::pair_views;
use crate::kiro_usage::{anthropic_usage_json_from_summary_with_policy,
    build_kiro_usage_summary, is_kiro_record, usage_summary, CacheEstimate,
    record_kiro_usage, told_usage, usage_json, KiroUsageInputs, KiroUsageSummary};
use crate::route_selection::is_kiro_error;
use crate::text::{concat2, nonempty_trim, opt_text, same_text};
use crate::types::{AuthenticatedKey, PreparedGatewayRequest, ProviderCodexRoute, ProviderKiroRoute};
use crate::usage_event::{is_codex_record, record_codex_usage, UsageEvent};
use crate::usage_meta::{capture_error_body, capture_error_message, elapsed_millis, ended_stream,
    first_kept, or_zero, saturating_difference, ProviderUsageMetadata};

verus! {

// ---------------------------------------------------------------------------
// Stream records
// ---------------------------------------------------------------------------

/// How a stream that was not completed is accounted for.
#[derive(Debug, Clone, Copy, PartialEq, Eq, Structural)]
pub enum StreamRecordState {
    /// The client went away.
    Pending,
    /// The upstream or its events failed.
    InternalFailure,
}

/// The notes once the body after the upstream's headers has come in.
pub open spec fn body_received(meta: ProviderUsageMetadata, now_ns: u128) -> ProviderUsageMetadata {
    ProviderUsageMetadata {
        post_headers_body_ms: Some(
            saturating_difference(
                elapsed_millis(meta.started_at_ns, now_ns),
                or_zero(meta.upstream_headers_ms),
            ),
        ),
        ..meta
    }
}

/// The notes on a stream that ends without having been completed.
pub open spec fn abandoned(
    meta: ProviderUsageMetadata,
    state: StreamRecordState,
    now_ns: u128,
) -> ProviderUsageMetadata {
    ended_stream(meta, false, state == StreamRecordState::Pending, now_ns)
}

/// What is known of a Codex stream until it is recorded.
pub struct CodexStreamRecordGuard {
    pub key: AuthenticatedKey,
    pub prepared: PreparedGatewayRequest,
    pub status: u16,
    pub route: ProviderCodexRoute,
    pub usage: Option<UsageBreakdown>,
    pub usage_meta: ProviderUsageMetadata,
    pub state: StreamRecordState,
    pub record_committed: bool,
}

pub open spec fn usage_or_missing(usage: Option<UsageBreakdown>) -> UsageBreakdown {
    match usage {
        Some(usage) => usage,
        None => UsageBreakdown {
            input_uncached_tokens: 0,
            input_cached_tokens: 0,
            output_tokens: 0,
            usage_missing: true,
        },
    }
}

impl CodexStreamRecordGuard {
    fn collected_usage(&self) -> (usage: UsageBreakdown)
        ensures
            usage == usage_or_missing(self.usage),
    {
        match self.usage {
            Some(usage) => usage,
            None => missing_codex_usage(),
        }
    }

    /// Notes a chunk sent to the client.
    pub fn observe_chunk(&mut self, bytes_len: usize, event_type: Option<&str>, now_ns: u128)
        ensures
            *final(self) == (CodexStreamRecordGuard {
                usage_meta: final(self).usage_meta,
                ..*old(self)
            }),
            chunk_observed(
                old(self).usage_meta,
                final(self).usage_meta,
                bytes_len,
                event_type,
                now_ns,
            ),
    {
        self.usage_meta.observe_stream_write(bytes_len, event_type, now_ns);
    }

    pub fn mark_internal_failure(&mut self)
        ensures
            *final(self) == (CodexStreamRecordGuard {
                state: StreamRecordState::InternalFailure,
                ..*old(self)
            }),
    {
        self.state = StreamRecordState::InternalFailure;
    }

    /// The record of a completed stream. `billable_tokens` is what the collected usage
    /// costs.
    pub fn finish_success(&mut self, billable_tokens: u64, created_at_ms: i64, now_ns: u128) -> (event:
        UsageEvent)
        requires
            !old(self).record_committed,
        ensures
            *final(self) == (CodexStreamRecordGuard {
                usage_meta: ended_stream(
                    body_received(old(self).usage_meta, now_ns),
                    true,
                    false,
                    now_ns,
                ),
                record_committed: true,
                ..*old(self)
            }),
            is_codex_record(
                event,
                old(self).key,
                old(self).prepared,
                old(self).status,
                old(self).route,
                usage_or_missing(old(self).usage),
                billable_tokens,
                final(self).usage_meta,
                created_at_ms,
                now_ns,
            ),
    {
        self.usage_meta.mark_post_headers_body(now_ns);
        self.usage_meta.mark_stream_completed_cleanly(now_ns);
        let event = record_codex_usage(
            &self.key,
            &self.prepared,
            self.status,
            &self.route,
            self.collected_usage(),
            billable_tokens,
            &self.usage_meta,
            created_at_ms,
            now_ns,
        );
        self.record_committed = true;
        event
    }

    /// The record of a stream that is given up; none where it has been recorded already.
    pub fn give_up(&mut self, billable_tokens: u64, created_at_ms: i64, now_ns: u128) -> (event: Option<
        UsageEvent,
    >)
        ensures
            old(self).record_committed ==> event is None && *final(self) == *old(self),
            !old(self).record_committed ==> *final(self) == (CodexStreamRecordGuard {
                usage_meta: abandoned(old(self).usage_meta, old(self).state, now_ns),
                record_committed: true,
                ..*old(self)
            }),
            !old(self).record_committed ==> (event matches Some(event) && is_codex_record(
                event,
                old(self).key,
                old(self).prepared,
                old(self).status,
                old(self).route,
                usage_or_missing(old(self).usage),
                billable_tokens,
                final(self).usage_meta,
                created_at_ms,
                now_ns,
            )),
    {
        if self.record_committed {
            return None;
        }
        match self.state {
            StreamRecordState::Pending => self.usage_meta.mark_downstream_disconnect(now_ns),
            StreamRecordState::InternalFailure => self.usage_meta.mark_stream_internal_incomplete(
                now_ns,
            ),
        }
        let event = record_codex_usage(
            &self.key,
            &self.prepared,
            self.status,
            &self.route,
            self.collected_usage(),
            billable_tokens,
            &self.usage_meta,
            created_at_ms,
            now_ns,
        );
        self.record_committed = true;
        Some(event)
    }
}

/// The notes after a chunk was sent to the client.
pub open spec fn chunk_observed(
    before: ProviderUsageMetadata,
    after: ProviderUsageMetadata,
    bytes_len: usize,
    event_type: Option<&str>,
    now_ns: u128,
) -> bool {
    &&& after == (ProviderUsageMetadata {
        first_sse_write_ms: first_kept(
            before.first_sse_write_ms,
            Some(elapsed_millis(before.started_at_ns, now_ns)),
        ),
        stream_completed_cleanly: first_kept(before.stream_completed_cleanly, Some(false)),
        downstream_disconnect: first_kept(before.downstream_disconnect, Some(false)),
        bytes_streamed: Some(
            crate::usage_meta::saturating_sum(
                or_zero(before.bytes_streamed),
                crate::usage_meta::clamped(bytes_len as int),
            ),
        ),
        final_event_type: after.final_event_type,
        ..before
    })
    &&& opt_text(after.final_event_type) == match event_type {
        Some(name) => match nonempty_trim(name@) {
            Some(trimmed) => Some(trimmed),
            None => opt_text(before.final_event_type),
        },
        None => opt_text(before.final_event_type),
    }
}

/// What is known of a Kiro stream until it is recorded.
pub struct KiroStreamRecordGuard {
    pub key: AuthenticatedKey,
    pub route: ProviderKiroRoute,
    pub endpoint: String,
    pub model: String,
    pub status: u16,
    pub usage_meta: ProviderUsageMetadata,
    pub state: StreamRecordState,
    pub record_committed: bool,
}

impl KiroStreamRecordGuard {
    /// The usage as far as the stream told it. `authoritative` are the input tokens that
    /// count, `cached` those of them that were cached.
    pub fn current_usage_summary(
        &self,
        resolved_input_tokens: i32,
        output_tokens: i32,
        credit: (Option<String>, bool),
        authoritative: i32,
        estimate: &CacheEstimate,
    ) -> (summary: KiroUsageSummary)
        ensures
            summary == usage_summary(
                KiroUsageInputs {
                    resolved_input_tokens,
                    output_tokens,
                    credit_usage: credit.0,
                    credit_usage_missing: credit.1,
                    cache_estimation_enabled: self.route.cache_estimation_enabled,
                },
                authoritative,
                *estimate,
            ),
    {
        build_kiro_usage_summary(
            KiroUsageInputs {
                resolved_input_tokens,
                output_tokens,
                credit_usage: credit.0,
                credit_usage_missing: credit.1,
                cache_estimation_enabled: self.route.cache_estimation_enabled,
            },
            authoritative,
            estimate,
        )
    }

    /// Notes a chunk sent to the client.
    pub fn observe_chunk(&mut self, bytes_len: usize, event_type: Option<&str>, now_ns: u128)
        ensures
            *final(self) == (KiroStreamRecordGuard {
                usage_meta: final(self).usage_meta,
                ..*old(self)
            }),
            chunk_observed(
                old(self).usage_meta,
                final(self).usage_meta,
                bytes_len,
                event_type,
                now_ns,
            ),
    {
        self.usage_meta.observe_stream_write(bytes_len, event_type, now_ns);
    }

    pub fn mark_internal_failure(&mut self)
        ensures
            *final(self) == (KiroStreamRecordGuard {
                state: StreamRecordState::InternalFailure,
                ..*old(self)
            }),
    {
        self.state = StreamRecordState::InternalFailure;
    }

    /// The record of a completed stream.
    pub fn finish_success(
        &mut self,
        usage: &KiroUsageSummary,
        billable_tokens: u64,
        created_at_ms: i64,
        now_ns: u128,
    ) -> (event: UsageEvent)
        requires
            !old(self).record_committed,
        ensures
            *final(self) == (KiroStreamRecordGuard {
                usage_meta: ended_stream(old(self).usage_meta, true, false, now_ns),
                record_committed: true,
                ..*old(self)
            }),
            is_kiro_record(
                event,
                old(self).key,
                old(self).route,
                old(self).endpoint@,
                old(self).model@,
                old(self).status,
                *usage,
                billable_tokens,
                final(self).usage_meta,
                created_at_ms,
                now_ns,
            ),
    {
        self.usage_meta.mark_stream_completed_cleanly(now_ns);
        let event = self.record(usage, billable_tokens, created_at_ms, now_ns);
        self.record_committed = true;
        event
    }

    fn record(
        &self,
        usage: &KiroUsageSummary,
        billable_tokens: u64,
        created_at_ms: i64,
        now_ns: u128,
    ) -> (event: UsageEvent)
        ensures
            is_kiro_record(
                event,
                self.key,
                self.route,
                self.endpoint@,
                self.model@,
                self.status,
                *usage,
                billable_tokens,
                self.usage_meta,
                created_at_ms,
                now_ns,
            ),
    {
        record_kiro_usage(
            &self.key,
            &self.route,
            self.endpoint.as_str(),
            self.model.as_str(),
            self.status,
            usage,
            billable_tokens,
            &self.usage_meta,
            created_at_ms,
            now_ns,
        )
    }

    /// The record of a stream that is given up; none where it has been recorded already.
    /// `usage` is what the events so far amount to.
    pub fn give_up(
        &mut self,
        usage: &KiroUsageSummary,
        billable_tokens: u64,
        created_at_ms: i64,
        now_ns: u128,
    ) -> (event: Option<UsageEvent>)
        ensures
            old(self).record_committed ==> event is None && *final(self) == *old(self),
            !old(self).record_committed ==> *final(self) == (KiroStreamRecordGuard {
                usage_meta: abandoned(old(self).usage_meta, old(self).state, now_ns),
                record_committed: true,
                ..*old(self)
            }),
            !old(self).record_committed ==> (event matches Some(event) && is_kiro_record(
                event,
                old(self).key,
                old(self).route,
                old(self).endpoint@,
                old(self).model@,
                old(self).status,
                *usage,
                billable_tokens,
                final(self).usage_meta,
                created_at_ms,
                now_ns,
            )),
    {
        if self.record_committed {
            return None;
        }
        match self.state {
            StreamRecordState::Pending => self.usage_meta.mark_downstream_disconnect(now_ns),
            StreamRecordState::InternalFailure => self.usage_meta.mark_stream_internal_incomplete(
                now_ns,
            ),
        }
        let event = self.record(usage, billable_tokens, created_at_ms, now_ns);
        self.record_committed = true;
        Some(event)
    }
}

// ---------------------------------------------------------------------------
// The Kiro stream
// ---------------------------------------------------------------------------

/// An event for the client.
pub struct SseEvent {
    pub event: String,
    pub data: Json,
}

pub open spec fn sse_views(events: Seq<SseEvent>) -> Seq<(Seq<char>, JsonView)> {
    Seq::new(events.len(), |i: int| (events[i].event@, events[i].data@))
}

/// What comes in while a stream is relayed.
pub enum KiroStreamStep {
    /// An event was sent: its length and its name.
    Sent { bytes_len: usize, event: String },
    ReadFailed { error: String },
    DecodeFailed { error: String },
    ParseFailed { error: String },
    /// The upstream is done. `usage` is what its events amount to, `final_events` what is
    /// left to be sent; `by_ratio` is the share of the input that fills the cache.
    Ended { usage: KiroUsageSummary, by_ratio: i32, final_events: Vec<SseEvent> },
}

/// What is to be done next.
pub enum KiroStreamAction {
    Continue,
    /// The stream breaks off with an error.
    Abort { error: String },
    /// The events are sent, and the usage is recorded.
    Finish { usage: KiroUsageSummary, events: Vec<SseEvent> },
}

/// The data of a final event: the usage of the message is the one that was worked out.
pub open spec fn final_data(event: Seq<char>, data: JsonView, usage: JsonView) -> JsonView {
    if event == "message_delta"@ && data.get("usage"@) is Some {
        data.with("usage"@, usage)
    } else {
        data
    }
}

pub open spec fn with_final_usage(events: Seq<(Seq<char>, JsonView)>, usage: JsonView) -> Seq<
    (Seq<char>, JsonView),
> {
    Seq::new(events.len(), |i: int| (events[i].0, final_data(events[i].0, events[i].1, usage)))
}

fn set_final_usage(events: Vec<SseEvent>, usage: &Json) -> (result: Vec<SseEvent>)
    ensures
        sse_views(result@) == with_final_usage(sse_views(events@), usage@),
{
    let mut result: Vec<SseEvent> = Vec::new();
    let mut i: usize = 0;
    while i < events.len()
        invariant
            i <= events.len(),
            result.len() == i,
            forall|k: int|
                0 <= k < i ==> (#[trigger] result@[k]).event@ == events@[k].event@
                    && result@[k].data@ == final_data(
                    events@[k].event@,
                    events@[k].data@,
                    usage@,
                ),
        decreases events.len() - i,
    {
        let event = &events[i];
        let mut data = event.data.duplicate();
        if same_text(event.event.as_str(), "message_delta") && data.get("usage").is_some() {
            data = data.with("usage", usage.duplicate());
        }
        result.push(SseEvent { event: event.event.clone(), data });
        i += 1;
    }
    assert(sse_views(result@) =~= with_final_usage(sse_views(events@), usage@));
    result
}

pub open spec fn summary_total(usage: KiroUsageSummary) -> int {
    usage.input_uncached_tokens + usage.input_cached_tokens
}

pub open spec fn summary_json(usage: KiroUsageSummary, by_ratio: i32) -> JsonView {
    usage_json(
        told_usage(
            summary_total(usage) as i32,
            usage.output_tokens,
            usage.input_cached_tokens,
            by_ratio,
        ),
    )
}

/// The error with which a stream breaks off.
pub open spec fn stream_error(step: KiroStreamStep) -> Option<Seq<char>> {
    match step {
        KiroStreamStep::ReadFailed { error } => Some(
            "failed to read kiro upstream stream: "@ + error@,
        ),
        KiroStreamStep::DecodeFailed { error } => Some(
            "failed to decode kiro event frame: "@ + error@,
        ),
        KiroStreamStep::ParseFailed { error } => Some("failed to parse kiro event: "@ + error@),
        _ => None,
    }
}

fn break_off(guard: &mut KiroStreamRecordGuard, what: &str, error: &str) -> (action: KiroStreamAction)
    ensures
        *final(guard) == (KiroStreamRecordGuard {
            state: StreamRecordState::InternalFailure,
            ..*old(guard)
        }),
        action matches KiroStreamAction::Abort { error: text } && text@ == what@ + error@,
{
    guard.mark_internal_failure();
    KiroStreamAction::Abort { error: concat2(what, error) }
}

/// One step of relaying a Kiro stream to the client. The input of the final usage must
/// fit the type together.
pub fn stream_kiro_upstream_response(
    guard: &mut KiroStreamRecordGuard,
    step: KiroStreamStep,
    now_ns: u128,
) -> (action: KiroStreamAction)
    requires
        step matches KiroStreamStep::Ended { usage, .. } ==> i32::MIN <= summary_total(usage)
            <= i32::MAX,
    ensures
        match step {
            KiroStreamStep::Sent { bytes_len, event } => {
                &&& action is Continue
                &&& *final(guard) == (KiroStreamRecordGuard {
                    usage_meta: final(guard).usage_meta,
                    ..*old(guard)
                })
                &&& final(guard).usage_meta == (ProviderUsageMetadata {
                    first_sse_write_ms: final(guard).usage_meta.first_sse_write_ms,
                    stream_completed_cleanly: final(guard).usage_meta.stream_completed_cleanly,
                    downstream_disconnect: final(guard).usage_meta.downstream_disconnect,
                    bytes_streamed: Some(
                        crate::usage_meta::saturating_sum(
                            or_zero(old(guard).usage_meta.bytes_streamed),
                            crate::usage_meta::clamped(bytes_len as int),
                        ),
                    ),
                    final_event_type: final(guard).usage_meta.final_event_type,
                    ..old(guard).usage_meta
                })
                &&& final(guard).usage_meta.first_sse_write_ms == first_kept(
                    old(guard).usage_meta.first_sse_write_ms,
                    Some(elapsed_millis(old(guard).usage_meta.started_at_ns, now_ns)),
                )
                &&& final(guard).usage_meta.stream_completed_cleanly == first_kept(
                    old(guard).usage_meta.stream_completed_cleanly,
                    Some(false),
                )
                &&& final(guard).usage_meta.downstream_disconnect == first_kept(
                    old(guard).usage_meta.downstream_disconnect,
                    Some(false),
                )
                &&& opt_text(final(guard).usage_meta.final_event_type) == match nonempty_trim(
                    event@,
                ) {
                    Some(trimmed) => Some(trimmed),
                    None => opt_text(old(guard).usage_meta.final_event_type),
                }
            },
            KiroStreamStep::Ended { usage, by_ratio, final_events } => {
                &&& *final(guard) == (KiroStreamRecordGuard {
                    usage_meta: body_received(old(guard).usage_meta, now_ns),
                    ..*old(guard)
                })
                &&& action matches KiroStreamAction::Finish { usage: recorded, events }
                    && recorded == usage && sse_views(events@) == with_final_usage(
                    sse_views(final_events@),
                    summary_json(usage, by_ratio),
                )
            },
            _ => {
                &&& *final(guard) == (KiroStreamRecordGuard {
                    state: StreamRecordState::InternalFailure,
                    ..*old(guard)
                })
                &&& action matches KiroStreamAction::Abort { error } && Some(error@)
                    == stream_error(step)
            },
        },
{
    match step {
        KiroStreamStep::Sent { bytes_len, event } => {
            guard.observe_chunk(bytes_len, Some(event.as_str()), now_ns);
            KiroStreamAction::Continue
        },
        KiroStreamStep::ReadFailed { error } => break_off(
            guard,
            "failed to read kiro upstream stream: ",
            error.as_str(),
        ),
        KiroStreamStep::DecodeFailed { error } => break_off(
            guard,
            "failed to decode kiro event frame: ",
            error.as_str(),
        ),
        KiroStreamStep::ParseFailed { error } => break_off(
            guard,
            "failed to parse kiro event: ",
            error.as_str(),
        ),
        KiroStreamStep::Ended { usage, by_ratio, final_events } => {
            guard.usage_meta.mark_post_headers_body(now_ns);
            let told = anthropic_usage_json_from_summary_with_policy(&usage, by_ratio);
            let events = set_final_usage(final_events, &told);
            KiroStreamAction::Finish { usage, events }
        },
    }
}

pub open spec fn kiro_headers(stream: bool) -> Seq<(Seq<char>, Seq<char>)> {
    if stream {
        seq![
            ("content-type"@, "text/event-stream"@),
            ("cache-control"@, "no-cache"@),
            ("connection"@, "keep-alive"@),
        ]
    } else {
        seq![("content-type"@, "application/json"@), ("cache-control"@, "no-store"@)]
    }
}

/// The headers of an answer, streamed or whole. A stream is an event stream that no one
/// keeps; its status is that of the upstream.
pub fn kiro_answer_headers(stream: bool) -> (list: Vec<(String, String)>)
    ensures
        pair_views(list@) == kiro_headers(stream),
{
    let mut list: Vec<(String, String)> = Vec::new();
    if stream {
        list.push(("content-type".to_owned(), "text/event-stream".to_owned()));
        list.push(("cache-control".to_owned(), "no-cache".to_owned()));
        list.push(("connection".to_owned(), "keep-alive".to_owned()));
    } else {
        list.push(("content-type".to_owned(), "application/json".to_owned()));
        list.push(("cache-control".to_owned(), "no-store".to_owned()));
    }
    assert(pair_views(list@) =~= kiro_headers(stream));
    list
}

// ---------------------------------------------------------------------------
// The complete answer
// ---------------------------------------------------------------------------

/// The body of an upstream answer, as far as it could be read.
pub enum KiroBody {
    Unreadable,
    Undecodable { error: String },
    Events { events: Vec<WireEvent> },
}

/// What becomes of an upstream answer.
pub enum KiroNonStream {
    Refused { reply: Reply },
    /// The prompt was too long: the usage is recorded, then the reply goes out.
    TooLong { reply: Reply, event: UsageEvent },
    /// The events make an answer.
    Complete,
}

pub open spec fn any_too_long(events: Seq<WireEvent>) -> bool {
    exists|i: int| 0 <= i < events.len() && event_too_long(#[trigger] events[i])
}

/// The notes once a complete body has come in.
pub open spec fn answer_received(meta: ProviderUsageMetadata, now_ns: u128) -> ProviderUsageMetadata {
    ProviderUsageMetadata {
        stream_finish_ms: Some(elapsed_millis(meta.started_at_ns, now_ns)),
        ..body_received(meta, now_ns)
    }
}

/// The notes on an answer that says that the prompt was too long.
pub open spec fn too_long_noted(
    before: ProviderUsageMetadata,
    after: ProviderUsageMetadata,
    message: Seq<char>,
    now_ns: u128,
) -> bool {
    &&& after == (ProviderUsageMetadata {
        error_message: after.error_message,
        error_body: after.error_body,
        ..answer_received(before, now_ns)
    })
    &&& opt_text(after.error_message) == first_kept(
        opt_text(before.error_message),
        nonempty_trim(message),
    )
    &&& opt_text(after.error_body) == first_kept(
        opt_text(before.error_body),
        nonempty_trim(shown_text(anthropic_error("invalid_request_error"@, message))),
    )
}

/// The usage of a request whose prompt was too long.
pub open spec fn refused_usage(resolved_input_tokens: i32) -> KiroUsageSummary {
    KiroUsageSummary {
        input_uncached_tokens: resolved_input_tokens,
        input_cached_tokens: 0,
        output_tokens: 0,
        credit_usage: None,
        credit_usage_missing: true,
    }
}

/// Looks at the body of an upstream answer that is not streamed. `context_window` and
/// `resolved_input_tokens` are what is known of the model and the prompt.
pub fn non_stream_kiro_response(
    body: &KiroBody,
    meta: &mut ProviderUsageMetadata,
    key: &AuthenticatedKey,
    route: &ProviderKiroRoute,
    public_path: &str,
    model: &str,
    context_window: i32,
    request_input_tokens: i32,
    resolved_input_tokens: i32,
    billable_tokens: u64,
    created_at_ms: i64,
    now_ns: u128,
) -> (result: KiroNonStream)
    ensures
        match *body {
            KiroBody::Unreadable => {
                &&& *final(meta) == *old(meta)
                &&& result matches KiroNonStream::Refused { reply } && is_kiro_error(
                    reply,
                    502,
                    "api_error"@,
                    "failed to read kiro upstream response"@,
                )
            },
            KiroBody::Undecodable { error } => {
                &&& *final(meta) == answer_received(*old(meta), now_ns)
                &&& result matches KiroNonStream::Refused { reply } && is_kiro_error(
                    reply,
                    502,
                    "api_error"@,
                    error@,
                )
            },
            KiroBody::Events { events } => if any_too_long(events@) {
                let message = prompt_too_long(context_window, request_input_tokens);
                &&& too_long_noted(*old(meta), *final(meta), message, now_ns)
                &&& result matches KiroNonStream::TooLong { reply, event } && is_kiro_error(
                    reply,
                    413,
                    "invalid_request_error"@,
                    message,
                ) && is_kiro_record(
                    event,
                    *key,
                    *route,
                    public_path@,
                    model@,
                    413,
                    refused_usage(resolved_input_tokens),
                    billable_tokens,
                    *final(meta),
                    created_at_ms,
                    now_ns,
                )
            } else {
                &&& *final(meta) == answer_received(*old(meta), now_ns)
                &&& result is Complete
            },
        },
{
    if let KiroBody::Unreadable = body {
        return KiroNonStream::Refused {
            reply: anthropic_json_error(502, "api_error", "failed to read kiro upstream response"),
        };
    }
    meta.mark_post_headers_body(now_ns);
    meta.mark_stream_finish(now_ns);
    match body {
        KiroBody::Events { events } => {
            if !kiro_events_contain_content_length_exceeded(events) {
                return KiroNonStream::Complete;
            }
            let message = kiro_prompt_too_long_message(context_window, request_input_tokens);
            let reply = anthropic_json_error(413, "invalid_request_error", message.as_str());
            capture_error_message(meta, message.as_str());
            let error_body = anthropic_json_error_body("invalid_request_error", message.as_str());
            capture_error_body(meta, error_body.as_str());
            let usage = KiroUsageSummary {
                input_uncached_tokens: resolved_input_tokens,
                input_cached_tokens: 0,
                output_tokens: 0,
                credit_usage: None,
                credit_usage_missing: true,
            };
            let event = record_kiro_usage(
                key,
                route,
                public_path,
                model,
                413,
                &usage,
                billable_tokens,
                meta,
                created_at_ms,
                now_ns,
            );
            KiroNonStream::TooLong { reply, event }
        },
        KiroBody::Undecodable { error } => KiroNonStream::Refused {
            reply: anthropic_json_error(502, "api_error", error.as_str()),
        },
        KiroBody::Unreadable => KiroNonStream::Complete,
    }
}

/// A call of a tool that the assistant asks for.
pub struct ToolUse {
    pub tool_use_id: String,
    pub name: String,
    pub input: Json,
}

pub open spec fn tool_block(tool: ToolUse) -> JsonView {
    empty_object().with("type"@, JsonView::Str("tool_use"@)).with(
        "id"@,
        JsonView::Str(tool.tool_use_id@),
    ).with("name"@, JsonView::Str(tool.name@)).with("input"@, tool.input@)
}

pub open spec fn tool_blocks(tools: Seq<ToolUse>) -> Seq<JsonView> {
    Seq::new(tools.len(), |i: int| tool_block(tools[i]))
}

pub open spec fn opt_tool_blocks(tools: Option<Vec<ToolUse>>) -> Seq<JsonView> {
    match tools {
        Some(tools) => tool_blocks(tools@),
        None => Seq::empty(),
    }
}

/// The content of a message: the blocks of the answer, then the calls of tools.
pub fn content_with_tools(content: Vec<Json>, tools: Option<Vec<ToolUse>>) -> (result: Json)
    ensures
        result@ == JsonView::Array(array_view(content@) + opt_tool_blocks(tools)),
{
    let ghost before = content@;
    let mut all = content;
    if let Some(tools) = tools {
        let mut i: usize = 0;
        assert(array_view(before) + tool_blocks(tools@).take(0) =~= array_view(before));
        while i < tools.len()
            invariant
                i <= tools.len(),
                array_view(all@) == array_view(before) + tool_blocks(tools@).take(i as int),
            decreases tools.len() - i,
        {
            let tool = &tools[i];
            let block = Json::new_object().with("type", Json::str("tool_use")).with(
                "id",
                Json::Str(tool.tool_use_id.clone()),
            ).with("name", Json::Str(tool.name.clone())).with("input", tool.input.duplicate());
            proof {
                lemma_array_view_push(all@, block);
                assert(tool_blocks(tools@).take(i + 1) =~= tool_blocks(tools@).take(i as int).push(
                    tool_block(tools@[i as int]),
                ));
            }
            all.push(block);
            i += 1;
        }
        assert(tool_blocks(tools@).take(i as int) =~= tool_blocks(tools@));
        return Json::Array(all);
    }
    assert(array_view(before) + Seq::<JsonView>::empty() =~= array_view(before));
    Json::Array(all)
}

/// The answer to a request that is not streamed, as the message with the given id. The
/// input of the usage must fit the type together.
pub fn kiro_message_reply(
    id: &str,
    status: u16,
    content: Vec<Json>,
    tools: Option<Vec<ToolUse>>,
    model: &str,
    stop_reason: &str,
    usage: &KiroUsageSummary,
    by_ratio: i32,
) -> (reply: Reply)
    requires
        i32::MIN <= summary_total(*usage) <= i32::MAX,
    ensures
        reply.status == status,
        reply.json,
        reply.body@ == shown_text(
            assistant_message(
                id@,
                JsonView::Array(array_view(content@) + opt_tool_blocks(tools)),
                model@,
                stop_reason@,
                summary_json(*usage, by_ratio),
            ),
        ),
{
    let told = anthropic_usage_json_from_summary_with_policy(usage, by_ratio);
    let message = build_assistant_message(
        id,
        content_with_tools(content, tools),
        model,
        stop_reason,
        told,
    );
    Reply { status, json: true, body: show_text(&message) }
}

/// The answer under a fresh id, with its record. The record goes first: where it cannot be
/// written the client gets an error in place of the answer.
pub fn finish_non_stream_kiro_response(
    status: u16,
    content: Vec<Json>,
    tools: Option<Vec<ToolUse>>,
    key: &AuthenticatedKey,
    route: &ProviderKiroRoute,
    public_path: &str,
    model: &str,
    stop_reason: &str,
    usage: &KiroUsageSummary,
    by_ratio: i32,
    billable_tokens: u64,
    meta: &ProviderUsageMetadata,
    created_at_ms: i64,
    now_ns: u128,
) -> (result: (UsageEvent, Reply))
    requires
        i32::MIN <= summary_total(*usage) <= i32::MAX,
    ensures
        is_kiro_record(
            result.0,
            *key,
            *route,
            public_path@,
            model@,
            status,
            *usage,
            billable_tokens,
            *meta,
            created_at_ms,
            now_ns,
        ),
        result.1.status == status,
        result.1.json,
        exists|id: Seq<char>|
            is_simple_uuid(id) && result.1.body@ == shown_text(
                #[trigger] assistant_message(
                    id,
                    JsonView::Array(array_view(content@) + opt_tool_blocks(tools)),
                    model@,
                    stop_reason@,
                    summary_json(*usage, by_ratio),
                ),
            ),
{
    let event = record_kiro_usage(
        key,
        route,
        public_path,
        model,
        status,
        usage,
        billable_tokens,
        meta,
        created_at_ms,
        now_ns,
    );
    let id = random_simple_id();
    let reply = kiro_message_reply(
        id.as_str(),
        status,
        content,
        tools,
        model,
        stop_reason,
        usage,
        by_ratio,
    );
    (event, reply)
}

// ---------------------------------------------------------------------------
// Laws
// ---------------------------------------------------------------------------

/// A stream that is given up is never noted as completed, and the client is blamed only
/// where nothing failed on this side.
pub proof fn law_abandoned_is_not_clean(
    meta: ProviderUsageMetadata,
    state: StreamRecordState,
    now_ns: u128,
)
    ensures
        abandoned(meta, state, now_ns).stream_completed_cleanly == Some(false),
        abandoned(meta, state, now_ns).downstream_disconnect == Some(
            state != StreamRecordState::InternalFailure,
        ),
{
}

/// Setting the final usage changes neither the number of events nor their names, and
/// setting it twice is the same as setting it once.
pub proof fn law_final_usage_settles(events: Seq<(Seq<char>, JsonView)>, usage: JsonView)
    ensures
        with_final_usage(events, usage).len() == events.len(),
        forall|i: int| 0 <= i < events.len() ==> (#[trigger] with_final_usage(events, usage)[i]).0
            == events[i].0,
        with_final_usage(with_final_usage(events, usage), usage) == with_final_usage(events, usage),
{
    let once = with_final_usage(events, usage);
    let twice = with_final_usage(once, usage);
    assert forall|i: int| 0 <= i < events.len() implies twice[i] == once[i] by {
        let data = events[i].1;
        if events[i].0 == "message_delta"@ && data.get("usage"@) is Some {
            let set = data.with("usage"@, usage);
            assert(set->Object_0.insert("usage"@, usage) =~= set->Object_0);
        }
    }
    assert(twice =~= once);
}

/// Each chunk adds its bytes to those that were streamed, and the time of the first one
/// stays; a chunk with a name leaves that name as the last, one without leaves it alone.
pub proof fn law_chunks_add_up(
    before: ProviderUsageMetadata,
    after: ProviderUsageMetadata,
    bytes_len: usize,
    event_type: Option<&str>,
    now_ns: u128,
)
    requires
        chunk_observed(before, after, bytes_len, event_type, now_ns),
        or_zero(before.bytes_streamed) + bytes_len <= i64::MAX,
        or_zero(before.bytes_streamed) >= 0,
    ensures
        after.bytes_streamed matches Some(all) && all == (match before.bytes_streamed {
            Some(bytes) => bytes as int,
            None => 0,
        }) + bytes_len,
        before.first_sse_write_ms is Some ==> after.first_sse_write_ms == before.first_sse_write_ms,
        before.first_sse_write_ms is None ==> after.first_sse_write_ms == Some(
            elapsed_millis(before.started_at_ns, now_ns),
        ),
        event_type is None ==> opt_text(after.final_event_type) == opt_text(
            before.final_event_type,
        ),
        event_type matches Some(name) ==> (crate::text::trim(name@).len() > 0
            ==> opt_text(after.final_event_type) == Some(crate::text::trim(name@))),
        after.quota_failover_count == before.quota_failover_count,
        after.stream_finish_ms == before.stream_finish_ms,
{
}

/// Only the final event with a usage gets the one that was summed up; every other event, and
/// every other member, stays as it is.
pub proof fn law_only_the_usage_is_replaced(
    events: Seq<(Seq<char>, JsonView)>,
    usage: JsonView,
    i: int,
)
    requires
        0 <= i < events.len(),
    ensures
        events[i].0 != "message_delta"@ ==> with_final_usage(events, usage)[i] == events[i],
        events[i].1.get("usage"@) is None ==> with_final_usage(events, usage)[i] == events[i],
        events[i].0 == "message_delta"@ && events[i].1.get("usage"@) is Some ==> with_final_usage(
            events,
            usage,
        )[i].1.get("usage"@) == Some(usage),
        forall|key: Seq<char>|
            key != "usage"@ ==> #[trigger] with_final_usage(events, usage)[i].1.get(key)
                == events[i].1.get(key),
{
}

/// The time that a body took is what passed since its headers came.
pub proof fn law_the_body_takes_the_time_since_its_headers(
    meta: ProviderUsageMetadata,
    now_ns: u128,
)
    requires
        or_zero(meta.upstream_headers_ms) >= 0,
    ensures
        body_received(meta, now_ns).post_headers_body_ms matches Some(ms) && ms + (
        match meta.upstream_headers_ms {
            Some(at) => at as int,
            None => 0,
        }) == elapsed_millis(meta.started_at_ns, now_ns),
        body_received(meta, now_ns).upstream_headers_ms == meta.upstream_headers_ms,
        body_received(meta, now_ns).stream_finish_ms == meta.stream_finish_ms,
        answer_received(meta, now_ns).stream_finish_ms == Some(
            elapsed_millis(meta.started_at_ns, now_ns),
        ),
        answer_received(meta, now_ns).post_headers_body_ms == body_received(
            meta,
            now_ns,
        ).post_headers_body_ms,
{
}

/// A tool call is written with its id, its name and its input.
pub proof fn law_a_tool_call_is_written_whole(tools: Seq<ToolUse>, i: int)
    requires
        0 <= i < tools.len(),
    ensures
        tool_blocks(tools).len() == tools.len(),
        tool_blocks(tools)[i].get_str("type"@) == Some("tool_use"@),
        tool_blocks(tools)[i].get_str("id"@) == Some(tools[i].tool_use_id@),
        tool_blocks(tools)[i].get_str("name"@) == Some(tools[i].name@),
        tool_blocks(tools)[i].get("input"@) == Some(tools[i].input@),
{
    reveal_strlit("type");
    reveal_strlit("id");
    reveal_strlit("name");
    reveal_strlit("input");
    assert("type"@.len() == 4 && "id"@.len() == 2 && "name"@.len() == 4 && "input"@.len() == 5);
    assert("type"@[0] == 't' && "name"@[0] == 'n');
}

/// A refused prompt costs its input and nothing else; a stream that broke off says why.
pub proof fn law_a_refused_prompt_costs_its_input(resolved_input_tokens: i32)
    ensures
        refused_usage(resolved_input_tokens).input_uncached_tokens == resolved_input_tokens,
        refused_usage(resolved_input_tokens).input_cached_tokens == 0,
        refused_usage(resolved_input_tokens).output_tokens == 0,
        refused_usage(resolved_input_tokens).credit_usage is None,
        refused_usage(resolved_input_tokens).credit_usage_missing,
        forall|usage: Option<UsageBreakdown>|
            usage is None ==> (#[trigger] usage_or_missing(usage)).usage_missing,
        forall|usage: Option<UsageBreakdown>|
            usage is Some ==> (#[trigger] usage_or_missing(usage)) == usage->0,
{
}

/// Only a failed step breaks a stream off, and it says what failed.
pub proof fn law_failed_steps_say_what_failed(step: KiroStreamStep)
    ensures
        stream_error(step) is Some <==> step is ReadFailed || step is DecodeFailed
            || step is ParseFailed,
        step matches KiroStreamStep::ReadFailed { error } ==> (stream_error(step) matches Some(text)
            && text.len() >= error@.len() && text.skip(text.len() - error@.len()) == error@),
        step matches KiroStreamStep::DecodeFailed { error } ==> (stream_error(step) matches Some(
            text,
        ) && text.len() >= error@.len() && text.skip(text.len() - error@.len()) == error@),
        step matches KiroStreamStep::ParseFailed { error } ==> (stream_error(step) matches Some(
            text,
        ) && text.len() >= error@.len() && text.skip(text.len() - error@.len()) == error@),
{
    match step {
        KiroStreamStep::ReadFailed { error } => {
            let text = stream_error(step)->0;
            assert(text.skip(text.len() - error@.len()) =~= error@);
        },
        KiroStreamStep::DecodeFailed { error } => {
            let text = stream_error(step)->0;
            assert(text.skip(text.len() - error@.len()) =~= error@);
        },
        KiroStreamStep::ParseFailed { error } => {
            let text = stream_error(step)->0;
            assert(text.skip(text.len() - error@.len()) =~= error@);
        },
        _ => {},
    }
}

/// The usage that goes out with the last event is told of all the input, the cached part as
/// read from the cache.
pub proof fn law_the_last_event_tells_the_whole_input(usage: KiroUsageSummary, by_ratio: i32)
    requires
        0 <= usage.input_uncached_tokens,
        0 <= usage.input_cached_tokens,
        usage.input_uncached_tokens + usage.input_cached_tokens <= i32::MAX,
        0 <= usage.output_tokens,
    ensures
        ({
            let told = told_usage(
                summary_total(usage) as i32,
                usage.output_tokens,
                usage.input_cached_tokens,
                by_ratio,
            );
            &&& summary_json(usage, by_ratio) == usage_json(told)
            &&& told.cache_read_input_tokens == usage.input_cached_tokens
            &&& told.input_tokens + told.cache_creation_input_tokens == usage.input_uncached_tokens
            &&& told.output_tokens == usage.output_tokens
        }),
{
}

/// What the client is told of a request that was too long is noted, but not over what was
/// noted before.
pub proof fn law_a_too_long_request_is_noted(
    before: ProviderUsageMetadata,
    after: ProviderUsageMetadata,
    message: Seq<char>,
    now_ns: u128,
)
    requires
        too_long_noted(before, after, message, now_ns),
    ensures
        before.error_message is Some ==> opt_text(after.error_message) == opt_text(
            before.error_message,
        ),
        before.error_message is None && crate::text::trim(message).len() > 0 ==> opt_text(
            after.error_message,
        ) == Some(crate::text::trim(message)),
        before.error_body is Some ==> opt_text(after.error_body) == opt_text(before.error_body),
{
}

/// An answer is announced as a stream of events exactly where it is one.
pub proof fn law_answers_are_announced_as_what_they_are(stream: bool)
    ensures
        kiro_headers(stream)[0] == ("content-type"@, if stream {
            "text/event-stream"@
        } else {
            "application/json"@
        }),
        kiro_headers(stream)[1].0 == "cache-control"@,
        kiro_headers(stream).contains(("connection"@, "keep-alive"@)) <== stream,
{
    if stream {
        assert(kiro_headers(stream)[2] == ("connection"@, "keep-alive"@));
    }
}

} // verus!
