//! The answer of the Codex upstream on its way to the client.

use vstd::prelude::*;
use vstd::utf8::*;
use crate::codex_sse::{completed_response_from_sse_bytes, events_end, missing_codex_usage,
    stream_payloads, CompletedCodexSse, CompletedCodexSseError, UsageBreakdown};
use crate::errors::{anthropic_error, anthropic_json_error, codex_error_type,
    codex_error_type_for_status, codex_surface_error_response, error_summary, is_success,
    lossy_text, status_is_success, summarize_error_bytes, surface_error, text_reply, Reply};
use crate::json::{opt_bytes, parse_bytes, parsed_bytes, shown_text, write_bytes, written_bytes, Json};
use crate::kiro_model::pair_views;
use crate::kiro_stream::{body_received, chunk_observed, usage_or_missing, CodexStreamRecordGuard,
    StreamRecordState};
use crate::route_selection::is_text_reply;
use crate::text::{concat2, contains, nonempty_trim, opt_text, text_contains};
use crate::types::{AuthenticatedKey, GatewayResponseAdapter, PreparedGatewayRequest,
    ProviderCodexRoute};
use crate::usage_event::{is_codex_record, record_codex_usage, UsageEvent};
use crate::usage_meta::{capture_codex_prepared_request_json, capture_error_body,
    capture_error_bytes, capture_error_message, client_body_or_upstream, elapsed_millis,
    ended_stream, first_kept, or_zero, saturating_difference, ProviderUsageMetadata};

verus! {

// ---------------------------------------------------------------------------
// Complete bodies
// ---------------------------------------------------------------------------

/// How the body of an upstream answer is read.
#[derive(Debug, Clone, Copy, PartialEq, Eq, Structural)]
pub enum AnswerPlan {
    /// To its end, as a stream of events of which the client wants the result. `marked`
    /// where the content type says that it is one.
    CollectEvents { marked: bool },
    /// Event by event, each passed on.
    Stream,
    /// To its end, as one body.
    Buffer,
}

pub open spec fn answer_plan(
    status: u16,
    content_type: Seq<char>,
    wants_stream: bool,
    force_upstream_stream: bool,
) -> AnswerPlan {
    let events = is_success(status) && contains(content_type, "text/event-stream"@);
    if is_success(status) && !wants_stream && (events || force_upstream_stream) {
        AnswerPlan::CollectEvents { marked: events }
    } else if is_success(status) && (events || wants_stream) {
        AnswerPlan::Stream
    } else {
        AnswerPlan::Buffer
    }
}

/// How the answer of the upstream is read.
pub fn adapt_codex_upstream_response(
    status: u16,
    content_type: &str,
    prepared: &PreparedGatewayRequest,
) -> (plan: AnswerPlan)
    ensures
        plan == answer_plan(
            status,
            content_type@,
            prepared.wants_stream,
            prepared.force_upstream_stream,
        ),
{
    let success = status_is_success(status);
    let events = success && text_contains(content_type, "text/event-stream");
    if success && !prepared.wants_stream && (events || prepared.force_upstream_stream) {
        AnswerPlan::CollectEvents { marked: events }
    } else if success && (events || prepared.wants_stream) {
        AnswerPlan::Stream
    } else {
        AnswerPlan::Buffer
    }
}

/// Whether a collected answer is one JSON body after all, and no stream of events.
pub fn collected_body_is_json(marked: bool, bytes: &[u8]) -> (result: bool)
    ensures
        result == (!marked && parsed_bytes(bytes@) is Some),
{
    !marked && parse_bytes(bytes).is_some()
}

/// How the body of a complete answer goes to the client.
pub enum AnswerBody {
    /// As it is, with the model named as the client knows it.
    Renamed,
    /// As a chat completion.
    ChatCompletion,
    /// As an Anthropic message.
    AnthropicMessage,
    /// As an error in the Anthropic shape.
    Error { body: String },
}

pub open spec fn answer_body(
    status: u16,
    adapter: GatewayResponseAdapter,
    summary: Seq<char>,
    body: AnswerBody,
) -> bool {
    if is_success(status) {
        body == match adapter {
            GatewayResponseAdapter::Responses => AnswerBody::Renamed,
            GatewayResponseAdapter::ChatCompletions => AnswerBody::ChatCompletion,
            GatewayResponseAdapter::AnthropicMessages => AnswerBody::AnthropicMessage,
        }
    } else if adapter == GatewayResponseAdapter::AnthropicMessages {
        body matches AnswerBody::Error { body: text } && text@ == shown_text(
            anthropic_error(codex_error_type(status), summary),
        )
    } else {
        body == AnswerBody::Renamed
    }
}

/// The content type of a complete answer: JSON where the body was converted.
pub open spec fn answer_content_type(
    status: u16,
    adapter: GatewayResponseAdapter,
    upstream: Seq<char>,
) -> Seq<char> {
    if is_success(status) {
        if adapter == GatewayResponseAdapter::Responses {
            upstream
        } else {
            "application/json"@
        }
    } else if adapter == GatewayResponseAdapter::AnthropicMessages {
        "application/json"@
    } else {
        upstream
    }
}

/// A request that was answered.
pub struct CodexAnswered {
    pub key: AuthenticatedKey,
    pub prepared: PreparedGatewayRequest,
    pub route: ProviderCodexRoute,
    pub meta: ProviderUsageMetadata,
}

/// A complete answer: what is recorded, and how the body goes to the client.
pub struct CodexComplete {
    pub event: UsageEvent,
    pub body: AnswerBody,
    pub content_type: String,
}

/// The notes on a complete upstream body.
pub open spec fn parts_noted(
    before: ProviderUsageMetadata,
    after: ProviderUsageMetadata,
    status: u16,
    bytes: Seq<u8>,
    now_ns: u128,
) -> bool {
    &&& after == (ProviderUsageMetadata {
        post_headers_body_ms: Some(
            saturating_difference(
                elapsed_millis(before.started_at_ns, now_ns),
                or_zero(before.upstream_headers_ms),
            ),
        ),
        stream_finish_ms: Some(elapsed_millis(before.started_at_ns, now_ns)),
        error_message: after.error_message,
        error_body: after.error_body,
        ..before
    })
    &&& if is_success(status) {
        after.error_message == before.error_message && after.error_body == before.error_body
    } else {
        &&& opt_text(after.error_message) == first_kept(
            opt_text(before.error_message),
            nonempty_trim(error_summary(parsed_bytes(bytes), lossy_text(bytes))),
        )
        &&& opt_text(after.error_body) == first_kept(
            opt_text(before.error_body),
            nonempty_trim(lossy_text(bytes)),
        )
    }
}

/// The tokens of a complete answer: none are known of an error.
pub open spec fn answer_usage(status: u16, extracted: Option<UsageBreakdown>) -> UsageBreakdown {
    usage_or_missing(
        if is_success(status) {
            extracted
        } else {
            None
        },
    )
}

/// The answer to the client for a complete upstream body, with its notes and its record.
/// `extracted` are the tokens that the body tells, `billable_tokens` what they cost.
pub fn adapt_codex_upstream_response_from_parts(
    answered: &mut CodexAnswered,
    status: u16,
    content_type: &str,
    bytes: &[u8],
    extracted: Option<UsageBreakdown>,
    billable_tokens: u64,
    created_at_ms: i64,
    now_ns: u128,
) -> (complete: CodexComplete)
    ensures
        *final(answered) == (CodexAnswered { meta: final(answered).meta, ..*old(answered) }),
        parts_noted(old(answered).meta, final(answered).meta, status, bytes@, now_ns),
        is_codex_record(
            complete.event,
            old(answered).key,
            old(answered).prepared,
            status,
            old(answered).route,
            answer_usage(status, extracted),
            billable_tokens,
            final(answered).meta,
            created_at_ms,
            now_ns,
        ),
        answer_body(
            status,
            old(answered).prepared.response_adapter,
            error_summary(parsed_bytes(bytes@), lossy_text(bytes@)),
            complete.body,
        ),
        complete.content_type@ == answer_content_type(
            status,
            old(answered).prepared.response_adapter,
            content_type@,
        ),
{
    answered.meta.mark_post_headers_body(now_ns);
    answered.meta.mark_stream_finish(now_ns);
    let success = status_is_success(status);
    let mut usage = missing_codex_usage();
    if success {
        if let Some(told) = extracted {
            usage = told;
        }
    } else {
        capture_error_bytes(&mut answered.meta, bytes);
    }
    let event = record_codex_usage(
        &answered.key,
        &answered.prepared,
        status,
        &answered.route,
        usage,
        billable_tokens,
        &answered.meta,
        created_at_ms,
        now_ns,
    );
    let (body, content_type) = if success {
        match answered.prepared.response_adapter {
            GatewayResponseAdapter::Responses => (AnswerBody::Renamed, content_type.to_owned()),
            GatewayResponseAdapter::ChatCompletions => (
                AnswerBody::ChatCompletion,
                "application/json".to_owned(),
            ),
            GatewayResponseAdapter::AnthropicMessages => (
                AnswerBody::AnthropicMessage,
                "application/json".to_owned(),
            ),
        }
    } else {
        match answered.prepared.response_adapter {
            GatewayResponseAdapter::AnthropicMessages => {
                let message = summarize_error_bytes(bytes);
                let reply = anthropic_json_error(
                    status,
                    codex_error_type_for_status(status),
                    message.as_str(),
                );
                (AnswerBody::Error { body: reply.body }, "application/json".to_owned())
            },
            _ => (AnswerBody::Renamed, content_type.to_owned()),
        }
    };
    CodexComplete { event, body, content_type }
}

/// The reply where the record of an answer could not be kept.
pub fn codex_not_recorded(error: &str) -> (reply: Reply)
    ensures
        is_text_reply(reply, 500, "failed to record codex usage: "@ + error@),
{
    text_reply(500, concat2("failed to record codex usage: ", error).as_str())
}

/// The content type of an upstream answer; one that tells none is JSON.
pub fn upstream_content_type(told: Option<&str>) -> (content_type: String)
    ensures
        content_type@ == match told {
            Some(told) => told@,
            None => "application/json"@,
        },
{
    match told {
        Some(told) => told.to_owned(),
        None => "application/json".to_owned(),
    }
}

/// The body of an upstream answer, or the reply where it could not be read to its end.
pub fn codex_body_read(bytes: Option<Vec<u8>>) -> (result: Result<Vec<u8>, Reply>)
    ensures
        match (bytes, result) {
            (Some(bytes), Ok(read)) => read == bytes,
            (None, Err(reply)) => is_text_reply(
                reply,
                502,
                "codex upstream response read failed"@,
            ),
            _ => false,
        },
{
    match bytes {
        Some(bytes) => Ok(bytes),
        None => Err(text_reply(502, "codex upstream response read failed")),
    }
}

pub open spec fn answer_headers(content_type: Seq<char>) -> Seq<(Seq<char>, Seq<char>)> {
    seq![("content-type"@, content_type), ("cache-control"@, "no-store"@)]
}

/// The headers of an answer; those of the upstream that are passed on come on top.
pub fn codex_answer_headers(content_type: &str) -> (list: Vec<(String, String)>)
    ensures
        pair_views(list@) == answer_headers(content_type@),
{
    let mut list: Vec<(String, String)> = Vec::new();
    list.push(("content-type".to_owned(), content_type.to_owned()));
    list.push(("cache-control".to_owned(), "no-store".to_owned()));
    assert(pair_views(list@) =~= answer_headers(content_type@));
    list
}

/// The body of an answer to the client.
pub enum CodexReplyBody {
    Bytes { bytes: Vec<u8> },
    Text { text: String },
}

/// An answer to the client.
pub struct CodexReply {
    pub status: u16,
    pub headers: Vec<(String, String)>,
    pub body: CodexReplyBody,
}

/// What goes to the client.
pub enum CodexOutcome {
    Answer { reply: CodexReply },
    Error { reply: Reply },
}

pub open spec fn is_answer(
    reply: CodexReply,
    status: u16,
    content_type: Seq<char>,
    body: CodexReplyBody,
) -> bool {
    reply.status == status && pair_views(reply.headers@) == answer_headers(content_type)
        && reply.body == body
}

fn codex_reply(status: u16, content_type: &str, body: CodexReplyBody) -> (reply: CodexReply)
    ensures
        is_answer(reply, status, content_type@, body),
{
    CodexReply { status, headers: codex_answer_headers(content_type), body }
}

pub open spec fn sends_answer(
    outcome: CodexOutcome,
    status: u16,
    content_type: Seq<char>,
    body: CodexReplyBody,
) -> bool {
    outcome matches CodexOutcome::Answer { reply } && is_answer(reply, status, content_type, body)
}

pub open spec fn sends_error(outcome: CodexOutcome, status: u16, message: Seq<char>) -> bool {
    outcome matches CodexOutcome::Error { reply } && is_text_reply(reply, status, message)
}

/// What goes to the client for a complete body. A body that is only renamed goes out as it
/// came where no model was renamed in it; one that cannot be converted is an error.
pub open spec fn complete_outcome(
    outcome: CodexOutcome,
    status: u16,
    content_type: Seq<char>,
    body: AnswerBody,
    bytes: Vec<u8>,
    recorded: Result<(), String>,
    converted: Result<Vec<u8>, String>,
) -> bool {
    match recorded {
        Err(error) => sends_error(
            outcome,
            500,
            "failed to record codex usage: "@ + error@,
        ),
        Ok(_) => match (body, converted) {
            (AnswerBody::Error { body: text }, _) => sends_answer(
                outcome,
                status,
                content_type,
                CodexReplyBody::Text { text },
            ),
            (_, Ok(converted)) => sends_answer(
                outcome,
                status,
                content_type,
                CodexReplyBody::Bytes { bytes: converted },
            ),
            (AnswerBody::Renamed, Err(_)) => sends_answer(
                outcome,
                status,
                content_type,
                CodexReplyBody::Bytes { bytes },
            ),
            (_, Err(message)) => sends_error(outcome, 502, message@),
        },
    }
}

/// Answers with a complete body, once its record was kept or could not be. `converted` is
/// the body in the form that it is to have, or the reason why it cannot have it.
pub fn finish_codex_answer(
    status: u16,
    content_type: &str,
    body: AnswerBody,
    bytes: Vec<u8>,
    recorded: Result<(), String>,
    converted: Result<Vec<u8>, String>,
) -> (outcome: CodexOutcome)
    ensures
        complete_outcome(outcome, status, content_type@, body, bytes, recorded, converted),
{
    if let Err(error) = recorded {
        return CodexOutcome::Error { reply: codex_not_recorded(error.as_str()) };
    }
    let sent = match body {
        AnswerBody::Error { body } => CodexReplyBody::Text { text: body },
        AnswerBody::Renamed => match converted {
            Ok(converted) => CodexReplyBody::Bytes { bytes: converted },
            Err(_) => CodexReplyBody::Bytes { bytes },
        },
        _ => match converted {
            Ok(converted) => CodexReplyBody::Bytes { bytes: converted },
            Err(message) => {
                return CodexOutcome::Error { reply: text_reply(502, message.as_str()) };
            },
        },
    };
    CodexOutcome::Answer { reply: codex_reply(status, content_type, sent) }
}

// ---------------------------------------------------------------------------
// Collected events
// ---------------------------------------------------------------------------

/// What collected events come to.
pub enum CodexCollected {
    /// They are one body after all.
    WholeBody,
    /// The response is complete: it is to be named and shaped for the client, recorded with
    /// its tokens, and sent.
    Completed { response: Json, usage: UsageBreakdown },
    /// They failed: the record is to be kept, and the reply sent.
    Failed { event: UsageEvent, reply: Reply },
}

/// The notes on collected events.
pub open spec fn collected_timed(meta: ProviderUsageMetadata, now_ns: u128) -> ProviderUsageMetadata {
    ProviderUsageMetadata {
        stream_finish_ms: Some(elapsed_millis(meta.started_at_ns, now_ns)),
        ..body_received(meta, now_ns)
    }
}

/// The notes on events that failed: the bodies of the request, and the error.
pub open spec fn events_failed(
    before: ProviderUsageMetadata,
    after: ProviderUsageMetadata,
    prepared: PreparedGatewayRequest,
    error: CompletedCodexSseError,
) -> bool {
    &&& after == (ProviderUsageMetadata {
        client_request_body_json: after.client_request_body_json,
        upstream_request_body_json: after.upstream_request_body_json,
        error_message: after.error_message,
        error_body: after.error_body,
        ..before
    })
    &&& opt_bytes(after.client_request_body_json) == first_kept(
        opt_bytes(before.client_request_body_json),
        Some(client_body_or_upstream(prepared)),
    )
    &&& opt_bytes(after.upstream_request_body_json) == first_kept(
        opt_bytes(before.upstream_request_body_json),
        Some(prepared.request_body@),
    )
    &&& opt_text(after.error_message) == first_kept(
        opt_text(before.error_message),
        nonempty_trim(error.message@),
    )
    &&& opt_text(after.error_body) == match error.body {
        Some(body) => first_kept(opt_text(before.error_body), nonempty_trim(body@)),
        None => opt_text(before.error_body),
    }
}

/// What collected events come to, given how they end.
pub open spec fn collected_step(
    before: CodexAnswered,
    ended: Result<CompletedCodexSse, CompletedCodexSseError>,
    failure_cost: u64,
    created_at_ms: i64,
    now_ns: u128,
    after: CodexAnswered,
    collected: CodexCollected,
) -> bool {
    &&& after == (CodexAnswered { meta: after.meta, ..before })
    &&& match ended {
        Ok(completed) => {
            &&& after.meta == collected_timed(before.meta, now_ns)
            &&& collected matches CodexCollected::Completed { response, usage } && response
                == completed.response && usage == usage_or_missing(completed.usage)
        },
        Err(error) => {
            &&& events_failed(
                collected_timed(before.meta, now_ns),
                after.meta,
                before.prepared,
                error,
            )
            &&& collected matches CodexCollected::Failed { event, reply } && {
                &&& is_codex_record(
                    event,
                    before.key,
                    before.prepared,
                    error.status,
                    before.route,
                    usage_or_missing(None),
                    failure_cost,
                    after.meta,
                    created_at_ms,
                    now_ns,
                )
                &&& reply.status == error.status
                &&& reply.json
                &&& reply.body@ == shown_text(
                    surface_error(before.prepared.original_path@, error.status, error.message@),
                )
            }
        },
    }
}

/// Collects the events of an answer of which the client wants the result. `marked` where the
/// content type says that they are events; `usages` are the tokens that each tells, and
/// `failure_cost` is what is billed where they fail.
pub fn collect_codex_events(
    answered: &mut CodexAnswered,
    marked: bool,
    bytes: &[u8],
    usages: &Vec<Option<UsageBreakdown>>,
    failure_cost: u64,
    created_at_ms: i64,
    now_ns: u128,
) -> (collected: CodexCollected)
    ensures
        if !marked && parsed_bytes(bytes@) is Some {
            collected == CodexCollected::WholeBody && *final(answered) == *old(answered)
        } else {
            exists|ended: Result<CompletedCodexSse, CompletedCodexSseError>| #[trigger]
                events_end(stream_payloads(lossy_text(bytes@)), usages@, ended) && (valid_utf8(
                    bytes@,
                ) ==> events_end(stream_payloads(decode_utf8(bytes@)), usages@, ended))
                    && collected_step(
                    *old(answered),
                    ended,
                    failure_cost,
                    created_at_ms,
                    now_ns,
                    *final(answered),
                    collected,
                )
        },
{
    if collected_body_is_json(marked, bytes) {
        return CodexCollected::WholeBody;
    }
    answered.meta.mark_post_headers_body(now_ns);
    answered.meta.mark_stream_finish(now_ns);
    let ended = completed_response_from_sse_bytes(bytes, usages);
    let ghost end = ended;
    match ended {
        Ok(completed) => {
            let usage = match completed.usage {
                Some(usage) => usage,
                None => missing_codex_usage(),
            };
            assert(events_end(stream_payloads(lossy_text(bytes@)), usages@, end));
            CodexCollected::Completed { response: completed.response, usage }
        },
        Err(error) => {
            capture_codex_prepared_request_json(&mut answered.meta, &answered.prepared);
            capture_error_message(&mut answered.meta, error.message.as_str());
            if let Some(body) = &error.body {
                capture_error_body(&mut answered.meta, body.as_str());
            }
            let event = record_codex_usage(
                &answered.key,
                &answered.prepared,
                error.status,
                &answered.route,
                missing_codex_usage(),
                failure_cost,
                &answered.meta,
                created_at_ms,
                now_ns,
            );
            let reply = codex_surface_error_response(
                answered.prepared.original_path.as_str(),
                error.status,
                error.message.as_str(),
            );
            assert(events_end(stream_payloads(lossy_text(bytes@)), usages@, end));
            CodexCollected::Failed { event, reply }
        },
    }
}

/// The answer that a complete response comes to.
pub enum CollectedAnswer {
    /// It cannot be written down: the reply goes out, and nothing is recorded.
    Refused { reply: Reply },
    /// The record is to be kept, and the reply sent.
    Record { event: UsageEvent, reply: CodexReply },
}

/// The answer for a complete response, given the bytes that it is written as.
pub open spec fn collected_answer(
    answer: CollectedAnswer,
    answered: CodexAnswered,
    status: u16,
    usage: UsageBreakdown,
    billable_tokens: u64,
    body: Option<Seq<u8>>,
    created_at_ms: i64,
    now_ns: u128,
) -> bool {
    match body {
        None => answer matches CollectedAnswer::Refused { reply } && is_text_reply(
            reply,
            502,
            "codex upstream response adaptation failed"@,
        ),
        Some(body) => answer matches CollectedAnswer::Record { event, reply } && {
            &&& is_codex_record(
                event,
                answered.key,
                answered.prepared,
                status,
                answered.route,
                usage,
                billable_tokens,
                answered.meta,
                created_at_ms,
                now_ns,
            )
            &&& reply.status == status
            &&& pair_views(reply.headers@) == answer_headers("application/json"@)
            &&& reply.body matches CodexReplyBody::Bytes { bytes } && bytes@ == body
        },
    }
}

/// The answer for a complete response. `body` are the bytes that it is written as, in the
/// form that the client wants; nothing where it cannot be written.
pub fn finish_collected_events(
    answered: &CodexAnswered,
    status: u16,
    usage: UsageBreakdown,
    billable_tokens: u64,
    body: Option<Vec<u8>>,
    created_at_ms: i64,
    now_ns: u128,
) -> (answer: CollectedAnswer)
    ensures
        collected_answer(
            answer,
            *answered,
            status,
            usage,
            billable_tokens,
            opt_bytes(body),
            created_at_ms,
            now_ns,
        ),
{
    let body = match body {
        Some(body) => body,
        None => {
            return CollectedAnswer::Refused {
                reply: text_reply(502, "codex upstream response adaptation failed"),
            };
        },
    };
    let event = record_codex_usage(
        &answered.key,
        &answered.prepared,
        status,
        &answered.route,
        usage,
        billable_tokens,
        &answered.meta,
        created_at_ms,
        now_ns,
    );
    let reply = codex_reply(status, "application/json", CodexReplyBody::Bytes { bytes: body });
    CollectedAnswer::Record { event, reply }
}

/// The answer for a complete response. `adapted` is the response in the form that the client
/// wants.
pub fn answer_collected_events(
    answered: &CodexAnswered,
    status: u16,
    usage: UsageBreakdown,
    billable_tokens: u64,
    adapted: &Json,
    created_at_ms: i64,
    now_ns: u128,
) -> (answer: CollectedAnswer)
    ensures
        collected_answer(
            answer,
            *answered,
            status,
            usage,
            billable_tokens,
            written_bytes(adapted@),
            created_at_ms,
            now_ns,
        ),
{
    finish_collected_events(
        answered,
        status,
        usage,
        billable_tokens,
        write_bytes(adapted),
        created_at_ms,
        now_ns,
    )
}

/// The answer for a complete response once its record was kept, or could not be.
pub fn collected_answer_recorded(recorded: Result<(), String>, reply: CodexReply) -> (outcome:
    CodexOutcome)
    ensures
        match recorded {
            Ok(_) => outcome == (CodexOutcome::Answer { reply }),
            Err(error) => sends_error(
                outcome,
                500,
                "failed to record codex usage: "@ + error@,
            ),
        },
{
    match recorded {
        Ok(_) => CodexOutcome::Answer { reply },
        Err(error) => CodexOutcome::Error { reply: codex_not_recorded(error.as_str()) },
    }
}

/// The reply for events that failed once their record was kept, or could not be.
pub fn failed_events_recorded(recorded: Result<(), String>, reply: Reply) -> (told: Reply)
    ensures
        match recorded {
            Ok(_) => told == reply,
            Err(error) => is_text_reply(told, 500, "failed to record codex usage: "@ + error@),
        },
{
    match recorded {
        Ok(_) => reply,
        Err(error) => codex_not_recorded(error.as_str()),
    }
}

// ---------------------------------------------------------------------------
// Streams
// ---------------------------------------------------------------------------

/// The content type of a streamed answer.
pub open spec fn stream_content_type(adapter: GatewayResponseAdapter, upstream: Seq<char>) -> Seq<char> {
    if adapter == GatewayResponseAdapter::Responses {
        upstream
    } else {
        "text/event-stream"@
    }
}

pub fn codex_stream_content_type(adapter: GatewayResponseAdapter, upstream: &str) -> (content_type:
    String)
    ensures
        content_type@ == stream_content_type(adapter, upstream@),
{
    match adapter {
        GatewayResponseAdapter::Responses => upstream.to_owned(),
        _ => "text/event-stream".to_owned(),
    }
}

/// What happens on a stream.
pub enum CodexStreamEvent<'a> {
    /// A chunk goes to the client.
    Chunk { bytes_len: usize, event_type: Option<&'a str> },
    /// An event of the upstream could not be read.
    Unreadable { error: String },
    /// The upstream has sent everything. `billable_tokens` is what the tokens cost.
    End { billable_tokens: u64, created_at_ms: i64 },
}

/// What is to be done on a stream.
pub enum CodexStreamAction {
    Forward,
    /// Break the stream off with an error.
    Break { message: String },
    /// Send the last words where there are some, close the stream and keep the record.
    Close { last_words: Option<&'static str>, event: UsageEvent },
}

/// The last words of a stream of chat completions.
pub const LAST_WORDS: &'static str = "data: [DONE]\n\n";

/// The notes with the last words, where there are some.
pub open spec fn words_noted(
    before: ProviderUsageMetadata,
    noted: ProviderUsageMetadata,
    says: bool,
    now_ns: u128,
) -> bool {
    if says {
        chunk_observed(before, noted, 14, Some("done"), now_ns)
    } else {
        noted == before
    }
}

pub open spec fn closed_step(
    before: CodexStreamRecordGuard,
    billable_tokens: u64,
    created_at_ms: i64,
    now_ns: u128,
    after: CodexStreamRecordGuard,
    action: CodexStreamAction,
) -> bool {
    let says = before.prepared.response_adapter == GatewayResponseAdapter::ChatCompletions;
    &&& exists|noted: ProviderUsageMetadata| #[trigger]
        words_noted(before.usage_meta, noted, says, now_ns) && after == (CodexStreamRecordGuard {
            usage_meta: ended_stream(body_received(noted, now_ns), true, false, now_ns),
            record_committed: true,
            ..before
        })
    &&& action matches CodexStreamAction::Close { last_words, event } && {
        &&& match last_words {
            Some(words) => says && words@ == LAST_WORDS@,
            None => !says,
        }
        &&& is_codex_record(
            event,
            before.key,
            before.prepared,
            before.status,
            before.route,
            usage_or_missing(before.usage),
            billable_tokens,
            after.usage_meta,
            created_at_ms,
            now_ns,
        )
    }
}

/// Takes a stream one step further.
pub fn stream_codex_upstream_response(
    guard: &mut CodexStreamRecordGuard,
    event: &CodexStreamEvent,
    now_ns: u128,
) -> (action: CodexStreamAction)
    requires
        !old(guard).record_committed,
    ensures
        match *event {
            CodexStreamEvent::Chunk { bytes_len, event_type } => {
                &&& action == CodexStreamAction::Forward
                &&& *final(guard) == (CodexStreamRecordGuard {
                    usage_meta: final(guard).usage_meta,
                    ..*old(guard)
                })
                &&& chunk_observed(
                    old(guard).usage_meta,
                    final(guard).usage_meta,
                    bytes_len,
                    event_type,
                    now_ns,
                )
            },
            CodexStreamEvent::Unreadable { error } => {
                &&& *final(guard) == (CodexStreamRecordGuard {
                    state: StreamRecordState::InternalFailure,
                    ..*old(guard)
                })
                &&& action matches CodexStreamAction::Break { message } && message@
                    == "failed to parse codex upstream SSE event: "@ + error@
            },
            CodexStreamEvent::End { billable_tokens, created_at_ms } => closed_step(
                *old(guard),
                billable_tokens,
                created_at_ms,
                now_ns,
                *final(guard),
                action,
            ),
        },
{
    match event {
        CodexStreamEvent::Chunk { bytes_len, event_type } => {
            guard.observe_chunk(*bytes_len, *event_type, now_ns);
            CodexStreamAction::Forward
        },
        CodexStreamEvent::Unreadable { error } => {
            guard.mark_internal_failure();
            CodexStreamAction::Break {
                message: concat2("failed to parse codex upstream SSE event: ", error.as_str()),
            }
        },
        CodexStreamEvent::End { billable_tokens, created_at_ms } => {
            let says = match guard.prepared.response_adapter {
                GatewayResponseAdapter::ChatCompletions => true,
                _ => false,
            };
            let last_words = if says {
                guard.observe_chunk(14, Some("done"), now_ns);
                Some(LAST_WORDS)
            } else {
                None
            };
            let ghost noted = guard.usage_meta;
            let event = guard.finish_success(*billable_tokens, *created_at_ms, now_ns);
            assert(words_noted(old(guard).usage_meta, noted, says, now_ns));
            CodexStreamAction::Close { last_words, event }
        },
    }
}

// ---------------------------------------------------------------------------
// Laws
// ---------------------------------------------------------------------------

/// No answer goes out unrecorded: where the record of a complete body is not kept, the client
/// gets an error, whatever the body and its conversion.
pub proof fn law_no_answer_goes_out_unrecorded(
    outcome: CodexOutcome,
    status: u16,
    content_type: Seq<char>,
    body: AnswerBody,
    bytes: Vec<u8>,
    error: String,
    converted: Result<Vec<u8>, String>,
)
    requires
        complete_outcome(outcome, status, content_type, body, bytes, Err(error), converted),
    ensures
        outcome matches CodexOutcome::Error { reply } && reply.status == 500,
{
}

/// A client that did not ask for a stream never gets one: the events that the upstream
/// sends are collected.
pub proof fn law_stream_only_when_wanted(
    status: u16,
    content_type: Seq<char>,
    force_upstream_stream: bool,
)
    ensures
        answer_plan(status, content_type, false, force_upstream_stream) != AnswerPlan::Stream,
{
}

/// An answer is read as a stream of events only where it is a success.
pub proof fn law_errors_are_read_whole(
    status: u16,
    content_type: Seq<char>,
    wants_stream: bool,
    force_upstream_stream: bool,
)
    requires
        !is_success(status),
    ensures
        answer_plan(status, content_type, wants_stream, force_upstream_stream)
            == AnswerPlan::Buffer,
{
}

/// How an answer is read: a success streams to a client that asked for it; to any other it
/// is collected where it comes as events, or was asked for as such, and read as one body
/// where it does not. An error is read as one body.
pub proof fn law_how_an_answer_is_read(
    status: u16,
    content_type: Seq<char>,
    wants_stream: bool,
    force_upstream_stream: bool,
)
    ensures
        200 <= status <= 299 && wants_stream ==> answer_plan(
            status,
            content_type,
            wants_stream,
            force_upstream_stream,
        ) == AnswerPlan::Stream,
        200 <= status <= 299 && !wants_stream && contains(content_type, "text/event-stream"@)
            ==> answer_plan(status, content_type, wants_stream, force_upstream_stream) == (
        AnswerPlan::CollectEvents { marked: true }),
        200 <= status <= 299 && !wants_stream && !contains(content_type, "text/event-stream"@)
            && force_upstream_stream ==> answer_plan(
            status,
            content_type,
            wants_stream,
            force_upstream_stream,
        ) == (AnswerPlan::CollectEvents { marked: false }),
        200 <= status <= 299 && !wants_stream && !contains(content_type, "text/event-stream"@)
            && !force_upstream_stream ==> answer_plan(
            status,
            content_type,
            wants_stream,
            force_upstream_stream,
        ) == AnswerPlan::Buffer,
        !(200 <= status <= 299) ==> answer_plan(
            status,
            content_type,
            wants_stream,
            force_upstream_stream,
        ) == AnswerPlan::Buffer,
{
}

/// A success is put in the form that its client speaks; an error stays as it is but for a
/// client of messages, which gets it in its own form.
pub proof fn law_the_form_of_an_answer(
    status: u16,
    adapter: GatewayResponseAdapter,
    summary: Seq<char>,
    body: AnswerBody,
    upstream: Seq<char>,
)
    requires
        answer_body(status, adapter, summary, body),
    ensures
        200 <= status <= 299 ==> (body == AnswerBody::ChatCompletion <==> adapter
            == GatewayResponseAdapter::ChatCompletions),
        200 <= status <= 299 ==> (body == AnswerBody::AnthropicMessage <==> adapter
            == GatewayResponseAdapter::AnthropicMessages),
        200 <= status <= 299 ==> (body == AnswerBody::Renamed <==> adapter
            == GatewayResponseAdapter::Responses),
        !(200 <= status <= 299) ==> (body is Error <==> adapter
            == GatewayResponseAdapter::AnthropicMessages),
        !(200 <= status <= 299) && !(body is Error) ==> body == AnswerBody::Renamed,
        body == AnswerBody::Renamed ==> answer_content_type(status, adapter, upstream) == upstream,
        body != AnswerBody::Renamed ==> answer_content_type(status, adapter, upstream)
            == "application/json"@,
{
}

/// The answer keeps the status of the upstream and is never cached; a body that could not be
/// renamed goes out as it came, one that could not be converted is answered with 502.
pub proof fn law_what_goes_out_after_the_record(
    outcome: CodexOutcome,
    status: u16,
    content_type: Seq<char>,
    body: AnswerBody,
    bytes: Vec<u8>,
    converted: Result<Vec<u8>, String>,
)
    requires
        complete_outcome(outcome, status, content_type, body, bytes, Ok(()), converted),
    ensures
        outcome matches CodexOutcome::Answer { reply } ==> reply.status == status
            && reply.headers@.len() == 2,
        body is Error ==> outcome is Answer,
        !(body is Error) ==> (converted matches Ok(text) ==> (
        outcome matches CodexOutcome::Answer { reply } && reply.body == (CodexReplyBody::Bytes {
            bytes: text,
        }))),
        body == AnswerBody::Renamed && converted is Err ==> (
        outcome matches CodexOutcome::Answer { reply } && reply.body == (CodexReplyBody::Bytes {
            bytes,
        })),
        (body == AnswerBody::ChatCompletion || body == AnswerBody::AnthropicMessage)
            && converted is Err ==> (outcome matches CodexOutcome::Error { reply } && reply.status
            == 502),
{
    if let CodexOutcome::Answer { reply } = outcome {
        assert(pair_views(reply.headers@).len() == reply.headers@.len());
    }
}

/// An error costs no tokens, whatever its body tells; a success costs what it tells.
pub proof fn law_errors_cost_no_tokens(status: u16, extracted: Option<UsageBreakdown>)
    ensures
        !(200 <= status <= 299) ==> answer_usage(status, extracted).usage_missing && answer_usage(
            status,
            extracted,
        ).input_uncached_tokens == 0 && answer_usage(status, extracted).output_tokens == 0,
        200 <= status <= 299 ==> (extracted matches Some(usage) ==> answer_usage(status, extracted)
            == usage),
{
}

/// Events that completed give their response and its tokens; events that failed are recorded
/// and answered with the status and the message of the failure.
pub proof fn law_what_collected_events_come_to(
    before: CodexAnswered,
    ended: Result<CompletedCodexSse, CompletedCodexSseError>,
    failure_cost: u64,
    created_at_ms: i64,
    now_ns: u128,
    after: CodexAnswered,
    collected: CodexCollected,
)
    requires
        collected_step(
            before,
            ended,
            failure_cost,
            created_at_ms,
            now_ns,
            after,
            collected,
        ),
    ensures
        ended is Ok <==> collected is Completed,
        ended is Err <==> collected is Failed,
        ended matches Ok(done) ==> (collected matches CodexCollected::Completed { response, usage }
            && response == done.response && (done.usage matches Some(told) ==> usage == told) && (
        done.usage is None ==> usage.usage_missing)),
        ended matches Err(error) ==> (collected matches CodexCollected::Failed { event, reply }
            && reply.status == error.status),
        after.key == before.key,
        after.prepared == before.prepared,
        after.meta.stream_finish_ms == Some(elapsed_millis(before.meta.started_at_ns, now_ns)),
{
}

/// A stream that came to its end is closed as one that did: with the last words that only a
/// client of chat completions waits for, and a committed record.
pub proof fn law_a_finished_stream_is_closed(
    before: CodexStreamRecordGuard,
    billable_tokens: u64,
    created_at_ms: i64,
    now_ns: u128,
    after: CodexStreamRecordGuard,
    action: CodexStreamAction,
)
    requires
        closed_step(before, billable_tokens, created_at_ms, now_ns, after, action),
    ensures
        action matches CodexStreamAction::Close { last_words, event } && (last_words is Some
            <==> before.prepared.response_adapter == GatewayResponseAdapter::ChatCompletions),
        action matches CodexStreamAction::Close { last_words, event } && (last_words matches Some(
            words,
        ) ==> words@ == "data: [DONE]\n\n"@),
        after.record_committed,
        after.usage_meta.stream_completed_cleanly == Some(true),
        after.usage_meta.downstream_disconnect == Some(false),
{
}

/// A client that does not speak the upstream's own form gets its events as such.
pub proof fn law_the_type_of_a_stream(adapter: GatewayResponseAdapter, upstream: Seq<char>)
    ensures
        adapter == GatewayResponseAdapter::Responses ==> stream_content_type(adapter, upstream)
            == upstream,
        adapter != GatewayResponseAdapter::Responses ==> stream_content_type(adapter, upstream)
            == "text/event-stream"@,
{
}

/// A complete response that can be written is recorded and sent as it was written, under the
/// status that it has; one that cannot be written is refused, and nothing is recorded.
pub proof fn law_what_is_written_is_sent(
    answered: &CodexAnswered,
    status: u16,
    usage: UsageBreakdown,
    billable_tokens: u64,
    body: Option<Vec<u8>>,
    created_at_ms: i64,
    now_ns: u128,
    answer: CollectedAnswer,
)
    requires
        call_ensures(
            finish_collected_events,
            (answered, status, usage, billable_tokens, body, created_at_ms, now_ns),
            answer,
        ),
    ensures
        body matches Some(bytes) ==> (answer matches CollectedAnswer::Record { event, reply }
            && reply.status == status && (reply.body matches CodexReplyBody::Bytes { bytes: sent }
            && sent@ == bytes@)),
        body is None ==> (answer matches CollectedAnswer::Refused { reply } && reply.status == 502),
{
}

/// What goes wrong with an answer is noted once: what was noted before stays, and an answer
/// that succeeds notes nothing.
pub proof fn law_the_first_error_stays_noted(
    before: ProviderUsageMetadata,
    after: ProviderUsageMetadata,
    status: u16,
    bytes: Seq<u8>,
    now_ns: u128,
)
    requires
        parts_noted(before, after, status, bytes, now_ns),
    ensures
        before.error_message is Some ==> opt_text(after.error_message) == opt_text(
            before.error_message,
        ),
        before.error_body is Some ==> opt_text(after.error_body) == opt_text(before.error_body),
        200 <= status < 300 ==> after.error_message == before.error_message && after.error_body
            == before.error_body,
        !(200 <= status < 300) && before.error_body is None && crate::text::trim(
            lossy_text(bytes),
        ).len() > 0 ==> opt_text(after.error_body) == Some(crate::text::trim(lossy_text(bytes))),
        after.started_at_ns == before.started_at_ns,
        after.stream_finish_ms is Some,
{
}

} // verus!
