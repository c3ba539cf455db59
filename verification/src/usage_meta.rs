//! What is noted about a request while it is served: timings, captured bodies
//! and the first error.

use vstd::prelude::*;
use vstd::slice::slice_to_vec;
use crate::errors::{error_summary, lossy_text, summarize_error_bytes, text_of_bytes};
use crate::json::{opt_bytes, parse_bytes, parsed_bytes, JsonView};
use crate::text::{clone_opt, nonempty_trim, opt_text, trimmed_nonempty};
use crate::types::{PreparedGatewayRequest, UsageStreamDetails, UsageTiming};

verus! {

pub const NANOS_PER_MILLI: u128 = 1_000_000;

/// Whole milliseconds from `start` to `now`, as far as the type reaches.
pub open spec fn elapsed_millis(start_ns: u128, now_ns: u128) -> i64 {
    if now_ns <= start_ns {
        0
    } else {
        let ms = (now_ns - start_ns) / (NANOS_PER_MILLI as int);
        if ms > i64::MAX {
            i64::MAX
        } else {
            ms as i64
        }
    }
}

/// `a + b`, as far as the type reaches.
pub open spec fn saturating_sum(a: i64, b: i64) -> i64 {
    if a + b > i64::MAX {
        i64::MAX
    } else if a + b < i64::MIN {
        i64::MIN
    } else {
        (a + b) as i64
    }
}

/// `a - b`, as far as the type reaches.
pub open spec fn saturating_difference(a: i64, b: i64) -> i64 {
    if a - b > i64::MAX {
        i64::MAX
    } else if a - b < i64::MIN {
        i64::MIN
    } else {
        (a - b) as i64
    }
}

pub fn sum_i64(a: i64, b: i64) -> (result: i64)
    ensures
        result == saturating_sum(a, b),
{
    match a.checked_add(b) {
        Some(sum) => sum,
        None => if b > 0 {
            i64::MAX
        } else {
            i64::MIN
        },
    }
}

pub fn difference_i64(a: i64, b: i64) -> (result: i64)
    ensures
        result == saturating_difference(a, b),
{
    match a.checked_sub(b) {
        Some(difference) => difference,
        None => if b < 0 {
            i64::MAX
        } else {
            i64::MIN
        },
    }
}

/// `value` as a signed number, as far as the type reaches.
pub open spec fn clamped(value: int) -> i64 {
    if value > i64::MAX {
        i64::MAX
    } else {
        value as i64
    }
}

pub fn clamp_usize_to_i64(value: usize) -> (result: i64)
    ensures
        result == clamped(value as int),
{
    if value as u64 > 9223372036854775807 {
        i64::MAX
    } else {
        value as i64
    }
}

pub fn clamp_u64_to_i64(value: u64) -> (result: i64)
    ensures
        result == clamped(value as int),
{
    if value > 9223372036854775807 {
        i64::MAX
    } else {
        value as i64
    }
}

pub open spec fn or_zero(value: Option<i64>) -> i64 {
    match value {
        Some(v) => v,
        None => 0,
    }
}

pub struct ProviderUsageMetadata {
    pub started_at_ns: u128,
    pub request_method: String,
    pub request_url: String,
    pub request_body_bytes: Option<i64>,
    pub request_body_read_ms: Option<i64>,
    pub request_json_parse_ms: Option<i64>,
    pub pre_handler_ms: Option<i64>,
    pub routing_wait_ms: Option<i64>,
    pub upstream_headers_ms: Option<i64>,
    pub post_headers_body_ms: Option<i64>,
    pub first_sse_write_ms: Option<i64>,
    pub stream_finish_ms: Option<i64>,
    pub stream_completed_cleanly: Option<bool>,
    pub downstream_disconnect: Option<bool>,
    pub final_event_type: Option<String>,
    pub bytes_streamed: Option<i64>,
    pub quota_failover_count: u64,
    pub routing_diagnostics_json: Option<String>,
    pub client_ip: String,
    pub ip_region: String,
    pub request_headers_json: String,
    pub last_message_content: Option<String>,
    pub client_request_body_json: Option<Vec<u8>>,
    pub upstream_request_body_json: Option<Vec<u8>>,
    pub full_request_json: Option<Vec<u8>>,
    pub error_message: Option<String>,
    pub error_body: Option<String>,
}

impl ProviderUsageMetadata {
    /// The notes at the start of a request: nothing has been measured yet.
    pub fn from_request_parts(
        started_at_ns: u128,
        request_method: String,
        request_url: String,
        client_ip: String,
        ip_region: String,
        request_headers_json: String,
    ) -> (meta: Self)
        ensures
            meta == (ProviderUsageMetadata {
                started_at_ns,
                request_method,
                request_url,
                request_body_bytes: None,
                request_body_read_ms: None,
                request_json_parse_ms: None,
                pre_handler_ms: None,
                routing_wait_ms: None,
                upstream_headers_ms: None,
                post_headers_body_ms: None,
                first_sse_write_ms: None,
                stream_finish_ms: None,
                stream_completed_cleanly: None,
                downstream_disconnect: None,
                final_event_type: None,
                bytes_streamed: None,
                quota_failover_count: 0,
                routing_diagnostics_json: None,
                client_ip,
                ip_region,
                request_headers_json,
                last_message_content: None,
                client_request_body_json: None,
                upstream_request_body_json: None,
                full_request_json: None,
                error_message: None,
                error_body: None,
            }),
    {
        ProviderUsageMetadata {
            started_at_ns,
            request_method,
            request_url,
            request_body_bytes: None,
            request_body_read_ms: None,
            request_json_parse_ms: None,
            pre_handler_ms: None,
            routing_wait_ms: None,
            upstream_headers_ms: None,
            post_headers_body_ms: None,
            first_sse_write_ms: None,
            stream_finish_ms: None,
            stream_completed_cleanly: None,
            downstream_disconnect: None,
            final_event_type: None,
            bytes_streamed: None,
            quota_failover_count: 0,
            routing_diagnostics_json: None,
            client_ip,
            ip_region,
            request_headers_json,
            last_message_content: None,
            client_request_body_json: None,
            upstream_request_body_json: None,
            full_request_json: None,
            error_message: None,
            error_body: None,
        }
    }

    pub fn elapsed_ms(&self, now_ns: u128) -> (result: i64)
        ensures
            result == elapsed_millis(self.started_at_ns, now_ns),
    {
        if now_ns <= self.started_at_ns {
            return 0;
        }
        let ms: u128 = (now_ns - self.started_at_ns) / NANOS_PER_MILLI;
        if ms > 9223372036854775807 {
            i64::MAX
        } else {
            ms as i64
        }
    }

    pub fn with_request_body(&mut self, body_len: usize, read_ms: i64)
        ensures
            *final(self) == (ProviderUsageMetadata {
                request_body_bytes: Some(clamped(body_len as int)),
                request_body_read_ms: Some(read_ms),
                ..*old(self)
            }),
    {
        self.request_body_bytes = Some(clamp_usize_to_i64(body_len));
        self.request_body_read_ms = Some(read_ms);
    }

    pub fn mark_pre_handler_done(&mut self, parse_ms: i64, now_ns: u128)
        ensures
            *final(self) == (ProviderUsageMetadata {
                request_json_parse_ms: Some(parse_ms),
                pre_handler_ms: Some(elapsed_millis(old(self).started_at_ns, now_ns)),
                ..*old(self)
            }),
    {
        self.request_json_parse_ms = Some(parse_ms);
        self.pre_handler_ms = Some(self.elapsed_ms(now_ns));
    }

    pub fn mark_upstream_headers(&mut self, now_ns: u128)
        ensures
            *final(self) == (ProviderUsageMetadata {
                upstream_headers_ms: Some(elapsed_millis(old(self).started_at_ns, now_ns)),
                ..*old(self)
            }),
    {
        self.upstream_headers_ms = Some(self.elapsed_ms(now_ns));
    }

    pub fn mark_failover(&mut self)
        ensures
            *final(self) == (ProviderUsageMetadata {
                quota_failover_count: if old(self).quota_failover_count == u64::MAX {
                    u64::MAX
                } else {
                    (old(self).quota_failover_count + 1) as u64
                },
                ..*old(self)
            }),
    {
        self.quota_failover_count = self.quota_failover_count.saturating_add(1);
    }

    pub fn add_routing_wait(&mut self, elapsed_ms: i64)
        ensures
            *final(self) == (ProviderUsageMetadata {
                routing_wait_ms: Some(
                    saturating_sum(or_zero(old(self).routing_wait_ms), elapsed_ms),
                ),
                ..*old(self)
            }),
    {
        let before: i64 = match self.routing_wait_ms {
            Some(ms) => ms,
            None => 0,
        };
        self.routing_wait_ms = Some(sum_i64(before, elapsed_ms));
    }

    pub fn mark_post_headers_body(&mut self, now_ns: u128)
        ensures
            *final(self) == (ProviderUsageMetadata {
                post_headers_body_ms: Some(
                    saturating_difference(
                        elapsed_millis(old(self).started_at_ns, now_ns),
                        or_zero(old(self).upstream_headers_ms),
                    ),
                ),
                ..*old(self)
            }),
    {
        let headers: i64 = match self.upstream_headers_ms {
            Some(ms) => ms,
            None => 0,
        };
        self.post_headers_body_ms = Some(difference_i64(self.elapsed_ms(now_ns), headers));
    }

    pub fn mark_first_sse_write(&mut self, now_ns: u128)
        ensures
            *final(self) == (ProviderUsageMetadata {
                first_sse_write_ms: match old(self).first_sse_write_ms {
                    Some(ms) => Some(ms),
                    None => Some(elapsed_millis(old(self).started_at_ns, now_ns)),
                },
                ..*old(self)
            }),
    {
        if self.first_sse_write_ms.is_none() {
            self.first_sse_write_ms = Some(self.elapsed_ms(now_ns));
        }
    }

    /// Notes `bytes_len` bytes sent to the client; a named event becomes the final
    /// one.
    pub fn observe_stream_write(
        &mut self,
        bytes_len: usize,
        event_type: Option<&str>,
        now_ns: u128,
    )
        ensures
            *final(self) == (ProviderUsageMetadata {
                first_sse_write_ms: match old(self).first_sse_write_ms {
                    Some(ms) => Some(ms),
                    None => Some(elapsed_millis(old(self).started_at_ns, now_ns)),
                },
                stream_completed_cleanly: match old(self).stream_completed_cleanly {
                    Some(b) => Some(b),
                    None => Some(false),
                },
                downstream_disconnect: match old(self).downstream_disconnect {
                    Some(b) => Some(b),
                    None => Some(false),
                },
                bytes_streamed: Some(
                    saturating_sum(
                        or_zero(old(self).bytes_streamed),
                        clamped(bytes_len as int),
                    ),
                ),
                final_event_type: final(self).final_event_type,
                ..*old(self)
            }),
            opt_text(final(self).final_event_type) == match event_type {
                Some(name) => match nonempty_trim(name@) {
                    Some(trimmed) => Some(trimmed),
                    None => opt_text(old(self).final_event_type),
                },
                None => opt_text(old(self).final_event_type),
            },
    {
        self.mark_first_sse_write(now_ns);
        if self.stream_completed_cleanly.is_none() {
            self.stream_completed_cleanly = Some(false);
        }
        if self.downstream_disconnect.is_none() {
            self.downstream_disconnect = Some(false);
        }
        let before: i64 = match self.bytes_streamed {
            Some(bytes) => bytes,
            None => 0,
        };
        self.bytes_streamed = Some(sum_i64(before, clamp_usize_to_i64(bytes_len)));
        if let Some(name) = event_type {
            if let Some(trimmed) = trimmed_nonempty(name) {
                self.final_event_type = Some(trimmed);
            }
        }
    }

    pub fn mark_stream_finish(&mut self, now_ns: u128)
        ensures
            *final(self) == (ProviderUsageMetadata {
                stream_finish_ms: Some(elapsed_millis(old(self).started_at_ns, now_ns)),
                ..*old(self)
            }),
    {
        self.stream_finish_ms = Some(self.elapsed_ms(now_ns));
    }

    pub fn mark_stream_completed_cleanly(&mut self, now_ns: u128)
        ensures
            *final(self) == ended_stream(*old(self), true, false, now_ns),
    {
        self.stream_completed_cleanly = Some(true);
        self.downstream_disconnect = Some(false);
        self.mark_stream_finish(now_ns);
    }

    pub fn mark_stream_internal_incomplete(&mut self, now_ns: u128)
        ensures
            *final(self) == ended_stream(*old(self), false, false, now_ns),
    {
        self.stream_completed_cleanly = Some(false);
        self.downstream_disconnect = Some(false);
        self.mark_stream_finish(now_ns);
    }

    pub fn mark_downstream_disconnect(&mut self, now_ns: u128)
        ensures
            *final(self) == ended_stream(*old(self), false, true, now_ns),
    {
        self.stream_completed_cleanly = Some(false);
        self.downstream_disconnect = Some(true);
        self.mark_stream_finish(now_ns);
    }

    pub fn to_timing(&self, now_ns: u128) -> (timing: UsageTiming)
        ensures
            timing == timing_of(*self, now_ns),
    {
        UsageTiming {
            latency_ms: match self.stream_finish_ms {
                Some(ms) => Some(ms),
                None => Some(self.elapsed_ms(now_ns)),
            },
            routing_wait_ms: self.routing_wait_ms,
            upstream_headers_ms: self.upstream_headers_ms,
            post_headers_body_ms: self.post_headers_body_ms,
            request_body_read_ms: self.request_body_read_ms,
            request_json_parse_ms: self.request_json_parse_ms,
            pre_handler_ms: self.pre_handler_ms,
            first_sse_write_ms: self.first_sse_write_ms,
            stream_finish_ms: self.stream_finish_ms,
        }
    }

    pub fn to_stream_details(&self) -> (details: UsageStreamDetails)
        ensures
            details == stream_details_of(*self),
    {
        UsageStreamDetails {
            stream_completed_cleanly: self.stream_completed_cleanly,
            downstream_disconnect: self.downstream_disconnect,
            final_event_type: clone_opt(&self.final_event_type),
            bytes_streamed: self.bytes_streamed,
        }
    }
}

/// The notes after a stream has ended in the given way.
pub open spec fn ended_stream(
    meta: ProviderUsageMetadata,
    cleanly: bool,
    disconnected: bool,
    now_ns: u128,
) -> ProviderUsageMetadata {
    ProviderUsageMetadata {
        stream_completed_cleanly: Some(cleanly),
        downstream_disconnect: Some(disconnected),
        stream_finish_ms: Some(elapsed_millis(meta.started_at_ns, now_ns)),
        ..meta
    }
}

/// The milestones; the latency is the finish, or the time until now.
pub open spec fn timing_of(meta: ProviderUsageMetadata, now_ns: u128) -> UsageTiming {
    UsageTiming {
        latency_ms: match meta.stream_finish_ms {
            Some(ms) => Some(ms),
            None => Some(elapsed_millis(meta.started_at_ns, now_ns)),
        },
        routing_wait_ms: meta.routing_wait_ms,
        upstream_headers_ms: meta.upstream_headers_ms,
        post_headers_body_ms: meta.post_headers_body_ms,
        request_body_read_ms: meta.request_body_read_ms,
        request_json_parse_ms: meta.request_json_parse_ms,
        pre_handler_ms: meta.pre_handler_ms,
        first_sse_write_ms: meta.first_sse_write_ms,
        stream_finish_ms: meta.stream_finish_ms,
    }
}

pub open spec fn stream_details_of(meta: ProviderUsageMetadata) -> UsageStreamDetails {
    UsageStreamDetails {
        stream_completed_cleanly: meta.stream_completed_cleanly,
        downstream_disconnect: meta.downstream_disconnect,
        final_event_type: meta.final_event_type,
        bytes_streamed: meta.bytes_streamed,
    }
}

// ---------------------------------------------------------------------------
// Captures: the first one stays
// ---------------------------------------------------------------------------

/// What a capture slot holds after `new` is offered to it.
pub open spec fn first_kept<T>(old_value: Option<T>, offered: Option<T>) -> Option<T> {
    match old_value {
        Some(v) => Some(v),
        None => offered,
    }
}

pub fn capture_client_request_body_json(meta: &mut ProviderUsageMetadata, body: &[u8])
    ensures
        *final(meta) == (ProviderUsageMetadata {
            client_request_body_json: final(meta).client_request_body_json,
            ..*old(meta)
        }),
        opt_bytes(final(meta).client_request_body_json) == first_kept(
            opt_bytes(old(meta).client_request_body_json),
            Some(body@),
        ),
{
    if meta.client_request_body_json.is_none() {
        meta.client_request_body_json = Some(slice_to_vec(body));
    }
}

pub fn capture_upstream_request_body_json(meta: &mut ProviderUsageMetadata, body: &[u8])
    ensures
        *final(meta) == (ProviderUsageMetadata {
            upstream_request_body_json: final(meta).upstream_request_body_json,
            ..*old(meta)
        }),
        opt_bytes(final(meta).upstream_request_body_json) == first_kept(
            opt_bytes(old(meta).upstream_request_body_json),
            Some(body@),
        ),
{
    if meta.upstream_request_body_json.is_none() {
        meta.upstream_request_body_json = Some(slice_to_vec(body));
    }
}

pub fn capture_error_message(meta: &mut ProviderUsageMetadata, message: &str)
    ensures
        *final(meta) == (ProviderUsageMetadata {
            error_message: final(meta).error_message,
            ..*old(meta)
        }),
        opt_text(final(meta).error_message) == first_kept(
            opt_text(old(meta).error_message),
            nonempty_trim(message@),
        ),
{
    if meta.error_message.is_some() {
        return;
    }
    if let Some(trimmed) = trimmed_nonempty(message) {
        meta.error_message = Some(trimmed);
    }
}

pub fn capture_error_body(meta: &mut ProviderUsageMetadata, body: &str)
    ensures
        *final(meta) == (ProviderUsageMetadata {
            error_body: final(meta).error_body,
            ..*old(meta)
        }),
        opt_text(final(meta).error_body) == first_kept(
            opt_text(old(meta).error_body),
            nonempty_trim(body@),
        ),
{
    if meta.error_body.is_some() {
        return;
    }
    if let Some(trimmed) = trimmed_nonempty(body) {
        meta.error_body = Some(trimmed);
    }
}

pub fn capture_error_bytes(meta: &mut ProviderUsageMetadata, bytes: &[u8])
    ensures
        *final(meta) == (ProviderUsageMetadata {
            error_message: final(meta).error_message,
            error_body: final(meta).error_body,
            ..*old(meta)
        }),
        opt_text(final(meta).error_message) == first_kept(
            opt_text(old(meta).error_message),
            nonempty_trim(error_summary(parsed_bytes(bytes@), lossy_text(bytes@))),
        ),
        opt_text(final(meta).error_body) == first_kept(
            opt_text(old(meta).error_body),
            nonempty_trim(lossy_text(bytes@)),
        ),
{
    let summary = summarize_error_bytes(bytes);
    capture_error_message(meta, summary.as_str());
    let body = text_of_bytes(bytes);
    capture_error_body(meta, body.as_str());
}

fn bytes_clone(bytes: &Vec<u8>) -> (result: Vec<u8>)
    ensures
        result@ == bytes@,
{
    slice_to_vec(bytes.as_slice())
}

/// Notes the client's body if none is noted yet, and the body that goes upstream.
pub fn capture_codex_dispatch_request_json(
    meta: &mut ProviderUsageMetadata,
    client_body: &[u8],
    prepared: &PreparedGatewayRequest,
)
    ensures
        *final(meta) == (ProviderUsageMetadata {
            client_request_body_json: final(meta).client_request_body_json,
            upstream_request_body_json: final(meta).upstream_request_body_json,
            ..*old(meta)
        }),
        opt_bytes(final(meta).client_request_body_json) == first_kept(
            opt_bytes(old(meta).client_request_body_json),
            Some(client_body@),
        ),
        opt_bytes(final(meta).upstream_request_body_json) == Some(prepared.request_body@),
{
    capture_client_request_body_json(meta, client_body);
    meta.upstream_request_body_json = Some(bytes_clone(&prepared.request_body));
}

/// The body that came from the client, or the one that goes upstream where that is
/// not kept.
pub open spec fn client_body_or_upstream(prepared: PreparedGatewayRequest) -> Seq<u8> {
    match prepared.client_request_body {
        Some(body) => body@,
        None => prepared.request_body@,
    }
}

pub fn capture_codex_prepared_request_json(
    meta: &mut ProviderUsageMetadata,
    prepared: &PreparedGatewayRequest,
)
    ensures
        *final(meta) == (ProviderUsageMetadata {
            client_request_body_json: final(meta).client_request_body_json,
            upstream_request_body_json: final(meta).upstream_request_body_json,
            ..*old(meta)
        }),
        opt_bytes(final(meta).client_request_body_json) == first_kept(
            opt_bytes(old(meta).client_request_body_json),
            Some(client_body_or_upstream(*prepared)),
        ),
        opt_bytes(final(meta).upstream_request_body_json) == first_kept(
            opt_bytes(old(meta).upstream_request_body_json),
            Some(prepared.request_body@),
        ),
{
    match &prepared.client_request_body {
        Some(body) => capture_client_request_body_json(meta, body.as_slice()),
        None => capture_client_request_body_json(meta, prepared.request_body.as_slice()),
    }
    capture_upstream_request_body_json(meta, prepared.request_body.as_slice());
}

/// The request without its bodies, which a stream does not need any more.
pub fn strip_codex_stream_request_bodies(prepared: PreparedGatewayRequest) -> (result:
    PreparedGatewayRequest)
    ensures
        result == (PreparedGatewayRequest {
            client_request_body: None,
            request_body: result.request_body,
            ..prepared
        }),
        result.request_body@ == Seq::<u8>::empty(),
{
    let mut result = prepared;
    result.client_request_body = None;
    result.request_body = Vec::new();
    result
}

pub open spec fn body_text(body: Option<Vec<u8>>) -> Option<Seq<char>> {
    match body {
        Some(bytes) => Some(lossy_text(bytes@)),
        None => None,
    }
}

pub fn captured_body_json(body: &Option<Vec<u8>>) -> (text: Option<String>)
    ensures
        opt_text(text) == body_text(*body),
{
    match body {
        Some(bytes) => Some(text_of_bytes(bytes.as_slice())),
        None => None,
    }
}

/// The trimmed `model` of a JSON body.
pub open spec fn model_of(value: JsonView) -> Option<Seq<char>> {
    match value.get_str("model"@) {
        Some(model) => nonempty_trim(model),
        None => None,
    }
}

pub fn extract_model_from_json_body(body: &[u8]) -> (model: Option<String>)
    ensures
        opt_text(model) == match parsed_bytes(body@) {
            Some(value) => model_of(value),
            None => None,
        },
{
    match parse_bytes(body) {
        Some(value) => crate::json::optional_json_string(&value, "model"),
        None => None,
    }
}

// ---------------------------------------------------------------------------
// Laws
// ---------------------------------------------------------------------------

/// A time that has passed is told in whole milliseconds, rounded down; a clock that went
/// back counts as no time.
pub proof fn law_elapsed_time_is_rounded_down(start_ns: u128, now_ns: u128)
    requires
        now_ns - start_ns <= i64::MAX,
    ensures
        now_ns >= start_ns ==> elapsed_millis(start_ns, now_ns) * 1_000_000 <= now_ns - start_ns < (
        elapsed_millis(start_ns, now_ns) + 1) * 1_000_000,
        now_ns < start_ns ==> elapsed_millis(start_ns, now_ns) == 0,
{
}

/// What was noted first stays; only where nothing was noted is the offer taken.
pub proof fn law_the_first_note_stays<T>(noted: Option<T>, first: Option<T>, second: Option<T>)
    ensures
        noted is Some ==> first_kept(noted, first) == noted,
        noted is None ==> first_kept(noted, first) == first,
        first_kept(first_kept(noted, first), second) == first_kept(noted, first_kept(first, second)),
{
}

/// Sums and differences are exact where they fit, and stop at the ends of the range.
pub proof fn law_sums_stop_at_the_ends(a: i64, b: i64)
    ensures
        i64::MIN <= a + b <= i64::MAX ==> saturating_sum(a, b) == a + b,
        a + b > i64::MAX ==> saturating_sum(a, b) == i64::MAX,
        a + b < i64::MIN ==> saturating_sum(a, b) == i64::MIN,
        i64::MIN <= a - b <= i64::MAX ==> saturating_difference(a, b) == a - b,
        a - b > i64::MAX ==> saturating_difference(a, b) == i64::MAX,
        a - b < i64::MIN ==> saturating_difference(a, b) == i64::MIN,
{
}

/// A stream that ended tells how it ended and when, and nothing else changes; its latency is
/// the time up to its end, not up to the time of telling.
pub proof fn law_the_latency_is_that_of_the_stream(
    meta: ProviderUsageMetadata,
    cleanly: bool,
    disconnected: bool,
    end_ns: u128,
    now_ns: u128,
)
    ensures
        ({
            let ended = ended_stream(meta, cleanly, disconnected, end_ns);
            &&& ended.stream_completed_cleanly == Some(cleanly)
            &&& ended.downstream_disconnect == Some(disconnected)
            &&& ended.quota_failover_count == meta.quota_failover_count
            &&& ended.routing_wait_ms == meta.routing_wait_ms
            &&& ended.error_message == meta.error_message
            &&& timing_of(ended, now_ns).latency_ms == Some(
                elapsed_millis(meta.started_at_ns, end_ns),
            )
            &&& stream_details_of(ended).stream_completed_cleanly == Some(cleanly)
            &&& stream_details_of(ended).downstream_disconnect == Some(disconnected)
            &&& stream_details_of(ended).bytes_streamed == meta.bytes_streamed
        }),
        meta.stream_finish_ms is None ==> timing_of(meta, now_ns).latency_ms == Some(
            elapsed_millis(meta.started_at_ns, now_ns),
        ),
        timing_of(meta, now_ns).routing_wait_ms == meta.routing_wait_ms,
        timing_of(meta, now_ns).upstream_headers_ms == meta.upstream_headers_ms,
        timing_of(meta, now_ns).first_sse_write_ms == meta.first_sse_write_ms,
{
}

} // verus!
