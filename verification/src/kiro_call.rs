//! One upstream call on a Kiro account: which answers end it, which are tried
//! again, and how often.

use vstd::prelude::*;
use vstd::string::*;
use vstd::slice::slice_to_vec;
use vstd::utf8::*;
use crate::errors::{body_reason, daily_limit, daily_limit_with_reason, error_reason_of, invalid_model,
    invalid_model_with_reason, is_server_error, is_success, lossy_text, monthly_limit,
    monthly_limit_with_reason, status_is_server_error, status_is_success, text_of_bytes};
use crate::json::parse_text;
use crate::text::{concat2, concat3, contains, decimal_of_signed, decimal_signed, opt_text};

verus! {

/// Where a request for messages goes, under the address that serves a region.
pub open spec fn generate_url(upstream_base: Seq<char>) -> Seq<char> {
    upstream_base + "/generateAssistantResponse"@
}

pub fn kiro_generate_url(upstream_base: &str) -> (url: String)
    ensures
        url@ == generate_url(upstream_base@),
{
    concat2(upstream_base, "/generateAssistantResponse")
}

/// Where a call of a tool goes, under the address that serves a region.
pub open spec fn mcp_url(upstream_base: Seq<char>) -> Seq<char> {
    upstream_base + "/mcp"@
}

pub fn kiro_mcp_url(upstream_base: &str) -> (url: String)
    ensures
        url@ == mcp_url(upstream_base@),
{
    concat2(upstream_base, "/mcp")
}

/// What a failed call means for the account that it was made on.
#[derive(Debug, Clone, Copy, PartialEq, Eq, Structural)]
pub enum KiroRouteFailureKind {
    /// The account has used up its requests.
    QuotaExhausted,
    /// The account, and its proxy where `mark_proxy`, must rest for a while.
    RateLimited { cooldown_seconds: u64, mark_proxy: bool },
    /// Another account may do better.
    RetryNext,
    /// No account will do better.
    Fatal,
}

pub struct KiroRouteFailure {
    pub status: u16,
    pub body: Vec<u8>,
    pub kind: KiroRouteFailureKind,
}

impl KiroRouteFailure {
    /// A failure that the gateway reports in its own words.
    pub fn synthetic(status: u16, message: &str, kind: KiroRouteFailureKind) -> (failure: Self)
        ensures
            failure.status == status,
            failure.kind == kind,
            failure.body@ == encode_utf8(message@),
    {
        KiroRouteFailure { status, body: slice_to_vec(message.as_bytes()), kind }
    }

    pub fn body_text(&self) -> (text: String)
        ensures
            text@ == lossy_text(self.body@),
            valid_utf8(self.body@) ==> text@ == decode_utf8(self.body@),
    {
        text_of_bytes(self.body.as_slice())
    }
}

#[derive(Debug, Clone, Copy, PartialEq, Eq, Structural)]
pub enum KiroCallKind {
    Generate,
    Mcp,
}

/// A call in progress: how many requests were sent, and whether the credentials were
/// refreshed for it.
#[derive(Debug, Clone, Copy)]
pub struct KiroCall {
    pub kind: KiroCallKind,
    pub sends: u32,
    pub force_refresh: bool,
}

/// How a sent request went, where it did not succeed.
#[derive(Debug, Clone, Copy, PartialEq, Eq, Structural)]
pub enum SendVerdict {
    /// No answer came.
    Transport,
    /// The answer settles the call.
    Final(KiroRouteFailureKind),
    /// The credentials were refused for the first time.
    Refresh,
    /// The upstream is in trouble.
    Retry,
}

#[derive(Debug, Clone, Copy, PartialEq, Eq, Structural)]
pub enum CallNext {
    /// Get the credentials and send again, after a pause.
    Ask { force_refresh: bool, after_ms: u64 },
    /// Give up, after a pause.
    End { kind: KiroRouteFailureKind, after_ms: u64 },
}

pub const RETRY_PAUSE_MS: u64 = 350;

pub const MAX_SENDS: u32 = 3;

/// What an unsuccessful answer means, given the body text and its reason.
pub open spec fn answer_verdict(
    status: u16,
    body: Seq<char>,
    reason: Option<Seq<char>>,
    force_refresh: bool,
) -> SendVerdict {
    if status == 402 && monthly_limit(body, reason) {
        SendVerdict::Final(KiroRouteFailureKind::QuotaExhausted)
    } else if status == 429 && daily_limit(body, reason) is Some {
        SendVerdict::Final(
            KiroRouteFailureKind::RateLimited {
                cooldown_seconds: daily_limit(body, reason)->0,
                mark_proxy: false,
            },
        )
    } else if status == 400 {
        match invalid_model(body, reason) {
            Some(seconds) => SendVerdict::Final(
                KiroRouteFailureKind::RateLimited { cooldown_seconds: seconds, mark_proxy: true },
            ),
            None => SendVerdict::Final(KiroRouteFailureKind::Fatal),
        }
    } else if status == 401 || status == 403 {
        if force_refresh {
            SendVerdict::Final(KiroRouteFailureKind::RetryNext)
        } else {
            SendVerdict::Refresh
        }
    } else if status == 408 || status == 429 || is_server_error(status) {
        SendVerdict::Retry
    } else {
        SendVerdict::Final(KiroRouteFailureKind::Fatal)
    }
}

pub fn judge_answer(status: u16, body: &str, reason: &Option<String>, force_refresh: bool) -> (verdict:
    SendVerdict)
    ensures
        verdict == answer_verdict(status, body@, opt_text(*reason), force_refresh),
{
    if status == 402 && monthly_limit_with_reason(body, reason) {
        return SendVerdict::Final(KiroRouteFailureKind::QuotaExhausted);
    }
    if status == 429 {
        if let Some(seconds) = daily_limit_with_reason(body, reason) {
            return SendVerdict::Final(
                KiroRouteFailureKind::RateLimited { cooldown_seconds: seconds, mark_proxy: false },
            );
        }
    }
    if status == 400 {
        if let Some(seconds) = invalid_model_with_reason(body, reason) {
            return SendVerdict::Final(
                KiroRouteFailureKind::RateLimited { cooldown_seconds: seconds, mark_proxy: true },
            );
        }
        return SendVerdict::Final(KiroRouteFailureKind::Fatal);
    }
    if status == 401 || status == 403 {
        if force_refresh {
            return SendVerdict::Final(KiroRouteFailureKind::RetryNext);
        }
        return SendVerdict::Refresh;
    }
    if status == 408 || status == 429 || status_is_server_error(status) {
        return SendVerdict::Retry;
    }
    SendVerdict::Final(KiroRouteFailureKind::Fatal)
}

pub open spec fn one_more(sends: u32) -> u32 {
    if sends == u32::MAX {
        u32::MAX
    } else {
        (sends + 1) as u32
    }
}

/// The call after one more request went as `verdict` says.
pub open spec fn call_step(call: KiroCall, verdict: SendVerdict) -> (KiroCall, CallNext) {
    let sent = KiroCall { sends: one_more(call.sends), ..call };
    let more = sent.sends < MAX_SENDS;
    match verdict {
        SendVerdict::Transport => if more {
            (
                sent,
                CallNext::Ask { force_refresh: call.force_refresh, after_ms: RETRY_PAUSE_MS },
            )
        } else {
            (
                sent,
                CallNext::End {
                    kind: KiroRouteFailureKind::RetryNext,
                    after_ms: if call.kind == KiroCallKind::Generate {
                        RETRY_PAUSE_MS
                    } else {
                        0
                    },
                },
            )
        },
        SendVerdict::Final(kind) => (sent, CallNext::End { kind, after_ms: 0 }),
        SendVerdict::Refresh => {
            let refreshed = KiroCall { force_refresh: true, ..sent };
            if more || call.kind == KiroCallKind::Mcp {
                (refreshed, CallNext::Ask { force_refresh: true, after_ms: 0 })
            } else {
                (refreshed, CallNext::End { kind: KiroRouteFailureKind::RetryNext, after_ms: 0 })
            }
        },
        SendVerdict::Retry => if more {
            (
                sent,
                CallNext::Ask { force_refresh: call.force_refresh, after_ms: RETRY_PAUSE_MS },
            )
        } else {
            (sent, CallNext::End { kind: KiroRouteFailureKind::RetryNext, after_ms: 0 })
        },
    }
}

/// What to do next in a call.
pub enum KiroCallAction {
    EnsureContext { force_refresh: bool, after_ms: u64 },
    Send,
    Succeeded,
    Failed { failure: KiroRouteFailure, after_ms: u64 },
}

/// The action for a step, with the failure to report where the call ends.
pub open spec fn is_call_action(
    next: CallNext,
    status: u16,
    body: Seq<u8>,
    action: KiroCallAction,
) -> bool {
    match next {
        CallNext::Ask { force_refresh, after_ms } => action == (KiroCallAction::EnsureContext {
            force_refresh,
            after_ms,
        }),
        CallNext::End { kind, after_ms } => action matches KiroCallAction::Failed {
            failure,
            after_ms: pause,
        } && pause == after_ms && failure.status == status && failure.kind == kind
            && failure.body@ == body,
    }
}

pub open spec fn auth_failure_message(
    kind: KiroCallKind,
    account: Seq<char>,
    error: Seq<char>,
) -> Seq<char> {
    match kind {
        KiroCallKind::Generate => "kiro auth refresh failed for "@ + account + ": "@ + error,
        KiroCallKind::Mcp => "kiro mcp auth refresh failed for "@ + account + ": "@ + error,
    }
}

pub open spec fn transport_failure_message(kind: KiroCallKind, error: Seq<char>) -> Seq<char> {
    match kind {
        KiroCallKind::Generate => "kiro upstream transport failure: "@ + error,
        KiroCallKind::Mcp => "kiro mcp transport failure: "@ + error,
    }
}

impl KiroCall {
    /// A call of which nothing has been sent yet.
    pub fn start(kind: KiroCallKind) -> (result: (KiroCall, KiroCallAction))
        ensures
            result.0 == (KiroCall { kind, sends: 0, force_refresh: false }),
            result.1 == (KiroCallAction::EnsureContext { force_refresh: false, after_ms: 0 }),
    {
        (
            KiroCall { kind, sends: 0, force_refresh: false },
            KiroCallAction::EnsureContext { force_refresh: false, after_ms: 0 },
        )
    }

    fn advance(&mut self, verdict: SendVerdict) -> (next: CallNext)
        ensures
            (*final(self), next) == call_step(*old(self), verdict),
    {
        self.sends = self.sends.saturating_add(1);
        let more = self.sends < MAX_SENDS;
        match verdict {
            SendVerdict::Transport => if more {
                CallNext::Ask { force_refresh: self.force_refresh, after_ms: RETRY_PAUSE_MS }
            } else {
                let after_ms: u64 = match self.kind {
                    KiroCallKind::Generate => RETRY_PAUSE_MS,
                    KiroCallKind::Mcp => 0,
                };
                CallNext::End { kind: KiroRouteFailureKind::RetryNext, after_ms }
            },
            SendVerdict::Final(kind) => CallNext::End { kind, after_ms: 0 },
            SendVerdict::Refresh => {
                self.force_refresh = true;
                let endless = match self.kind {
                    KiroCallKind::Generate => false,
                    KiroCallKind::Mcp => true,
                };
                if more || endless {
                    CallNext::Ask { force_refresh: true, after_ms: 0 }
                } else {
                    CallNext::End { kind: KiroRouteFailureKind::RetryNext, after_ms: 0 }
                }
            },
            SendVerdict::Retry => if more {
                CallNext::Ask { force_refresh: self.force_refresh, after_ms: RETRY_PAUSE_MS }
            } else {
                CallNext::End { kind: KiroRouteFailureKind::RetryNext, after_ms: 0 }
            },
        }
    }

    /// The credentials are there, or could not be had.
    pub fn on_context(&self, account_name: &str, context: Result<(), String>) -> (action:
        KiroCallAction)
        ensures
            match context {
                Ok(_) => action == KiroCallAction::Send,
                Err(error) => is_call_action(
                    CallNext::End { kind: KiroRouteFailureKind::RetryNext, after_ms: 0 },
                    502,
                    encode_utf8(auth_failure_message(self.kind, account_name@, error@)),
                    action,
                ),
            },
    {
        match context {
            Ok(_) => KiroCallAction::Send,
            Err(error) => {
                let prefix = match self.kind {
                    KiroCallKind::Generate => "kiro auth refresh failed for ",
                    KiroCallKind::Mcp => "kiro mcp auth refresh failed for ",
                };
                let mut message = concat3(prefix, account_name, ": ");
                message.append(error.as_str());
                KiroCallAction::Failed {
                    failure: KiroRouteFailure::synthetic(
                        502,
                        message.as_str(),
                        KiroRouteFailureKind::RetryNext,
                    ),
                    after_ms: 0,
                }
            },
        }
    }

    /// No answer came to a request.
    pub fn on_transport_error(&mut self, error: &str) -> (action: KiroCallAction)
        ensures
            *final(self) == call_step(*old(self), SendVerdict::Transport).0,
            is_call_action(
                call_step(*old(self), SendVerdict::Transport).1,
                502,
                encode_utf8(transport_failure_message(old(self).kind, error@)),
                action,
            ),
    {
        let prefix = match self.kind {
            KiroCallKind::Generate => "kiro upstream transport failure: ",
            KiroCallKind::Mcp => "kiro mcp transport failure: ",
        };
        let message = concat2(prefix, error);
        match self.advance(SendVerdict::Transport) {
            CallNext::Ask { force_refresh, after_ms } => KiroCallAction::EnsureContext {
                force_refresh,
                after_ms,
            },
            CallNext::End { kind, after_ms } => KiroCallAction::Failed {
                failure: KiroRouteFailure::synthetic(502, message.as_str(), kind),
                after_ms,
            },
        }
    }

    /// An answer came. `reason` is the reason that its body gives.
    pub fn on_answer_with_reason(
        &mut self,
        status: u16,
        body: Vec<u8>,
        text: &str,
        reason: &Option<String>,
    ) -> (action: KiroCallAction)
        ensures
            if is_success(status) {
                *final(self) == *old(self) && action == KiroCallAction::Succeeded
            } else {
                let verdict = answer_verdict(
                    status,
                    text@,
                    opt_text(*reason),
                    old(self).force_refresh,
                );
                &&& *final(self) == call_step(*old(self), verdict).0
                &&& is_call_action(call_step(*old(self), verdict).1, status, body@, action)
            },
    {
        if status_is_success(status) {
            return KiroCallAction::Succeeded;
        }
        let verdict = judge_answer(status, text, reason, self.force_refresh);
        match self.advance(verdict) {
            CallNext::Ask { force_refresh, after_ms } => KiroCallAction::EnsureContext {
                force_refresh,
                after_ms,
            },
            CallNext::End { kind, after_ms } => KiroCallAction::Failed {
                failure: KiroRouteFailure { status, body, kind },
                after_ms,
            },
        }
    }
}

/// What to do after an answer to a request of the call.
pub fn call_kiro_generate_for_route(call: &mut KiroCall, status: u16, body: Vec<u8>) -> (action:
    KiroCallAction)
    ensures
        if is_success(status) {
            *final(call) == *old(call) && action == KiroCallAction::Succeeded
        } else {
            let text = lossy_text(body@);
            let verdict = answer_verdict(
                status,
                text,
                body_reason(text),
                old(call).force_refresh,
            );
            &&& *final(call) == call_step(*old(call), verdict).0
            &&& is_call_action(call_step(*old(call), verdict).1, status, body@, action)
        },
{
    let text = text_of_bytes(body.as_slice());
    let reason = match parse_text(text.as_str()) {
        Some(value) => error_reason_of(&value),
        None => None,
    };
    call.on_answer_with_reason(status, body, text.as_str(), &reason)
}

/// What the library reads of the reply of a tool call.
pub struct McpReply {
    pub error: Option<McpError>,
}

pub struct McpError {
    pub code: Option<i64>,
    pub message: Option<String>,
}

pub open spec fn mcp_error_message(error: McpError) -> Seq<char> {
    let code = match error.code {
        Some(code) => code as int,
        None => -1,
    };
    let message = match error.message {
        Some(message) => message@,
        None => "Unknown error"@,
    };
    "MCP error: "@ + decimal_signed(code) + " - "@ + message
}

pub open spec fn is_synthetic(
    failure: KiroRouteFailure,
    message: Seq<char>,
    kind: KiroRouteFailureKind,
) -> bool {
    failure.status == 502 && failure.body@ == encode_utf8(message) && failure.kind == kind
}

/// Ends a tool call that was answered with success: `body` is the text that was read,
/// `parsed` what it says.
pub fn call_kiro_mcp_for_route(
    body: Result<String, String>,
    parsed: Result<McpReply, String>,
) -> (result: Result<McpReply, KiroRouteFailure>)
    ensures
        match (body, parsed) {
            (Err(error), _) => result matches Err(failure) && is_synthetic(
                failure,
                "read kiro mcp response body: "@ + error@,
                KiroRouteFailureKind::RetryNext,
            ),
            (Ok(text), Err(error)) => result matches Err(failure) && is_synthetic(
                failure,
                "parse kiro mcp response body: "@ + error@ + "; body="@ + text@,
                KiroRouteFailureKind::Fatal,
            ),
            (Ok(text), Ok(reply)) => match reply.error {
                Some(error) => result matches Err(failure) && is_synthetic(
                    failure,
                    mcp_error_message(error),
                    KiroRouteFailureKind::Fatal,
                ),
                None => result == Ok::<McpReply, KiroRouteFailure>(reply),
            },
        },
{
    let text = match body {
        Ok(text) => text,
        Err(error) => {
            let message = concat2("read kiro mcp response body: ", error.as_str());
            return Err(
                KiroRouteFailure::synthetic(
                    502,
                    message.as_str(),
                    KiroRouteFailureKind::RetryNext,
                ),
            );
        },
    };
    let reply = match parsed {
        Ok(reply) => reply,
        Err(error) => {
            let mut message = concat3(
                "parse kiro mcp response body: ",
                error.as_str(),
                "; body=",
            );
            message.append(text.as_str());
            return Err(
                KiroRouteFailure::synthetic(502, message.as_str(), KiroRouteFailureKind::Fatal),
            );
        },
    };
    if let Some(error) = &reply.error {
        let code: i64 = match error.code {
            Some(code) => code,
            None => -1,
        };
        let mut message = concat3("MCP error: ", decimal_of_signed(code).as_str(), " - ");
        match &error.message {
            Some(text) => message.append(text.as_str()),
            None => message.append("Unknown error"),
        }
        return Err(
            KiroRouteFailure::synthetic(502, message.as_str(), KiroRouteFailureKind::Fatal),
        );
    }
    Ok(reply)
}

// ---------------------------------------------------------------------------
// Streams that end before they begin
// ---------------------------------------------------------------------------

/// What the first look at a stream found.
pub enum KiroPeek {
    /// A complete frame came; `too_long` where the frames say that the input was.
    Frames { too_long: bool },
    Empty,
    Incomplete,
    Undecodable { error: String },
    Unreadable { error: String },
}

pub enum KiroPeekAction {
    /// Send the stream on.
    Forward,
    /// Make the call again after a pause.
    CallAgain { after_ms: u64 },
    Fail { failure: KiroRouteFailure },
}

/// What to do with a stream after a first look at it. `retry` counts the empty
/// streams before this one, of which `max_retries` are tried again;
/// `too_long_message` is what the client is told of an input that was too long.
pub fn prepare_kiro_stream_response_for_route(
    peek: KiroPeek,
    retry: u32,
    max_retries: u32,
    too_long_message: &str,
) -> (action: KiroPeekAction)
    ensures
        match peek {
            KiroPeek::Frames { too_long } => if too_long {
                action matches KiroPeekAction::Fail { failure } && failure.status == 413
                    && failure.kind == KiroRouteFailureKind::Fatal && failure.body@
                    == encode_utf8(too_long_message@)
            } else {
                action == KiroPeekAction::Forward
            },
            KiroPeek::Empty => if retry < max_retries {
                action == (KiroPeekAction::CallAgain { after_ms: (200 * (retry + 1)) as u64 })
            } else {
                action matches KiroPeekAction::Fail { failure } && is_synthetic(
                    failure,
                    "kiro upstream returned empty generateAssistantResponse stream after retries"@,
                    KiroRouteFailureKind::RetryNext,
                )
            },
            KiroPeek::Incomplete => action matches KiroPeekAction::Fail { failure }
                && is_synthetic(
                failure,
                "kiro upstream ended before the first complete eventstream frame"@,
                KiroRouteFailureKind::RetryNext,
            ),
            KiroPeek::Undecodable { error } => action matches KiroPeekAction::Fail { failure }
                && is_synthetic(
                failure,
                "failed to decode kiro upstream stream: "@ + error@,
                KiroRouteFailureKind::RetryNext,
            ),
            KiroPeek::Unreadable { error } => action matches KiroPeekAction::Fail { failure }
                && is_synthetic(
                failure,
                "failed to read kiro upstream stream: "@ + error@,
                KiroRouteFailureKind::RetryNext,
            ),
        },
{
    match peek {
        KiroPeek::Frames { too_long } => if too_long {
            KiroPeekAction::Fail {
                failure: KiroRouteFailure::synthetic(
                    413,
                    too_long_message,
                    KiroRouteFailureKind::Fatal,
                ),
            }
        } else {
            KiroPeekAction::Forward
        },
        KiroPeek::Empty => if retry < max_retries {
            KiroPeekAction::CallAgain { after_ms: 200 * (retry as u64 + 1) }
        } else {
            KiroPeekAction::Fail {
                failure: KiroRouteFailure::synthetic(
                    502,
                    "kiro upstream returned empty generateAssistantResponse stream after retries",
                    KiroRouteFailureKind::RetryNext,
                ),
            }
        },
        KiroPeek::Incomplete => KiroPeekAction::Fail {
            failure: KiroRouteFailure::synthetic(
                502,
                "kiro upstream ended before the first complete eventstream frame",
                KiroRouteFailureKind::RetryNext,
            ),
        },
        KiroPeek::Undecodable { error } => {
            let message = concat2("failed to decode kiro upstream stream: ", error.as_str());
            KiroPeekAction::Fail {
                failure: KiroRouteFailure::synthetic(
                    502,
                    message.as_str(),
                    KiroRouteFailureKind::RetryNext,
                ),
            }
        },
        KiroPeek::Unreadable { error } => {
            let message = concat2("failed to read kiro upstream stream: ", error.as_str());
            KiroPeekAction::Fail {
                failure: KiroRouteFailure::synthetic(
                    502,
                    message.as_str(),
                    KiroRouteFailureKind::RetryNext,
                ),
            }
        },
    }
}

/// What the chunks of a stream add up to, up to the first complete frame.
#[derive(Debug, Clone, Copy, PartialEq, Eq, Structural)]
pub enum PeekState {
    NothingYet,
    SomeBytes,
    Framed,
}

/// Notes one chunk of a stream that is looked at: its length, and whether it completed
/// a frame. Empty chunks change nothing.
pub fn peek_kiro_stream(state: PeekState, chunk_len: usize, completed_frame: bool) -> (next: PeekState)
    ensures
        next == if state == PeekState::Framed || chunk_len == 0 {
            state
        } else if completed_frame {
            PeekState::Framed
        } else {
            PeekState::SomeBytes
        },
{
    match state {
        PeekState::Framed => PeekState::Framed,
        _ => if chunk_len == 0 {
            state
        } else if completed_frame {
            PeekState::Framed
        } else {
            PeekState::SomeBytes
        },
    }
}

/// What a stream that ended counts as.
pub fn peek_outcome(state: PeekState, too_long: bool) -> (peek: KiroPeek)
    ensures
        peek == match state {
            PeekState::NothingYet => KiroPeek::Empty,
            PeekState::SomeBytes => KiroPeek::Incomplete,
            PeekState::Framed => KiroPeek::Frames { too_long },
        },
{
    match state {
        PeekState::NothingYet => KiroPeek::Empty,
        PeekState::SomeBytes => KiroPeek::Incomplete,
        PeekState::Framed => KiroPeek::Frames { too_long },
    }
}

// ---------------------------------------------------------------------------
// Laws
// ---------------------------------------------------------------------------

/// A generate call sends at most three requests: whatever the outcomes, the third one
/// ends it.
pub proof fn law_generate_sends_at_most_three(call: KiroCall, verdict: SendVerdict)
    requires
        call.kind == KiroCallKind::Generate,
        call.sends < MAX_SENDS,
    ensures
        match call_step(call, verdict).1 {
            CallNext::Ask { .. } => call_step(call, verdict).0.sends < MAX_SENDS,
            CallNext::End { .. } => call_step(call, verdict).0.sends <= MAX_SENDS,
        },
{
}

/// A tool call sends at most four requests: only a refused credential is tried beyond
/// the third, and that once.
pub proof fn law_mcp_sends_at_most_four(
    call: KiroCall,
    status: u16,
    body: Seq<char>,
    reason: Option<Seq<char>>,
)
    requires
        call.kind == KiroCallKind::Mcp,
        call.sends < MAX_SENDS || (call.sends == MAX_SENDS && call.force_refresh),
    ensures
        ({
            let verdict = answer_verdict(status, body, reason, call.force_refresh);
            let (after, next) = call_step(call, verdict);
            &&& after.sends <= MAX_SENDS + 1
            &&& next is Ask ==> after.sends < MAX_SENDS || (after.sends == MAX_SENDS
                && after.force_refresh)
        }),
        ({
            let (after, next) = call_step(call, SendVerdict::Transport);
            &&& after.sends <= MAX_SENDS + 1
            &&& next is Ask ==> after.sends < MAX_SENDS
        }),
{
}

/// The credentials are refreshed at most once in a call.
pub proof fn law_credentials_refresh_once(
    call: KiroCall,
    status: u16,
    body: Seq<char>,
    reason: Option<Seq<char>>,
)
    requires
        call.force_refresh,
    ensures
        answer_verdict(status, body, reason, call.force_refresh) != SendVerdict::Refresh,
        call_step(call, answer_verdict(status, body, reason, true)).0.force_refresh,
{
}

/// A failure in the gateway's own words reads back as those words.
pub proof fn law_synthetic_failure_reads_back(message: Seq<char>)
    ensures
        valid_utf8(encode_utf8(message)),
        decode_utf8(encode_utf8(message)) == message,
{
    encode_utf8_valid_utf8(message);
    encode_utf8_decode_utf8(message);
}

/// A call whose request was answered without success, and what comes after it.
pub open spec fn unsuccessful_step(
    call: KiroCall,
    status: u16,
    body: Seq<u8>,
    text: Seq<char>,
    reason: Option<Seq<char>>,
    after: KiroCall,
    action: KiroCallAction,
) -> bool {
    let verdict = answer_verdict(status, text, reason, call.force_refresh);
    &&& after == call_step(call, verdict).0
    &&& is_call_action(call_step(call, verdict).1, status, body, action)
}

/// An answer of status 408, 429 or 5xx that names no limit never settles the call: the
/// request is sent again after a pause while fewer than three were sent, and after the
/// third another account is tried.
pub proof fn law_a_busy_upstream_is_asked_again(
    call: KiroCall,
    status: u16,
    body: Seq<u8>,
    text: Seq<char>,
    reason: Option<Seq<char>>,
    after: KiroCall,
    action: KiroCallAction,
)
    requires
        unsuccessful_step(call, status, body, text, reason, after, action),
        status == 408 || status == 429 || 500 <= status <= 599,
        !contains(text, "5-minute credit limit exceeded"@),
        reason != Some("DAILY_REQUEST_COUNT"@),
    ensures
        call.sends < 2 ==> action == (KiroCallAction::EnsureContext {
            force_refresh: call.force_refresh,
            after_ms: 350,
        }),
        call.sends < 2 ==> after == (KiroCall { sends: (call.sends + 1) as u32, ..call }),
        call.sends >= 2 ==> (action matches KiroCallAction::Failed { failure, after_ms }
            && failure.kind == KiroRouteFailureKind::RetryNext && failure.status == status
            && failure.body@ == body && after_ms == 0),
{
}

/// The same of a request that no answer came to.
pub proof fn law_a_lost_request_is_sent_again(
    call: KiroCall,
    body: Seq<u8>,
    after: KiroCall,
    action: KiroCallAction,
)
    requires
        after == call_step(call, SendVerdict::Transport).0,
        is_call_action(call_step(call, SendVerdict::Transport).1, 502, body, action),
    ensures
        call.sends < 2 ==> action == (KiroCallAction::EnsureContext {
            force_refresh: call.force_refresh,
            after_ms: 350,
        }),
        call.sends < 2 ==> after == (KiroCall { sends: (call.sends + 1) as u32, ..call }),
        call.sends >= 2 ==> (action matches KiroCallAction::Failed { failure, after_ms }
            && failure.kind == KiroRouteFailureKind::RetryNext && failure.status == 502
            && failure.body@ == body && after_ms == (if call.kind == KiroCallKind::Generate {
            350u64
        } else {
            0u64
        })),
{
}

/// A refused credential is refreshed once, at once, where the call may send again; refused
/// again it sends the request to another account. It never ends as a fatal failure.
pub proof fn law_refused_credentials_are_refreshed(
    call: KiroCall,
    status: u16,
    body: Seq<u8>,
    text: Seq<char>,
    reason: Option<Seq<char>>,
    after: KiroCall,
    action: KiroCallAction,
)
    requires
        unsuccessful_step(call, status, body, text, reason, after, action),
        status == 401 || status == 403,
    ensures
        !call.force_refresh && (call.sends < 2 || call.kind == KiroCallKind::Mcp) ==> action == (
        KiroCallAction::EnsureContext { force_refresh: true, after_ms: 0 }) && after.force_refresh,
        call.force_refresh || (call.sends >= 2 && call.kind == KiroCallKind::Generate) ==> (
        action matches KiroCallAction::Failed { failure, after_ms } && failure.kind
            == KiroRouteFailureKind::RetryNext && failure.status == status && failure.body@ == body
            && after_ms == 0),
        after.kind == call.kind,
{
}

/// An answer that names a limit of the account settles the call at once: the monthly one
/// uses the account up, the short-term one lets it rest for five minutes, a model that is
/// refused for a while lets it and its proxy rest for one.
pub proof fn law_a_named_limit_settles_the_call(
    call: KiroCall,
    status: u16,
    body: Seq<u8>,
    text: Seq<char>,
    reason: Option<Seq<char>>,
    after: KiroCall,
    action: KiroCallAction,
)
    requires
        unsuccessful_step(call, status, body, text, reason, after, action),
    ensures
        status == 402 && (contains(text, "MONTHLY_REQUEST_COUNT"@) || reason == Some(
            "MONTHLY_REQUEST_COUNT"@,
        )) ==> (action matches KiroCallAction::Failed { failure, after_ms } && failure.kind
            == KiroRouteFailureKind::QuotaExhausted && failure.body@ == body),
        status == 429 && (contains(text, "5-minute credit limit exceeded"@) || reason == Some(
            "DAILY_REQUEST_COUNT"@,
        )) ==> (action matches KiroCallAction::Failed { failure, after_ms } && failure.kind == (
        KiroRouteFailureKind::RateLimited { cooldown_seconds: 300, mark_proxy: false })),
        status == 400 && contains(text, "Invalid model"@) && reason == Some("INVALID_MODEL_ID"@)
            ==> (action matches KiroCallAction::Failed { failure, after_ms } && failure.kind == (
        KiroRouteFailureKind::RateLimited { cooldown_seconds: 60, mark_proxy: true })),
{
}

/// Only the account, never the request, is to blame for a failure that is not fatal: a call
/// ends as fatal exactly where the answer has a status that neither speaks of the
/// credentials nor of trouble upstream, and names no limit.
pub proof fn law_fatal_failures_are_the_requests_own(
    call: KiroCall,
    status: u16,
    body: Seq<u8>,
    text: Seq<char>,
    reason: Option<Seq<char>>,
    after: KiroCall,
    action: KiroCallAction,
)
    requires
        unsuccessful_step(call, status, body, text, reason, after, action),
    ensures
        (action matches KiroCallAction::Failed { failure, after_ms } && failure.kind
            == KiroRouteFailureKind::Fatal) <==> (status != 401 && status != 403 && status != 408
            && status != 429 && !(500 <= status <= 599) && !(status == 402 && (contains(
            text,
            "MONTHLY_REQUEST_COUNT"@,
        ) || reason == Some("MONTHLY_REQUEST_COUNT"@))) && !(status == 400 && contains(
            text,
            "Invalid model"@,
        ) && reason == Some("INVALID_MODEL_ID"@))),
        action matches KiroCallAction::Failed { failure, after_ms } ==> failure.status == status
            && failure.body@ == body && after_ms == 0,
        after.sends > call.sends || call.sends == u32::MAX,
{
}

/// The verdict on an answer, of the function that gives it: trouble upstream that names no
/// limit is always a reason to send again, and never settles the call.
pub proof fn law_trouble_upstream_is_no_verdict(
    status: u16,
    body: &str,
    reason: &Option<String>,
    force_refresh: bool,
    verdict: SendVerdict,
)
    requires
        call_ensures(judge_answer, (status, body, reason, force_refresh), verdict),
    ensures
        (status == 408 || status == 429 || 500 <= status <= 599) && !contains(
            body@,
            "5-minute credit limit exceeded"@,
        ) && opt_text(*reason) != Some("DAILY_REQUEST_COUNT"@) ==> verdict == SendVerdict::Retry,
        verdict == SendVerdict::Retry ==> status == 408 || status == 429 || 500 <= status <= 599,
        verdict == SendVerdict::Refresh <==> (status == 401 || status == 403) && !force_refresh,
        verdict != SendVerdict::Transport,
{
}

/// An empty stream is asked for again while calls are left, after pauses that grow by a
/// fifth of a second; after the last call another account is tried. A prompt that was too
/// long is told to the client, and a stream that has begun is passed on.
pub proof fn law_empty_streams_are_asked_for_again(
    peek: KiroPeek,
    retry: u32,
    max_retries: u32,
    too_long_message: &str,
    first: KiroPeekAction,
    second: KiroPeekAction,
)
    requires
        retry < u32::MAX,
        call_ensures(
            prepare_kiro_stream_response_for_route,
            (peek, retry, max_retries, too_long_message),
            first,
        ),
        call_ensures(
            prepare_kiro_stream_response_for_route,
            (peek, (retry + 1) as u32, max_retries, too_long_message),
            second,
        ),
    ensures
        first is CallAgain <==> peek is Empty && retry < max_retries,
        first matches KiroPeekAction::CallAgain { after_ms } ==> (
        second matches KiroPeekAction::CallAgain { after_ms: later } ==> later == after_ms + 200),
        retry == 0 ==> (first matches KiroPeekAction::CallAgain { after_ms } ==> after_ms == 200),
        first is Forward <==> peek == (KiroPeek::Frames { too_long: false }),
        peek == (KiroPeek::Frames { too_long: true }) ==> (
        first matches KiroPeekAction::Fail { failure } && failure.status == 413 && failure.kind
            == KiroRouteFailureKind::Fatal),
        first matches KiroPeekAction::Fail { failure } ==> (!(peek is Frames) ==> failure.status
            == 502 && failure.kind == KiroRouteFailureKind::RetryNext),
{
}

/// The reply of a tool call is given on where it tells no error; an error that it tells, and
/// one that cannot be read, is fatal; a body that could not be had is not.
pub proof fn law_what_a_tool_call_comes_to(
    body: Result<String, String>,
    parsed: Result<McpReply, String>,
    result: Result<McpReply, KiroRouteFailure>,
)
    requires
        call_ensures(call_kiro_mcp_for_route, (body, parsed), result),
    ensures
        body is Err ==> (result matches Err(failure) && failure.kind
            == KiroRouteFailureKind::RetryNext && failure.status == 502),
        body is Ok && parsed is Err ==> (result matches Err(failure) && failure.kind
            == KiroRouteFailureKind::Fatal && failure.status == 502),
        body is Ok ==> (parsed matches Ok(reply) ==> (reply.error is None ==> result == Ok::<
            McpReply,
            KiroRouteFailure,
        >(reply)) && (reply.error is Some ==> (result matches Err(failure) && failure.kind
            == KiroRouteFailureKind::Fatal))),
{
}

} // verus!
