//! Classification of upstream error bodies and the error replies of the two
//! gateways.

use vstd::prelude::*;
use vstd::utf8::*;
use crate::json::{empty_object, parse_bytes, parse_text, parsed_bytes, parsed_text, show_text,
    shown_text, Json, JsonView};
use crate::text::{concat3, contains, decimal_of_signed, decimal_signed, lower, lowered,
    nonempty_trim, opt_text, same_text, starts_with, text_contains, text_starts_with, trim,
    trimmed_nonempty};

verus! {

// ---------------------------------------------------------------------------
// Bytes as text
// ---------------------------------------------------------------------------

/// The text that `String::from_utf8_lossy` reads from bytes.
pub uninterp spec fn lossy_text(bytes: Seq<u8>) -> Seq<char>;

/// `String::from_utf8_lossy`: the bytes as text, with invalid sequences replaced.
/// Bytes that are valid UTF-8 are read as they are.
#[verifier::external_body]
pub(crate) fn text_of_bytes(bytes: &[u8]) -> (text: String)
    ensures
        text@ == lossy_text(bytes@),
        valid_utf8(bytes@) ==> text@ == decode_utf8(bytes@),
{
    String::from_utf8_lossy(bytes).into_owned()
}

// ---------------------------------------------------------------------------
// Replies
// ---------------------------------------------------------------------------

/// A reply without a body stream: its status, whether the body is JSON (plain
/// text otherwise), and the body.
pub struct Reply {
    pub status: u16,
    pub json: bool,
    pub body: String,
}

pub open spec fn is_client_error(status: u16) -> bool {
    400 <= status < 500
}

pub open spec fn is_server_error(status: u16) -> bool {
    500 <= status < 600
}

pub open spec fn is_success(status: u16) -> bool {
    200 <= status < 300
}

pub fn status_is_success(status: u16) -> (result: bool)
    ensures
        result == is_success(status),
{
    200 <= status && status < 300
}

pub fn status_is_server_error(status: u16) -> (result: bool)
    ensures
        result == is_server_error(status),
{
    500 <= status && status < 600
}

pub fn text_reply(status: u16, body: &str) -> (reply: Reply)
    ensures
        reply.status == status,
        !reply.json,
        reply.body@ == body@,
{
    Reply { status, json: false, body: body.to_owned() }
}

/// `{"error": {"type": .., "message": ..}}`
pub open spec fn anthropic_error(error_type: Seq<char>, message: Seq<char>) -> JsonView {
    empty_object().with(
        "error"@,
        empty_object().with("type"@, JsonView::Str(error_type)).with(
            "message"@,
            JsonView::Str(message),
        ),
    )
}

pub fn anthropic_json_error_body(error_type: &str, message: &str) -> (body: String)
    ensures
        body@ == shown_text(anthropic_error(error_type@, message@)),
{
    let error = Json::new_object().with("type", Json::str(error_type)).with(
        "message",
        Json::str(message),
    );
    let value = Json::new_object().with("error", error);
    show_text(&value)
}

pub fn anthropic_json_error(status: u16, error_type: &str, message: &str) -> (reply: Reply)
    ensures
        reply.status == status,
        reply.json,
        reply.body@ == shown_text(anthropic_error(error_type@, message@)),
{
    Reply { status, json: true, body: anthropic_json_error_body(error_type, message) }
}

pub open spec fn codex_error_type(status: u16) -> Seq<char> {
    if is_client_error(status) {
        "invalid_request_error"@
    } else {
        "api_error"@
    }
}

pub fn codex_error_type_for_status(status: u16) -> (result: &'static str)
    ensures
        result@ == codex_error_type(status),
{
    if 400 <= status && status < 500 {
        "invalid_request_error"
    } else {
        "api_error"
    }
}

/// `{"error": {"message": .., "type": .., "param": null, "code": null}}`
pub open spec fn codex_error(status: u16, message: Seq<char>) -> JsonView {
    empty_object().with(
        "error"@,
        empty_object().with("message"@, JsonView::Str(message)).with(
            "type"@,
            JsonView::Str(codex_error_type(status)),
        ).with("param"@, JsonView::Null).with("code"@, JsonView::Null),
    )
}

fn codex_json_error_body(status: u16, message: &str) -> (body: String)
    ensures
        body@ == shown_text(codex_error(status, message@)),
{
    let error = Json::new_object().with("message", Json::str(message)).with(
        "type",
        Json::str(codex_error_type_for_status(status)),
    ).with("param", Json::Null).with("code", Json::Null);
    let value = Json::new_object().with("error", error);
    show_text(&value)
}

/// The endpoints that answer in the Anthropic error shape.
pub open spec fn prefers_anthropic_errors(endpoint: Seq<char>) -> bool {
    endpoint == "/v1/messages"@ || starts_with(endpoint, "/v1/messages?"@)
}

pub fn codex_endpoint_prefers_anthropic_errors(endpoint: &str) -> (result: bool)
    ensures
        result == prefers_anthropic_errors(endpoint@),
{
    same_text(endpoint, "/v1/messages") || text_starts_with(endpoint, "/v1/messages?")
}

/// The error body for an endpoint, in the shape that the endpoint's clients read.
pub open spec fn surface_error(endpoint: Seq<char>, status: u16, message: Seq<char>) -> JsonView {
    if prefers_anthropic_errors(endpoint) {
        anthropic_error(codex_error_type(status), message)
    } else {
        codex_error(status, message)
    }
}

pub fn codex_surface_error_body(endpoint: &str, status: u16, message: &str) -> (body: String)
    ensures
        body@ == shown_text(surface_error(endpoint@, status, message@)),
{
    if codex_endpoint_prefers_anthropic_errors(endpoint) {
        anthropic_json_error_body(codex_error_type_for_status(status), message)
    } else {
        codex_json_error_body(status, message)
    }
}

pub fn codex_surface_error_response(endpoint: &str, status: u16, message: &str) -> (reply: Reply)
    ensures
        reply.status == status,
        reply.json,
        reply.body@ == shown_text(surface_error(endpoint@, status, message@)),
{
    Reply { status, json: true, body: codex_surface_error_body(endpoint, status, message) }
}

// ---------------------------------------------------------------------------
// Reasons
// ---------------------------------------------------------------------------

/// The `reason` of an error body, at its top or inside `error`.
pub open spec fn error_reason(value: JsonView) -> Option<Seq<char>> {
    match value.get_str("reason"@) {
        Some(reason) => Some(reason),
        None => value.get2_str("error"@, "reason"@),
    }
}

/// The `reason` of an error body text; none where it is not JSON.
pub open spec fn body_reason(body: Seq<char>) -> Option<Seq<char>> {
    match parsed_text(body) {
        Some(value) => error_reason(value),
        None => None,
    }
}

pub fn error_reason_of(value: &Json) -> (reason: Option<String>)
    ensures
        opt_text(reason) == error_reason(value@),
{
    match value.get_str("reason") {
        Some(reason) => Some(reason.to_owned()),
        None => match value.get2_str("error", "reason") {
            Some(reason) => Some(reason.to_owned()),
            None => None,
        },
    }
}

fn kiro_error_reason(body: &str) -> (reason: Option<String>)
    ensures
        opt_text(reason) == body_reason(body@),
{
    match parse_text(body) {
        Some(value) => error_reason_of(&value),
        None => None,
    }
}

fn reason_is(reason: &Option<String>, expected: &str) -> (result: bool)
    ensures
        result == (opt_text(*reason) == Some(expected@)),
{
    match reason {
        Some(text) => same_text(text.as_str(), expected),
        None => false,
    }
}

/// The monthly limit, given the body text and its reason.
pub open spec fn monthly_limit(body: Seq<char>, reason: Option<Seq<char>>) -> bool {
    contains(body, "MONTHLY_REQUEST_COUNT"@) || reason == Some("MONTHLY_REQUEST_COUNT"@)
}

/// The cooldown in seconds of a short-term limit, given the body text and its
/// reason.
pub open spec fn daily_limit(body: Seq<char>, reason: Option<Seq<char>>) -> Option<u64> {
    if contains(body, "5-minute credit limit exceeded"@) || reason == Some(
        "DAILY_REQUEST_COUNT"@,
    ) {
        Some(300)
    } else {
        None
    }
}

/// The cooldown in seconds of a model that is refused for a while, given the body
/// text and its reason.
pub open spec fn invalid_model(body: Seq<char>, reason: Option<Seq<char>>) -> Option<u64> {
    if contains(body, "Invalid model"@) && reason == Some("INVALID_MODEL_ID"@) {
        Some(60)
    } else {
        None
    }
}

pub fn monthly_limit_with_reason(body: &str, reason: &Option<String>) -> (result: bool)
    ensures
        result == monthly_limit(body@, opt_text(*reason)),
{
    text_contains(body, "MONTHLY_REQUEST_COUNT") || reason_is(reason, "MONTHLY_REQUEST_COUNT")
}

pub fn daily_limit_with_reason(body: &str, reason: &Option<String>) -> (result: Option<u64>)
    ensures
        result == daily_limit(body@, opt_text(*reason)),
{
    if text_contains(body, "5-minute credit limit exceeded") {
        return Some(300);
    }
    if reason_is(reason, "DAILY_REQUEST_COUNT") {
        return Some(300);
    }
    None
}

pub fn invalid_model_with_reason(body: &str, reason: &Option<String>) -> (result: Option<u64>)
    ensures
        result == invalid_model(body@, opt_text(*reason)),
{
    if !text_contains(body, "Invalid model") {
        return None;
    }
    if reason_is(reason, "INVALID_MODEL_ID") {
        return Some(60);
    }
    None
}

/// Whether an error body says that the month's requests are used up.
pub fn is_monthly_request_limit(body: &str) -> (result: bool)
    ensures
        result == monthly_limit(body@, body_reason(body@)),
{
    monthly_limit_with_reason(body, &kiro_error_reason(body))
}

/// The cooldown in seconds that a short-term request limit asks for.
pub fn daily_request_limit_cooldown(body: &str) -> (result: Option<u64>)
    ensures
        result == daily_limit(body@, body_reason(body@)),
{
    daily_limit_with_reason(body, &kiro_error_reason(body))
}

/// The cooldown in seconds after a transient refusal of a model.
pub fn transient_invalid_model_cooldown(body: &str) -> (result: Option<u64>)
    ensures
        result == invalid_model(body@, body_reason(body@)),
{
    invalid_model_with_reason(body, &kiro_error_reason(body))
}

// ---------------------------------------------------------------------------
// Messages
// ---------------------------------------------------------------------------

/// The message of an error body: `error` where it is text, `error.message`,
/// `response.error.message`, then `message`.
pub open spec fn error_message(value: JsonView) -> Option<Seq<char>> {
    match value.get_str("error"@) {
        Some(message) => Some(message),
        None => match value.get2_str("error"@, "message"@) {
            Some(message) => Some(message),
            None => match response_error_message(value) {
                Some(message) => Some(message),
                None => value.get_str("message"@),
            },
        },
    }
}

pub open spec fn response_error_message(value: JsonView) -> Option<Seq<char>> {
    match value.get2("response"@, "error"@) {
        Some(error) => error.get_str("message"@),
        None => None,
    }
}

pub fn extract_error_message_from_json_value(value: &Json) -> (message: Option<String>)
    ensures
        opt_text(message) == error_message(value@),
{
    if let Some(message) = value.get_str("error") {
        return Some(message.to_owned());
    }
    if let Some(message) = value.get2_str("error", "message") {
        return Some(message.to_owned());
    }
    if let Some(error) = value.get2("response", "error") {
        if let Some(message) = error.get_str("message") {
            return Some(message.to_owned());
        }
    }
    match value.get_str("message") {
        Some(message) => Some(message.to_owned()),
        None => None,
    }
}

/// One line for an error body: its message, else its trimmed text, else a fixed
/// phrase. `parsed` is the body as JSON, `text` the body as text.
pub open spec fn error_summary(parsed: Option<JsonView>, text: Seq<char>) -> Seq<char> {
    let message = match parsed {
        Some(value) => match error_message(value) {
            Some(message) => nonempty_trim(message),
            None => None,
        },
        None => None,
    };
    match message {
        Some(message) => message,
        None => if trim(text).len() == 0 {
            "Unknown upstream error"@
        } else {
            trim(text)
        },
    }
}

pub fn summarize_error(parsed: &Option<Json>, text: &str) -> (summary: String)
    ensures
        summary@ == error_summary(crate::json::opt_json(*parsed), text@),
{
    if let Some(value) = parsed {
        if let Some(message) = extract_error_message_from_json_value(value) {
            if let Some(message) = trimmed_nonempty(message.as_str()) {
                return message;
            }
        }
    }
    match trimmed_nonempty(text) {
        Some(body) => body,
        None => "Unknown upstream error".to_owned(),
    }
}

pub fn summarize_error_bytes(bytes: &[u8]) -> (summary: String)
    ensures
        summary@ == error_summary(parsed_bytes(bytes@), lossy_text(bytes@)),
{
    let parsed = parse_bytes(bytes);
    let text = text_of_bytes(bytes);
    summarize_error(&parsed, text.as_str())
}

// ---------------------------------------------------------------------------
// Prompts that are too long
// ---------------------------------------------------------------------------

/// The token limit named in the message: the context window, at least one.
pub open spec fn named_limit(context_window: i32) -> int {
    if context_window < 1 {
        1
    } else {
        context_window as int
    }
}

/// The token count named in the message: the estimate, but always past the limit
/// (as far as the type reaches).
pub open spec fn named_tokens(context_window: i32, tokens: i32) -> int {
    let past = if named_limit(context_window) == i32::MAX {
        i32::MAX as int
    } else {
        named_limit(context_window) + 1
    };
    if tokens < past {
        past
    } else {
        tokens as int
    }
}

pub open spec fn prompt_too_long(context_window: i32, tokens: i32) -> Seq<char> {
    "Prompt is too long: "@ + decimal_signed(named_tokens(context_window, tokens)) + " tokens > "@
        + decimal_signed(named_limit(context_window))
        + " tokens for the model context window."@
}

pub fn kiro_prompt_too_long_message(context_window: i32, request_input_tokens: i32) -> (message:
    String)
    ensures
        message@ == prompt_too_long(context_window, request_input_tokens),
{
    let limit: i32 = if context_window < 1 {
        1
    } else {
        context_window
    };
    let past: i32 = if limit == i32::MAX {
        i32::MAX
    } else {
        limit + 1
    };
    let actual: i32 = if request_input_tokens < past {
        past
    } else {
        request_input_tokens
    };
    let mut message = concat3(
        "Prompt is too long: ",
        decimal_of_signed(actual as i64).as_str(),
        " tokens > ",
    );
    message.append(decimal_of_signed(limit as i64).as_str());
    message.append(" tokens for the model context window.");
    message
}

/// The phrases by which the upstream says that the input is too long.
pub open spec fn says_too_long(text: Seq<char>) -> bool {
    let t = lower(text);
    ||| contains(t, "content_length_exceeds_threshold"@)
    ||| contains(t, "contentlengthexceededexception"@)
    ||| contains(t, "input content length exceeds threshold"@)
    ||| contains(t, "input is too long"@)
}

pub fn kiro_text_is_content_length_exceeded(text: &str) -> (result: bool)
    ensures
        result == says_too_long(text@),
{
    let normalized = lowered(text);
    text_contains(normalized.as_str(), "content_length_exceeds_threshold") || text_contains(
        normalized.as_str(),
        "contentlengthexceededexception",
    ) || text_contains(normalized.as_str(), "input content length exceeds threshold")
        || text_contains(normalized.as_str(), "input is too long")
}

/// The reply for an upstream error that means the prompt was too long.
pub open spec fn is_too_long(status: u16, text: Seq<char>) -> bool {
    status == 413 || says_too_long(text)
}

pub fn kiro_prompt_too_long_response_for_text(
    status: u16,
    text: &str,
    context_window: i32,
    request_input_tokens: i32,
) -> (reply: Option<Reply>)
    ensures
        reply is Some == is_too_long(status, text@),
        reply is Some ==> {
            &&& reply->0.status == 413
            &&& reply->0.json
            &&& reply->0.body@ == shown_text(
                anthropic_error(
                    "invalid_request_error"@,
                    prompt_too_long(context_window, request_input_tokens),
                ),
            )
        },
{
    if status != 413 && !kiro_text_is_content_length_exceeded(text) {
        return None;
    }
    let message = kiro_prompt_too_long_message(context_window, request_input_tokens);
    Some(anthropic_json_error(413, "invalid_request_error", message.as_str()))
}

pub fn kiro_prompt_too_long_response_for_body(
    status: u16,
    bytes: &[u8],
    context_window: i32,
    request_input_tokens: i32,
) -> (reply: Option<Reply>)
    ensures
        reply is Some == is_too_long(status, lossy_text(bytes@)),
        reply is Some ==> {
            &&& reply->0.status == 413
            &&& reply->0.json
            &&& reply->0.body@ == shown_text(
                anthropic_error(
                    "invalid_request_error"@,
                    prompt_too_long(context_window, request_input_tokens),
                ),
            )
        },
{
    let text = text_of_bytes(bytes);
    kiro_prompt_too_long_response_for_text(status, text.as_str(), context_window, request_input_tokens)
}

/// What the library reads of an upstream event.
pub enum WireEvent {
    Error { error_code: String, error_message: String },
    Exception { exception_type: String, message: String },
    Other,
}

pub open spec fn event_too_long(event: WireEvent) -> bool {
    match event {
        WireEvent::Error { error_code, error_message } => says_too_long(error_code@)
            || says_too_long(error_message@),
        WireEvent::Exception { exception_type, message } => says_too_long(exception_type@)
            || says_too_long(message@),
        WireEvent::Other => false,
    }
}

fn kiro_event_is_content_length_exceeded(event: &WireEvent) -> (result: bool)
    ensures
        result == event_too_long(*event),
{
    match event {
        WireEvent::Error { error_code, error_message } => {
            kiro_text_is_content_length_exceeded(error_code.as_str())
                || kiro_text_is_content_length_exceeded(error_message.as_str())
        },
        WireEvent::Exception { exception_type, message } => {
            kiro_text_is_content_length_exceeded(exception_type.as_str())
                || kiro_text_is_content_length_exceeded(message.as_str())
        },
        WireEvent::Other => false,
    }
}

pub fn kiro_events_contain_content_length_exceeded(events: &Vec<WireEvent>) -> (result: bool)
    ensures
        result == exists|i: int| 0 <= i < events.len() && event_too_long(#[trigger] events@[i]),
{
    let mut i: usize = 0;
    while i < events.len()
        invariant
            i <= events.len(),
            forall|k: int| 0 <= k < i ==> !event_too_long(#[trigger] events@[k]),
        decreases events.len() - i,
    {
        if kiro_event_is_content_length_exceeded(&events[i]) {
            return true;
        }
        i += 1;
    }
    false
}

/// `frames` are the frames decoded from a chunk, with nothing where a frame does
/// not decode or is no event.
pub fn kiro_chunk_contains_content_length_exceeded(frames: &Vec<Option<WireEvent>>) -> (result:
    bool)
    ensures
        result == exists|i: int|
            0 <= i < frames.len() && (#[trigger] frames@[i]) is Some && event_too_long(
                frames@[i]->0,
            ),
{
    let mut i: usize = 0;
    while i < frames.len()
        invariant
            i <= frames.len(),
            forall|k: int|
                0 <= k < i ==> !((#[trigger] frames@[k]) is Some && event_too_long(frames@[k]->0)),
        decreases frames.len() - i,
    {
        if let Some(event) = &frames[i] {
            if kiro_event_is_content_length_exceeded(event) {
                assert(frames@[i as int] is Some);
                return true;
            }
        }
        i += 1;
    }
    false
}

// ---------------------------------------------------------------------------
// Laws
// ---------------------------------------------------------------------------

/// An error body reads back as the message and the type that went into it, in either form:
/// the one of the messages endpoint, or the other; a status of 4xx blames the request.
pub proof fn law_an_error_body_reads_back(endpoint: Seq<char>, status: u16, message: Seq<char>)
    ensures
        surface_error(endpoint, status, message).get2_str("error"@, "message"@) == Some(message),
        error_message(surface_error(endpoint, status, message)) == Some(message),
        400 <= status <= 499 ==> surface_error(endpoint, status, message).get2_str(
            "error"@,
            "type"@,
        ) == Some("invalid_request_error"@),
        !(400 <= status <= 499) ==> surface_error(endpoint, status, message).get2_str(
            "error"@,
            "type"@,
        ) == Some("api_error"@),
        endpoint == "/v1/messages"@ ==> surface_error(endpoint, status, message).get2(
            "error"@,
            "code"@,
        ) is None,
        endpoint == "/v1/responses"@ ==> surface_error(endpoint, status, message).get2(
            "error"@,
            "code"@,
        ) == Some(JsonView::Null),
        anthropic_error("api_error"@, message).get2_str("error"@, "message"@) == Some(message),
{
    reveal_strlit("message");
    reveal_strlit("type");
    reveal_strlit("param");
    reveal_strlit("code");
    reveal_strlit("/v1/messages");
    reveal_strlit("/v1/messages?");
    reveal_strlit("/v1/responses");
    assert("message"@.len() == 7 && "param"@.len() == 5);
    assert("type"@.len() == 4 && "code"@.len() == 4);
    assert("type"@[0] == 't' && "code"@[0] == 'c');
    assert("/v1/messages"@.len() == 12 && "/v1/responses"@.len() == 13);
    assert("/v1/responses"@[4] == 'r' && "/v1/messages?"@[4] == 'm');
    assert("/v1/messages?"@.len() == 13);
}

/// The message of an error is looked for where an error stands before anywhere else; the
/// message of the whole counts last.
pub proof fn law_where_an_error_has_its_message(value: JsonView, message: Seq<char>)
    ensures
        value.get_str("error"@) == Some(message) ==> error_message(value) == Some(message),
        value.get2_str("error"@, "message"@) == Some(message) ==> error_message(value) == Some(
            message,
        ),
        value.get("error"@) is None && value.get2("response"@, "error"@) is None
            ==> error_message(value) == value.get_str("message"@),
        value.get("error"@) is None ==> (value.get2("response"@, "error"@) matches Some(error)
            ==> (error.get_str("message"@) == Some(message) ==> error_message(value) == Some(
            message,
        ))),
{
}

/// What an error comes to in words is never blank: its message, else its text, else that it
/// is unknown.
pub proof fn law_an_error_is_never_without_words(parsed: Option<JsonView>, text: Seq<char>)
    ensures
        error_summary(parsed, text).len() > 0,
        parsed matches Some(value) ==> (error_message(value) matches Some(message) ==> (trim(
            message,
        ).len() > 0 ==> error_summary(parsed, text) == trim(message))),
        parsed is None && trim(text).len() > 0 ==> error_summary(parsed, text) == trim(text),
        parsed is None && trim(text).len() == 0 ==> error_summary(parsed, text)
            == "Unknown upstream error"@,
{
    reveal_strlit("Unknown upstream error");
    assert("Unknown upstream error"@.len() == 22);
}

/// The reason of a body is the one at its top, else the one inside its error.
pub proof fn law_the_reason_of_a_body(value: JsonView, reason: Seq<char>)
    ensures
        value.get_str("reason"@) == Some(reason) ==> error_reason(value) == Some(reason),
        value.get("reason"@) is None ==> error_reason(value) == value.get2_str(
            "error"@,
            "reason"@,
        ),
{
}

/// A prompt is too long where the status says so, or the text, however it is written.
pub proof fn law_what_is_too_long(status: u16, text: Seq<char>)
    ensures
        status == 413 ==> is_too_long(status, text),
        contains(lower(text), "input is too long"@) ==> is_too_long(status, text),
        contains(lower(text), "content_length_exceeds_threshold"@) ==> is_too_long(status, text),
        contains(lower(text), "contentlengthexceededexception"@) ==> is_too_long(status, text),
        contains(lower(text), "input content length exceeds threshold"@) ==> is_too_long(
            status,
            text,
        ),
        status != 413 && !contains(lower(text), "input is too long"@) && !contains(
            lower(text),
            "content_length_exceeds_threshold"@,
        ) && !contains(lower(text), "contentlengthexceededexception"@) && !contains(
            lower(text),
            "input content length exceeds threshold"@,
        ) ==> !is_too_long(status, text),
        !event_too_long(WireEvent::Other),
{
}

/// The tokens that are named are always more than the limit that is named, but at the end of
/// the range; a count past the limit is named as it is.
pub proof fn law_the_named_tokens_exceed_the_limit(context_window: i32, tokens: i32)
    ensures
        0 < context_window < tokens ==> named_tokens(context_window, tokens) == tokens
            && named_limit(context_window) == context_window,
        context_window < i32::MAX ==> named_tokens(context_window, tokens) > named_limit(
            context_window,
        ),
        0 < tokens <= context_window < i32::MAX ==> named_tokens(context_window, tokens)
            == context_window + 1,
        context_window <= 0 ==> named_limit(context_window) == 1,
{
}

} // verus!
