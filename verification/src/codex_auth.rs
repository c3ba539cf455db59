//! Codex requests: paths, versions, session headers and the retry without encrypted
//! reasoning.

use vstd::prelude::*;
use vstd::slice::slice_to_vec;
use vstd::utf8::*;
use crate::errors::{error_message, extract_error_message_from_json_value, prefers_anthropic_errors,
    codex_endpoint_prefers_anthropic_errors, text_reply, Reply};
use crate::headers::{first_header_value, first_of, header_value, Headers};
use crate::json::{array_view, find_member, lemma_array_view, lemma_array_view_push, members_view,
    opt_bytes, opt_json, optional_json_string, parse_bytes, parse_text, parsed_bytes, parsed_text,
    string_field, write_bytes, written_bytes, Json, JsonView};
use crate::route_selection::is_text_reply;
use crate::text::{chars_of, clone_opt, concat2, concat3, contains, ends_with, find_char,
    first_index, has_at, is_alphanumeric_ascii, lower, lowered, nonempty_trim, opt_text, same_text,
    starts_with, string_of, strip_prefix, strs, subrange_chars, text_contains, text_ends_with,
    text_starts_with, trim, trim_chars, trim_end_char, trim_end_text, trim_start_text,
    trimmed_nonempty, without_leading_text, without_trailing, without_trailing_text};
use crate::types::{PreparedGatewayRequest, ProtocolFamily};

verus! {

// ---------------------------------------------------------------------------
// Paths and versions
// ---------------------------------------------------------------------------

/// The path behind one of the gateway's own prefixes.
pub open spec fn behind_gateway_prefix(path: Seq<char>) -> Option<Seq<char>> {
    if starts_with(path, "/api/llm-gateway"@) {
        Some(path.skip("/api/llm-gateway"@.len() as int))
    } else if starts_with(path, "/api/codex-gateway"@) {
        Some(path.skip("/api/codex-gateway"@.len() as int))
    } else {
        None
    }
}

/// The canonical path of an endpoint under a gateway prefix.
pub open spec fn gateway_alias(alias: Seq<char>) -> Option<Seq<char>> {
    if alias == "/models"@ || alias == "/v1/models"@ {
        Some("/v1/models"@)
    } else if alias == "/chat/completions"@ || alias == "/v1/chat/completions"@ {
        Some("/v1/chat/completions"@)
    } else if alias == "/responses"@ || alias == "/v1/responses"@ {
        Some("/v1/responses"@)
    } else if alias == "/responses/compact"@ || alias == "/v1/responses/compact"@ {
        Some("/v1/responses/compact"@)
    } else if alias == "/messages"@ || alias == "/v1/messages"@ {
        Some("/v1/messages"@)
    } else if starts_with(alias, "/v1/responses/"@) {
        Some(alias)
    } else {
        None
    }
}

pub open spec fn is_canonical_path(path: Seq<char>) -> bool {
    path == "/v1/models"@ || path == "/v1/messages"@ || path == "/v1/chat/completions"@ || path
        == "/v1/responses"@ || starts_with(path, "/v1/responses/"@)
}

/// The canonical path of a Codex endpoint.
pub open spec fn codex_gateway_path(path: Seq<char>) -> Option<Seq<char>> {
    if is_canonical_path(path) {
        Some(path)
    } else {
        match behind_gateway_prefix(path) {
            Some(alias) => gateway_alias(alias),
            None => None,
        }
    }
}

pub fn normalized_codex_gateway_path(path: &str) -> (result: Option<String>)
    ensures
        opt_text(result) == codex_gateway_path(path@),
{
    if same_text(path, "/v1/models") || same_text(path, "/v1/messages") || same_text(
        path,
        "/v1/chat/completions",
    ) || same_text(path, "/v1/responses") || text_starts_with(path, "/v1/responses/") {
        return Some(path.to_owned());
    }
    let alias = match strip_prefix(path, "/api/llm-gateway") {
        Some(alias) => alias,
        None => match strip_prefix(path, "/api/codex-gateway") {
            Some(alias) => alias,
            None => return None,
        },
    };
    let a = alias.as_str();
    if same_text(a, "/models") || same_text(a, "/v1/models") {
        Some("/v1/models".to_owned())
    } else if same_text(a, "/chat/completions") || same_text(a, "/v1/chat/completions") {
        Some("/v1/chat/completions".to_owned())
    } else if same_text(a, "/responses") || same_text(a, "/v1/responses") {
        Some("/v1/responses".to_owned())
    } else if same_text(a, "/responses/compact") || same_text(a, "/v1/responses/compact") {
        Some("/v1/responses/compact".to_owned())
    } else if same_text(a, "/messages") || same_text(a, "/v1/messages") {
        Some("/v1/messages".to_owned())
    } else if text_starts_with(a, "/v1/responses/") {
        Some(alias)
    } else {
        None
    }
}

pub fn codex_protocol_family_for_endpoint(endpoint: &str) -> (family: ProtocolFamily)
    ensures
        family == if prefers_anthropic_errors(endpoint@) {
            ProtocolFamily::Anthropic
        } else {
            ProtocolFamily::OpenAi
        },
{
    if codex_endpoint_prefers_anthropic_errors(endpoint) {
        ProtocolFamily::Anthropic
    } else {
        ProtocolFamily::OpenAi
    }
}

/// The base URL that requests go to: the first of the two settings that is given,
/// normalised by the caller, else the public one.
pub fn codex_upstream_base_url(configured: Option<&str>, fallback: Option<&str>) -> (base: String)
    ensures
        base@ == match configured {
            Some(base) => base@,
            None => match fallback {
                Some(base) => base@,
                None => "https://chatgpt.com/backend-api/codex"@,
            },
        },
{
    match configured {
        Some(base) => base.to_owned(),
        None => match fallback {
            Some(base) => base.to_owned(),
            None => "https://chatgpt.com/backend-api/codex".to_owned(),
        },
    }
}

/// The URL of a path under a base: the version segment stands once, and not at all on
/// the ChatGPT backend.
pub open spec fn upstream_url(base: Seq<char>, path: Seq<char>) -> Seq<char> {
    let base = trim_end_char(base, '/');
    if contains(base, "/backend-api/codex"@) && starts_with(path, "/v1/"@) {
        base + trim_start_text(path, "/v1"@)
    } else if ends_with(base, "/v1"@) && starts_with(path, "/v1"@) {
        trim_end_text(base, "/v1"@) + path
    } else {
        base + path
    }
}

pub fn compute_codex_upstream_url(base: &str, path: &str) -> (url: String)
    ensures
        url@ == upstream_url(base@, path@),
{
    proof {
        reveal_strlit("/v1");
    }
    let base = without_trailing(base, '/');
    if text_contains(base.as_str(), "/backend-api/codex") && text_starts_with(path, "/v1/") {
        let rest = without_leading_text(path, "/v1");
        concat2(base.as_str(), rest.as_str())
    } else if text_ends_with(base.as_str(), "/v1") && text_starts_with(path, "/v1") {
        let root = without_trailing_text(base.as_str(), "/v1");
        concat2(root.as_str(), path)
    } else {
        concat2(base.as_str(), path)
    }
}

pub open spec fn is_version_char(c: char) -> bool {
    is_alphanumeric_ascii(c) || c == '.' || c == '-' || c == '_'
}

/// A client version: at most `max_len` letters, digits, dots, dashes and underscores.
pub open spec fn client_version(raw: Seq<char>, max_len: nat) -> Option<Seq<char>> {
    let t = trim(raw);
    if 0 < t.len() <= max_len && (forall|i: int| 0 <= i < t.len() ==> is_version_char(#[trigger] t[i])) {
        Some(t)
    } else {
        None
    }
}

pub fn normalize_codex_client_version(raw: &str, max_len: usize) -> (result: Option<String>)
    ensures
        opt_text(result) == client_version(raw@, max_len as nat),
{
    let t = trim_chars(&chars_of(raw));
    if t.len() == 0 || t.len() > max_len {
        return None;
    }
    let mut i: usize = 0;
    while i < t.len()
        invariant
            i <= t.len(),
            t@ == trim(raw@),
            forall|k: int| 0 <= k < i ==> is_version_char(#[trigger] t@[k]),
        decreases t.len() - i,
    {
        let c = t[i];
        let allowed = ('0' <= c && c <= '9') || ('a' <= c && c <= 'z') || ('A' <= c && c <= 'Z') || c
            == '.' || c == '-' || c == '_';
        if !allowed {
            assert(!is_version_char(t@[i as int]));
            return None;
        }
        i += 1;
    }
    Some(string_of(&t))
}

pub fn resolve_codex_client_version(raw: Option<&str>, max_len: usize, default_version: &str) -> (result:
    String)
    ensures
        result@ == match raw {
            Some(raw) => match client_version(raw@, max_len as nat) {
                Some(version) => version,
                None => default_version@,
            },
            None => default_version@,
        },
{
    let version = match raw {
        Some(raw) => normalize_codex_client_version(raw, max_len),
        None => None,
    };
    match version {
        Some(version) => version,
        None => default_version.to_owned(),
    }
}

/// The number of accounts that a request may try: at least one.
pub fn resolve_codex_account_attempt_limit(raw: u64) -> (limit: usize)
    ensures
        limit == if raw == 0 {
            1
        } else if raw > usize::MAX {
            usize::MAX as int
        } else {
            raw as int
        },
{
    if raw == 0 {
        1
    } else if raw > usize::MAX as u64 {
        usize::MAX
    } else {
        raw as usize
    }
}

pub struct CodexDispatchRuntimeConfig {
    pub client_version: String,
    pub account_attempt_limit: usize,
}

/// The settings of a dispatch, from the stored version and retry limit; nothing where
/// the store could not be read.
pub fn load_codex_dispatch_runtime_config(
    stored: Option<(String, u64)>,
    max_len: usize,
    default_version: &str,
) -> (result: Result<CodexDispatchRuntimeConfig, Reply>)
    ensures
        match stored {
            Some(config) => result matches Ok(settings) && {
                &&& settings.client_version@ == match client_version(config.0@, max_len as nat) {
                    Some(version) => version,
                    None => default_version@,
                }
                &&& settings.account_attempt_limit == if config.1 == 0 {
                    1
                } else if config.1 > usize::MAX {
                    usize::MAX as int
                } else {
                    config.1 as int
                }
            },
            None => result matches Err(reply) && is_text_reply(
                reply,
                500,
                "runtime config store error"@,
            ),
        },
{
    match stored {
        Some(config) => Ok(
            CodexDispatchRuntimeConfig {
                client_version: resolve_codex_client_version(
                    Some(config.0.as_str()),
                    max_len,
                    default_version,
                ),
                account_attempt_limit: resolve_codex_account_attempt_limit(config.1),
            },
        ),
        None => Err(text_reply(500, "runtime config store error")),
    }
}

pub fn codex_user_agent(originator: &str, client_version: &str) -> (agent: String)
    ensures
        agent@ == originator@ + "/"@ + client_version@,
{
    concat3(originator, "/", client_version)
}

// ---------------------------------------------------------------------------
// Session headers
// ---------------------------------------------------------------------------

pub struct CodexTurnMetadataHeader {
    pub session_id: Option<String>,
    pub thread_id: Option<String>,
}

pub struct CodexUpstreamSessionHeaders {
    pub conversation_id: Option<String>,
    pub session_id: Option<String>,
    pub thread_id: Option<String>,
    pub client_request_id: Option<String>,
}

/// A field of the turn metadata, given the metadata as JSON.
pub open spec fn metadata_field(metadata: Option<JsonView>, name: Seq<char>) -> Option<Seq<char>> {
    match metadata {
        Some(value) => string_field(value, name),
        None => None,
    }
}

/// The turn metadata that a request's header carries, where it is JSON.
pub open spec fn turn_metadata(headers: Headers) -> Option<JsonView> {
    match headers.value("x-codex-turn-metadata"@) {
        Some(raw) => parsed_text(raw),
        None => None,
    }
}

pub fn turn_metadata_fields(metadata: &Option<Json>) -> (fields: CodexTurnMetadataHeader)
    ensures
        opt_text(fields.session_id) == metadata_field(opt_json(*metadata), "session_id"@),
        opt_text(fields.thread_id) == metadata_field(opt_json(*metadata), "thread_id"@),
{
    match metadata {
        Some(value) => CodexTurnMetadataHeader {
            session_id: optional_json_string(value, "session_id"),
            thread_id: optional_json_string(value, "thread_id"),
        },
        None => CodexTurnMetadataHeader { session_id: None, thread_id: None },
    }
}

fn parse_codex_turn_metadata_header(headers: &Headers) -> (fields: CodexTurnMetadataHeader)
    ensures
        opt_text(fields.session_id) == metadata_field(turn_metadata(*headers), "session_id"@),
        opt_text(fields.thread_id) == metadata_field(turn_metadata(*headers), "thread_id"@),
{
    let metadata = match header_value(headers, "x-codex-turn-metadata") {
        Some(raw) => parse_text(raw.as_str()),
        None => None,
    };
    turn_metadata_fields(&metadata)
}

/// The path of a request without its query.
pub open spec fn without_query(path: Seq<char>) -> Seq<char> {
    path.take(first_index(path, '?'))
}

pub open spec fn is_standard_path(upstream_path: Seq<char>) -> bool {
    without_query(upstream_path) == "/v1/responses"@
}

fn is_standard_codex_responses_path(prepared: &PreparedGatewayRequest) -> (result: bool)
    ensures
        result == is_standard_path(prepared.upstream_path@),
{
    let path = chars_of(prepared.upstream_path.as_str());
    let end = find_char(&path, '?');
    let head = subrange_chars(&path, 0, end);
    assert(head@ =~= without_query(prepared.upstream_path@));
    same_text(string_of(&head).as_str(), "/v1/responses")
}

pub open spec fn or_else<T>(first: Option<T>, second: Option<T>) -> Option<T> {
    match first {
        Some(v) => Some(v),
        None => second,
    }
}

fn or_text(first: Option<String>, second: &Option<String>) -> (result: Option<String>)
    ensures
        opt_text(result) == or_else(opt_text(first), opt_text(*second)),
{
    match first {
        Some(v) => Some(v),
        None => clone_opt(second),
    }
}

/// The thread anchor of a request, trimmed.
pub open spec fn anchor_of(prepared: PreparedGatewayRequest) -> Option<Seq<char>> {
    match prepared.thread_anchor {
        Some(anchor) => nonempty_trim(anchor@),
        None => None,
    }
}

/// The session headers to send upstream. A header that the client sent is kept; on the
/// standard path a missing one is rebuilt from the turn metadata and the anchor.
pub open spec fn session_headers_are(
    headers: Headers,
    anchor: Option<Seq<char>>,
    standard: bool,
    metadata_session: Option<Seq<char>>,
    metadata_thread: Option<Seq<char>>,
    result: CodexUpstreamSessionHeaders,
) -> bool {
    let sent_session = first_of(headers, seq!["session_id"@, "session-id"@]);
    let sent_thread = first_of(headers, seq!["thread_id"@, "thread-id"@]);
    let session = if standard {
        or_else(sent_session, or_else(metadata_session, anchor))
    } else {
        sent_session
    };
    let thread = if standard {
        or_else(
            sent_thread,
            or_else(or_else(metadata_thread, anchor), session),
        )
    } else {
        sent_thread
    };
    &&& opt_text(result.session_id) == session
    &&& opt_text(result.thread_id) == thread
    &&& opt_text(result.conversation_id) == if standard {
        or_else(
            headers.value("conversation_id"@),
            or_else(anchor, metadata_thread),
        )
    } else {
        headers.value("conversation_id"@)
    }
    &&& opt_text(result.client_request_id) == if standard {
        or_else(headers.value("x-client-request-id"@), or_else(thread, anchor))
    } else {
        headers.value("x-client-request-id"@)
    }
}

pub fn session_headers_with_metadata(
    headers: &Headers,
    prepared: &PreparedGatewayRequest,
    metadata: &CodexTurnMetadataHeader,
) -> (result: CodexUpstreamSessionHeaders)
    ensures
        session_headers_are(
            *headers,
            anchor_of(*prepared),
            is_standard_path(prepared.upstream_path@),
            opt_text(metadata.session_id),
            opt_text(metadata.thread_id),
            result,
        ),
{
    let anchor = match &prepared.thread_anchor {
        Some(anchor) => trimmed_nonempty(anchor.as_str()),
        None => None,
    };
    let standard = is_standard_codex_responses_path(prepared);
    let sent_session = first_header_value(headers, &["session_id", "session-id"]);
    assert(strs(["session_id", "session-id"]@) =~= seq!["session_id"@, "session-id"@]);
    let sent_thread = first_header_value(headers, &["thread_id", "thread-id"]);
    assert(strs(["thread_id", "thread-id"]@) =~= seq!["thread_id"@, "thread-id"@]);
    let conversation = header_value(headers, "conversation_id");
    let request_id = header_value(headers, "x-client-request-id");
    if !standard {
        return CodexUpstreamSessionHeaders {
            conversation_id: conversation,
            session_id: sent_session,
            thread_id: sent_thread,
            client_request_id: request_id,
        };
    }
    let session_id = or_text(or_text(sent_session, &metadata.session_id), &anchor);
    let thread_id = or_text(
        or_text(or_text(sent_thread, &metadata.thread_id), &anchor),
        &session_id,
    );
    let conversation_id = or_text(or_text(conversation, &anchor), &metadata.thread_id);
    let client_request_id = or_text(or_text(request_id, &thread_id), &anchor);
    CodexUpstreamSessionHeaders { conversation_id, session_id, thread_id, client_request_id }
}

pub fn resolve_codex_upstream_session_headers(headers: &Headers, prepared: &PreparedGatewayRequest) -> (result:
    CodexUpstreamSessionHeaders)
    ensures
        session_headers_are(
            *headers,
            anchor_of(*prepared),
            is_standard_path(prepared.upstream_path@),
            metadata_field(turn_metadata(*headers), "session_id"@),
            metadata_field(turn_metadata(*headers), "thread_id"@),
            result,
        ),
{
    let metadata = parse_codex_turn_metadata_header(headers);
    session_headers_with_metadata(headers, prepared, &metadata)
}


// ---------------------------------------------------------------------------
// Headers to send upstream
// ---------------------------------------------------------------------------

pub struct CodexAuthSnapshot {
    pub access_token: String,
    pub account_id: Option<String>,
    pub is_fedramp_account: bool,
}

pub open spec fn header_views(list: Seq<(String, String)>) -> Seq<(Seq<char>, Seq<char>)> {
    list.map_values(|h: (String, String)| (h.0@, h.1@))
}

/// The list with one more header, where it has a value.
pub open spec fn with_header(
    list: Seq<(Seq<char>, Seq<char>)>,
    name: Seq<char>,
    value: Option<Seq<char>>,
) -> Seq<(Seq<char>, Seq<char>)> {
    match value {
        Some(value) => list.push((name, value)),
        None => list,
    }
}

fn push_header(list: &mut Vec<(String, String)>, name: &str, value: &Option<String>)
    ensures
        header_views(final(list)@) == with_header(
            header_views(old(list)@),
            name@,
            opt_text(*value),
        ),
{
    if let Some(value) = value {
        list.push((name.to_owned(), value.clone()));
        assert(header_views(list@) =~= header_views(old(list)@).push((name@, value@)));
    }
}

/// The headers that are passed on from the client as they are.
pub open spec fn passed_on() -> Seq<Seq<char>> {
    seq![
        "openai-beta"@,
        "x-openai-subagent"@,
        "x-codex-beta-features"@,
        "x-codex-turn-metadata"@,
        "x-codex-installation-id"@,
        "x-codex-parent-thread-id"@,
        "x-codex-window-id"@,
        "x-openai-memgen-request"@,
        "x-responsesapi-include-timing-metrics"@,
        "traceparent"@,
        "tracestate"@,
        "baggage"@,
    ]
}

/// The list with those of the named headers that the client sent.
pub open spec fn with_passed_on(
    list: Seq<(Seq<char>, Seq<char>)>,
    headers: Headers,
    names: Seq<Seq<char>>,
) -> Seq<(Seq<char>, Seq<char>)>
    decreases names.len(),
{
    if names.len() == 0 {
        list
    } else {
        with_header(
            with_passed_on(list, headers, names.drop_last()),
            names.last(),
            headers.value(names.last()),
        )
    }
}

/// The headers of an upstream request, given its session headers.
pub open spec fn upstream_headers(
    headers: Headers,
    prepared: PreparedGatewayRequest,
    auth: CodexAuthSnapshot,
    session: CodexUpstreamSessionHeaders,
    originator: Seq<char>,
    client_version: Seq<char>,
) -> Seq<(Seq<char>, Seq<char>)> {
    let first = seq![
        ("authorization"@, "Bearer "@ + auth.access_token@),
        (
            "accept"@,
            if prepared.wants_stream || prepared.force_upstream_stream {
                "text/event-stream"@
            } else {
                "application/json"@
            },
        ),
        (
            "user-agent"@,
            match headers.value("user-agent"@) {
                Some(agent) => agent,
                None => originator + "/"@ + client_version,
            },
        ),
        (
            "originator"@,
            match headers.value("originator"@) {
                Some(sent) => sent,
                None => originator,
            },
        ),
    ];
    let typed = with_header(
        first,
        "content-type"@,
        if prepared.request_body@.len() > 0 {
            Some(prepared.content_type@)
        } else {
            None
        },
    );
    let conversed = with_header(typed, "conversation_id"@, opt_text(session.conversation_id));
    let requested = with_header(
        conversed,
        "x-client-request-id"@,
        opt_text(session.client_request_id),
    );
    let turned = with_header(
        requested,
        "x-codex-turn-state"@,
        headers.value("x-codex-turn-state"@),
    );
    let passed = with_passed_on(turned, headers, passed_on());
    let sessioned = with_header(
        with_header(passed, "session_id"@, opt_text(session.session_id)),
        "session-id"@,
        opt_text(session.session_id),
    );
    let threaded = with_header(
        with_header(sessioned, "thread_id"@, opt_text(session.thread_id)),
        "thread-id"@,
        opt_text(session.thread_id),
    );
    with_header(
        with_header(threaded, "chatgpt-account-id"@, opt_text(auth.account_id)),
        "x-openai-fedramp"@,
        if auth.is_fedramp_account {
            Some("true"@)
        } else {
            None
        },
    )
}

fn push_passed_on(list: &mut Vec<(String, String)>, headers: &Headers, names: &[&str])
    ensures
        header_views(final(list)@) == with_passed_on(
            header_views(old(list)@),
            *headers,
            strs(names@),
        ),
{
    let ghost views = strs(names@);
    let ghost before = header_views(list@);
    let mut i: usize = 0;
    assert(views.take(0) =~= Seq::<Seq<char>>::empty());
    while i < names.len()
        invariant
            i <= names.len(),
            views == strs(names@),
            header_views(list@) == with_passed_on(before, *headers, views.take(i as int)),
        decreases names.len() - i,
    {
        assert(views.take(i as int + 1).drop_last() =~= views.take(i as int));
        let value = header_value(headers, names[i]);
        push_header(list, names[i], &value);
        i += 1;
    }
    assert(views.take(i as int) =~= views);
}

/// The headers of an upstream request, given its session headers.
pub fn codex_headers_with_session(
    headers: &Headers,
    prepared: &PreparedGatewayRequest,
    auth: &CodexAuthSnapshot,
    session: &CodexUpstreamSessionHeaders,
    originator: &str,
    client_version: &str,
) -> (list: Vec<(String, String)>)
    ensures
        header_views(list@) == upstream_headers(
            *headers,
            *prepared,
            *auth,
            *session,
            originator@,
            client_version@,
        ),
{
    let mut list: Vec<(String, String)> = Vec::new();
    list.push(("authorization".to_owned(), concat2("Bearer ", auth.access_token.as_str())));
    let accept = if prepared.wants_stream || prepared.force_upstream_stream {
        "text/event-stream"
    } else {
        "application/json"
    };
    list.push(("accept".to_owned(), accept.to_owned()));
    let agent = match header_value(headers, "user-agent") {
        Some(agent) => agent,
        None => codex_user_agent(originator, client_version),
    };
    list.push(("user-agent".to_owned(), agent));
    let sent = match header_value(headers, "originator") {
        Some(sent) => sent,
        None => originator.to_owned(),
    };
    list.push(("originator".to_owned(), sent));
    let ghost first = seq![
        ("authorization"@, "Bearer "@ + auth.access_token@),
        ("accept"@, accept@),
        (
            "user-agent"@,
            match headers.value("user-agent"@) {
                Some(agent) => agent,
                None => originator@ + "/"@ + client_version@,
            },
        ),
        (
            "originator"@,
            match headers.value("originator"@) {
                Some(sent) => sent,
                None => originator@,
            },
        ),
    ];
    assert(header_views(list@) =~= first);
    let content_type = if prepared.request_body.len() > 0 {
        Some(prepared.content_type.clone())
    } else {
        None
    };
    push_header(&mut list, "content-type", &content_type);
    push_header(&mut list, "conversation_id", &session.conversation_id);
    push_header(&mut list, "x-client-request-id", &session.client_request_id);
    let turn_state = header_value(headers, "x-codex-turn-state");
    push_header(&mut list, "x-codex-turn-state", &turn_state);
    let names = [
        "openai-beta",
        "x-openai-subagent",
        "x-codex-beta-features",
        "x-codex-turn-metadata",
        "x-codex-installation-id",
        "x-codex-parent-thread-id",
        "x-codex-window-id",
        "x-openai-memgen-request",
        "x-responsesapi-include-timing-metrics",
        "traceparent",
        "tracestate",
        "baggage",
    ];
    assert(strs(names@) =~= passed_on());
    push_passed_on(&mut list, headers, &names);
    push_header(&mut list, "session_id", &session.session_id);
    push_header(&mut list, "session-id", &session.session_id);
    push_header(&mut list, "thread_id", &session.thread_id);
    push_header(&mut list, "thread-id", &session.thread_id);
    push_header(&mut list, "chatgpt-account-id", &auth.account_id);
    let fedramp = if auth.is_fedramp_account {
        Some("true".to_owned())
    } else {
        None
    };
    push_header(&mut list, "x-openai-fedramp", &fedramp);
    list
}

/// The headers of an upstream request.
pub fn add_codex_upstream_headers(
    headers: &Headers,
    prepared: &PreparedGatewayRequest,
    auth: &CodexAuthSnapshot,
    originator: &str,
    client_version: &str,
) -> (list: Vec<(String, String)>)
    ensures
        exists|session: CodexUpstreamSessionHeaders| #[trigger]
            session_headers_are(
                *headers,
                anchor_of(*prepared),
                is_standard_path(prepared.upstream_path@),
                metadata_field(turn_metadata(*headers), "session_id"@),
                metadata_field(turn_metadata(*headers), "thread_id"@),
                session,
            ) && header_views(list@) == upstream_headers(
                *headers,
                *prepared,
                *auth,
                session,
                originator@,
                client_version@,
            ),
{
    let session = resolve_codex_upstream_session_headers(headers, prepared);
    codex_headers_with_session(headers, prepared, auth, &session, originator, client_version)
}

// ---------------------------------------------------------------------------
// Errors that blame the request
// ---------------------------------------------------------------------------

/// `std::str::from_utf8`: the text of bytes that are valid UTF-8, nothing for others.
#[verifier::external_body]
fn utf8_text(bytes: &[u8]) -> (text: Option<String>)
    ensures
        match text {
            Some(text) => valid_utf8(bytes@) && text@ == decode_utf8(bytes@),
            None => !valid_utf8(bytes@),
        },
{
    std::str::from_utf8(bytes).ok().map(str::to_owned)
}

/// The object that describes an error: `error`, or the value itself.
pub open spec fn error_object(value: JsonView) -> JsonView {
    match value.get("error"@) {
        Some(error) => error,
        None => value,
    }
}

/// The code of an error. Where there is none, a message that is itself JSON is looked
/// into, as long as it is shorter than `bound`.
pub open spec fn error_code(value: JsonView, bound: nat) -> Option<Seq<char>>
    decreases bound,
{
    let error = error_object(value);
    match string_field(error, "code"@) {
        Some(code) => Some(code),
        None => match string_field(error, "message"@) {
            Some(message) => if message.len() < bound {
                match parsed_text(message) {
                    Some(nested) => error_code(nested, message.len()),
                    None => None,
                }
            } else {
                None
            },
            None => None,
        },
    }
}

pub fn codex_error_code_from_value(value: &Json, bound: usize) -> (code: Option<String>)
    ensures
        opt_text(code) == error_code(value@, bound as nat),
    decreases bound,
{
    let error = match value.get("error") {
        Some(error) => error,
        None => value,
    };
    if let Some(code) = optional_json_string(error, "code") {
        return Some(code);
    }
    let message = match optional_json_string(error, "message") {
        Some(message) => message,
        None => return None,
    };
    let length: usize = chars_of(message.as_str()).len();
    if length >= bound {
        return None;
    }
    match parse_text(message.as_str()) {
        Some(nested) => codex_error_code_from_value(&nested, length),
        None => None,
    }
}

/// The code of an error body of `length` bytes.
pub open spec fn body_error_code(parsed: Option<JsonView>, length: nat) -> Option<Seq<char>> {
    match parsed {
        Some(value) => error_code(value, length),
        None => None,
    }
}

/// A refusal of encrypted content, given the body as JSON and as bytes.
pub open spec fn refuses_encrypted_content(
    status: u16,
    parsed: Option<JsonView>,
    bytes: Seq<u8>,
) -> bool {
    status == 400 && (body_error_code(parsed, bytes.len()) == Some("invalid_encrypted_content"@) || (
    valid_utf8(bytes) && contains(decode_utf8(bytes), "invalid_encrypted_content"@)))
}

pub fn encrypted_content_refused(status: u16, parsed: &Option<Json>, bytes: &[u8]) -> (result: bool)
    ensures
        result == refuses_encrypted_content(status, opt_json(*parsed), bytes@),
{
    if status != 400 {
        return false;
    }
    let code = match parsed {
        Some(value) => codex_error_code_from_value(value, bytes.len()),
        None => None,
    };
    if let Some(code) = &code {
        if same_text(code.as_str(), "invalid_encrypted_content") {
            return true;
        }
    }
    match utf8_text(bytes) {
        Some(text) => text_contains(text.as_str(), "invalid_encrypted_content"),
        None => false,
    }
}

pub fn is_codex_invalid_encrypted_content_response(status: u16, bytes: &[u8]) -> (result: bool)
    ensures
        result == refuses_encrypted_content(status, parsed_bytes(bytes@), bytes@),
{
    let parsed = parse_bytes(bytes);
    encrypted_content_refused(status, &parsed, bytes)
}

/// The codes of errors in the shape of a request.
pub open spec fn is_shape_code(code: Seq<char>) -> bool {
    code == "invalid_value"@ || code == "unsupported_value"@ || code == "invalid_type"@ || code
        == "missing_required_parameter"@ || code == "unknown_parameter"@ || code
        == "unsupported_parameter"@
}

pub fn codex_error_code_is_request_shape_failure(code: &str) -> (result: bool)
    ensures
        result == is_shape_code(code@),
{
    same_text(code, "invalid_value") || same_text(code, "unsupported_value") || same_text(
        code,
        "invalid_type",
    ) || same_text(code, "missing_required_parameter") || same_text(code, "unknown_parameter")
        || same_text(code, "unsupported_parameter")
}

/// The messages of errors in the shape of a request.
pub open spec fn is_shape_message(message: Seq<char>) -> bool {
    let m = lower(message);
    ||| contains(m, "invalid value"@) && contains(m, "supported values"@)
    ||| contains(m, "invalid type"@)
    ||| contains(m, "missing required parameter"@)
    ||| contains(m, "unknown parameter"@)
    ||| contains(m, "unsupported parameter"@)
}

pub fn codex_message_indicates_request_shape_failure(message: &str) -> (result: bool)
    ensures
        result == is_shape_message(message@),
{
    let m = lowered(message);
    (text_contains(m.as_str(), "invalid value") && text_contains(m.as_str(), "supported values"))
        || text_contains(m.as_str(), "invalid type") || text_contains(
        m.as_str(),
        "missing required parameter",
    ) || text_contains(m.as_str(), "unknown parameter") || text_contains(
        m.as_str(),
        "unsupported parameter",
    )
}

/// An error that every account would answer with, given the body as JSON and as bytes.
pub open spec fn blames_request_shape(
    status: u16,
    parsed: Option<JsonView>,
    bytes: Seq<u8>,
) -> bool {
    &&& status == 400
    &&& !refuses_encrypted_content(status, parsed, bytes)
    &&& parsed matches Some(value) && {
        ||| string_field(error_object(value), "code"@) matches Some(code) && is_shape_code(code)
        ||| error_message(value) matches Some(message) && is_shape_message(message)
    }
}

pub fn request_shape_blamed(status: u16, parsed: &Option<Json>, bytes: &[u8]) -> (result: bool)
    ensures
        result == blames_request_shape(status, opt_json(*parsed), bytes@),
{
    if status != 400 || encrypted_content_refused(status, parsed, bytes) {
        return false;
    }
    match parsed {
        Some(value) => {
            let error = match value.get("error") {
                Some(error) => error,
                None => value,
            };
            if let Some(code) = optional_json_string(error, "code") {
                if codex_error_code_is_request_shape_failure(code.as_str()) {
                    return true;
                }
            }
            match extract_error_message_from_json_value(value) {
                Some(message) => codex_message_indicates_request_shape_failure(message.as_str()),
                None => false,
            }
        },
        None => false,
    }
}

pub fn is_codex_non_retryable_client_error_response(status: u16, bytes: &[u8]) -> (result: bool)
    ensures
        result == blames_request_shape(status, parsed_bytes(bytes@), bytes@),
{
    let parsed = parse_bytes(bytes);
    request_shape_blamed(status, &parsed, bytes)
}

// ---------------------------------------------------------------------------
// The retry without encrypted reasoning
// ---------------------------------------------------------------------------

/// A reasoning item that carries encrypted content.
pub open spec fn is_encrypted_reasoning(item: JsonView) -> bool {
    item.get_str("type"@) == Some("reasoning"@) && item.get("encrypted_content"@) is Some
}

/// Whether a member other than the type and the encrypted content stands in an item.
pub open spec fn has_other_members(item: JsonView) -> bool {
    item matches JsonView::Object(members) && exists|key: Seq<char>| #[trigger]
        members.dom().contains(key) && key != "type"@ && key != "encrypted_content"@
}

/// What becomes of an item: the encrypted content goes, and with it an item of which
/// nothing else is left.
pub open spec fn sanitized(item: JsonView) -> Option<JsonView> {
    if is_encrypted_reasoning(item) {
        if has_other_members(item) {
            Some(item.without("encrypted_content"@))
        } else {
            None
        }
    } else {
        Some(item)
    }
}

/// The items that are left of a list.
pub open spec fn sanitized_items(items: Seq<JsonView>) -> Seq<JsonView>
    decreases items.len(),
{
    if items.len() == 0 {
        Seq::empty()
    } else {
        let before = sanitized_items(items.drop_last());
        match sanitized(items.last()) {
            Some(item) => before.push(item),
            None => before,
        }
    }
}

pub open spec fn some_encrypted(items: Seq<JsonView>) -> bool {
    exists|i: int| 0 <= i < items.len() && is_encrypted_reasoning(#[trigger] items[i])
}

/// The request body without encrypted reasoning; nothing where it has none. An input of
/// which nothing is left goes with it.
pub open spec fn stripped(root: JsonView) -> Option<JsonView> {
    match root.get("input"@) {
        Some(JsonView::Array(items)) => if some_encrypted(items) {
            let left = sanitized_items(items);
            Some(
                if left.len() == 0 {
                    root.without("input"@)
                } else {
                    root.with("input"@, JsonView::Array(left))
                },
            )
        } else {
            None
        },
        Some(item) => if is_encrypted_reasoning(item) {
            Some(
                match sanitized(item) {
                    Some(left) => root.with("input"@, left),
                    None => root.without("input"@),
                },
            )
        } else {
            None
        },
        None => None,
    }
}

fn item_is_encrypted_reasoning(item: &Json) -> (result: bool)
    ensures
        result == is_encrypted_reasoning(item@),
{
    match item.get_str("type") {
        Some(kind) => same_text(kind, "reasoning") && item.get("encrypted_content").is_some(),
        None => false,
    }
}

fn item_has_other_members(item: &Json) -> (result: bool)
    ensures
        result == has_other_members(item@),
{
    match item {
        Json::Object(members) => {
            assert(item@->Object_0 == members_view(members@));
            let mut i: usize = 0;
            while i < members.len()
                invariant
                    i <= members.len(),
                    item@ == JsonView::Object(members_view(members@)),
                    item@->Object_0 == members_view(members@),
                    forall|k: int|
                        0 <= k < i ==> (#[trigger] members@[k]).0@ == "type"@ || members@[k].0@
                            == "encrypted_content"@,
                decreases members.len() - i,
            {
                let key = members[i].0.as_str();
                if !same_text(key, "type") && !same_text(key, "encrypted_content") {
                    let found = find_member(members, key);
                    assert(members@[i as int].0@ == key@);
                    assert(found is Some);
                    assert(members_view(members@).dom().contains(key@));
                    return true;
                }
                i += 1;
            }
            proof {
                assert forall|key: Seq<char>| #[trigger]
                    members_view(members@).dom().contains(key) implies key == "type"@ || key
                    == "encrypted_content"@ by {
                    crate::compaction::lemma_member_has_entry(members@, key);
                }
            }
            false
        },
        _ => false,
    }
}

fn sanitize_item(item: &Json) -> (result: Option<Json>)
    ensures
        opt_json(result) == sanitized(item@),
{
    if item_is_encrypted_reasoning(item) {
        if item_has_other_members(item) {
            Some(item.duplicate().without("encrypted_content"))
        } else {
            None
        }
    } else {
        Some(item.duplicate())
    }
}

/// The request body without encrypted reasoning, or nothing where it has none.
pub fn strip_codex_encrypted_reasoning_items(root: &Json) -> (result: Option<Json>)
    ensures
        opt_json(result) == stripped(root@),
{
    let input = match root.get("input") {
        Some(input) => input,
        None => return None,
    };
    match input {
        Json::Array(items) => {
            proof {
                lemma_array_view(items@);
                assert(input@->Array_0 == array_view(items@));
            }
            let ghost views = array_view(items@);
            let mut left: Vec<Json> = Vec::new();
            let mut changed = false;
            let mut i: usize = 0;
            assert(views.take(0) =~= Seq::<JsonView>::empty());
            while i < items.len()
                invariant
                    i <= items.len(),
                    views == array_view(items@),
                    views.len() == items.len(),
                    forall|k: int| 0 <= k < items.len() ==> #[trigger] views[k] == items@[k]@,
                    array_view(left@) == sanitized_items(views.take(i as int)),
                    changed == some_encrypted(views.take(i as int)),
                decreases items.len() - i,
            {
                let ghost head = views.take(i as int + 1);
                assert(head.drop_last() =~= views.take(i as int));
                assert(head.last() == items@[i as int]@);
                proof {
                    lemma_some_encrypted_step(views, i as int);
                }
                if item_is_encrypted_reasoning(&items[i]) {
                    changed = true;
                }
                if let Some(item) = sanitize_item(&items[i]) {
                    proof {
                        lemma_array_view_push(left@, item);
                    }
                    left.push(item);
                }
                i += 1;
            }
            assert(views.take(i as int) =~= views);
            if !changed {
                return None;
            }
            proof {
                lemma_array_view(left@);
            }
            if left.len() == 0 {
                Some(root.duplicate().without("input"))
            } else {
                Some(root.duplicate().with("input", Json::Array(left)))
            }
        },
        _ => {
            if !item_is_encrypted_reasoning(input) {
                return None;
            }
            match sanitize_item(input) {
                Some(item) => Some(root.duplicate().with("input", item)),
                None => Some(root.duplicate().without("input")),
            }
        },
    }
}

proof fn lemma_some_encrypted_step(items: Seq<JsonView>, i: int)
    requires
        0 <= i < items.len(),
    ensures
        some_encrypted(items.take(i + 1)) == (some_encrypted(items.take(i))
            || is_encrypted_reasoning(items[i])),
{
    let head = items.take(i + 1);
    let before = items.take(i);
    if some_encrypted(before) {
        let k = choose|k: int| 0 <= k < before.len() && is_encrypted_reasoning(#[trigger] before[k]);
        assert(head[k] == before[k]);
    }
    if is_encrypted_reasoning(items[i]) {
        assert(head[i] == items[i]);
    }
    if some_encrypted(head) {
        let k = choose|k: int| 0 <= k < head.len() && is_encrypted_reasoning(#[trigger] head[k]);
        if k < i {
            assert(before[k] == head[k]);
        }
    }
}

/// A request that differs from another in its upstream body alone.
pub open spec fn same_but_body(a: PreparedGatewayRequest, b: PreparedGatewayRequest) -> bool {
    &&& a == (PreparedGatewayRequest {
        request_body: a.request_body,
        client_request_body: a.client_request_body,
        ..b
    })
    &&& opt_bytes(a.client_request_body) == opt_bytes(b.client_request_body)
}

/// The same request with another upstream body.
pub fn with_request_body(prepared: &PreparedGatewayRequest, request_body: Vec<u8>) -> (result:
    PreparedGatewayRequest)
    ensures
        same_but_body(result, *prepared),
        result.request_body == request_body,
{
    PreparedGatewayRequest {
        original_path: prepared.original_path.clone(),
        upstream_path: prepared.upstream_path.clone(),
        client_request_body: match &prepared.client_request_body {
            Some(body) => Some(slice_to_vec(body.as_slice())),
            None => None,
        },
        request_body,
        content_type: prepared.content_type.clone(),
        model: clone_opt(&prepared.model),
        client_visible_model: clone_opt(&prepared.client_visible_model),
        wants_stream: prepared.wants_stream,
        force_upstream_stream: prepared.force_upstream_stream,
        thread_anchor: clone_opt(&prepared.thread_anchor),
        last_message_content: clone_opt(&prepared.last_message_content),
        billable_multiplier: prepared.billable_multiplier,
        response_adapter: prepared.response_adapter,
    }
}

/// The request to send again after encrypted content was refused: nothing where the body
/// is no JSON object or holds no encrypted reasoning.
pub fn retry_codex_without_encrypted_reasoning(prepared: &PreparedGatewayRequest) -> (retry: Option<
    PreparedGatewayRequest,
>)
    ensures
        match parsed_bytes(prepared.request_body@) {
            Some(root) => match stripped(root) {
                Some(changed) => match written_bytes(changed) {
                    Some(body) => retry matches Some(request) && same_but_body(
                        request,
                        *prepared,
                    ) && request.request_body@ == body,
                    None => retry is None,
                },
                None => retry is None,
            },
            None => retry is None,
        },
{
    let root = match parse_bytes(prepared.request_body.as_slice()) {
        Some(root) => root,
        None => return None,
    };
    match strip_codex_encrypted_reasoning_items(&root) {
        Some(changed) => match write_bytes(&changed) {
            Some(body) => Some(with_request_body(prepared, body)),
            None => None,
        },
        None => None,
    }
}

// ---------------------------------------------------------------------------
// Laws
// ---------------------------------------------------------------------------

/// The normal form of a path is canonical, and its own normal form.
pub proof fn law_path_normal_form_is_stable(path: Seq<char>)
    requires
        codex_gateway_path(path) is Some,
    ensures
        is_canonical_path(codex_gateway_path(path)->0),
        codex_gateway_path(codex_gateway_path(path)->0) == codex_gateway_path(path),
{
    reveal_strlit("/v1/responses/compact");
    reveal_strlit("/v1/responses/");
    let compact = "/v1/responses/compact"@;
    let prefix = "/v1/responses/"@;
    assert(compact.subrange(0, prefix.len() as int) =~= prefix);
}

/// After the retry was prepared no reasoning item carries encrypted content.
pub proof fn law_stripped_holds_no_encrypted_reasoning(root: JsonView)
    requires
        stripped(root) is Some,
    ensures
        stripped(stripped(root)->0) is None,
{
    let after = stripped(root)->0;
    match root.get("input"@) {
        Some(JsonView::Array(items)) => {
            lemma_sanitized_items_are_plain(items);
            let left = sanitized_items(items);
            if left.len() > 0 {
                assert(after->Object_0 == root->Object_0.insert("input"@, JsonView::Array(left)));
                assert(after.get("input"@) == Some(JsonView::Array(left)));
                assert(JsonView::Array(left)->Array_0 == left);
            } else {
                assert(after->Object_0 == root->Object_0.remove("input"@));
            }
        },
        Some(item) => {
            match sanitized(item) {
                Some(left) => {
                    lemma_sanitized_is_plain(item);
                    assert(after->Object_0 == root->Object_0.insert("input"@, left));
                    assert(after.get("input"@) == Some(left));
                },
                None => {
                    assert(after->Object_0 == root->Object_0.remove("input"@));
                },
            }
        },
        None => {},
    }
}

proof fn lemma_sanitized_is_plain(item: JsonView)
    requires
        sanitized(item) is Some,
    ensures
        !is_encrypted_reasoning(sanitized(item)->0),
        item is Object ==> sanitized(item)->0 is Object,
        !(item is Array) ==> !(sanitized(item)->0 is Array),
{
    if is_encrypted_reasoning(item) {
        let left = item.without("encrypted_content"@);
        assert(left->Object_0 == item->Object_0.remove("encrypted_content"@));
    }
}

proof fn lemma_sanitized_items_are_plain(items: Seq<JsonView>)
    ensures
        !some_encrypted(sanitized_items(items)),
    decreases items.len(),
{
    if items.len() > 0 {
        lemma_sanitized_items_are_plain(items.drop_last());
        let before = sanitized_items(items.drop_last());
        let all = sanitized_items(items);
        if sanitized(items.last()) is Some {
            lemma_sanitized_is_plain(items.last());
        }
        assert forall|i: int| 0 <= i < all.len() implies !is_encrypted_reasoning(
            #[trigger] all[i],
        ) by {
            if i < before.len() {
                assert(before[i] == all[i]);
            }
        }
    }
}

/// A header that the client sent reaches the upstream unchanged.
pub proof fn law_sent_session_headers_win(
    headers: Headers,
    anchor: Option<Seq<char>>,
    standard: bool,
    metadata_session: Option<Seq<char>>,
    metadata_thread: Option<Seq<char>>,
    result: CodexUpstreamSessionHeaders,
)
    requires
        session_headers_are(
            headers,
            anchor,
            standard,
            metadata_session,
            metadata_thread,
            result,
        ),
    ensures
        headers.value("conversation_id"@) is Some ==> opt_text(result.conversation_id)
            == headers.value("conversation_id"@),
        headers.value("session_id"@) is Some ==> opt_text(result.session_id) == headers.value(
            "session_id"@,
        ),
        headers.value("thread_id"@) is Some ==> opt_text(result.thread_id) == headers.value(
            "thread_id"@,
        ),
        !standard && headers.value("x-client-request-id"@) is None ==> result.client_request_id
            is None,
{
    assert(seq!["session_id"@, "session-id"@][0] == "session_id"@);
    assert(seq!["thread_id"@, "thread-id"@][0] == "thread_id"@);
}

/// Only an answer of status 400 can blame the request. One whose text holds the code of
/// refused encrypted content refuses it and blames nothing else; one whose body is neither
/// JSON nor holds that code blames nothing.
pub proof fn law_only_bad_requests_are_blamed(
    status: u16,
    parsed: Option<JsonView>,
    bytes: Seq<u8>,
)
    ensures
        status != 400 ==> !refuses_encrypted_content(status, parsed, bytes)
            && !blames_request_shape(status, parsed, bytes),
        status == 400 && valid_utf8(bytes) && contains(
            decode_utf8(bytes),
            "invalid_encrypted_content"@,
        ) ==> refuses_encrypted_content(status, parsed, bytes) && !blames_request_shape(
            status,
            parsed,
            bytes,
        ),
        status == 400 && parsed is None && !(valid_utf8(bytes) && contains(
            decode_utf8(bytes),
            "invalid_encrypted_content"@,
        )) ==> !refuses_encrypted_content(status, parsed, bytes) && !blames_request_shape(
            status,
            parsed,
            bytes,
        ),
{
}

/// A bad request that does not refuse encrypted content blames the shape of the request
/// where the code of its error says so, or its message.
pub proof fn law_what_blames_the_shape_of_a_request(
    value: JsonView,
    bytes: Seq<u8>,
    message: Seq<char>,
)
    requires
        !refuses_encrypted_content(400, Some(value), bytes),
    ensures
        string_field(error_object(value), "code"@) == Some("invalid_value"@) || string_field(
            error_object(value),
            "code"@,
        ) == Some("unsupported_value"@) || string_field(error_object(value), "code"@) == Some(
            "invalid_type"@,
        ) || string_field(error_object(value), "code"@) == Some("missing_required_parameter"@)
            || string_field(error_object(value), "code"@) == Some("unknown_parameter"@)
            || string_field(error_object(value), "code"@) == Some("unsupported_parameter"@)
            ==> blames_request_shape(400, Some(value), bytes),
        error_message(value) == Some(message) && (contains(lower(message), "invalid type"@)
            || contains(lower(message), "missing required parameter"@) || contains(
            lower(message),
            "unknown parameter"@,
        ) || contains(lower(message), "unsupported parameter"@) || (contains(
            lower(message),
            "invalid value"@,
        ) && contains(lower(message), "supported values"@))) ==> blames_request_shape(
            400,
            Some(value),
            bytes,
        ),
        string_field(error_object(value), "code"@) is None && error_message(value) is None
            ==> !blames_request_shape(400, Some(value), bytes),
{
}

/// A path is served with or without the prefix of either gateway, under the same canonical
/// path.
pub proof fn law_the_gateway_prefix_does_not_matter(path: Seq<char>)
    requires
        path == "/v1/models"@ || path == "/v1/messages"@ || path == "/v1/chat/completions"@ || path
            == "/v1/responses"@ || starts_with(path, "/v1/responses/"@),
    ensures
        codex_gateway_path(path) == Some(path),
        codex_gateway_path("/api/llm-gateway"@ + path) == Some(path),
        codex_gateway_path("/api/codex-gateway"@ + path) == Some(path),
{
    reveal_strlit("/api/llm-gateway");
    reveal_strlit("/api/codex-gateway");
    reveal_strlit("/v1/models");
    reveal_strlit("/v1/messages");
    reveal_strlit("/v1/chat/completions");
    reveal_strlit("/v1/responses");
    reveal_strlit("/v1/responses/");
    reveal_strlit("/v1/responses/compact");
    reveal_strlit("/models");
    reveal_strlit("/messages");
    reveal_strlit("/chat/completions");
    reveal_strlit("/responses");
    reveal_strlit("/responses/compact");
    let llm = "/api/llm-gateway"@;
    let codex = "/api/codex-gateway"@;
    assert((llm + path)[1] == 'a' && (codex + path)[1] == 'a');
    assert("/v1/responses/"@.len() == 14 && "/v1/responses/"@[1] == 'v');
    assert(!has_at(llm + path, "/v1/responses/"@, 0)) by {
        if has_at(llm + path, "/v1/responses/"@, 0) {
            assert((llm + path).subrange(0, 14)[1] == (llm + path)[1]);
        }
    }
    assert(!has_at(codex + path, "/v1/responses/"@, 0)) by {
        if has_at(codex + path, "/v1/responses/"@, 0) {
            assert((codex + path).subrange(0, 14)[1] == (codex + path)[1]);
        }
    }
    assert(!is_canonical_path(llm + path));
    assert(!is_canonical_path(codex + path));
    assert((llm + path).subrange(0, llm.len() as int) =~= llm);
    assert((llm + path).skip(llm.len() as int) =~= path);
    assert((codex + path).subrange(0, codex.len() as int) =~= codex);
    assert((codex + path).skip(codex.len() as int) =~= path);
    assert(!has_at(codex + path, llm, 0)) by {
        if has_at(codex + path, llm, 0) {
            assert((codex + path).subrange(0, llm.len() as int)[5] == (codex + path)[5]);
            assert(llm[5] == 'l' && codex[5] == 'c');
        }
    }
}

/// A path outside the gateway is not served.
pub proof fn law_other_paths_are_not_served(path: Seq<char>)
    requires
        !starts_with(path, "/v1/"@),
        !starts_with(path, "/api/"@),
    ensures
        codex_gateway_path(path) is None,
{
    reveal_strlit("/v1/");
    reveal_strlit("/api/");
    reveal_strlit("/api/llm-gateway");
    reveal_strlit("/api/codex-gateway");
    reveal_strlit("/v1/models");
    reveal_strlit("/v1/messages");
    reveal_strlit("/v1/chat/completions");
    reveal_strlit("/v1/responses");
    reveal_strlit("/v1/responses/");
    lemma_shorter_beginning(path, "/v1/responses/"@, "/v1/"@);
    lemma_shorter_beginning(path, "/api/llm-gateway"@, "/api/"@);
    lemma_shorter_beginning(path, "/api/codex-gateway"@, "/api/"@);
    assert("/v1/models"@.subrange(0, 4) =~= "/v1/"@);
    assert("/v1/messages"@.subrange(0, 4) =~= "/v1/"@);
    assert("/v1/chat/completions"@.subrange(0, 4) =~= "/v1/"@);
    assert("/v1/responses"@.subrange(0, 4) =~= "/v1/"@);
}

proof fn lemma_shorter_beginning(text: Seq<char>, long: Seq<char>, short: Seq<char>)
    requires
        short.len() <= long.len(),
        forall|i: int| 0 <= i < short.len() ==> short[i] == long[i],
    ensures
        starts_with(text, long) ==> starts_with(text, short),
{
    if starts_with(text, long) {
        assert forall|i: int| 0 <= i < short.len() implies text.subrange(
            0,
            short.len() as int,
        )[i] == short[i] by {
            assert(text.subrange(0, long.len() as int)[i] == long[i]);
        }
        assert(text.subrange(0, short.len() as int) =~= short);
    }
}

/// Where a request goes: behind the base as it is; a base that ends in the version does not
/// have it twice; and the upstream's own base does without it.
pub proof fn law_where_a_request_goes(base: Seq<char>, path: Seq<char>, rest: Seq<char>)
    requires
        base.len() > 0,
        base.last() != '/',
    ensures
        !contains(base, "/backend-api/codex"@) && !ends_with(base, "/v1"@) ==> upstream_url(
            base,
            path,
        ) == base + path,
        !contains(base + "/v1"@, "/backend-api/codex"@) && !ends_with(base, "/v1"@) && starts_with(
            path,
            "/v1"@,
        ) ==> upstream_url(base + "/v1"@, path) == base + path,
        contains(base, "/backend-api/codex"@) && starts_with(rest, "/"@) && !starts_with(
            rest,
            "/v1"@,
        ) ==> upstream_url(base, "/v1"@ + rest) == base + rest,
        upstream_url(base + seq!['/'], path) == upstream_url(base, path),
{
    reveal_strlit("/v1");
    reveal_strlit("/v1/");
    reveal_strlit("/");
    reveal_with_fuel(trim_end_char, 3);
    reveal_with_fuel(trim_end_text, 3);
    reveal_with_fuel(trim_start_text, 3);
    assert((base + seq!['/']).drop_last() =~= base);
    assert((base + seq!['/']).last() == '/');
    let versioned = base + "/v1"@;
    assert(versioned.last() == '1');
    assert(versioned.subrange(versioned.len() - 3, versioned.len() as int) =~= "/v1"@);
    assert(versioned.take(versioned.len() - 3) =~= base);
    let asked = "/v1"@ + rest;
    assert(asked.subrange(0, 3) =~= "/v1"@);
    assert(asked.skip(3) =~= rest);
    if starts_with(rest, "/"@) {
        assert(rest.subrange(0, 1)[0] == '/');
        assert(asked.subrange(0, 4) =~= "/v1/"@);
    }
}

/// The session of a request to the standard endpoint: what the client sent, else what its
/// metadata tells, else the anchor of the thread. Any other endpoint gets what the client
/// sent, and nothing else.
pub proof fn law_where_the_session_comes_from(
    headers: Headers,
    anchor: Option<Seq<char>>,
    standard: bool,
    metadata_session: Option<Seq<char>>,
    metadata_thread: Option<Seq<char>>,
    result: CodexUpstreamSessionHeaders,
)
    requires
        session_headers_are(
            headers,
            anchor,
            standard,
            metadata_session,
            metadata_thread,
            result,
        ),
    ensures
        ({
            let session = first_of(headers, seq!["session_id"@, "session-id"@]);
            let thread = first_of(headers, seq!["thread_id"@, "thread-id"@]);
            &&& session is Some ==> opt_text(result.session_id) == session
            &&& thread is Some ==> opt_text(result.thread_id) == thread
            &&& !standard ==> opt_text(result.session_id) == session && opt_text(result.thread_id)
                == thread && opt_text(result.conversation_id) == headers.value("conversation_id"@)
            &&& standard && session is None && metadata_session is Some ==> opt_text(
                result.session_id,
            ) == metadata_session
            &&& standard && session is None && metadata_session is None ==> opt_text(
                result.session_id,
            ) == anchor
            &&& standard && thread is None && metadata_thread is Some ==> opt_text(result.thread_id)
                == metadata_thread
            &&& standard && thread is None && metadata_thread is None && anchor is Some ==> opt_text(
                result.thread_id,
            ) == anchor
            &&& standard && thread is None && metadata_thread is None && anchor is None ==> opt_text(
                result.thread_id,
            ) == opt_text(result.session_id)
            &&& standard && headers.value("conversation_id"@) is None && anchor is Some ==> opt_text(
                result.conversation_id,
            ) == anchor
            &&& standard && headers.value("x-client-request-id"@) is None && thread is Some
                ==> opt_text(result.client_request_id) == thread
        }),
{
}

proof fn lemma_with_header(
    list: Seq<(Seq<char>, Seq<char>)>,
    name: Seq<char>,
    value: Option<Seq<char>>,
)
    ensures
        with_header(list, name, value).len() >= list.len(),
        forall|i: int| 0 <= i < list.len() ==> with_header(list, name, value)[i] == #[trigger] list[i],
        value matches Some(text) ==> with_header(list, name, value).last() == (name, text)
            && with_header(list, name, value).len() == list.len() + 1,
{
}

/// What the client sent under a name that is passed on reaches the upstream, behind the
/// headers that were there.
pub proof fn law_passed_on_headers_arrive(
    list: Seq<(Seq<char>, Seq<char>)>,
    headers: Headers,
    names: Seq<Seq<char>>,
)
    ensures
        with_passed_on(list, headers, names).len() >= list.len(),
        forall|i: int|
            0 <= i < list.len() ==> with_passed_on(list, headers, names)[i] == #[trigger] list[i],
        forall|k: int|
            0 <= k < names.len() ==> (headers.value(#[trigger] names[k]) matches Some(value)
                ==> with_passed_on(list, headers, names).contains((names[k], value))),
    decreases names.len(),
{
    if names.len() > 0 {
        let head = names.drop_last();
        let before = with_passed_on(list, headers, head);
        let all = with_passed_on(list, headers, names);
        law_passed_on_headers_arrive(list, headers, head);
        lemma_with_header(before, names.last(), headers.value(names.last()));
        assert forall|i: int| 0 <= i < list.len() implies all[i] == #[trigger] list[i] by {
            assert(all[i] == before[i]);
        }
        assert forall|k: int| 0 <= k < names.len() implies (headers.value(
            #[trigger] names[k],
        ) matches Some(value) ==> all.contains((names[k], value))) by {
            if let Some(value) = headers.value(names[k]) {
                if k < head.len() {
                    assert(head[k] == names[k]);
                    let i = choose|i: int|
                        0 <= i < before.len() && before[i] == (names[k], value);
                    assert(all[i] == before[i]);
                } else {
                    assert(all[all.len() - 1] == (names[k], value));
                }
            }
        }
    }
}

/// A request carries the credentials of its account, says whether it takes events, and names
/// who asks; the account's own id goes with it where there is one.
pub proof fn law_a_request_carries_its_credentials(
    headers: Headers,
    prepared: PreparedGatewayRequest,
    auth: CodexAuthSnapshot,
    session: CodexUpstreamSessionHeaders,
    originator: Seq<char>,
    client_version: Seq<char>,
)
    ensures
        ({
            let list = upstream_headers(
                headers,
                prepared,
                auth,
                session,
                originator,
                client_version,
            );
            &&& list[0] == ("authorization"@, "Bearer "@ + auth.access_token@)
            &&& prepared.wants_stream || prepared.force_upstream_stream ==> list[1] == (
                "accept"@,
                "text/event-stream"@,
            )
            &&& !prepared.wants_stream && !prepared.force_upstream_stream ==> list[1] == (
                "accept"@,
                "application/json"@,
            )
            &&& headers.value("user-agent"@) matches Some(agent) ==> list[2] == (
                "user-agent"@,
                agent,
            )
            &&& headers.value("originator"@) is None ==> list[3] == ("originator"@, originator)
            &&& prepared.request_body@.len() > 0 ==> list[4] == (
                "content-type"@,
                prepared.content_type@,
            )
            &&& auth.is_fedramp_account ==> list.last() == ("x-openai-fedramp"@, "true"@)
            &&& !auth.is_fedramp_account ==> (auth.account_id matches Some(id) ==> list.last() == (
                "chatgpt-account-id"@,
                id@,
            ))
        }),
{
    let first = seq![
        ("authorization"@, "Bearer "@ + auth.access_token@),
        (
            "accept"@,
            if prepared.wants_stream || prepared.force_upstream_stream {
                "text/event-stream"@
            } else {
                "application/json"@
            },
        ),
        (
            "user-agent"@,
            match headers.value("user-agent"@) {
                Some(agent) => agent,
                None => originator + "/"@ + client_version,
            },
        ),
        (
            "originator"@,
            match headers.value("originator"@) {
                Some(sent) => sent,
                None => originator,
            },
        ),
    ];
    let body = if prepared.request_body@.len() > 0 {
        Some(prepared.content_type@)
    } else {
        None
    };
    let typed = with_header(first, "content-type"@, body);
    lemma_with_header(first, "content-type"@, body);
    let conversed = with_header(typed, "conversation_id"@, opt_text(session.conversation_id));
    lemma_with_header(typed, "conversation_id"@, opt_text(session.conversation_id));
    let requested = with_header(
        conversed,
        "x-client-request-id"@,
        opt_text(session.client_request_id),
    );
    lemma_with_header(conversed, "x-client-request-id"@, opt_text(session.client_request_id));
    let turned = with_header(
        requested,
        "x-codex-turn-state"@,
        headers.value("x-codex-turn-state"@),
    );
    lemma_with_header(requested, "x-codex-turn-state"@, headers.value("x-codex-turn-state"@));
    let passed = with_passed_on(turned, headers, passed_on());
    law_passed_on_headers_arrive(turned, headers, passed_on());
    let one = with_header(passed, "session_id"@, opt_text(session.session_id));
    lemma_with_header(passed, "session_id"@, opt_text(session.session_id));
    let two = with_header(one, "session-id"@, opt_text(session.session_id));
    lemma_with_header(one, "session-id"@, opt_text(session.session_id));
    let three = with_header(two, "thread_id"@, opt_text(session.thread_id));
    lemma_with_header(two, "thread_id"@, opt_text(session.thread_id));
    let four = with_header(three, "thread-id"@, opt_text(session.thread_id));
    lemma_with_header(three, "thread-id"@, opt_text(session.thread_id));
    let five = with_header(four, "chatgpt-account-id"@, opt_text(auth.account_id));
    lemma_with_header(four, "chatgpt-account-id"@, opt_text(auth.account_id));
    let flag = if auth.is_fedramp_account {
        Some("true"@)
    } else {
        None
    };
    lemma_with_header(five, "x-openai-fedramp"@, flag);
    let list = with_header(five, "x-openai-fedramp"@, flag);
    assert forall|i: int| 0 <= i < typed.len() implies list[i] == #[trigger] typed[i] by {
        assert(conversed[i] == typed[i]);
        assert(requested[i] == conversed[i]);
        assert(turned[i] == requested[i]);
        assert(passed[i] == turned[i]);
        assert(one[i] == passed[i]);
        assert(two[i] == one[i]);
        assert(three[i] == two[i]);
        assert(four[i] == three[i]);
        assert(five[i] == four[i]);
        assert(list[i] == five[i]);
    }
    assert(typed[0] == first[0] && typed[1] == first[1] && typed[2] == first[2] && typed[3]
        == first[3]);
    assert(list[0] == typed[0] && list[1] == typed[1] && list[2] == typed[2] && list[3]
        == typed[3]);
}

/// Items that carry no encrypted reasoning stay as they are; of those that do, what is left
/// without it stays, where there is more than their type.
pub proof fn law_only_encrypted_reasoning_is_taken_out(items: Seq<JsonView>)
    ensures
        forall|i: int|
            0 <= i < items.len() && !is_encrypted_reasoning(#[trigger] items[i])
                ==> sanitized_items(items).contains(items[i]),
        forall|i: int|
            0 <= i < items.len() && is_encrypted_reasoning(#[trigger] items[i])
                && has_other_members(items[i]) ==> sanitized_items(items).contains(
                items[i].without("encrypted_content"@),
            ),
        sanitized_items(items).len() <= items.len(),
        (forall|i: int| 0 <= i < items.len() ==> !is_encrypted_reasoning(#[trigger] items[i]))
            ==> sanitized_items(items) == items,
    decreases items.len(),
{
    if items.len() > 0 {
        let head = items.drop_last();
        let before = sanitized_items(head);
        let all = sanitized_items(items);
        law_only_encrypted_reasoning_is_taken_out(head);
        assert forall|i: int| 0 <= i < head.len() implies head[i] == items[i] by {
        }
        assert forall|i: int|
            0 <= i < items.len() && !is_encrypted_reasoning(#[trigger] items[i]) implies all.contains(
            items[i],
        ) by {
            if i < head.len() {
                assert(head[i] == items[i]);
                let k = choose|k: int| 0 <= k < before.len() && before[k] == items[i];
                assert(all[k] == before[k]);
            } else {
                assert(all[all.len() - 1] == items[i]);
            }
        }
        assert forall|i: int|
            0 <= i < items.len() && is_encrypted_reasoning(#[trigger] items[i])
                && has_other_members(items[i]) implies all.contains(
            items[i].without("encrypted_content"@),
        ) by {
            let left = items[i].without("encrypted_content"@);
            if i < head.len() {
                assert(head[i] == items[i]);
                let k = choose|k: int| 0 <= k < before.len() && before[k] == left;
                assert(all[k] == before[k]);
            } else {
                assert(all[all.len() - 1] == left);
            }
        }
        if forall|i: int| 0 <= i < items.len() ==> !is_encrypted_reasoning(#[trigger] items[i]) {
            assert forall|i: int| 0 <= i < head.len() implies !is_encrypted_reasoning(
                #[trigger] head[i],
            ) by {
                assert(head[i] == items[i]);
            }
            assert(!is_encrypted_reasoning(items[items.len() - 1]));
            assert(all =~= items);
        }
    }
}

/// A request is changed exactly where its input holds encrypted reasoning, and only its
/// input is.
pub proof fn law_only_the_input_is_stripped(root: JsonView)
    ensures
        root.get("input"@) is None ==> stripped(root) is None,
        root.get("input"@) matches Some(JsonView::Array(items)) ==> (stripped(root) is Some
            <==> exists|i: int|
            0 <= i < items.len() && (#[trigger] items[i]).get_str("type"@) == Some("reasoning"@)
                && items[i].get("encrypted_content"@) is Some),
        stripped(root) matches Some(left) ==> forall|key: Seq<char>|
            key != "input"@ ==> #[trigger] left.get(key) == root.get(key),
{
    if let Some(JsonView::Array(items)) = root.get("input"@) {
        if some_encrypted(items) {
            let i = choose|i: int| 0 <= i < items.len() && is_encrypted_reasoning(#[trigger] items[i]);
            assert(items[i].get_str("type"@) == Some("reasoning"@));
        }
        if exists|i: int|
            0 <= i < items.len() && (#[trigger] items[i]).get_str("type"@) == Some("reasoning"@)
                && items[i].get("encrypted_content"@) is Some {
            let i = choose|i: int|
                0 <= i < items.len() && (#[trigger] items[i]).get_str("type"@) == Some(
                    "reasoning"@,
                ) && items[i].get("encrypted_content"@) is Some;
            assert(is_encrypted_reasoning(items[i]));
        }
    }
}

/// A version is a short word of letters, digits, dots, hyphens and underscores.
pub proof fn law_which_versions_are_taken(raw: Seq<char>, max_len: nat)
    ensures
        client_version(raw, max_len) matches Some(version) ==> version == trim(raw) && 0
            < version.len() <= max_len && forall|i: int|
            0 <= i < version.len() ==> #[trigger] version[i] != ' ' && version[i] != '/'
                && version[i] != '\n' && version[i] != ';',
        trim(raw).len() == 0 || trim(raw).len() > max_len ==> client_version(raw, max_len) is None,
{
}

} // verus!
