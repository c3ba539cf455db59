//! The catalog of Codex models.

use vstd::prelude::*;
use crate::codex_auth::{client_version, codex_user_agent, header_views,
    normalize_codex_client_version, resolve_codex_client_version, CodexAuthSnapshot};
use crate::errors::{is_success, lossy_text, status_is_success, text_of_bytes, text_reply, Reply};
use crate::headers::{header_value, Headers};
use crate::json::{parse_bytes, parsed_bytes, Json};
use crate::route_selection::is_text_reply;
use crate::text::{chars_of, concat2, first_chars, nonempty_trim, opt_str, same_text, split, split_chars,
    split_once, split_text_once, take_chars, text_contains, texts, trim_start_char, trimmed_nonempty,
    without_leading};

verus! {

// ---------------------------------------------------------------------------
// Client version
// ---------------------------------------------------------------------------

/// The version that a part of a query asks for.
pub open spec fn asked_version(part: Seq<char>, max_len: nat) -> Option<Seq<char>> {
    match split_once(part, '=') {
        Some((name, value)) => if name == "client_version"@ {
            client_version(value, max_len)
        } else {
            None
        },
        None => None,
    }
}

/// The first version that is asked for.
pub open spec fn first_asked(parts: Seq<Seq<char>>, max_len: nat) -> Option<Seq<char>>
    decreases parts.len(),
{
    if parts.len() == 0 {
        None
    } else {
        match asked_version(parts[0], max_len) {
            Some(version) => Some(version),
            None => first_asked(parts.drop_first(), max_len),
        }
    }
}

/// The version under which the catalog is fetched: the one that the query asks for, else
/// the configured one, else `fallback`.
pub fn codex_models_client_version(
    query: &str,
    default_codex_client_version: &str,
    max_len: usize,
    fallback: &str,
) -> (version: String)
    ensures
        version@ == match first_asked(split(trim_start_char(query@, '?'), '&'), max_len as nat) {
            Some(version) => version,
            None => match client_version(default_codex_client_version@, max_len as nat) {
                Some(version) => version,
                None => fallback@,
            },
        },
{
    let rest = without_leading(query, '?');
    let parts = split_chars(&chars_of(rest.as_str()), '&');
    let ghost all = texts(parts@);
    let mut i: usize = 0;
    assert(all.skip(0) =~= all);
    while i < parts.len()
        invariant
            i <= parts.len(),
            all == texts(parts@),
            all == split(trim_start_char(query@, '?'), '&'),
            first_asked(all, max_len as nat) == first_asked(all.skip(i as int), max_len as nat),
        decreases parts.len() - i,
    {
        assert(all.skip(i as int).drop_first() =~= all.skip(i + 1));
        assert(all.skip(i as int)[0] == parts@[i as int]@);
        if let Some((name, value)) = split_text_once(parts[i].as_str(), '=') {
            if same_text(name.as_str(), "client_version") {
                if let Some(version) = normalize_codex_client_version(value.as_str(), max_len) {
                    return version;
                }
            }
        }
        i += 1;
    }
    resolve_codex_client_version(Some(default_codex_client_version), max_len, fallback)
}

// ---------------------------------------------------------------------------
// Request
// ---------------------------------------------------------------------------

/// The headers of the request for the catalog.
pub open spec fn models_headers(
    headers: Headers,
    auth: CodexAuthSnapshot,
    originator: Seq<char>,
    version: Seq<char>,
) -> Seq<(Seq<char>, Seq<char>)> {
    let base = seq![
        ("authorization"@, "Bearer "@ + auth.access_token@),
        ("accept"@, "application/json"@),
        (
            "user-agent"@,
            match headers.value("user-agent"@) {
                Some(agent) => agent,
                None => originator + "/"@ + version,
            },
        ),
        (
            "originator"@,
            match headers.value("originator"@) {
                Some(name) => name,
                None => originator,
            },
        ),
    ];
    let named = match auth.account_id {
        Some(id) => base.push(("chatgpt-account-id"@, id@)),
        None => base,
    };
    if auth.is_fedramp_account {
        named.push(("x-openai-fedramp"@, "true"@))
    } else {
        named
    }
}

/// The headers of the request for the catalog. `originator` and `client_version` are what
/// this client is called by default.
pub fn send_codex_models_request(
    headers: &Headers,
    auth: &CodexAuthSnapshot,
    originator: &str,
    client_version: &str,
) -> (list: Vec<(String, String)>)
    ensures
        header_views(list@) == models_headers(*headers, *auth, originator@, client_version@),
{
    let agent = match header_value(headers, "user-agent") {
        Some(agent) => agent,
        None => codex_user_agent(originator, client_version),
    };
    let name = match header_value(headers, "originator") {
        Some(name) => name,
        None => originator.to_owned(),
    };
    let mut list: Vec<(String, String)> = Vec::new();
    list.push(("authorization".to_owned(), concat2("Bearer ", auth.access_token.as_str())));
    list.push(("accept".to_owned(), "application/json".to_owned()));
    list.push(("user-agent".to_owned(), agent));
    list.push(("originator".to_owned(), name));
    if let Some(id) = &auth.account_id {
        list.push(("chatgpt-account-id".to_owned(), id.clone()));
    }
    if auth.is_fedramp_account {
        list.push(("x-openai-fedramp".to_owned(), "true".to_owned()));
    }
    assert(header_views(list@) =~= models_headers(*headers, *auth, originator@, client_version@));
    list
}

/// What happens while the catalog is fetched.
pub enum ModelsEvent {
    CredentialsReady,
    CredentialsFailed,
    ClientFailed,
    SendFailed,
    Answered { status: u16 },
}

/// What is done next.
pub enum ModelsStep {
    Send,
    /// New credentials are fetched, and the request is sent once more.
    Refresh,
    /// The answer is read.
    Read,
    Refuse { reply: Reply },
}

/// The next step of fetching the catalog. `refreshed` says whether the credentials were
/// refreshed already.
pub fn fetch_codex_models_payload(event: ModelsEvent, refreshed: bool) -> (step: ModelsStep)
    ensures
        match event {
            ModelsEvent::CredentialsReady => step is Send,
            ModelsEvent::CredentialsFailed => step matches ModelsStep::Refuse { reply }
                && is_text_reply(reply, 502, "codex auth refresh failed"@),
            ModelsEvent::ClientFailed => step matches ModelsStep::Refuse { reply }
                && is_text_reply(reply, 502, "codex proxy configuration failed"@),
            ModelsEvent::SendFailed => step matches ModelsStep::Refuse { reply } && is_text_reply(
                reply,
                502,
                "codex models upstream request failed"@,
            ),
            ModelsEvent::Answered { status } => if (status == 401 || status == 403) && !refreshed {
                step is Refresh
            } else {
                step is Read
            },
        },
{
    match event {
        ModelsEvent::CredentialsReady => ModelsStep::Send,
        ModelsEvent::CredentialsFailed => ModelsStep::Refuse {
            reply: text_reply(502, "codex auth refresh failed"),
        },
        ModelsEvent::ClientFailed => ModelsStep::Refuse {
            reply: text_reply(502, "codex proxy configuration failed"),
        },
        ModelsEvent::SendFailed => ModelsStep::Refuse {
            reply: text_reply(502, "codex models upstream request failed"),
        },
        ModelsEvent::Answered { status } => if (status == 401 || status == 403) && !refreshed {
            ModelsStep::Refresh
        } else {
            ModelsStep::Read
        },
    }
}

// ---------------------------------------------------------------------------
// Answer
// ---------------------------------------------------------------------------

/// The beginning of a body, for an error message.
pub open spec fn body_hint(text: Seq<char>) -> Seq<char> {
    match nonempty_trim(text) {
        Some(trimmed) => first_chars(trimmed, 200),
        None => "empty body"@,
    }
}

pub fn summarize_body_hint(body: &[u8]) -> (hint: String)
    ensures
        hint@ == body_hint(lossy_text(body@)),
{
    let text = text_of_bytes(body);
    match trimmed_nonempty(text.as_str()) {
        Some(trimmed) => take_chars(trimmed.as_str(), 200),
        None => "empty body".to_owned(),
    }
}

/// Reads the answer to a request for the catalog. `status_text` is the status as it is
/// shown, `body` is nothing where it could not be read.
pub fn parse_codex_models_payload(
    status: u16,
    status_text: &str,
    content_type: &str,
    body: Option<&[u8]>,
) -> (result: Result<Json, Reply>)
    ensures
        match body {
            None => result matches Err(reply) && is_text_reply(
                reply,
                502,
                "codex models upstream response read failed"@,
            ),
            Some(body) => if !is_success(status) {
                result matches Err(reply) && is_text_reply(
                    reply,
                    502,
                    "codex models upstream returned status="@ + status_text@ + " body="@ + body_hint(
                        lossy_text(body@),
                    ),
                )
            } else if crate::text::contains(content_type@, "text/html"@) {
                result matches Err(reply) && is_text_reply(
                    reply,
                    502,
                    "codex models upstream returned html body="@ + body_hint(lossy_text(body@)),
                )
            } else {
                match parsed_bytes(body@) {
                    Some(value) => result matches Ok(json) && json@ == value,
                    None => result matches Err(reply) && is_text_reply(
                        reply,
                        502,
                        "codex models upstream returned invalid json"@,
                    ),
                }
            },
        },
{
    let body = match body {
        Some(body) => body,
        None => return Err(text_reply(502, "codex models upstream response read failed")),
    };
    if !status_is_success(status) {
        let mut message = concat2("codex models upstream returned status=", status_text);
        message.append(" body=");
        message.append(summarize_body_hint(body).as_str());
        return Err(text_reply(502, message.as_str()));
    }
    if text_contains(content_type, "text/html") {
        let message = concat2(
            "codex models upstream returned html body=",
            summarize_body_hint(body).as_str(),
        );
        return Err(text_reply(502, message.as_str()));
    }
    match parse_bytes(body) {
        Some(value) => Ok(value),
        None => Err(text_reply(502, "codex models upstream returned invalid json")),
    }
}

/// The headers of an answer with models, as a file or not.
pub open spec fn page_headers(as_file: bool, etag: Option<Seq<char>>) -> Seq<(
    Seq<char>,
    Seq<char>,
)> {
    let base = seq![
        (
            "content-type"@,
            if as_file {
                "application/json; charset=utf-8"@
            } else {
                "application/json"@
            },
        ),
        ("cache-control"@, "no-store"@),
    ];
    let named = if as_file {
        base.push(("content-disposition"@, "inline; filename=\"model_catalog.json\""@))
    } else {
        base
    };
    match etag {
        Some(etag) => named.push(("etag"@, etag)),
        None => named,
    }
}

/// The headers of an answer with the catalog. `as_file` is for a catalog that is offered as
/// a file.
pub fn codex_models_json_response(as_file: bool, etag: Option<&str>) -> (list: Vec<
    (String, String),
>)
    ensures
        header_views(list@) == page_headers(as_file, opt_str(etag)),
{
    let mut list: Vec<(String, String)> = Vec::new();
    let content_type = if as_file {
        "application/json; charset=utf-8"
    } else {
        "application/json"
    };
    list.push(("content-type".to_owned(), content_type.to_owned()));
    list.push(("cache-control".to_owned(), "no-store".to_owned()));
    if as_file {
        list.push(
            (
                "content-disposition".to_owned(),
                "inline; filename=\"model_catalog.json\"".to_owned(),
            ),
        );
    }
    if let Some(etag) = etag {
        list.push(("etag".to_owned(), etag.to_owned()));
    }
    assert(header_views(list@) =~= page_headers(as_file, opt_str(etag)));
    list
}

/// Which list of models is asked for.
#[derive(Debug, Clone, Copy, PartialEq, Eq, Structural)]
pub enum ModelsPage {
    /// The list of a key.
    Models,
    /// The catalog of the public.
    Catalog,
    /// The catalog that is shown where no account has one.
    DefaultCatalog,
}

/// How far the answer came.
pub enum ModelsBody {
    Ready(Vec<u8>),
    /// The models could not be put in order.
    NotNormalized,
    /// They could not be written.
    NotEncoded,
}

/// An answer with models, or with what went wrong.
pub struct ModelsReply {
    pub status: u16,
    pub headers: Vec<(String, String)>,
    pub body: Vec<u8>,
    pub message: &'static str,
}

pub open spec fn models_failure(page: ModelsPage, body: ModelsBody) -> Option<(u16, Seq<char>)> {
    match (page, body) {
        (_, ModelsBody::Ready(_)) => None,
        (ModelsPage::Models, _) => Some((500, "failed to encode codex models response"@)),
        (ModelsPage::Catalog, ModelsBody::NotNormalized) => Some(
            (502, "failed to normalize codex model catalog"@),
        ),
        (ModelsPage::Catalog, ModelsBody::NotEncoded) => Some(
            (500, "failed to encode codex model catalog"@),
        ),
        (ModelsPage::DefaultCatalog, _) => Some((500, "failed to build model catalog"@)),
    }
}

/// The answer to a question for models. The catalogs are sent as a file; the one that is
/// always the same has no mark of its version.
pub fn codex_models_reply(page: ModelsPage, body: ModelsBody, etag: Option<&str>) -> (reply:
    ModelsReply)
    ensures
        match models_failure(page, body) {
            Some((status, message)) => reply.status == status && reply.message@ == message
                && reply.body@.len() == 0 && reply.headers@.len() == 0,
            None => reply.status == 200 && body == ModelsBody::Ready(reply.body) && header_views(
                reply.headers@,
            ) == page_headers(
                page != ModelsPage::Models,
                if page == ModelsPage::DefaultCatalog {
                    None
                } else {
                    opt_str(etag)
                },
            ),
        },
{
    let as_file = page != ModelsPage::Models;
    let shown = if page == ModelsPage::DefaultCatalog {
        None
    } else {
        etag
    };
    let (status, message): (u16, &'static str) = match body {
        ModelsBody::Ready(body) => {
            return ModelsReply {
                status: 200,
                headers: codex_models_json_response(as_file, shown),
                body,
                message: "",
            };
        },
        ModelsBody::NotNormalized => match page {
            ModelsPage::Models => (500, "failed to encode codex models response"),
            ModelsPage::Catalog => (502, "failed to normalize codex model catalog"),
            ModelsPage::DefaultCatalog => (500, "failed to build model catalog"),
        },
        ModelsBody::NotEncoded => match page {
            ModelsPage::Models => (500, "failed to encode codex models response"),
            ModelsPage::Catalog => (500, "failed to encode codex model catalog"),
            ModelsPage::DefaultCatalog => (500, "failed to build model catalog"),
        },
    };
    ModelsReply { status, headers: Vec::new(), body: Vec::new(), message }
}

// ---------------------------------------------------------------------------
// Laws
// ---------------------------------------------------------------------------

/// The first part of a query that asks for a version that is one gives it.
pub proof fn law_the_first_version_asked_for_counts(
    parts: Seq<Seq<char>>,
    max_len: nat,
    i: int,
)
    requires
        0 <= i <= parts.len(),
        forall|k: int| 0 <= k < i ==> asked_version(#[trigger] parts[k], max_len) is None,
        i < parts.len() ==> asked_version(parts[i], max_len) is Some,
    ensures
        i < parts.len() ==> first_asked(parts, max_len) == asked_version(parts[i], max_len),
        i == parts.len() ==> first_asked(parts, max_len) is None,
    decreases parts.len(),
{
    if parts.len() > 0 && i > 0 {
        assert(asked_version(parts[0], max_len) is None);
        assert forall|k: int| 0 <= k < i - 1 implies asked_version(
            #[trigger] parts.drop_first()[k],
            max_len,
        ) is None by {
            assert(parts[k + 1] == parts.drop_first()[k]);
        }
        law_the_first_version_asked_for_counts(parts.drop_first(), max_len, i - 1);
    }
}

/// A list of models is asked for with the credentials of the account, and with its id where
/// it has one; the client's own name for itself stays.
pub proof fn law_models_are_asked_for_by_the_account(
    headers: Headers,
    auth: CodexAuthSnapshot,
    originator: Seq<char>,
    version: Seq<char>,
)
    ensures
        ({
            let list = models_headers(headers, auth, originator, version);
            &&& list[0] == ("authorization"@, "Bearer "@ + auth.access_token@)
            &&& list[1] == ("accept"@, "application/json"@)
            &&& headers.value("user-agent"@) matches Some(agent) ==> list[2] == (
                "user-agent"@,
                agent,
            )
            &&& headers.value("user-agent"@) is None ==> list[2] == (
                "user-agent"@,
                originator + "/"@ + version,
            )
            &&& headers.value("originator"@) matches Some(name) ==> list[3] == ("originator"@, name)
            &&& headers.value("originator"@) is None ==> list[3] == ("originator"@, originator)
            &&& auth.account_id matches Some(id) ==> list[4] == ("chatgpt-account-id"@, id@)
            &&& auth.is_fedramp_account ==> list.last() == ("x-openai-fedramp"@, "true"@)
            &&& auth.account_id is None && !auth.is_fedramp_account ==> list.len() == 4
        }),
{
}

/// A page of models is never cached; its tag goes with it where there is one, and a file
/// has a name.
pub proof fn law_the_headers_of_a_page_of_models(as_file: bool, etag: Option<Seq<char>>)
    ensures
        page_headers(as_file, etag)[1] == ("cache-control"@, "no-store"@),
        etag matches Some(tag) ==> page_headers(as_file, etag).last() == ("etag"@, tag),
        page_headers(as_file, etag).len() == 2 + (if as_file {
            1int
        } else {
            0
        }) + (if etag is Some {
            1int
        } else {
            0
        }),
        as_file ==> page_headers(as_file, etag)[2].0 == "content-disposition"@,
{
}

/// A page that is ready is no failure; one that could not be written is one of the server,
/// and a catalog that could not be put in order one of the upstream.
pub proof fn law_which_pages_of_models_fail(page: ModelsPage, body: ModelsBody)
    ensures
        body is Ready <==> models_failure(page, body) is None,
        body is NotEncoded ==> (models_failure(page, body) matches Some(failure) && failure.0
            == 500),
        body is NotNormalized && page is Catalog ==> (models_failure(page, body) matches Some(
            failure,
        ) && failure.0 == 502),
        body is NotNormalized && !(page is Catalog) ==> (models_failure(page, body) matches Some(
            failure,
        ) && failure.0 == 500),
{
}

/// The hint of a body is its beginning, two hundred characters at most, and never empty.
pub proof fn law_a_hint_is_never_empty(text: Seq<char>)
    ensures
        0 < body_hint(text).len() <= 200,
        0 < crate::text::trim(text).len() <= 200 ==> body_hint(text) == crate::text::trim(text),
{
    reveal_strlit("empty body");
    assert("empty body"@.len() == 10);
}

/// The list of models is asked for once more with fresh credentials where they were refused
/// for the first time; whatever else is answered is read, and what could not be sent is
/// told.
pub proof fn law_how_the_models_are_fetched(event: ModelsEvent, refreshed: bool, step: ModelsStep)
    requires
        call_ensures(fetch_codex_models_payload, (event, refreshed), step),
    ensures
        event matches ModelsEvent::Answered { status } ==> (step is Refresh <==> !refreshed && (
        status == 401 || status == 403)) && (step is Read <==> refreshed || (status != 401
            && status != 403)),
        event is CredentialsReady ==> step is Send,
        event is CredentialsFailed || event is ClientFailed || event is SendFailed ==> (
        step matches ModelsStep::Refuse { reply } && reply.status == 502),
{
}

} // verus!
