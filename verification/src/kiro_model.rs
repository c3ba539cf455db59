//! Kiro requests: model names, thinking, sessions and their accounts.

use vstd::prelude::*;
use crate::headers::{header_value, Headers};
use crate::json::Json;
use crate::text::{concat2, concat3, contains, lower, nonempty_trim, opt_text, same_text, strs,
    text_contains, trim, trimmed, trimmed_nonempty};
use crate::types::ProviderKiroRoute;

verus! {

pub struct Thinking {
    pub thinking_type: String,
    pub display: Option<String>,
    pub budget_tokens: i32,
}

pub struct OutputConfig {
    pub effort: Option<String>,
    pub format: Option<Json>,
}

pub struct SystemMessage {
    pub text: String,
}

pub struct Message {
    pub role: String,
    pub content: Json,
}

/// What the library reads of an Anthropic messages request.
pub struct MessagesRequest {
    pub model: String,
    pub messages: Vec<Message>,
    pub stream: bool,
    pub system: Option<Vec<SystemMessage>>,
    pub thinking: Option<Thinking>,
    pub output_config: Option<OutputConfig>,
}

// ---------------------------------------------------------------------------
// Model names
// ---------------------------------------------------------------------------

/// What `serde_json::from_str` reads from a text as a map from strings to strings,
/// in the order of the names, or the text of its error.
pub uninterp spec fn string_map_of_text(text: Seq<char>) -> Result<
    Seq<(Seq<char>, Seq<char>)>,
    Seq<char>,
>;

pub open spec fn pair_views(pairs: Seq<(String, String)>) -> Seq<(Seq<char>, Seq<char>)> {
    pairs.map_values(|p: (String, String)| (p.0@, p.1@))
}

pub open spec fn map_result_view(result: Result<Vec<(String, String)>, String>) -> Result<
    Seq<(Seq<char>, Seq<char>)>,
    Seq<char>,
> {
    match result {
        Ok(pairs) => Ok(pair_views(pairs@)),
        Err(message) => Err(message@),
    }
}

/// `serde_json::from_str` for a `BTreeMap<String, String>`: the map as a list of
/// pairs, or the error as text. Both are functions of the text.
#[verifier::external_body]
fn parse_string_map(text: &str) -> (result: Result<Vec<(String, String)>, String>)
    ensures
        map_result_view(result) == string_map_of_text(text@),
{
    serde_json::from_str::<std::collections::BTreeMap<String, String>>(text)
        .map(|map| map.into_iter().collect())
        .map_err(|err| err.to_string())
}

/// The target of a model name in a map.
pub open spec fn map_target(
    pairs: Seq<(Seq<char>, Seq<char>)>,
    model: Seq<char>,
) -> Option<Seq<char>>
    decreases pairs.len(),
{
    if pairs.len() == 0 {
        None
    } else if pairs[0].0 == model {
        Some(pairs[0].1)
    } else {
        map_target(pairs.drop_first(), model)
    }
}

/// The new name of a model, where the map changes it.
pub open spec fn renamed(
    pairs: Seq<(Seq<char>, Seq<char>)>,
    model: Seq<char>,
) -> Option<Seq<char>> {
    match map_target(pairs, model) {
        Some(target) => if target == model {
            None
        } else {
            Some(target)
        },
        None => None,
    }
}

pub open spec fn rename_view(change: Option<(String, String)>) -> Option<
    (Seq<char>, Seq<char>),
> {
    match change {
        Some(c) => Some((c.0@, c.1@)),
        None => None,
    }
}

pub open spec fn is_renaming(
    before: MessagesRequest,
    after: MessagesRequest,
    change: Option<(String, String)>,
    target: Option<Seq<char>>,
) -> bool {
    match target {
        Some(target) => {
            &&& rename_view(change) == Some((before.model@, target))
            &&& after == (MessagesRequest { model: after.model, ..before })
            &&& after.model@ == target
        },
        None => change is None && after == before,
    }
}

/// Renames the model of a request as the map says. The change, where there is one,
/// is returned as the old and the new name.
pub fn apply_model_map(pairs: &Vec<(String, String)>, payload: &mut MessagesRequest) -> (change:
    Option<(String, String)>)
    ensures
        is_renaming(
            *old(payload),
            *final(payload),
            change,
            renamed(pair_views(pairs@), old(payload).model@),
        ),
{
    let ghost views = pair_views(pairs@);
    let ghost model = payload.model@;
    let mut i: usize = 0;
    assert(views.skip(0) =~= views);
    while i < pairs.len()
        invariant
            i <= pairs.len(),
            views == pair_views(pairs@),
            *payload == *old(payload),
            model == payload.model@,
            map_target(views, model) == map_target(views.skip(i as int), model),
        decreases pairs.len() - i,
    {
        assert(views.skip(i as int).drop_first() =~= views.skip(i as int + 1));
        if same_text(pairs[i].0.as_str(), payload.model.as_str()) {
            let target = pairs[i].1.clone();
            if same_text(target.as_str(), payload.model.as_str()) {
                return None;
            }
            let source = payload.model.clone();
            payload.model = target.clone();
            return Some((source, target));
        }
        i += 1;
    }
    None
}

/// What is wrong with a map that stands as JSON text, if anything. A blank map and `{}`
/// are maps without names.
pub open spec fn map_error(map_json: Seq<char>) -> Option<Seq<char>> {
    if trim(map_json).len() == 0 || trim(map_json) == "{}"@ {
        None
    } else {
        match string_map_of_text(trim(map_json)) {
            Ok(_) => None,
            Err(message) => Some(message),
        }
    }
}

/// The name of a model by a map that stands as JSON text.
pub open spec fn mapped_name(map_json: Seq<char>, model: Seq<char>) -> Seq<char> {
    if trim(map_json).len() == 0 || trim(map_json) == "{}"@ {
        model
    } else {
        match string_map_of_text(trim(map_json)) {
            Ok(pairs) => match renamed(pairs, model) {
                Some(target) => target,
                None => model,
            },
            Err(_) => model,
        }
    }
}

/// Renames the model of a request by a map that stands as JSON text. A blank map or
/// `{}` renames nothing.
pub fn apply_kiro_model_mapping(model_name_map_json: &str, payload: &mut MessagesRequest) -> (result:
    Result<Option<(String, String)>, String>)
    ensures
        if trim(model_name_map_json@).len() == 0 || trim(model_name_map_json@) == "{}"@ {
            result == Ok::<Option<(String, String)>, String>(None) && *final(payload) == *old(
                payload,
            )
        } else {
            match string_map_of_text(trim(model_name_map_json@)) {
                Ok(pairs) => result matches Ok(change) && is_renaming(
                    *old(payload),
                    *final(payload),
                    change,
                    renamed(pairs, old(payload).model@),
                ),
                Err(message) => (result matches Err(text) && text@ == message) && *final(payload)
                    == *old(payload),
            }
        },
{
    let map = trimmed(model_name_map_json);
    if map.as_str().is_empty() || same_text(map.as_str(), "{}") {
        return Ok(None);
    }
    match parse_string_map(map.as_str()) {
        Ok(pairs) => Ok(apply_model_map(&pairs, payload)),
        Err(message) => Err(message),
    }
}

// ---------------------------------------------------------------------------
// Thinking
// ---------------------------------------------------------------------------

/// What `str::to_lowercase` makes of a text.
pub uninterp spec fn unicode_lower(text: Seq<char>) -> Seq<char>;

pub open spec fn all_ascii(text: Seq<char>) -> bool {
    forall|i: int| 0 <= i < text.len() ==> (#[trigger] text[i]) <= '\u{7f}'
}

/// `str::to_lowercase`: the lower case of a text by Unicode's rules. For ASCII text
/// these change the letters `A` to `Z` alone.
#[verifier::external_body]
fn to_unicode_lower(text: &str) -> (result: String)
    ensures
        result@ == unicode_lower(text@),
        all_ascii(text@) ==> result@ == lower(text@),
{
    text.to_lowercase()
}

/// A model that thinks, by its lower case name.
pub open spec fn names_thinking(model: Seq<char>) -> bool {
    contains(model, "thinking"@)
}

/// An Opus model that chooses its own amount of thinking, by its lower case name.
pub open spec fn names_adaptive_opus(model: Seq<char>) -> bool {
    contains(model, "opus"@) && (contains(model, "4-6"@) || contains(model, "4.6"@) || contains(
        model,
        "4-7"@,
    ) || contains(model, "4.7"@) || contains(model, "4-8"@) || contains(model, "4.8"@))
}

pub open spec fn effort_of(config: Option<OutputConfig>) -> Option<Seq<char>> {
    match config {
        Some(config) => opt_text(config.effort),
        None => None,
    }
}

pub open spec fn format_of(config: Option<OutputConfig>) -> Option<Json> {
    match config {
        Some(config) => config.format,
        None => None,
    }
}

/// What a request becomes when the lower case of its model name is `model`.
pub open spec fn thinking_override(
    model: Seq<char>,
    before: MessagesRequest,
    after: MessagesRequest,
) -> bool {
    if !names_thinking(model) {
        after == before
    } else {
        &&& after == (MessagesRequest {
            thinking: after.thinking,
            output_config: after.output_config,
            ..before
        })
        &&& after.thinking matches Some(thinking) && {
            &&& thinking.thinking_type@ == if names_adaptive_opus(model) {
                "adaptive"@
            } else {
                "enabled"@
            }
            &&& thinking.display is None
            &&& thinking.budget_tokens == 20_000
        }
        &&& if names_adaptive_opus(model) {
            &&& after.output_config is Some
            &&& format_of(after.output_config) == format_of(before.output_config)
            &&& effort_of(after.output_config) == match effort_of(before.output_config) {
                Some(effort) => Some(effort),
                None => Some("xhigh"@),
            }
        } else {
            after.output_config == before.output_config
        }
    }
}

/// Turns thinking on for a model whose lower case name is `model`.
pub fn override_thinking(model: &str, payload: &mut MessagesRequest)
    ensures
        thinking_override(model@, *old(payload), *final(payload)),
{
    if !text_contains(model, "thinking") {
        return;
    }
    let adaptive = text_contains(model, "opus") && (text_contains(model, "4-6") || text_contains(
        model,
        "4.6",
    ) || text_contains(model, "4-7") || text_contains(model, "4.7") || text_contains(model, "4-8")
        || text_contains(model, "4.8"));
    payload.thinking = Some(
        Thinking {
            thinking_type: if adaptive {
                "adaptive".to_owned()
            } else {
                "enabled".to_owned()
            },
            display: None,
            budget_tokens: 20_000,
        },
    );
    if adaptive {
        let config = payload.output_config.take();
        let mut config = match config {
            Some(config) => config,
            None => OutputConfig { effort: None, format: None },
        };
        if config.effort.is_none() {
            config.effort = Some("xhigh".to_owned());
        }
        payload.output_config = Some(config);
    }
}

pub fn override_kiro_thinking_from_model_name(payload: &mut MessagesRequest)
    ensures
        thinking_override(unicode_lower(old(payload).model@), *old(payload), *final(payload)),
        all_ascii(old(payload).model@) ==> thinking_override(
            lower(old(payload).model@),
            *old(payload),
            *final(payload),
        ),
{
    let model = to_unicode_lower(payload.model.as_str());
    override_thinking(model.as_str(), payload);
}

/// The listed name of a model: the newer Opus models of the family are listed with dashes
/// in place of dots. `family` is the name that the models of the family begin with.
pub open spec fn listed_model_name(family: Seq<char>, model: Seq<char>) -> Seq<char> {
    if model == family + "-opus-4.6"@ {
        family + "-opus-4-6"@
    } else if model == family + "-opus-4.7"@ {
        family + "-opus-4-7"@
    } else if model == family + "-opus-4.8"@ {
        family + "-opus-4-8"@
    } else {
        model
    }
}

pub fn normalize_kiro_kmodel_name(family: &str, model: &str) -> (result: String)
    ensures
        result@ == listed_model_name(family@, model@),
{
    if same_text(model, concat2(family, "-opus-4.6").as_str()) {
        concat2(family, "-opus-4-6")
    } else if same_text(model, concat2(family, "-opus-4.7").as_str()) {
        concat2(family, "-opus-4-7")
    } else if same_text(model, concat2(family, "-opus-4.8").as_str()) {
        concat2(family, "-opus-4-8")
    } else {
        model.to_owned()
    }
}

// ---------------------------------------------------------------------------
// Sessions
// ---------------------------------------------------------------------------

#[derive(Debug, Clone, Copy, PartialEq, Eq, Structural)]
pub enum SessionFallbackReason {
    InvalidHeaderSessionId,
    NoUsableMetadata,
}

#[derive(Debug, Clone, Copy, PartialEq, Eq, Structural)]
pub enum SessionIdSource {
    RequestHeader,
    Metadata,
    GeneratedFallback(SessionFallbackReason),
}

/// The conversation of a request, and where its id was found.
pub struct ResolvedConversationId {
    pub conversation_id: String,
    pub source: SessionIdSource,
    pub source_name: Option<String>,
    pub source_value: Option<String>,
}

/// Whether `uuid::Uuid::try_parse` accepts a text.
pub uninterp spec fn uuid_accepts(text: Seq<char>) -> bool;

/// `uuid::Uuid::try_parse`: whether the text is a UUID in one of the crate's
/// formats. The answer is a function of the text.
#[verifier::external_body]
fn is_uuid(text: &str) -> (result: bool)
    ensures
        result == uuid_accepts(text@),
{
    uuid::Uuid::try_parse(text).is_ok()
}

/// The first named header whose value is a UUID by `accepts`.
pub open spec fn session_header(
    headers: Headers,
    names: Seq<Seq<char>>,
    accepts: spec_fn(Seq<char>) -> bool,
) -> Option<(Seq<char>, Seq<char>)>
    decreases names.len(),
{
    if names.len() == 0 {
        None
    } else {
        match headers.value(names[0]) {
            Some(value) => if accepts(value) {
                Some((names[0], value))
            } else {
                session_header(headers, names.drop_first(), accepts)
            },
            None => session_header(headers, names.drop_first(), accepts),
        }
    }
}

/// The first named header that has a value.
pub open spec fn first_named(headers: Headers, names: Seq<Seq<char>>) -> Option<
    (Seq<char>, Seq<char>),
>
    decreases names.len(),
{
    if names.len() == 0 {
        None
    } else {
        match headers.value(names[0]) {
            Some(value) => Some((names[0], value)),
            None => first_named(headers, names.drop_first()),
        }
    }
}

/// The session that a request belongs to: that of the first header with a valid id;
/// else that of the metadata. Where the metadata gave none either and some header had
/// an invalid id, the first such header is named as the reason.
pub open spec fn session_resolution(
    headers: Headers,
    names: Seq<Seq<char>>,
    accepts: spec_fn(Seq<char>) -> bool,
    from_metadata: ResolvedConversationId,
    result: ResolvedConversationId,
) -> bool {
    match session_header(headers, names, accepts) {
        Some((name, value)) => {
            &&& result.conversation_id@ == value
            &&& result.source == SessionIdSource::RequestHeader
            &&& opt_text(result.source_name) == Some(name)
            &&& opt_text(result.source_value) == Some(value)
        },
        None => match first_named(headers, names) {
            Some((name, value)) => if from_metadata.source is GeneratedFallback {
                &&& result.conversation_id == from_metadata.conversation_id
                &&& result.source == SessionIdSource::GeneratedFallback(
                    SessionFallbackReason::InvalidHeaderSessionId,
                )
                &&& opt_text(result.source_name) == Some(name)
                &&& opt_text(result.source_value) == Some(value)
            } else {
                result == from_metadata
            },
            None => result == from_metadata,
        },
    }
}

pub fn resolve_kiro_request_session(
    headers: &Headers,
    header_names: &[&str],
    from_metadata: ResolvedConversationId,
) -> (result: ResolvedConversationId)
    ensures
        session_resolution(
            *headers,
            strs(header_names@),
            |value: Seq<char>| uuid_accepts(value),
            from_metadata,
            result,
        ),
{
    let ghost names = strs(header_names@);
    let ghost accepts = |value: Seq<char>| uuid_accepts(value);
    let mut invalid: Option<(String, String)> = None;
    let mut i: usize = 0;
    assert(names.skip(0) =~= names);
    while i < header_names.len()
        invariant
            i <= header_names.len(),
            names == strs(header_names@),
            accepts == (|value: Seq<char>| uuid_accepts(value)),
            session_header(*headers, names, accepts) == session_header(
                *headers,
                names.skip(i as int),
                accepts,
            ),
            match invalid {
                Some(pair) => first_named(*headers, names) == Some((pair.0@, pair.1@)),
                None => first_named(*headers, names) == first_named(
                    *headers,
                    names.skip(i as int),
                ),
            },
        decreases header_names.len() - i,
    {
        assert(names.skip(i as int).drop_first() =~= names.skip(i as int + 1));
        if let Some(value) = header_value(headers, header_names[i]) {
            if is_uuid(value.as_str()) {
                return ResolvedConversationId {
                    conversation_id: value.clone(),
                    source: SessionIdSource::RequestHeader,
                    source_name: Some(header_names[i].to_owned()),
                    source_value: Some(value),
                };
            }
            if invalid.is_none() {
                invalid = Some((header_names[i].to_owned(), value));
            }
        }
        i += 1;
    }
    match from_metadata.source {
        SessionIdSource::GeneratedFallback(_) => {
            if let Some((name, value)) = invalid {
                return ResolvedConversationId {
                    conversation_id: from_metadata.conversation_id,
                    source: SessionIdSource::GeneratedFallback(
                        SessionFallbackReason::InvalidHeaderSessionId,
                    ),
                    source_name: Some(name),
                    source_value: Some(value),
                };
            }
        },
        _ => {},
    }
    from_metadata
}

/// The session id that accounts are remembered under: none for a generated one.
pub fn kiro_affinity_session_id(resolved: &ResolvedConversationId) -> (result: Option<String>)
    ensures
        opt_text(result) == if resolved.source is GeneratedFallback {
            None
        } else {
            nonempty_trim(resolved.conversation_id@)
        },
{
    match resolved.source {
        SessionIdSource::GeneratedFallback(_) => None,
        _ => trimmed_nonempty(resolved.conversation_id.as_str()),
    }
}

/// The account that last served each session of each key.
pub struct KiroSessionAffinity {
    entries: Vec<(String, String, String)>,
}

pub closed spec fn affinity_map(entries: Seq<(String, String, String)>) -> Map<
    (Seq<char>, Seq<char>),
    Seq<char>,
>
    decreases entries.len(),
{
    if entries.len() == 0 {
        Map::empty()
    } else {
        affinity_map(entries.drop_last()).insert(
            (entries.last().0@, entries.last().1@),
            entries.last().2@,
        )
    }
}

impl KiroSessionAffinity {
    pub closed spec fn view(&self) -> Map<(Seq<char>, Seq<char>), Seq<char>> {
        affinity_map(self.entries@)
    }

    pub fn new() -> (result: Self)
        ensures
            result.view() == Map::<(Seq<char>, Seq<char>), Seq<char>>::empty(),
    {
        KiroSessionAffinity { entries: Vec::new() }
    }

    /// The earlier entries without that of a session.
    fn forget(&mut self, key_id: &str, session_id: &str)
        ensures
            final(self).view() == old(self).view().remove((key_id@, session_id@)),
    {
        let ghost pair = (key_id@, session_id@);
        let ghost all = self.entries@;
        let mut kept: Vec<(String, String, String)> = Vec::new();
        let mut i: usize = 0;
        assert(all.take(0) =~= Seq::<(String, String, String)>::empty());
        assert(affinity_map(kept@) =~= affinity_map(all.take(0)).remove(pair));
        while i < self.entries.len()
            invariant
                i <= self.entries.len(),
                pair == (key_id@, session_id@),
                all == self.entries@,
                affinity_map(kept@) == affinity_map(all.take(i as int)).remove(pair),
            decreases self.entries.len() - i,
        {
            let ghost head = all.take(i + 1);
            assert(head.drop_last() =~= all.take(i as int));
            let entry = &self.entries[i];
            if same_text(entry.0.as_str(), key_id) && same_text(entry.1.as_str(), session_id) {
                assert(affinity_map(kept@) =~= affinity_map(head).remove(pair));
            } else {
                let ghost before = kept@;
                kept.push((entry.0.clone(), entry.1.clone(), entry.2.clone()));
                assert(kept@.drop_last() =~= before);
                assert(affinity_map(kept@) =~= affinity_map(head).remove(pair));
            }
            i += 1;
        }
        assert(all.take(i as int) =~= all);
        self.entries = kept;
    }

    pub fn remember(&mut self, key_id: &str, session_id: &str, account_name: &str)
        ensures
            final(self).view() == old(self).view().insert(
                (key_id@, session_id@),
                account_name@,
            ),
    {
        self.forget(key_id, session_id);
        let ghost before = self.entries@;
        self.entries.push((key_id.to_owned(), session_id.to_owned(), account_name.to_owned()));
        assert(self.entries@.drop_last() =~= before);
        assert(self.view() =~= old(self).view().insert((key_id@, session_id@), account_name@));
    }

    pub fn lookup(&self, key_id: &str, session_id: &str) -> (account: Option<String>)
        ensures
            match account {
                Some(name) => self.view().dom().contains((key_id@, session_id@))
                    && self.view()[(key_id@, session_id@)] == name@,
                None => !self.view().dom().contains((key_id@, session_id@)),
            },
    {
        let ghost pair = (key_id@, session_id@);
        let mut n: usize = self.entries.len();
        assert(self.entries@.take(n as int) =~= self.entries@);
        while n > 0
            invariant
                n <= self.entries.len(),
                pair == (key_id@, session_id@),
                self.view() == affinity_map(self.entries@),
                self.view().dom().contains(pair) == affinity_map(
                    self.entries@.take(n as int),
                ).dom().contains(pair),
                self.view().dom().contains(pair) ==> self.view()[pair] == affinity_map(
                    self.entries@.take(n as int),
                )[pair],
            decreases n,
        {
            let ghost head = self.entries@.take(n as int);
            assert(head.drop_last() =~= self.entries@.take(n - 1));
            let entry = &self.entries[n - 1];
            if same_text(entry.0.as_str(), key_id) && same_text(entry.1.as_str(), session_id) {
                return Some(entry.2.clone());
            }
            n -= 1;
        }
        None
    }
}

/// Remembers the account that served a session; without a session there is nothing
/// to remember.
pub fn remember_kiro_session_affinity(
    affinity: &mut KiroSessionAffinity,
    key_id: &str,
    session_id: Option<&str>,
    account_name: &str,
)
    ensures
        final(affinity).view() == match session_id {
            Some(session) => old(affinity).view().insert((key_id@, session@), account_name@),
            None => old(affinity).view(),
        },
{
    if let Some(session) = session_id {
        affinity.remember(key_id, session, account_name);
    }
}

// ---------------------------------------------------------------------------
// Rates of models
// ---------------------------------------------------------------------------

/// What is wrong with the rate of a model; `usable` rates are positive and finite.
pub open spec fn kmodel_fault(model: Seq<char>, usable: bool) -> Option<Seq<char>> {
    if usable {
        None
    } else {
        Some("kiro cache kmodel `"@ + model + "` must be positive and finite"@)
    }
}

/// What is wrong with the multiplier of a family of models.
pub open spec fn multiplier_fault(family: Seq<char>, usable: bool) -> Option<Seq<char>> {
    if family != "opus"@ && family != "sonnet"@ && family != "haiku"@ {
        Some("kiro billable multiplier family `"@ + family + "` is invalid"@)
    } else if !usable {
        Some("kiro billable multiplier `"@ + family + "` must be positive and finite"@)
    } else {
        None
    }
}

/// The first fault in a list of names, each with whether its number is usable.
pub open spec fn first_fault(
    entries: Seq<(String, bool)>,
    fault: spec_fn(Seq<char>, bool) -> Option<Seq<char>>,
) -> Option<Seq<char>>
    decreases entries.len(),
{
    if entries.len() == 0 {
        None
    } else {
        match fault(entries[0].0@, entries[0].1) {
            Some(message) => Some(message),
            None => first_fault(entries.drop_first(), fault),
        }
    }
}

/// Checks the rates of the models, in the order of their names: each is told by its
/// model and by whether it is positive and finite.
pub fn parse_kiro_cache_kmodels_json(entries: &Vec<(String, bool)>) -> (result: Result<(), String>)
    ensures
        match first_fault(entries@, |model: Seq<char>, usable: bool| kmodel_fault(model, usable)) {
            Some(message) => result matches Err(text) && text@ == message,
            None => result is Ok,
        },
{
    let ghost fault = |model: Seq<char>, usable: bool| kmodel_fault(model, usable);
    let mut i: usize = 0;
    assert(entries@.skip(0) =~= entries@);
    while i < entries.len()
        invariant
            i <= entries.len(),
            fault == (|model: Seq<char>, usable: bool| kmodel_fault(model, usable)),
            first_fault(entries@, fault) == first_fault(entries@.skip(i as int), fault),
        decreases entries.len() - i,
    {
        assert(entries@.skip(i as int).drop_first() =~= entries@.skip(i + 1));
        let (model, usable) = &entries[i];
        if !*usable {
            return Err(
                concat3("kiro cache kmodel `", model.as_str(), "` must be positive and finite"),
            );
        }
        i += 1;
    }
    Ok(())
}

/// Checks the multipliers of the families, in the order of their names: each is told by
/// its family and by whether it is positive and finite.
pub fn parse_kiro_billable_model_multipliers_json(entries: &Vec<(String, bool)>) -> (result: Result<
    (),
    String,
>)
    ensures
        match first_fault(
            entries@,
            |family: Seq<char>, usable: bool| multiplier_fault(family, usable),
        ) {
            Some(message) => result matches Err(text) && text@ == message,
            None => result is Ok,
        },
{
    let ghost fault = |family: Seq<char>, usable: bool| multiplier_fault(family, usable);
    let mut i: usize = 0;
    assert(entries@.skip(0) =~= entries@);
    while i < entries.len()
        invariant
            i <= entries.len(),
            fault == (|family: Seq<char>, usable: bool| multiplier_fault(family, usable)),
            first_fault(entries@, fault) == first_fault(entries@.skip(i as int), fault),
        decreases entries.len() - i,
    {
        assert(entries@.skip(i as int).drop_first() =~= entries@.skip(i + 1));
        let (family, usable) = &entries[i];
        if !same_text(family.as_str(), "opus") && !same_text(family.as_str(), "sonnet")
            && !same_text(family.as_str(), "haiku") {
            return Err(
                concat3(
                    "kiro billable multiplier family `",
                    family.as_str(),
                    "` is invalid",
                ),
            );
        }
        if !*usable {
            return Err(
                concat3(
                    "kiro billable multiplier `",
                    family.as_str(),
                    "` must be positive and finite",
                ),
            );
        }
        i += 1;
    }
    Ok(())
}

// ---------------------------------------------------------------------------
// The prompt cache
// ---------------------------------------------------------------------------

/// How the prompt cache is simulated.
pub struct KiroCacheSimulationConfig {
    pub prefix_tree: bool,
    pub prefix_cache_max_tokens: u64,
    pub prefix_cache_entry_ttl_seconds: u64,
    pub conversation_anchor_max_entries: usize,
    pub conversation_anchor_ttl_seconds: u64,
}

/// What is to be worked out for a request.
pub struct KiroCacheContext {
    pub simulation_config: KiroCacheSimulationConfig,
    /// The account has no policy of its own.
    pub default_policy: bool,
    /// The prompt is looked up in the prefix tree.
    pub match_prefix: bool,
}

/// How the prompt cache is simulated for an account. `prefix_tree` tells whether its mode
/// is the one of the prefix tree.
pub fn build_kiro_cache_context(route: &ProviderKiroRoute, prefix_tree: bool) -> (context:
    KiroCacheContext)
    ensures
        context == (KiroCacheContext {
            simulation_config: KiroCacheSimulationConfig {
                prefix_tree,
                prefix_cache_max_tokens: route.prefix_cache_max_tokens,
                prefix_cache_entry_ttl_seconds: route.prefix_cache_entry_ttl_seconds,
                conversation_anchor_max_entries: route.conversation_anchor_max_entries as usize,
                conversation_anchor_ttl_seconds: route.conversation_anchor_ttl_seconds,
            },
            default_policy: trim(route.cache_policy_json@).len() == 0,
            match_prefix: route.cache_estimation_enabled && prefix_tree,
        }),
{
    KiroCacheContext {
        simulation_config: KiroCacheSimulationConfig {
            prefix_tree,
            prefix_cache_max_tokens: route.prefix_cache_max_tokens,
            prefix_cache_entry_ttl_seconds: route.prefix_cache_entry_ttl_seconds,
            conversation_anchor_max_entries: route.conversation_anchor_max_entries as usize,
            conversation_anchor_ttl_seconds: route.conversation_anchor_ttl_seconds,
        },
        default_policy: trimmed(route.cache_policy_json.as_str()).as_str().is_empty(),
        match_prefix: route.cache_estimation_enabled && prefix_tree,
    }
}

// ---------------------------------------------------------------------------
// Laws
// ---------------------------------------------------------------------------

/// A header that carries a valid id decides the session, whatever the metadata say.
pub proof fn law_valid_header_decides(
    headers: Headers,
    names: Seq<Seq<char>>,
    accepts: spec_fn(Seq<char>) -> bool,
    first: ResolvedConversationId,
    second: ResolvedConversationId,
    a: ResolvedConversationId,
    b: ResolvedConversationId,
)
    requires
        session_header(headers, names, accepts) is Some,
        session_resolution(headers, names, accepts, first, a),
        session_resolution(headers, names, accepts, second, b),
    ensures
        a.conversation_id@ == b.conversation_id@,
        a.source == b.source,
        accepts(a.conversation_id@),
{
    lemma_session_header_accepted(headers, names, accepts);
}

proof fn lemma_session_header_accepted(
    headers: Headers,
    names: Seq<Seq<char>>,
    accepts: spec_fn(Seq<char>) -> bool,
)
    requires
        session_header(headers, names, accepts) is Some,
    ensures
        accepts((session_header(headers, names, accepts)->0).1),
    decreases names.len(),
{
    match headers.value(names[0]) {
        Some(value) => if !accepts(value) {
            lemma_session_header_accepted(headers, names.drop_first(), accepts);
        },
        None => lemma_session_header_accepted(headers, names.drop_first(), accepts),
    }
}

/// Renaming is settled in one step where no target of the map is itself renamed.
pub proof fn law_renaming_settles(pairs: Seq<(Seq<char>, Seq<char>)>, model: Seq<char>)
    requires
        renamed(pairs, model) matches Some(target) && map_target(pairs, target) is None,
    ensures
        renamed(pairs, renamed(pairs, model)->0) is None,
{
}

/// The first entry for a model gives its name upstream; a model without one keeps its own.
pub proof fn law_the_first_mapping_counts(
    pairs: Seq<(Seq<char>, Seq<char>)>,
    model: Seq<char>,
    i: int,
)
    requires
        0 <= i <= pairs.len(),
        forall|k: int| 0 <= k < i ==> (#[trigger] pairs[k]).0 != model,
        i < pairs.len() ==> pairs[i].0 == model,
    ensures
        i < pairs.len() ==> map_target(pairs, model) == Some(pairs[i].1),
        i == pairs.len() ==> map_target(pairs, model) is None,
        i < pairs.len() && pairs[i].1 != model ==> renamed(pairs, model) == Some(pairs[i].1),
        i == pairs.len() || pairs[i].1 == model ==> renamed(pairs, model) is None,
    decreases pairs.len(),
{
    if pairs.len() > 0 && i > 0 {
        assert(pairs[0].0 != model);
        assert forall|k: int| 0 <= k < i - 1 implies (#[trigger] pairs.drop_first()[k]).0 != model by {
            assert(pairs[k + 1].0 != model);
        }
        law_the_first_mapping_counts(pairs.drop_first(), model, i - 1);
    }
}

/// A blank map renames nothing and is no fault; one that can be read is none either, and
/// renames as its entries say.
pub proof fn law_what_a_map_renames(
    map_json: Seq<char>,
    model: Seq<char>,
    pairs: Seq<(Seq<char>, Seq<char>)>,
    i: int,
)
    ensures
        trim(map_json).len() == 0 || trim(map_json) == "{}"@ ==> mapped_name(map_json, model)
            == model && map_error(map_json) is None,
        trim(map_json).len() > 0 && trim(map_json) != "{}"@ && string_map_of_text(trim(map_json))
            == Ok::<Seq<(Seq<char>, Seq<char>)>, Seq<char>>(pairs) && 0 <= i < pairs.len()
            && pairs[i].0 == model && (forall|k: int|
            0 <= k < i ==> (#[trigger] pairs[k]).0 != model) ==> mapped_name(map_json, model)
            == pairs[i].1 && map_error(map_json) is None,
        trim(map_json).len() > 0 && trim(map_json) != "{}"@ ==> (string_map_of_text(
            trim(map_json),
        ) matches Err(message) ==> map_error(map_json) == Some(message)),
{
    if 0 <= i < pairs.len() && pairs[i].0 == model && (forall|k: int|
        0 <= k < i ==> (#[trigger] pairs[k]).0 != model) {
        law_the_first_mapping_counts(pairs, model, i);
    }
}

/// A model that names thinking turns it on, with a budget of twenty thousand tokens, and
/// changes nothing of the messages; any other model leaves the request alone. The effort
/// that the client asked for stays.
pub proof fn law_a_thinking_model_turns_it_on(
    model: Seq<char>,
    before: MessagesRequest,
    after: MessagesRequest,
)
    requires
        thinking_override(model, before, after),
    ensures
        !contains(model, "thinking"@) ==> after == before,
        after.messages == before.messages,
        after.system == before.system,
        after.stream == before.stream,
        after.model == before.model,
        contains(model, "thinking"@) ==> (after.thinking matches Some(thinking)
            && thinking.budget_tokens == 20_000 && thinking.display is None),
        contains(model, "thinking"@) && !contains(model, "opus"@) ==> (
        after.thinking matches Some(thinking) && thinking.thinking_type@ == "enabled"@)
            && after.output_config == before.output_config,
        contains(model, "thinking"@) && contains(model, "opus"@) && (contains(model, "4-6"@)
            || contains(model, "4.6"@) || contains(model, "4-7"@) || contains(model, "4.7"@)
            || contains(model, "4-8"@) || contains(model, "4.8"@)) ==> (
        after.thinking matches Some(thinking) && thinking.thinking_type@ == "adaptive"@) && (
        after.output_config matches Some(config) && config.effort is Some),
        before.output_config matches Some(config) ==> (config.effort matches Some(effort) ==> (
        after.output_config matches Some(kept) && opt_text(kept.effort) == Some(effort@))),
{
}

/// The first header, in the order of the names, that holds a valid session id gives it.
pub proof fn law_the_first_valid_header_counts(
    headers: Headers,
    names: Seq<Seq<char>>,
    accepts: spec_fn(Seq<char>) -> bool,
    i: int,
)
    requires
        0 <= i <= names.len(),
        forall|k: int|
            0 <= k < i ==> (headers.value(#[trigger] names[k]) matches Some(value) ==> !accepts(
                value,
            )),
        i < names.len() ==> (headers.value(names[i]) matches Some(value) && accepts(value)),
    ensures
        i < names.len() ==> session_header(headers, names, accepts) == Some(
            (names[i], headers.value(names[i])->0),
        ),
        i == names.len() ==> session_header(headers, names, accepts) is None,
    decreases names.len(),
{
    if names.len() > 0 && i > 0 {
        assert(headers.value(names[0]) matches Some(value) ==> !accepts(value));
        assert forall|k: int| 0 <= k < i - 1 implies (headers.value(
            #[trigger] names.drop_first()[k],
        ) matches Some(value) ==> !accepts(value)) by {
            assert(names[k + 1] == names.drop_first()[k]);
        }
        law_the_first_valid_header_counts(headers, names.drop_first(), accepts, i - 1);
    }
}

/// Without a valid header the session is that of the metadata; where there is none either,
/// the id that was drawn stays, and the header that was not valid is named.
pub proof fn law_the_metadata_comes_after_the_headers(
    headers: Headers,
    names: Seq<Seq<char>>,
    accepts: spec_fn(Seq<char>) -> bool,
    from_metadata: ResolvedConversationId,
    result: ResolvedConversationId,
)
    requires
        session_resolution(headers, names, accepts, from_metadata, result),
        forall|k: int|
            0 <= k < names.len() ==> (headers.value(#[trigger] names[k]) matches Some(value)
                ==> !accepts(value)),
    ensures
        result.conversation_id@ == from_metadata.conversation_id@,
        !(from_metadata.source is GeneratedFallback) ==> result == from_metadata,
        from_metadata.source is GeneratedFallback ==> result.source is GeneratedFallback,
        (forall|k: int| 0 <= k < names.len() ==> headers.value(#[trigger] names[k]) is None)
            ==> result == from_metadata,
{
    law_the_first_valid_header_counts(headers, names, accepts, names.len() as int);
    if forall|k: int| 0 <= k < names.len() ==> headers.value(#[trigger] names[k]) is None {
        lemma_no_header_named(headers, names);
    }
}

proof fn lemma_no_header_named(headers: Headers, names: Seq<Seq<char>>)
    requires
        forall|k: int| 0 <= k < names.len() ==> headers.value(#[trigger] names[k]) is None,
    ensures
        first_named(headers, names) is None,
    decreases names.len(),
{
    if names.len() > 0 {
        assert(headers.value(names[0]) is None);
        assert forall|k: int| 0 <= k < names.len() - 1 implies headers.value(
            #[trigger] names.drop_first()[k],
        ) is None by {
            assert(names[k + 1] == names.drop_first()[k]);
        }
        lemma_no_header_named(headers, names.drop_first());
    }
}

/// The first entry with a fault is the one that is reported; where no entry has one, there
/// is none.
pub proof fn law_the_first_fault_is_reported(
    entries: Seq<(String, bool)>,
    fault: spec_fn(Seq<char>, bool) -> Option<Seq<char>>,
    i: int,
)
    requires
        0 <= i <= entries.len(),
        forall|k: int|
            0 <= k < i ==> fault((#[trigger] entries[k]).0@, entries[k].1) is None,
        i < entries.len() ==> fault(entries[i].0@, entries[i].1) is Some,
    ensures
        i < entries.len() ==> first_fault(entries, fault) == fault(entries[i].0@, entries[i].1),
        i == entries.len() ==> first_fault(entries, fault) is None,
    decreases entries.len(),
{
    if entries.len() > 0 && i > 0 {
        assert(fault(entries[0].0@, entries[0].1) is None);
        assert forall|k: int| 0 <= k < i - 1 implies fault(
            (#[trigger] entries.drop_first()[k]).0@,
            entries.drop_first()[k].1,
        ) is None by {
            assert(entries[k + 1] == entries.drop_first()[k]);
        }
        law_the_first_fault_is_reported(entries.drop_first(), fault, i - 1);
    }
}

/// A multiplier is sound exactly for the three families and a usable value; the value of a
/// model exactly where it is usable.
pub proof fn law_which_multipliers_are_sound(family: Seq<char>, usable: bool)
    ensures
        multiplier_fault(family, usable) is None <==> usable && (family == "opus"@ || family
            == "sonnet"@ || family == "haiku"@),
        kmodel_fault(family, usable) is None <==> usable,
{
}

/// A listed name is as long as the model's and differs from it by a hyphen in place of a
/// dot at most.
pub proof fn law_listed_names_write_a_hyphen_for_the_dot(family: Seq<char>, model: Seq<char>)
    ensures
        listed_model_name(family, model).len() == model.len(),
        forall|i: int|
            0 <= i < model.len() ==> (#[trigger] listed_model_name(family, model)[i]) == model[i]
                || (model[i] == '.' && listed_model_name(family, model)[i] == '-'),
        model == family + "-opus-4.6"@ || model == family + "-opus-4.7"@ || model == family
            + "-opus-4.8"@ ==> listed_model_name(family, model) != model,
{
    reveal_strlit("-opus-4.6");
    reveal_strlit("-opus-4-6");
    reveal_strlit("-opus-4.7");
    reveal_strlit("-opus-4-7");
    reveal_strlit("-opus-4.8");
    reveal_strlit("-opus-4-8");
    let n = family.len() as int;
    assert((family + "-opus-4.6"@)[n + 7] == '.' && (family + "-opus-4-6"@)[n + 7] == '-');
    assert((family + "-opus-4.7"@)[n + 7] == '.' && (family + "-opus-4-7"@)[n + 7] == '-');
    assert((family + "-opus-4.8"@)[n + 7] == '.' && (family + "-opus-4-8"@)[n + 7] == '-');
    assert((family + "-opus-4.6"@)[n + 8] == '6' && (family + "-opus-4.7"@)[n + 8] == '7');
}

/// A request keeps everything but the name of its model, and what is told of the change is
/// the name that it had and the name that it has.
pub proof fn law_only_the_model_is_renamed(
    before: MessagesRequest,
    after: MessagesRequest,
    change: Option<(String, String)>,
    target: Option<Seq<char>>,
)
    requires
        is_renaming(before, after, change, target),
    ensures
        change is Some <==> target is Some,
        change matches Some(names) ==> names.0@ == before.model@ && names.1@ == after.model@,
        change is None ==> after == before,
        target matches Some(name) ==> after.model@ == name,
        after == (MessagesRequest { model: after.model, ..before }),
{
}

} // verus!
