//! Codex answers that come as a stream of events but go back as one response.

use vstd::prelude::*;
use vstd::utf8::*;
use crate::codex_dispatch::{codex_status_from_error_json_value, error_status};
use crate::errors::{error_message, extract_error_message_from_json_value, lossy_text, text_of_bytes};
use crate::json::{array_view, empty_object, lemma_array_view, lemma_array_view_push, opt_json,
    parse_text, parsed_text, show_text, shown_text, Json, JsonView};
use crate::text::{chars_of, contains, join, joined, law_replacing_keeps_the_rest, lemma_whole_text,
    lines, lines_of, nonempty_trim, opt_str, opt_text, replace, replaced, same_text, split_on,
    split_text_on, starts_with, string_of, strip_prefix, subrange_chars, texts, trim, trimmed,
    trimmed_nonempty};

verus! {

// ---------------------------------------------------------------------------
// Events
// ---------------------------------------------------------------------------

/// An event of a stream: its name, and its data lines put together.
pub struct SsePayload {
    pub event: Option<String>,
    pub data: String,
}

/// A text without one leading space.
pub open spec fn strip_space(text: Seq<char>) -> Seq<char> {
    if text.len() > 0 && text[0] == ' ' {
        text.drop_first()
    } else {
        text
    }
}

/// What stands behind `field` on a line, without one space.
pub open spec fn field_value(line: Seq<char>, field: Seq<char>) -> Option<Seq<char>> {
    if starts_with(line, field) {
        Some(strip_space(line.skip(field.len() as int)))
    } else {
        None
    }
}

/// The name that a line gives to its event.
pub open spec fn line_event(line: Seq<char>) -> Option<Seq<char>> {
    match field_value(line, "event:"@) {
        Some(value) => nonempty_trim(value),
        None => None,
    }
}

/// The first name that the lines give.
pub open spec fn event_name(lines: Seq<Seq<char>>) -> Option<Seq<char>>
    decreases lines.len(),
{
    if lines.len() == 0 {
        None
    } else {
        match line_event(lines[0]) {
            Some(name) => Some(name),
            None => event_name(lines.drop_first()),
        }
    }
}

/// The data of the lines.
pub open spec fn event_data(lines: Seq<Seq<char>>) -> Seq<Seq<char>>
    decreases lines.len(),
{
    if lines.len() == 0 {
        Seq::empty()
    } else {
        let before = event_data(lines.drop_last());
        match field_value(lines.last(), "data:"@) {
            Some(data) => before.push(data),
            None => before,
        }
    }
}

/// An event as its name and data; nothing where it has no data.
pub open spec fn event_payload(block: Seq<char>) -> Option<(Option<Seq<char>>, Seq<char>)> {
    let data = event_data(lines(block));
    if data.len() == 0 {
        None
    } else {
        Some((event_name(lines(block)), join(data, "\n"@)))
    }
}

/// The events of the blocks of a stream.
pub open spec fn block_payloads(blocks: Seq<Seq<char>>) -> Seq<(Option<Seq<char>>, Seq<char>)>
    decreases blocks.len(),
{
    if blocks.len() == 0 {
        Seq::empty()
    } else {
        let before = block_payloads(blocks.drop_last());
        match event_payload(blocks.last()) {
            Some(payload) => before.push(payload),
            None => before,
        }
    }
}

/// The events of a stream: its blocks between empty lines.
pub open spec fn stream_payloads(text: Seq<char>) -> Seq<(Option<Seq<char>>, Seq<char>)> {
    block_payloads(split_on(replace(text, "\r\n"@, "\n"@), "\n\n"@))
}

pub open spec fn payload_views(list: Seq<SsePayload>) -> Seq<(Option<Seq<char>>, Seq<char>)> {
    list.map_values(|p: SsePayload| (opt_text(p.event), p.data@))
}

fn read_field(line: &str, field: &str) -> (value: Option<String>)
    ensures
        opt_text(value) == field_value(line@, field@),
{
    match strip_prefix(line, field) {
        Some(rest) => {
            let chars = chars_of(rest.as_str());
            if chars.len() > 0 && chars[0] == ' ' {
                let cut = subrange_chars(&chars, 1, chars.len());
                assert(cut@ =~= rest@.drop_first());
                Some(string_of(&cut))
            } else {
                Some(rest)
            }
        },
        None => None,
    }
}

fn read_payload(block: &str) -> (payload: Option<SsePayload>)
    ensures
        match payload {
            Some(p) => event_payload(block@) == Some((opt_text(p.event), p.data@)),
            None => event_payload(block@) is None,
        },
{
    let all = lines_of(block);
    let ghost views = texts(all@);
    let mut event: Option<String> = None;
    let mut i: usize = 0;
    assert(views.skip(0) =~= views);
    while i < all.len() && event.is_none()
        invariant
            i <= all.len(),
            views == texts(all@),
            match event {
                Some(name) => event_name(views) == Some(name@),
                None => event_name(views) == event_name(views.skip(i as int)),
            },
        decreases all.len() - i,
    {
        assert(views.skip(i as int).drop_first() =~= views.skip(i as int + 1));
        assert(views.skip(i as int)[0] == all@[i as int]@);
        if let Some(value) = read_field(all[i].as_str(), "event:") {
            event = trimmed_nonempty(value.as_str());
        }
        i += 1;
    }
    assert(opt_text(event) == event_name(views));
    let mut data: Vec<String> = Vec::new();
    let mut k: usize = 0;
    assert(views.take(0) =~= Seq::<Seq<char>>::empty());
    assert(texts(data@) =~= Seq::<Seq<char>>::empty());
    while k < all.len()
        invariant
            k <= all.len(),
            views == texts(all@),
            texts(data@) == event_data(views.take(k as int)),
        decreases all.len() - k,
    {
        broadcast use crate::text::lemma_texts_push;

        assert(views.take(k as int + 1).drop_last() =~= views.take(k as int));
        assert(views.take(k as int + 1).last() == all@[k as int]@);
        if let Some(value) = read_field(all[k].as_str(), "data:") {
            data.push(value);
        }
        k += 1;
    }
    assert(views.take(k as int) =~= views);
    assert(texts(data@).len() == data@.len());
    if data.len() == 0 {
        return None;
    }
    Some(SsePayload { event, data: joined(&data, "\n") })
}

/// The events of a text that is a stream.
pub fn sse_payloads_of_text(text: &str) -> (list: Vec<SsePayload>)
    ensures
        payload_views(list@) == stream_payloads(text@),
{
    proof {
        reveal_strlit("\r\n");
        reveal_strlit("\n\n");
    }
    let unified = replaced(text, "\r\n", "\n");
    let blocks = split_text_on(unified.as_str(), "\n\n");
    let ghost views = texts(blocks@);
    let mut list: Vec<SsePayload> = Vec::new();
    let mut i: usize = 0;
    assert(views.take(0) =~= Seq::<Seq<char>>::empty());
    assert(payload_views(list@) =~= Seq::<(Option<Seq<char>>, Seq<char>)>::empty());
    while i < blocks.len()
        invariant
            i <= blocks.len(),
            views == texts(blocks@),
            payload_views(list@) == block_payloads(views.take(i as int)),
        decreases blocks.len() - i,
    {
        assert(views.take(i as int + 1).drop_last() =~= views.take(i as int));
        assert(views.take(i as int + 1).last() == blocks@[i as int]@);
        if let Some(payload) = read_payload(blocks[i].as_str()) {
            let ghost before = list@;
            list.push(payload);
            assert(payload_views(list@) =~= payload_views(before).push(
                (opt_text(payload.event), payload.data@),
            ));
        }
        i += 1;
    }
    assert(views.take(i as int) =~= views);
    list
}

pub fn sse_payloads(bytes: &[u8]) -> (list: Vec<SsePayload>)
    ensures
        payload_views(list@) == stream_payloads(lossy_text(bytes@)),
        valid_utf8(bytes@) ==> payload_views(list@) == stream_payloads(decode_utf8(bytes@)),
{
    let text = text_of_bytes(bytes);
    sse_payloads_of_text(text.as_str())
}

// ---------------------------------------------------------------------------
// The response that the events add up to
// ---------------------------------------------------------------------------

/// The tokens of a response.
#[derive(Debug, Clone, Copy, PartialEq, Eq, Structural)]
pub struct UsageBreakdown {
    pub input_uncached_tokens: u64,
    pub input_cached_tokens: u64,
    pub output_tokens: u64,
    pub usage_missing: bool,
}

/// The tokens of a response that does not tell them.
pub fn missing_codex_usage() -> (usage: UsageBreakdown)
    ensures
        usage == (UsageBreakdown {
            input_uncached_tokens: 0,
            input_cached_tokens: 0,
            output_tokens: 0,
            usage_missing: true,
        }),
{
    UsageBreakdown {
        input_uncached_tokens: 0,
        input_cached_tokens: 0,
        output_tokens: 0,
        usage_missing: true,
    }
}

/// What is known of a response while its events come in.
pub struct CompletedCodexSseAccumulator {
    pub usage: Option<UsageBreakdown>,
    pub output_items: Vec<(u64, Json)>,
    pub delta_text: String,
    pub done_text: Option<String>,
    pub fallback_item_id: Option<String>,
    pub response: Option<Json>,
    pub failure: Option<Json>,
}

/// The same, as plain values. The output items stand in the order of their indexes.
pub struct ResponseSoFar {
    pub usage: Option<UsageBreakdown>,
    pub items: Seq<(u64, JsonView)>,
    pub delta: Seq<char>,
    pub done: Option<Seq<char>>,
    pub item_id: Option<Seq<char>>,
    pub response: Option<JsonView>,
    pub failure: Option<JsonView>,
}

pub open spec fn item_views(items: Seq<(u64, Json)>) -> Seq<(u64, JsonView)> {
    items.map_values(|item: (u64, Json)| (item.0, item.1@))
}

/// The items with one more under an index, which takes the place of an earlier one.
pub open spec fn insert_item(
    items: Seq<(u64, JsonView)>,
    index: u64,
    item: JsonView,
) -> Seq<(u64, JsonView)>
    decreases items.len(),
{
    if items.len() == 0 {
        seq![(index, item)]
    } else if items.last().0 < index {
        items.push((index, item))
    } else if items.last().0 == index {
        items.drop_last().push((index, item))
    } else {
        insert_item(items.drop_last(), index, item).push(items.last())
    }
}

/// The indexes ascend.
pub open spec fn ascending(items: Seq<(u64, JsonView)>) -> bool {
    forall|i: int, j: int| 0 <= i < j < items.len() ==> (#[trigger] items[i]).0 < (
    #[trigger] items[j]).0
}

impl View for CompletedCodexSseAccumulator {
    type V = ResponseSoFar;

    open spec fn view(&self) -> ResponseSoFar {
        ResponseSoFar {
            usage: self.usage,
            items: item_views(self.output_items@),
            delta: self.delta_text@,
            done: opt_text(self.done_text),
            item_id: opt_text(self.fallback_item_id),
            response: opt_json(self.response),
            failure: opt_json(self.failure),
        }
    }
}

/// The value of an event, with the event's name as its type where it has none.
pub open spec fn typed_value(value: JsonView, event: Option<Seq<char>>) -> JsonView {
    match event {
        Some(name) => if value is Object && value.get("type"@) is None {
            value.with("type"@, JsonView::Str(name))
        } else {
            value
        },
        None => value,
    }
}

/// Whether an event speaks of a failure.
pub open spec fn looks_like_failure(value: JsonView) -> bool {
    let kind = value.get_str("type"@);
    ||| kind == Some("error"@)
    ||| kind == Some("response.error"@)
    ||| kind == Some("response.failed"@)
    ||| kind == Some("response.incomplete"@)
    ||| value.get2("response"@, "error"@) is Some
    ||| value.get("error"@) is Some
}

/// The failure after an event: the first that has a message and comes before the
/// response.
pub open spec fn failure_after(so_far: ResponseSoFar, value: JsonView) -> Option<JsonView> {
    if so_far.failure is Some || so_far.response is Some {
        so_far.failure
    } else if looks_like_failure(value) && (error_message(value) matches Some(message)
        && nonempty_trim(message) is Some) {
        Some(value)
    } else {
        None
    }
}

pub open spec fn item_id_after(so_far: ResponseSoFar, value: JsonView) -> Option<Seq<char>> {
    match so_far.item_id {
        Some(id) => Some(id),
        None => value.get_str("item_id"@),
    }
}

/// What is known after an event, or why the event is invalid. `value` is the event with
/// its type, `usage` the tokens that it tells.
pub open spec fn after_event(
    so_far: ResponseSoFar,
    value: JsonView,
    usage: Option<UsageBreakdown>,
) -> Result<ResponseSoFar, Seq<char>> {
    let noted = ResponseSoFar {
        usage: match usage {
            Some(usage) => Some(usage),
            None => so_far.usage,
        },
        failure: failure_after(so_far, value),
        ..so_far
    };
    let kind = value.get_str("type"@);
    if kind == Some("response.output_item.done"@) {
        match value.get("item"@) {
            Some(item) => {
                let index = match value.get("output_index"@) {
                    Some(index) => match index.as_u64() {
                        Some(index) => index,
                        None => so_far.items.len() as u64,
                    },
                    None => so_far.items.len() as u64,
                };
                Ok(ResponseSoFar { items: insert_item(so_far.items, index, item), ..noted })
            },
            None => Ok(noted),
        }
    } else if kind == Some("response.output_text.delta"@) {
        Ok(
            ResponseSoFar {
                item_id: item_id_after(so_far, value),
                delta: match value.get_str("delta"@) {
                    Some(delta) => so_far.delta + delta,
                    None => so_far.delta,
                },
                ..noted
            },
        )
    } else if kind == Some("response.output_text.done"@) {
        Ok(
            ResponseSoFar {
                item_id: item_id_after(so_far, value),
                done: match value.get_str("text"@) {
                    Some(text) => Some(text),
                    None => so_far.done,
                },
                ..noted
            },
        )
    } else if kind == Some("response.completed"@) {
        match value.get("response"@) {
            Some(response) => Ok(ResponseSoFar { response: Some(response), ..noted }),
            None => Err("codex upstream response.completed event is missing response"@),
        }
    } else {
        Ok(noted)
    }
}

pub open spec fn nothing_yet() -> ResponseSoFar {
    ResponseSoFar {
        usage: None,
        items: Seq::empty(),
        delta: Seq::empty(),
        done: None,
        item_id: None,
        response: None,
        failure: None,
    }
}

fn is_kind(kind: Option<&str>, expected: &str) -> (result: bool)
    ensures
        result == (opt_str(kind) == Some(expected@)),
{
    match kind {
        Some(kind) => same_text(kind, expected),
        None => false,
    }
}

proof fn lemma_insert_item_split(items: Seq<(u64, JsonView)>, at: int, index: u64, item: JsonView)
    requires
        0 <= at <= items.len(),
        forall|k: int| at <= k < items.len() ==> (#[trigger] items[k]).0 > index,
        at > 0 ==> items[at - 1].0 <= index,
    ensures
        insert_item(items, index, item) == (if at > 0 && items[at - 1].0 == index {
            items.update(at - 1, (index, item))
        } else {
            items.insert(at, (index, item))
        }),
    decreases items.len(),
{
    if items.len() == 0 {
        assert(items.insert(at, (index, item)) =~= seq![(index, item)]);
    } else if at == items.len() {
        if items.last().0 < index {
            assert(items.insert(at, (index, item)) =~= items.push((index, item)));
        } else {
            assert(items.update(at - 1, (index, item)) =~= items.drop_last().push((index, item)));
        }
    } else {
        let head = items.drop_last();
        assert(items[items.len() - 1].0 > index);
        assert forall|k: int| at <= k < head.len() implies (#[trigger] head[k]).0 > index by {
            assert(head[k] == items[k]);
        }
        lemma_insert_item_split(head, at, index, item);
        if at > 0 && items[at - 1].0 == index {
            assert(head.update(at - 1, (index, item)).push(items.last()) =~= items.update(
                at - 1,
                (index, item),
            ));
        } else {
            assert(head.insert(at, (index, item)).push(items.last()) =~= items.insert(
                at,
                (index, item),
            ));
        }
    }
}

fn put_item(items: &mut Vec<(u64, Json)>, index: u64, item: Json)
    ensures
        item_views(final(items)@) == insert_item(item_views(old(items)@), index, item@),
{
    let ghost views = item_views(items@);
    let ghost value = item@;
    let mut at: usize = items.len();
    while at > 0 && items[at - 1].0 > index
        invariant
            at <= items.len(),
            views == item_views(items@),
            forall|k: int| at <= k < items.len() ==> (#[trigger] views[k]).0 > index,
        decreases at,
    {
        assert(views[at - 1].0 == items@[at - 1].0);
        at -= 1;
    }
    proof {
        if at > 0 {
            assert(views[at - 1].0 == items@[at - 1].0);
        }
        lemma_insert_item_split(views, at as int, index, value);
    }
    if at > 0 && items[at - 1].0 == index {
        items.set(at - 1, (index, item));
        assert(item_views(items@) =~= views.update(at - 1, (index, value)));
    } else {
        items.insert(at, (index, item));
        assert(item_views(items@) =~= views.insert(at as int, (index, value)));
    }
}

impl CompletedCodexSseAccumulator {
    pub fn new() -> (result: Self)
        ensures
            result@ == nothing_yet(),
    {
        let result = CompletedCodexSseAccumulator {
            usage: None,
            output_items: Vec::new(),
            delta_text: String::new(),
            done_text: None,
            fallback_item_id: None,
            response: None,
            failure: None,
        };
        assert(item_views(result.output_items@) =~= Seq::<(u64, JsonView)>::empty());
        result
    }

    fn capture_failure(&mut self, value: &Json)
        ensures
            final(self)@ == (ResponseSoFar {
                failure: failure_after(old(self)@, value@),
                ..old(self)@
            }),
    {
        if self.failure.is_some() || self.response.is_some() {
            return;
        }
        let kind = value.get_str("type");
        let failed = is_kind(kind, "error") || is_kind(kind, "response.error") || is_kind(
            kind,
            "response.failed",
        ) || is_kind(kind, "response.incomplete") || value.get2("response", "error").is_some()
            || value.get("error").is_some();
        if failed {
            if let Some(message) = extract_error_message_from_json_value(value) {
                if trimmed_nonempty(message.as_str()).is_some() {
                    self.failure = Some(value.duplicate());
                }
            }
        }
    }

    fn capture_fallback_item_id(&mut self, value: &Json)
        ensures
            final(self)@ == (ResponseSoFar {
                item_id: item_id_after(old(self)@, value@),
                ..old(self)@
            }),
    {
        if self.fallback_item_id.is_none() {
            if let Some(id) = value.get_str("item_id") {
                self.fallback_item_id = Some(id.to_owned());
            }
        }
    }

    /// Notes an event, given its text and the tokens that it tells. After an error nothing
    /// more is to be noted.
    pub fn observe_payload(
        &mut self,
        event_type: Option<&str>,
        data: &str,
        usage: Option<UsageBreakdown>,
    ) -> (result: Result<(), &'static str>)
        ensures
            match parsed_text(data@) {
                Some(value) => match after_event(
                    old(self)@,
                    typed_value(value, opt_str(event_type)),
                    usage,
                ) {
                    Ok(after) => result == Ok::<(), &'static str>(()) && final(self)@ == after,
                    Err(message) => result matches Err(text) && text@ == message,
                },
                None => result matches Err(text) && text@ == "invalid codex upstream SSE JSON"@
                    && final(self)@ == old(self)@,
            },
    {
        match parse_text(data) {
            Some(value) => self.observe_value(event_type, value, usage),
            None => Err("invalid codex upstream SSE JSON"),
        }
    }

    /// Notes an event, given its value and the tokens that it tells.
    pub fn observe_value(
        &mut self,
        event_type: Option<&str>,
        value: Json,
        usage: Option<UsageBreakdown>,
    ) -> (result: Result<(), &'static str>)
        ensures
            match after_event(old(self)@, typed_value(value@, opt_str(event_type)), usage) {
                Ok(after) => result == Ok::<(), &'static str>(()) && final(self)@ == after,
                Err(message) => result matches Err(text) && text@ == message,
            },
    {
        let ghost before = self@;
        let mut value = value;
        if let Some(name) = event_type {
            let untyped = match &value {
                Json::Object(_) => value.get("type").is_none(),
                _ => false,
            };
            if untyped {
                value = value.with("type", Json::str(name));
            }
        }
        if usage.is_some() {
            self.usage = usage;
        }
        let count: u64 = self.output_items.len() as u64;
        self.capture_failure(&value);
        let kind = value.get_str("type");
        if is_kind(kind, "response.output_item.done") {
            if let Some(item) = value.get("item") {
                let index: u64 = match value.get("output_index") {
                    Some(index) => match index.as_u64() {
                        Some(index) => index,
                        None => count,
                    },
                    None => count,
                };
                let copy = item.duplicate();
                put_item(&mut self.output_items, index, copy);
            }
        } else if is_kind(kind, "response.output_text.delta") {
            self.capture_fallback_item_id(&value);
            if let Some(delta) = value.get_str("delta") {
                self.delta_text.append(delta);
            }
        } else if is_kind(kind, "response.output_text.done") {
            self.capture_fallback_item_id(&value);
            if let Some(text) = value.get_str("text") {
                self.done_text = Some(text.to_owned());
            }
        } else if is_kind(kind, "response.completed") {
            match value.get("response") {
                Some(response) => {
                    self.response = Some(response.duplicate());
                },
                None => {
                    return Err("codex upstream response.completed event is missing response");
                },
            }
        }
        Ok(())
    }
}


// ---------------------------------------------------------------------------
// The end of the stream
// ---------------------------------------------------------------------------

pub struct CompletedCodexSse {
    pub response: Json,
    pub usage: Option<UsageBreakdown>,
}

pub struct CompletedCodexSseError {
    pub status: u16,
    pub message: String,
    pub body: Option<String>,
}

/// The text of a response that came without output items.
pub open spec fn fallback_text(so_far: ResponseSoFar) -> Option<Seq<char>> {
    match so_far.done {
        Some(text) => if text.len() > 0 {
            Some(text)
        } else if so_far.delta.len() > 0 {
            Some(so_far.delta)
        } else {
            None
        },
        None => if so_far.delta.len() > 0 {
            Some(so_far.delta)
        } else {
            None
        },
    }
}

/// A message that says `text`.
pub open spec fn output_message(id: Seq<char>, text: Seq<char>) -> JsonView {
    empty_object().with("id"@, JsonView::Str(id)).with("type"@, JsonView::Str("message"@)).with(
        "role"@,
        JsonView::Str("assistant"@),
    ).with("status"@, JsonView::Str("completed"@)).with(
        "content"@,
        JsonView::Array(
            seq![
                empty_object().with("type"@, JsonView::Str("output_text"@)).with(
                    "text"@,
                    JsonView::Str(text),
                ),
            ],
        ),
    )
}

/// The output that the events add up to.
pub open spec fn collected_output(so_far: ResponseSoFar) -> Option<JsonView> {
    if so_far.items.len() > 0 {
        Some(JsonView::Array(so_far.items.map_values(|item: (u64, JsonView)| item.1)))
    } else {
        match fallback_text(so_far) {
            Some(text) => Some(
                JsonView::Array(
                    seq![
                        output_message(
                            match so_far.item_id {
                                Some(id) => id,
                                None => "msg_0"@,
                            },
                            text,
                        ),
                    ],
                ),
            ),
            None => None,
        }
    }
}

pub open spec fn has_output(response: JsonView) -> bool {
    response.get("output"@) matches Some(JsonView::Array(items)) && items.len() > 0
}

/// The response with the output of the events where it has none of its own.
pub open spec fn patched(so_far: ResponseSoFar, response: JsonView) -> JsonView {
    if has_output(response) {
        response
    } else {
        match collected_output(so_far) {
            Some(output) => response.with("output"@, output),
            None => response,
        }
    }
}

/// The outcome of a stream: the response, or the error that the client is told.
pub open spec fn stream_end(
    so_far: ResponseSoFar,
    result: Result<CompletedCodexSse, CompletedCodexSseError>,
) -> bool {
    match so_far.response {
        Some(response) => result matches Ok(done) && done.response@ == patched(so_far, response)
            && done.usage == so_far.usage,
        None => result matches Err(error) && match so_far.failure {
            Some(failure) => is_failure_error(failure, error),
            None => error.status == 502 && error.message@
                == "codex upstream SSE stream did not include response.completed"@
                && error.body is None,
        },
    }
}

/// The error that a failure event stands for.
pub open spec fn is_failure_error(failure: JsonView, error: CompletedCodexSseError) -> bool {
    &&& error.status == match error_status(failure) {
        Some(status) => status,
        None => 502,
    }
    &&& error.message@ == match error_message(failure) {
        Some(message) => match nonempty_trim(message) {
            Some(trimmed) => trimmed,
            None => "Unknown upstream error"@,
        },
        None => "Unknown upstream error"@,
    }
    &&& opt_text(error.body) == Some(shown_text(failure))
}

fn completed_codex_sse_error_from_value(value: &Json) -> (error: CompletedCodexSseError)
    ensures
        is_failure_error(value@, error),
{
    let message = match extract_error_message_from_json_value(value) {
        Some(message) => trimmed_nonempty(message.as_str()),
        None => None,
    };
    let status: u16 = match codex_status_from_error_json_value(value) {
        Some(status) => status,
        None => 502,
    };
    CompletedCodexSseError {
        status,
        message: match message {
            Some(message) => message,
            None => "Unknown upstream error".to_owned(),
        },
        body: Some(show_text(value)),
    }
}

fn one_element(item: Json) -> (array: Json)
    ensures
        array@ == JsonView::Array(seq![item@]),
{
    let mut items: Vec<Json> = Vec::new();
    proof {
        lemma_array_view(items@);
        lemma_array_view_push(items@, item);
    }
    let ghost view = item@;
    items.push(item);
    assert(array_view(items@) =~= seq![view]);
    Json::Array(items)
}

impl CompletedCodexSseAccumulator {
    fn collected(&self) -> (output: Option<Json>)
        ensures
            opt_json(output) == collected_output(self@),
    {
        if self.output_items.len() > 0 {
            let ghost views = item_views(self.output_items@);
            let ghost all = views.map_values(|item: (u64, JsonView)| item.1);
            let mut items: Vec<Json> = Vec::new();
            let mut i: usize = 0;
            proof {
                lemma_array_view(items@);
                assert(array_view(items@) =~= all.take(0));
            }
            while i < self.output_items.len()
                invariant
                    i <= self.output_items.len(),
                    views == item_views(self.output_items@),
                    all == views.map_values(|item: (u64, JsonView)| item.1),
                    array_view(items@) == all.take(i as int),
                decreases self.output_items.len() - i,
            {
                let copy = self.output_items[i].1.duplicate();
                assert(all[i as int] == copy@);
                proof {
                    lemma_array_view_push(items@, copy);
                }
                items.push(copy);
                i += 1;
                assert(all.take(i as int) =~= all.take(i - 1).push(all[i - 1]));
            }
            assert(all.take(i as int) =~= all);
            return Some(Json::Array(items));
        }
        let text: Option<&str> = match &self.done_text {
            Some(text) => if !text.as_str().is_empty() {
                Some(text.as_str())
            } else if !self.delta_text.as_str().is_empty() {
                Some(self.delta_text.as_str())
            } else {
                None
            },
            None => if !self.delta_text.as_str().is_empty() {
                Some(self.delta_text.as_str())
            } else {
                None
            },
        };
        match text {
            Some(text) => {
                let id = match &self.fallback_item_id {
                    Some(id) => id.as_str(),
                    None => "msg_0",
                };
                let content = Json::new_object().with("type", Json::str("output_text")).with(
                    "text",
                    Json::str(text),
                );
                let message = Json::new_object().with("id", Json::str(id)).with(
                    "type",
                    Json::str("message"),
                ).with("role", Json::str("assistant")).with("status", Json::str("completed")).with(
                    "content",
                    one_element(content),
                );
                Some(one_element(message))
            },
            None => None,
        }
    }

    fn patch_empty_completed_output(&self, response: Json) -> (result: Json)
        ensures
            result@ == patched(self@, response@),
    {
        let full = match response.get("output") {
            Some(output) => match output {
                Json::Array(items) => {
                    proof {
                        lemma_array_view(items@);
                        assert(output@->Array_0 == array_view(items@));
                    }
                    items.len() > 0
                },
                _ => false,
            },
            None => false,
        };
        if full {
            return response;
        }
        match self.collected() {
            Some(output) => response.with("output", output),
            None => response,
        }
    }

    /// The outcome of the stream.
    pub fn finish(&self) -> (result: Result<CompletedCodexSse, CompletedCodexSseError>)
        ensures
            stream_end(self@, result),
    {
        match &self.response {
            Some(response) => {
                let copy = response.duplicate();
                Ok(
                    CompletedCodexSse {
                        response: self.patch_empty_completed_output(copy),
                        usage: self.usage,
                    },
                )
            },
            None => match &self.failure {
                Some(failure) => Err(completed_codex_sse_error_from_value(failure)),
                None => Err(
                    CompletedCodexSseError {
                        status: 502,
                        message: "codex upstream SSE stream did not include response.completed"
                            .to_owned(),
                        body: None,
                    },
                ),
            },
        }
    }
}

/// What is known after one event of a stream.
pub open spec fn stream_step(
    so_far: ResponseSoFar,
    event: (Option<Seq<char>>, Seq<char>),
    usage: Option<UsageBreakdown>,
) -> Result<ResponseSoFar, Seq<char>> {
    if trim(event.1) == "[DONE]"@ {
        Ok(so_far)
    } else {
        match parsed_text(event.1) {
            Some(value) => after_event(so_far, typed_value(value, event.0), usage),
            None => Err("invalid codex upstream SSE JSON"@),
        }
    }
}

pub open spec fn usage_of(usages: Seq<Option<UsageBreakdown>>, i: int) -> Option<UsageBreakdown> {
    if 0 <= i < usages.len() {
        usages[i]
    } else {
        None
    }
}

/// What is known after the first `n` events of a stream; the first invalid one ends it.
pub open spec fn after_events(
    events: Seq<(Option<Seq<char>>, Seq<char>)>,
    usages: Seq<Option<UsageBreakdown>>,
    n: nat,
) -> Result<ResponseSoFar, Seq<char>>
    decreases n,
{
    if n == 0 {
        Ok(nothing_yet())
    } else {
        match after_events(events, usages, (n - 1) as nat) {
            Ok(so_far) => stream_step(so_far, events[n - 1], usage_of(usages, n - 1)),
            Err(message) => Err(message),
        }
    }
}

proof fn lemma_error_stays(
    events: Seq<(Option<Seq<char>>, Seq<char>)>,
    usages: Seq<Option<UsageBreakdown>>,
    n: nat,
    m: nat,
)
    requires
        n <= m,
        after_events(events, usages, n) is Err,
    ensures
        after_events(events, usages, m) == after_events(events, usages, n),
    decreases m,
{
    if n < m {
        lemma_error_stays(events, usages, n, (m - 1) as nat);
    }
}

/// The outcome of a stream, given its events.
pub open spec fn events_end(
    events: Seq<(Option<Seq<char>>, Seq<char>)>,
    usages: Seq<Option<UsageBreakdown>>,
    result: Result<CompletedCodexSse, CompletedCodexSseError>,
) -> bool {
    match after_events(events, usages, events.len()) {
        Ok(so_far) => stream_end(so_far, result),
        Err(message) => result matches Err(error) && error.status == 502 && error.message@ == message
            && error.body is None,
    }
}

pub fn completed_response_from_payloads(
    payloads: &Vec<SsePayload>,
    usages: &Vec<Option<UsageBreakdown>>,
) -> (result: Result<CompletedCodexSse, CompletedCodexSseError>)
    ensures
        events_end(payload_views(payloads@), usages@, result),
{
    let ghost events = payload_views(payloads@);
    let mut accumulator = CompletedCodexSseAccumulator::new();
    let mut i: usize = 0;
    while i < payloads.len()
        invariant
            i <= payloads.len(),
            events == payload_views(payloads@),
            after_events(events, usages@, i as nat) == Ok::<ResponseSoFar, Seq<char>>(
                accumulator@,
            ),
        decreases payloads.len() - i,
    {
        let payload = &payloads[i];
        assert(events[i as int] == (opt_text(payload.event), payload.data@));
        let usage: Option<UsageBreakdown> = if i < usages.len() {
            usages[i]
        } else {
            None
        };
        let ghost next = after_events(events, usages@, (i + 1) as nat);
        assert(next == stream_step(accumulator@, events[i as int], usage));
        if !same_text(trimmed(payload.data.as_str()).as_str(), "[DONE]") {
            let event: Option<&str> = match &payload.event {
                Some(name) => Some(name.as_str()),
                None => None,
            };
            match accumulator.observe_payload(event, payload.data.as_str(), usage) {
                Ok(_) => {},
                Err(message) => {
                    proof {
                        lemma_error_stays(events, usages@, (i + 1) as nat, events.len());
                    }
                    return Err(
                        CompletedCodexSseError {
                            status: 502,
                            message: message.to_owned(),
                            body: None,
                        },
                    );
                },
            }
        }
        i += 1;
    }
    accumulator.finish()
}

/// The response that a stream adds up to; bytes that are valid UTF-8 are read as they are.
/// `usages` are the tokens that each of its events
/// tells; events beyond the list tell none.
pub fn completed_response_from_sse_bytes(bytes: &[u8], usages: &Vec<Option<UsageBreakdown>>) -> (result:
    Result<CompletedCodexSse, CompletedCodexSseError>)
    ensures
        events_end(stream_payloads(lossy_text(bytes@)), usages@, result),
        valid_utf8(bytes@) ==> events_end(stream_payloads(decode_utf8(bytes@)), usages@, result),
{
    let payloads = sse_payloads(bytes);
    completed_response_from_payloads(&payloads, usages)
}

// ---------------------------------------------------------------------------
// Laws
// ---------------------------------------------------------------------------

/// The first failure is the one that is reported: later events do not change it.
pub proof fn law_first_failure_stays(
    so_far: ResponseSoFar,
    value: JsonView,
    usage: Option<UsageBreakdown>,
)
    requires
        so_far.failure is Some,
    ensures
        after_event(so_far, value, usage) matches Ok(after) ==> after.failure == so_far.failure,
{
}

/// Once the response is complete no failure is noted any more.
pub proof fn law_no_failure_after_the_response(
    so_far: ResponseSoFar,
    value: JsonView,
    usage: Option<UsageBreakdown>,
)
    requires
        so_far.response is Some,
    ensures
        after_event(so_far, value, usage) matches Ok(after) ==> after.failure == so_far.failure
            && after.response is Some,
{
}

/// The output items stay in the order of their indexes.
pub proof fn law_items_stay_in_order(items: Seq<(u64, JsonView)>, index: u64, item: JsonView)
    requires
        ascending(items),
    ensures
        ascending(insert_item(items, index, item)),
        forall|k: int|
            0 <= k < insert_item(items, index, item).len() ==> {
                let entry = #[trigger] insert_item(items, index, item)[k];
                entry.0 <= index || exists|j: int| 0 <= j < items.len() && (#[trigger] items[j]).0
                    == entry.0
            },
    decreases items.len(),
{
    let all = insert_item(items, index, item);
    if items.len() > 0 && items.last().0 > index {
        let head = items.drop_last();
        assert forall|i: int, j: int| 0 <= i < j < head.len() implies (#[trigger] head[i]).0 < (
        #[trigger] head[j]).0 by {
            assert(head[i] == items[i] && head[j] == items[j]);
        }
        law_items_stay_in_order(head, index, item);
        let before = insert_item(head, index, item);
        assert forall|i: int, j: int| 0 <= i < j < all.len() implies (#[trigger] all[i]).0 < (
        #[trigger] all[j]).0 by {
            if j == all.len() - 1 {
                assert(all[i] == before[i]);
                if before[i].0 > index {
                    let k = choose|k: int|
                        0 <= k < head.len() && (#[trigger] head[k]).0 == before[i].0;
                    assert(items[k] == head[k]);
                    assert(items[items.len() - 1].0 > items[k].0);
                }
            } else {
                assert(all[i] == before[i] && all[j] == before[j]);
            }
        }
        assert forall|k: int| 0 <= k < all.len() implies (#[trigger] all[k]).0 <= index
            || exists|j: int| 0 <= j < items.len() && (#[trigger] items[j]).0 == all[k].0 by {
            if k < before.len() {
                assert(all[k] == before[k]);
                if before[k].0 > index {
                    let j = choose|j: int|
                        0 <= j < head.len() && (#[trigger] head[j]).0 == before[k].0;
                    assert(items[j].0 == all[k].0);
                }
            } else {
                assert(items[items.len() - 1].0 == all[k].0);
            }
        }
    } else if items.len() > 0 {
        assert forall|i: int, j: int| 0 <= i < j < all.len() implies (#[trigger] all[i]).0 < (
        #[trigger] all[j]).0 by {
            if j < items.len() {
                assert(items[i].0 < items[j].0);
            } else {
                assert(all[i] == items[i]);
                assert(items[i].0 <= items.last().0);
            }
        }
        assert forall|k: int| 0 <= k < all.len() implies (#[trigger] all[k]).0 <= index
            || exists|j: int| 0 <= j < items.len() && (#[trigger] items[j]).0 == all[k].0 by {
            if k < items.len() {
                assert(items[k].0 == all[k].0);
            }
        }
    }
}

/// A response that brings its own output is given back as it is.
pub proof fn law_own_output_is_kept(so_far: ResponseSoFar, response: JsonView)
    requires
        has_output(response),
    ensures
        patched(so_far, response) == response,
{
}

/// The value that an event of a stream tells, with its type; none where the event ends the
/// stream or is no JSON.
pub open spec fn told_value(event: (Option<Seq<char>>, Seq<char>)) -> Option<JsonView> {
    if trim(event.1) == "[DONE]"@ {
        None
    } else {
        match parsed_text(event.1) {
            Some(value) => Some(typed_value(value, event.0)),
            None => None,
        }
    }
}

/// `piece` is the piece of text that an event brings: the one of a delta, nothing for any
/// other event.
pub open spec fn brings(event: (Option<Seq<char>>, Seq<char>), piece: Seq<char>) -> bool {
    match told_value(event) {
        Some(value) => if value.get_str("type"@) == Some("response.output_text.delta"@)
            && value.get_str("delta"@) is Some {
            value.get_str("delta"@) == Some(piece)
        } else {
            piece == Seq::<char>::empty()
        },
        None => piece == Seq::<char>::empty(),
    }
}

/// An event that brings no output item, no finished text, and no response with an output of
/// its own.
pub open spec fn brings_no_other_text(event: (Option<Seq<char>>, Seq<char>)) -> bool {
    told_value(event) matches Some(value) ==> {
        let kind = value.get_str("type"@);
        &&& kind == Some("response.output_item.done"@) ==> value.get("item"@) is None
        &&& kind == Some("response.output_text.done"@) ==> value.get_str("text"@) is None
        &&& kind == Some("response.completed"@) ==> (value.get2("response"@, "output"@) matches Some(
            JsonView::Array(output),
        ) ==> output.len() == 0)
    }
}

proof fn lemma_kinds_differ()
    ensures
        "response.output_text.delta"@ != "response.output_item.done"@,
        "response.output_text.delta"@ != "response.output_text.done"@,
        "response.output_text.delta"@ != "response.completed"@,
        "response.output_text.done"@ != "response.output_item.done"@,
        "response.completed"@ != "response.output_item.done"@,
        "response.completed"@ != "response.output_text.done"@,
{
    reveal_strlit("response.output_text.delta");
    reveal_strlit("response.output_item.done");
    reveal_strlit("response.output_text.done");
    reveal_strlit("response.completed");
    assert("response.output_text.done"@[16] == 't' && "response.output_item.done"@[16] == 'i');
    assert("response.output_text.delta"@.len() == 26);
    assert("response.output_item.done"@.len() == 25);
    assert("response.completed"@.len() == 18);
}

proof fn lemma_flatten_push(pieces: Seq<Seq<char>>, n: int)
    requires
        0 <= n < pieces.len(),
    ensures
        pieces.take(n + 1).flatten() == pieces.take(n).flatten() + pieces[n],
{
    assert(pieces.take(n + 1) =~= pieces.take(n).push(pieces[n]));
    pieces.take(n).lemma_flatten_push(pieces[n]);
}

proof fn lemma_deltas_so_far(
    events: Seq<(Option<Seq<char>>, Seq<char>)>,
    usages: Seq<Option<UsageBreakdown>>,
    pieces: Seq<Seq<char>>,
    n: nat,
)
    requires
        n <= events.len(),
        pieces.len() == events.len(),
        forall|i: int| 0 <= i < events.len() ==> #[trigger] brings(events[i], pieces[i]),
        forall|i: int| 0 <= i < events.len() ==> brings_no_other_text(#[trigger] events[i]),
        after_events(events, usages, n) is Ok,
    ensures
        after_events(events, usages, n) matches Ok(so_far) && {
            &&& so_far.delta == pieces.take(n as int).flatten()
            &&& so_far.items.len() == 0
            &&& so_far.done is None
            &&& so_far.response matches Some(response) ==> (response.get("output"@) matches Some(
                JsonView::Array(output),
            ) ==> output.len() == 0)
        },
    decreases n,
{
    if n == 0 {
        assert(pieces.take(0) =~= Seq::<Seq<char>>::empty());
    } else {
        let before = (n - 1) as nat;
        assert(after_events(events, usages, before) is Ok);
        lemma_deltas_so_far(events, usages, pieces, before);
        lemma_flatten_push(pieces, before as int);
        lemma_kinds_differ();
        assert(brings(events[n - 1], pieces[n - 1]));
        assert(brings_no_other_text(events[n - 1]));
        let so_far = after_events(events, usages, before)->Ok_0;
        assert(so_far.delta + Seq::<char>::empty() =~= so_far.delta);
    }
}

/// The text of the message that is collected from a stream without output items and without
/// a finished text is the concatenation of all its deltas, in the order in which they came.
pub proof fn law_message_joins_all_deltas(
    events: Seq<(Option<Seq<char>>, Seq<char>)>,
    usages: Seq<Option<UsageBreakdown>>,
    pieces: Seq<Seq<char>>,
    result: Result<CompletedCodexSse, CompletedCodexSseError>,
)
    requires
        events_end(events, usages, result),
        result is Ok,
        pieces.len() == events.len(),
        forall|i: int| 0 <= i < events.len() ==> #[trigger] brings(events[i], pieces[i]),
        forall|i: int| 0 <= i < events.len() ==> brings_no_other_text(#[trigger] events[i]),
        pieces.flatten().len() > 0,
    ensures
        result matches Ok(done) && (done.response@ is Object ==> {
            &&& done.response@.get("output"@) matches Some(JsonView::Array(output))
            &&& output.len() == 1
            &&& output[0].get_str("type"@) == Some("message"@)
            &&& output[0].get_str("role"@) == Some("assistant"@)
            &&& output[0].get("content"@) matches Some(JsonView::Array(parts))
            &&& parts.len() == 1
            &&& parts[0].get_str("type"@) == Some("output_text"@)
            &&& parts[0].get_str("text"@) == Some(pieces.flatten())
        }),
{
    lemma_deltas_so_far(events, usages, pieces, events.len());
    assert(pieces.take(events.len() as int) =~= pieces);
    lemma_message_fields();
}

proof fn lemma_message_fields()
    ensures
        forall|id: Seq<char>, text: Seq<char>|
            {
                let message = #[trigger] output_message(id, text);
                &&& message.get_str("id"@) == Some(id)
                &&& message.get_str("type"@) == Some("message"@)
                &&& message.get_str("role"@) == Some("assistant"@)
                &&& message.get_str("status"@) == Some("completed"@)
                &&& message.get("content"@) matches Some(JsonView::Array(parts)) && parts.len() == 1
                    && parts[0].get_str("type"@) == Some("output_text"@) && parts[0].get_str(
                    "text"@,
                ) == Some(text)
            },
{
    reveal_strlit("id");
    reveal_strlit("type");
    reveal_strlit("role");
    reveal_strlit("status");
    reveal_strlit("content");
    reveal_strlit("text");
    assert("id"@.len() == 2 && "status"@.len() == 6 && "content"@.len() == 7);
    assert("type"@.len() == 4 && "role"@.len() == 4 && "text"@.len() == 4);
    assert("type"@[1] == 'y' && "role"@[1] == 'o' && "text"@[1] == 'e');
    assert forall|id: Seq<char>, text: Seq<char>|
        {
            let message = #[trigger] output_message(id, text);
            &&& message.get_str("id"@) == Some(id)
            &&& message.get_str("type"@) == Some("message"@)
            &&& message.get_str("role"@) == Some("assistant"@)
            &&& message.get_str("status"@) == Some("completed"@)
            &&& message.get("content"@) matches Some(JsonView::Array(parts)) && parts.len() == 1
                && parts[0].get_str("type"@) == Some("output_text"@) && parts[0].get_str("text"@)
                == Some(text)
        } by {
        let message = output_message(id, text);
        assert(message.get_str("status"@) == Some("completed"@));
        assert(message.get_str("role"@) == Some("assistant"@));
        assert(message.get_str("type"@) == Some("message"@));
        assert(message.get_str("id"@) == Some(id));
        let part = empty_object().with("type"@, JsonView::Str("output_text"@)).with(
            "text"@,
            JsonView::Str(text),
        );
        assert(part.get_str("text"@) == Some(text));
        assert(part.get_str("type"@) == Some("output_text"@));
        assert(message.get("content"@) == Some(JsonView::Array(seq![part])));
        assert(seq![part][0] == part);
    }
}

/// A delta adds its piece behind the text so far and changes neither the items, nor the
/// finished text, nor the response.
pub proof fn law_a_delta_extends_the_text(
    so_far: ResponseSoFar,
    value: JsonView,
    usage: Option<UsageBreakdown>,
    piece: Seq<char>,
)
    requires
        value.get_str("type"@) == Some("response.output_text.delta"@),
        value.get_str("delta"@) == Some(piece),
    ensures
        after_event(so_far, value, usage) matches Ok(after) && {
            &&& after.delta == so_far.delta + piece
            &&& after.items == so_far.items
            &&& after.done == so_far.done
            &&& after.response == so_far.response
        },
{
    lemma_kinds_differ();
}

/// A finished text takes the place of an earlier one and leaves the deltas alone.
pub proof fn law_the_last_finished_text_counts(
    so_far: ResponseSoFar,
    value: JsonView,
    usage: Option<UsageBreakdown>,
    text: Seq<char>,
)
    requires
        value.get_str("type"@) == Some("response.output_text.done"@),
        value.get_str("text"@) == Some(text),
    ensures
        after_event(so_far, value, usage) matches Ok(after) && {
            &&& after.done == Some(text)
            &&& after.delta == so_far.delta
            &&& after.items == so_far.items
            &&& after.response == so_far.response
        },
{
    lemma_kinds_differ();
}

/// The tokens that were told last count, and an event that tells none leaves them alone; the
/// first item id stays.
pub proof fn law_usage_and_item_id_so_far(
    so_far: ResponseSoFar,
    value: JsonView,
    usage: Option<UsageBreakdown>,
)
    ensures
        after_event(so_far, value, usage) matches Ok(after) ==> {
            &&& usage is Some ==> after.usage == usage
            &&& usage is None ==> after.usage == so_far.usage
            &&& so_far.item_id is Some ==> after.item_id == so_far.item_id
            &&& after.item_id is Some && so_far.item_id is None ==> after.item_id
                == value.get_str("item_id"@)
        },
        so_far.item_id is None && (value.get_str("type"@) == Some("response.output_text.delta"@)
            || value.get_str("type"@) == Some("response.output_text.done"@)) ==> (after_event(
            so_far,
            value,
            usage,
        ) matches Ok(after) && after.item_id == value.get_str("item_id"@)),
{
    lemma_kinds_differ();
}

/// A completed response takes the place of an earlier one; a completion without a response
/// is an error.
pub proof fn law_a_completion_brings_the_response(
    so_far: ResponseSoFar,
    value: JsonView,
    usage: Option<UsageBreakdown>,
)
    requires
        value.get_str("type"@) == Some("response.completed"@),
    ensures
        value.get("response"@) is None ==> after_event(so_far, value, usage) is Err,
        value.get("response"@) is Some ==> (after_event(so_far, value, usage) matches Ok(after)
            && after.response == value.get("response"@) && after.delta == so_far.delta && after.items
            == so_far.items && after.done == so_far.done),
{
    lemma_kinds_differ();
}

/// A finished output item stands under its index afterwards, and every item under another
/// index is still there.
pub proof fn law_an_item_stands_under_its_index(
    items: Seq<(u64, JsonView)>,
    index: u64,
    item: JsonView,
)
    requires
        ascending(items),
    ensures
        insert_item(items, index, item).contains((index, item)),
        forall|k: int|
            0 <= k < items.len() && (#[trigger] items[k]).0 != index ==> insert_item(
                items,
                index,
                item,
            ).contains(items[k]),
        forall|k: int|
            0 <= k < insert_item(items, index, item).len() ==> {
                let entry = #[trigger] insert_item(items, index, item)[k];
                entry == (index, item) || (entry.0 != index && items.contains(entry))
            },
    decreases items.len(),
{
    let all = insert_item(items, index, item);
    if items.len() == 0 {
        assert(all[0] == (index, item));
    } else if items.last().0 < index {
        assert(all[items.len() as int] == (index, item));
        assert forall|k: int| 0 <= k < items.len() implies all.contains(#[trigger] items[k]) by {
            assert(all[k] == items[k]);
        }
        assert forall|k: int| 0 <= k < all.len() implies {
            let entry = #[trigger] all[k];
            entry == (index, item) || (entry.0 != index && items.contains(entry))
        } by {
            if k < items.len() {
                assert(all[k] == items[k]);
                assert(items[k].0 <= items[items.len() - 1].0);
            }
        }
    } else if items.last().0 == index {
        let last = items.len() - 1;
        assert(all[last] == (index, item));
        assert forall|k: int| 0 <= k < items.len() && (#[trigger] items[k]).0 != index implies
            all.contains(items[k]) by {
            assert(all[k] == items[k]);
        }
        assert forall|k: int| 0 <= k < all.len() implies {
            let entry = #[trigger] all[k];
            entry == (index, item) || (entry.0 != index && items.contains(entry))
        } by {
            if k < last {
                assert(all[k] == items[k]);
                assert(items[k].0 < items[last].0);
            }
        }
    } else {
        let head = items.drop_last();
        let before = insert_item(head, index, item);
        assert forall|i: int, j: int| 0 <= i < j < head.len() implies (#[trigger] head[i]).0 < (
        #[trigger] head[j]).0 by {
            assert(head[i] == items[i] && head[j] == items[j]);
        }
        law_an_item_stands_under_its_index(head, index, item);
        let at = choose|at: int| 0 <= at < before.len() && before[at] == (index, item);
        assert(all[at] == (index, item));
        assert forall|k: int| 0 <= k < items.len() && (#[trigger] items[k]).0 != index implies
            all.contains(items[k]) by {
            if k < head.len() {
                assert(head[k] == items[k]);
                let j = choose|j: int| 0 <= j < before.len() && before[j] == items[k];
                assert(all[j] == items[k]);
            } else {
                assert(all[before.len() as int] == items[k]);
            }
        }
        assert forall|k: int| 0 <= k < all.len() implies {
            let entry = #[trigger] all[k];
            entry == (index, item) || (entry.0 != index && items.contains(entry))
        } by {
            if k < before.len() {
                assert(all[k] == before[k]);
                if all[k] != (index, item) {
                    let j = choose|j: int| 0 <= j < head.len() && head[j] == all[k];
                    assert(items[j] == all[k]);
                }
            } else {
                assert(items[items.len() - 1] == all[k]);
            }
        }
    }
}

/// An event that ends an output item puts it among the items: under the index that it
/// names, or behind the ones so far where it names none.
pub proof fn law_a_finished_item_is_kept(
    so_far: ResponseSoFar,
    value: JsonView,
    usage: Option<UsageBreakdown>,
    index: u64,
    item: JsonView,
)
    requires
        value.get_str("type"@) == Some("response.output_item.done"@),
        value.get("item"@) == Some(item),
        (value.get("output_index"@) matches Some(told) && told.as_u64() == Some(index)) || (
        value.get("output_index"@) is None && index == so_far.items.len()),
        ascending(so_far.items),
    ensures
        after_event(so_far, value, usage) matches Ok(after) && {
            &&& after.items.contains((index, item))
            &&& forall|k: int|
                0 <= k < so_far.items.len() && (#[trigger] so_far.items[k]).0 != index
                    ==> after.items.contains(so_far.items[k])
            &&& ascending(after.items)
            &&& after.delta == so_far.delta
            &&& after.done == so_far.done
        },
{
    law_an_item_stands_under_its_index(so_far.items, index, item);
    law_items_stay_in_order(so_far.items, index, item);
}

/// The output that is filled in: the items in their order where there are any; else one
/// message with the finished text; else one with the deltas. A response that brings an
/// output of its own is not touched.
pub proof fn law_what_fills_a_missing_output(so_far: ResponseSoFar, response: JsonView)
    requires
        response is Object,
        response.get("output"@) matches Some(JsonView::Array(own)) ==> own.len() == 0,
    ensures
        so_far.items.len() > 0 ==> (patched(so_far, response).get("output"@) matches Some(
            JsonView::Array(output),
        ) && output.len() == so_far.items.len() && forall|k: int|
            0 <= k < output.len() ==> #[trigger] output[k] == so_far.items[k].1),
        so_far.items.len() == 0 ==> (so_far.done matches Some(text) ==> (text.len() > 0 ==> (patched(
            so_far,
            response,
        ).get("output"@) matches Some(JsonView::Array(output)) && output.len() == 1
            && says(output[0], text)))),
        so_far.items.len() == 0 && (so_far.done is None || so_far.done == Some(
            Seq::<char>::empty(),
        )) && so_far.delta.len() > 0 ==> (patched(so_far, response).get("output"@) matches Some(
            JsonView::Array(output),
        ) && output.len() == 1 && says(output[0], so_far.delta)),
        so_far.items.len() == 0 && so_far.done is None && so_far.delta.len() == 0 ==> patched(
            so_far,
            response,
        ) == response,
        so_far.items.len() == 0 && so_far.item_id is None && so_far.delta.len() > 0 ==> (patched(
            so_far,
            response,
        ).get("output"@) matches Some(JsonView::Array(output)) && output[0].get_str("id"@) == Some(
            "msg_0"@,
        )),
        so_far.items.len() == 0 && so_far.item_id is Some && so_far.delta.len() > 0 ==> (patched(
            so_far,
            response,
        ).get("output"@) matches Some(JsonView::Array(output)) && output[0].get_str("id"@)
            == so_far.item_id),
{
    lemma_message_fields();
}

/// A message of the assistant whose only part is `text`.
pub open spec fn says(message: JsonView, text: Seq<char>) -> bool {
    &&& message.get_str("type"@) == Some("message"@)
    &&& message.get_str("role"@) == Some("assistant"@)
    &&& message.get_str("status"@) == Some("completed"@)
    &&& message.get("content"@) matches Some(JsonView::Array(parts)) && parts.len() == 1
        && parts[0].get_str("text"@) == Some(text)
}

/// A stream that completed gives its response, whatever failures it named afterwards; one
/// that did not, gives an error.
pub proof fn law_a_stream_succeeds_where_it_completed(
    so_far: ResponseSoFar,
    result: Result<CompletedCodexSse, CompletedCodexSseError>,
)
    requires
        stream_end(so_far, result),
    ensures
        result is Ok <==> so_far.response is Some,
        result matches Ok(done) ==> done.usage == so_far.usage,
        result matches Err(error) ==> (so_far.failure is None ==> error.status == 502),
{
}

/// A failure that has a message and comes before the response is noted.
pub proof fn law_a_failure_with_a_message_is_noted(
    so_far: ResponseSoFar,
    value: JsonView,
    usage: Option<UsageBreakdown>,
    message: Seq<char>,
)
    requires
        so_far.failure is None,
        so_far.response is None,
        value.get_str("type"@) == Some("error"@) || value.get_str("type"@) == Some(
            "response.failed"@,
        ) || value.get_str("type"@) == Some("response.error"@) || value.get_str("type"@) == Some(
            "response.incomplete"@,
        ) || value.get("error"@) is Some || value.get2("response"@, "error"@) is Some,
        error_message(value) == Some(message),
        trim(message).len() > 0,
    ensures
        after_event(so_far, value, usage) matches Ok(after) ==> after.failure == Some(value),
{
}

/// The name of an event is its type only where it tells none itself.
pub proof fn law_the_told_type_counts(value: JsonView, event: Option<Seq<char>>)
    ensures
        value.get("type"@) is Some ==> typed_value(value, event) == value,
        event is None ==> typed_value(value, event) == value,
        value is Object && value.get("type"@) is None ==> (event matches Some(name)
            ==> typed_value(value, event).get_str("type"@) == Some(name)),
{
}

/// A line tells what stands behind the name of its field, with or without a space between
/// them; a second space belongs to the value.
pub proof fn law_a_line_tells_its_value(field: Seq<char>, value: Seq<char>)
    ensures
        field_value(field + seq![' '] + value, field) == Some(value),
        value.len() > 0 && value[0] != ' ' ==> field_value(field + value, field) == Some(value),
        field_value(field, field) == Some(Seq::<char>::empty()),
{
    let spaced = field + seq![' '] + value;
    assert(spaced.subrange(0, field.len() as int) =~= field);
    assert(spaced.skip(field.len() as int) =~= seq![' '] + value);
    assert((seq![' '] + value).drop_first() =~= value);
    let plain = field + value;
    assert(plain.subrange(0, field.len() as int) =~= field);
    assert(plain.skip(field.len() as int) =~= value);
    assert(field.subrange(0, field.len() as int) =~= field);
    assert(field.skip(field.len() as int) =~= Seq::<char>::empty());
}

/// A line of data adds its value behind those before it; any other line adds none. The first
/// line that names the event does.
pub proof fn law_what_a_line_adds_to_its_event(lines: Seq<Seq<char>>, line: Seq<char>, data: Seq<char>)
    ensures
        event_data(lines.push("data:"@ + seq![' '] + data)) == event_data(lines).push(data),
        !starts_with(line, "data:"@) ==> event_data(lines.push(line)) == event_data(lines),
        event_name(lines) is Some ==> event_name(lines.push(line)) == event_name(lines),
        event_name(lines) is None ==> event_name(lines.push(line)) == line_event(line),
{
    let told = "data:"@ + seq![' '] + data;
    law_a_line_tells_its_value("data:"@, data);
    assert(lines.push(told).drop_last() =~= lines);
    assert(lines.push(line).drop_last() =~= lines);
    lemma_name_of_more_lines(lines, line);
}

proof fn lemma_name_of_more_lines(lines: Seq<Seq<char>>, line: Seq<char>)
    ensures
        event_name(lines.push(line)) == (match event_name(lines) {
            Some(name) => Some(name),
            None => line_event(line),
        }),
    decreases lines.len(),
{
    let more = lines.push(line);
    if lines.len() == 0 {
        assert(more[0] == line);
        assert(more.drop_first() =~= Seq::<Seq<char>>::empty());
        assert(event_name(more.drop_first()) is None);
    } else {
        assert(more[0] == lines[0]);
        assert(more.drop_first() =~= lines.drop_first().push(line));
        lemma_name_of_more_lines(lines.drop_first(), line);
    }
}

/// An event without data is none; the data of several lines come with a line end between
/// them.
pub proof fn law_the_data_of_an_event(block: Seq<char>, first: Seq<char>, second: Seq<char>)
    ensures
        event_payload(block) is None <==> event_data(lines(block)).len() == 0,
        event_data(lines(block)) == seq![first] ==> (event_payload(block) matches Some(payload)
            && payload.1 == first && payload.0 == event_name(lines(block))),
        event_data(lines(block)) == seq![first, second] ==> (event_payload(block) matches Some(
            payload,
        ) && payload.1 == first + "\n"@ + second),
{
    reveal_with_fuel(join, 3);
    assert(seq![first, second].drop_last() =~= seq![first]);
}

/// The events of a stream come in the order of their blocks, each block with data giving
/// one.
pub proof fn law_events_come_in_the_order_of_their_blocks(blocks: Seq<Seq<char>>, block: Seq<char>)
    ensures
        event_payload(block) matches Some(payload) ==> block_payloads(blocks.push(block))
            == block_payloads(blocks).push(payload),
        event_payload(block) is None ==> block_payloads(blocks.push(block)) == block_payloads(
            blocks,
        ),
        block_payloads(Seq::empty()).len() == 0,
{
    assert(blocks.push(block).drop_last() =~= blocks);
}

/// A text without an empty line is one block, and its event the only one.
pub proof fn law_a_text_without_an_empty_line_is_one_block(text: Seq<char>)
    requires
        !contains(text, "\r\n"@),
        !contains(text, "\n\n"@),
    ensures
        event_payload(text) matches Some(payload) ==> stream_payloads(text) == seq![payload],
        event_payload(text) is None ==> stream_payloads(text).len() == 0,
{
    reveal_strlit("\r\n");
    reveal_strlit("\n\n");
    law_replacing_keeps_the_rest(text, "\r\n"@, "\n"@);
    assert(replace(text, "\r\n"@, "\n"@) == text);
    lemma_whole_text(text, "\n\n"@);
    law_events_come_in_the_order_of_their_blocks(Seq::empty(), text);
    assert(Seq::<Seq<char>>::empty().push(text) =~= seq![text]);
    assert(block_payloads(Seq::empty()) =~= Seq::<(Option<Seq<char>>, Seq<char>)>::empty());
    if let Some(payload) = event_payload(text) {
        assert(Seq::<(Option<Seq<char>>, Seq<char>)>::empty().push(payload) =~= seq![payload]);
    }
}

/// The error that a failed stream is answered with has the status that the failure names,
/// 502 where it names none, and its message without the space around it.
pub proof fn law_what_a_failed_stream_is_answered(
    so_far: ResponseSoFar,
    result: Result<CompletedCodexSse, CompletedCodexSseError>,
    failure: JsonView,
    message: Seq<char>,
)
    requires
        stream_end(so_far, result),
        so_far.response is None,
        so_far.failure == Some(failure),
        error_message(failure) == Some(message),
        trim(message).len() > 0,
    ensures
        result matches Err(error) && {
            &&& error.message@ == trim(message)
            &&& error.body is Some
            &&& error_status(failure) matches Some(status) ==> error.status == status
            &&& error_status(failure) is None ==> error.status == 502
        },
{
}

/// An event of a stream that is no JSON, and a completion without a response, end the stream
/// with 502; the mark of the end changes nothing.
pub proof fn law_invalid_events_end_the_stream(
    so_far: ResponseSoFar,
    event: (Option<Seq<char>>, Seq<char>),
    usage: Option<UsageBreakdown>,
    events: Seq<(Option<Seq<char>>, Seq<char>)>,
    usages: Seq<Option<UsageBreakdown>>,
    result: Result<CompletedCodexSse, CompletedCodexSseError>,
)
    requires
        events_end(events, usages, result),
    ensures
        trim(event.1) == "[DONE]"@ ==> stream_step(so_far, event, usage) == Ok::<
            ResponseSoFar,
            Seq<char>,
        >(so_far),
        trim(event.1) != "[DONE]"@ && parsed_text(event.1) is None ==> stream_step(
            so_far,
            event,
            usage,
        ) is Err,
        after_events(events, usages, events.len()) is Err ==> (result matches Err(error)
            && error.status == 502 && error.body is None),
{
}

} // verus!
