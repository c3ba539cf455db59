//! A short account of the last user message of a request.

use vstd::prelude::*;
use crate::json::{array_view, lemma_array_view, Json, JsonView};
use crate::kiro_model::Message;
use crate::name_map::NameMap;
use crate::text::{concat2, concat3, first_chars, join, joined, nonempty_trim, opt_text, same_text,
    take_chars, texts, trim, trimmed, trimmed_nonempty, words, words_of};

verus! {

// ---------------------------------------------------------------------------
// Previews
// ---------------------------------------------------------------------------

/// At most `max_chars` characters of a text, with dots where something is cut off.
pub open spec fn truncated(text: Seq<char>, max_chars: nat) -> Seq<char> {
    if text.len() > max_chars {
        first_chars(text, max_chars) + "..."@
    } else {
        text
    }
}

pub fn truncate_summary(text: &str, max_chars: usize) -> (result: String)
    ensures
        result@ == truncated(text@, max_chars as nat),
{
    let head = take_chars(text, max_chars);
    if crate::text::chars_of(text).len() > max_chars {
        concat2(head.as_str(), "...")
    } else {
        head
    }
}

/// The words of a text with one blank between each two, cut to `max_chars` characters.
pub open spec fn preview(text: Seq<char>, max_chars: nat) -> Seq<char> {
    truncated(trim(join(words(text), " "@)), max_chars)
}

pub fn compact_preview(text: &str, max_chars: usize) -> (result: String)
    ensures
        result@ == preview(text@, max_chars as nat),
{
    let compact = joined(&words_of(text), " ");
    truncate_summary(trimmed(compact.as_str()).as_str(), max_chars)
}

pub open spec fn text_summary(text: Seq<char>, max_chars: nat) -> Option<Seq<char>> {
    if preview(text, max_chars).len() > 0 {
        Some(preview(text, max_chars))
    } else {
        None
    }
}

pub fn summarize_text(text: &str, max_chars: usize) -> (result: Option<String>)
    ensures
        opt_text(result) == text_summary(text@, max_chars as nat),
{
    let preview = compact_preview(text, max_chars);
    if preview.as_str().is_empty() {
        None
    } else {
        Some(preview)
    }
}

// ---------------------------------------------------------------------------
// Tool names
// ---------------------------------------------------------------------------

/// The texts of a map by name.
pub open spec fn name_texts(map: Map<Seq<char>, String>) -> Map<Seq<char>, Seq<char>> {
    map.map_values(|value: String| value@)
}

/// The trimmed text of a member, where it is not blank.
pub open spec fn member_text(block: JsonView, key: Seq<char>) -> Option<Seq<char>> {
    match block.get_str(key) {
        Some(text) => nonempty_trim(text),
        None => None,
    }
}

fn read_member(block: &Json, key: &str) -> (result: Option<String>)
    ensures
        opt_text(result) == member_text(block@, key@),
{
    match block.get_str(key) {
        Some(text) => trimmed_nonempty(text),
        None => None,
    }
}

/// The names of tools by the ids of their calls, with those of one block added.
pub open spec fn with_tool_name(names: Map<Seq<char>, Seq<char>>, block: JsonView) -> Map<
    Seq<char>,
    Seq<char>,
> {
    if block.get_str("type"@) == Some("tool_use"@) {
        match (member_text(block, "id"@), member_text(block, "name"@)) {
            (Some(id), Some(name)) => names.insert(id, name),
            _ => names,
        }
    } else {
        names
    }
}

pub open spec fn with_tool_names(names: Map<Seq<char>, Seq<char>>, blocks: Seq<JsonView>) -> Map<
    Seq<char>,
    Seq<char>,
>
    decreases blocks.len(),
{
    if blocks.len() == 0 {
        names
    } else {
        with_tool_name(with_tool_names(names, blocks.drop_last()), blocks.last())
    }
}

/// The names of the tools that are called in a list of messages; a later call of the same
/// id counts.
pub open spec fn tool_names(messages: Seq<Message>) -> Map<Seq<char>, Seq<char>>
    decreases messages.len(),
{
    if messages.len() == 0 {
        Map::empty()
    } else {
        let before = tool_names(messages.drop_last());
        match messages.last().content@ {
            JsonView::Array(blocks) => with_tool_names(before, blocks),
            _ => before,
        }
    }
}

fn collect_blocks(names: &mut NameMap<String>, blocks: &Vec<Json>)
    ensures
        name_texts(final(names)@) == with_tool_names(name_texts(old(names)@), array_view(blocks@)),
{
    let ghost start = name_texts(names@);
    let ghost views = array_view(blocks@);
    proof {
        lemma_array_view(blocks@);
    }
    let mut i: usize = 0;
    assert(views.take(0) =~= Seq::<JsonView>::empty());
    while i < blocks.len()
        invariant
            i <= blocks.len(),
            views == array_view(blocks@),
            views.len() == blocks.len(),
            forall|k: int| 0 <= k < views.len() ==> #[trigger] views[k] == blocks@[k]@,
            name_texts(names@) == with_tool_names(start, views.take(i as int)),
        decreases blocks.len() - i,
    {
        let block = &blocks[i];
        let ghost head = views.take(i + 1);
        assert(head.drop_last() =~= views.take(i as int));
        assert(head.last() == block@);
        let is_use = match block.get_str("type") {
            Some(kind) => same_text(kind, "tool_use"),
            None => false,
        };
        if is_use {
            if let Some(id) = read_member(block, "id") {
                if let Some(name) = read_member(block, "name") {
                    let ghost before = names@;
                    let ghost text = name@;
                    names.insert(id.as_str(), name);
                    assert(name_texts(names@) =~= name_texts(before).insert(id@, text));
                }
            }
        }
        i += 1;
    }
    assert(views.take(i as int) =~= views);
}

/// The names of the tools that are called in the messages before `end`.
pub fn collect_kiro_tool_name_map(messages: &Vec<Message>, end: usize) -> (names: NameMap<String>)
    requires
        end <= messages.len(),
    ensures
        name_texts(names@) == tool_names(messages@.take(end as int)),
{
    let mut names: NameMap<String> = NameMap::new();
    let mut i: usize = 0;
    assert(name_texts(names@) =~= Map::<Seq<char>, Seq<char>>::empty());
    assert(messages@.take(0) =~= Seq::<Message>::empty());
    while i < end
        invariant
            i <= end <= messages.len(),
            name_texts(names@) == tool_names(messages@.take(i as int)),
        decreases end - i,
    {
        let ghost head = messages@.take(i + 1);
        assert(head.drop_last() =~= messages@.take(i as int));
        assert(head.last() == messages@[i as int]);
        match &messages[i].content {
            Json::Array(blocks) => collect_blocks(&mut names, blocks),
            _ => {},
        }
        i += 1;
    }
    names
}

// ---------------------------------------------------------------------------
// Parts
// ---------------------------------------------------------------------------

/// The account of the result of a tool: the tool's name, or the id of the call, and the
/// beginning of the result.
pub open spec fn result_part(
    block: JsonView,
    names: Map<Seq<char>, Seq<char>>,
    result: Seq<char>,
    max_chars: nat,
) -> Option<Seq<char>> {
    match member_text(block, "tool_use_id"@) {
        None => None,
        Some(id) => {
            let label = if names.dom().contains(id) {
                names[id]
            } else {
                id
            };
            let shown = preview(result, max_chars);
            if shown.len() == 0 {
                Some("[tool_result:"@ + label + "]"@)
            } else {
                Some("[tool_result:"@ + label + "] "@ + shown)
            }
        },
    }
}

/// `result` is the text of the tool's result.
pub fn summarize_tool_result(
    block: &Json,
    names: &NameMap<String>,
    result: &str,
    max_chars: usize,
) -> (part: Option<String>)
    ensures
        opt_text(part) == result_part(block@, name_texts(names@), result@, max_chars as nat),
{
    let id = match read_member(block, "tool_use_id") {
        Some(id) => id,
        None => return None,
    };
    let label = match names.get(id.as_str()) {
        Some(name) => name.clone(),
        None => id,
    };
    let shown = compact_preview(result, max_chars);
    if shown.as_str().is_empty() {
        Some(concat3("[tool_result:", label.as_str(), "]"))
    } else {
        let mut part = concat3("[tool_result:", label.as_str(), "] ");
        part.append(shown.as_str());
        Some(part)
    }
}

/// What a summary is made of, and how many results of tools were used up so far.
#[verifier::ext_equal]
pub struct Parts {
    pub list: Seq<Seq<char>>,
    pub used: nat,
}

pub open spec fn with_part(parts: Parts, part: Option<Seq<char>>) -> Parts {
    match part {
        Some(part) => Parts { list: parts.list.push(part), ..parts },
        None => parts,
    }
}

/// The result of the tool that is next in order.
pub open spec fn result_at(results: Seq<Seq<char>>, at: nat) -> Seq<char> {
    if at < results.len() {
        results[at as int]
    } else {
        Seq::empty()
    }
}

/// The parts with those of one block added.
pub open spec fn with_block(
    parts: Parts,
    block: JsonView,
    names: Map<Seq<char>, Seq<char>>,
    results: Seq<Seq<char>>,
    max_chars: nat,
) -> Parts {
    match block.get_str("type"@) {
        Some(kind) => if kind == "text"@ {
            match block.get_str("text"@) {
                Some(text) => with_part(parts, text_summary(text, max_chars)),
                None => parts,
            }
        } else if kind == "tool_result"@ {
            Parts {
                used: if parts.used < results.len() {
                    parts.used + 1
                } else {
                    parts.used
                },
                ..with_part(
                    parts,
                    result_part(block, names, result_at(results, parts.used), max_chars),
                )
            }
        } else if kind == "tool_use"@ {
            match block.get_str("name"@) {
                Some(name) => with_part(
                    parts,
                    text_summary("[tool_use:"@ + name + "]"@, max_chars),
                ),
                None => parts,
            }
        } else if kind == "image"@ {
            with_part(parts, Some("[image]"@))
        } else {
            parts
        },
        None => parts,
    }
}

pub open spec fn with_blocks(
    parts: Parts,
    blocks: Seq<JsonView>,
    names: Map<Seq<char>, Seq<char>>,
    results: Seq<Seq<char>>,
    max_chars: nat,
) -> Parts
    decreases blocks.len(),
{
    if blocks.len() == 0 {
        parts
    } else {
        with_block(
            with_blocks(parts, blocks.drop_last(), names, results, max_chars),
            blocks.last(),
            names,
            results,
            max_chars,
        )
    }
}

/// The parts with those of one message added.
pub open spec fn with_message(
    parts: Parts,
    content: JsonView,
    names: Map<Seq<char>, Seq<char>>,
    results: Seq<Seq<char>>,
    max_chars: nat,
) -> Parts {
    match content {
        JsonView::Str(text) => with_part(parts, text_summary(text, max_chars)),
        JsonView::Array(blocks) => with_blocks(parts, blocks, names, results, max_chars),
        _ => parts,
    }
}

pub struct SummaryParts {
    pub list: Vec<String>,
    pub used: usize,
}

impl View for SummaryParts {
    type V = Parts;

    open spec fn view(&self) -> Parts {
        Parts { list: texts(self.list@), used: self.used as nat }
    }
}

impl SummaryParts {
    fn add_part(&mut self, part: Option<String>)
        ensures
            final(self)@ == with_part(old(self)@, opt_text(part)),
            final(self).used == old(self).used,
    {
        if let Some(part) = part {
            let ghost before = texts(self.list@);
            self.list.push(part);
            assert(texts(self.list@) =~= before.push(part@));
        }
    }

    fn add_block(
        &mut self,
        block: &Json,
        names: &NameMap<String>,
        results: &Vec<String>,
        max_chars: usize,
    )
        ensures
            final(self)@ == with_block(
                old(self)@,
                block@,
                name_texts(names@),
                texts(results@),
                max_chars as nat,
            ),
    {
        let kind = match block.get_str("type") {
            Some(kind) => kind,
            None => return,
        };
        if same_text(kind, "text") {
            if let Some(text) = block.get_str("text") {
                self.add_part(summarize_text(text, max_chars));
            }
        } else if same_text(kind, "tool_result") {
            let part = if self.used < results.len() {
                assert(texts(results@)[self.used as int] == results@[self.used as int]@);
                summarize_tool_result(block, names, results[self.used].as_str(), max_chars)
            } else {
                proof {
                    reveal_strlit("");
                    assert(""@ =~= Seq::<char>::empty());
                }
                summarize_tool_result(block, names, "", max_chars)
            };
            self.add_part(part);
            if self.used < results.len() {
                self.used = self.used + 1;
            }
        } else if same_text(kind, "tool_use") {
            if let Some(name) = block.get_str("name") {
                let label = concat3("[tool_use:", name, "]");
                self.add_part(summarize_text(label.as_str(), max_chars));
            }
        } else if same_text(kind, "image") {
            self.add_part(Some("[image]".to_owned()));
        }
    }
}

/// Adds the parts of one message. `results` holds the texts of the tools' results in the
/// order in which they stand in the messages.
pub fn append_kiro_message_summary_parts(
    parts: &mut SummaryParts,
    content: &Json,
    names: &NameMap<String>,
    results: &Vec<String>,
    max_chars: usize,
)
    ensures
        final(parts)@ == with_message(
            old(parts)@,
            content@,
            name_texts(names@),
            texts(results@),
            max_chars as nat,
        ),
{
    match content {
        Json::Str(text) => parts.add_part(summarize_text(text.as_str(), max_chars)),
        Json::Array(blocks) => {
            let ghost views = array_view(blocks@);
            proof {
                lemma_array_view(blocks@);
            }
            let ghost start = parts@;
            let mut i: usize = 0;
            assert(views.take(0) =~= Seq::<JsonView>::empty());
            while i < blocks.len()
                invariant
                    i <= blocks.len(),
                    *content == Json::Array(*blocks),
                    views == array_view(blocks@),
                    views.len() == blocks.len(),
                    forall|k: int| 0 <= k < views.len() ==> #[trigger] views[k] == blocks@[k]@,
                    parts@ == with_blocks(
                        start,
                        views.take(i as int),
                        name_texts(names@),
                        texts(results@),
                        max_chars as nat,
                    ),
                decreases blocks.len() - i,
            {
                let ghost head = views.take(i + 1);
                assert(head.drop_last() =~= views.take(i as int));
                assert(head.last() == blocks@[i as int]@);
                parts.add_block(&blocks[i], names, results, max_chars);
                i += 1;
            }
            assert(views.take(i as int) =~= views);
        },
        _ => {},
    }
}

/// The parts of a list of messages.
pub open spec fn message_parts(
    messages: Seq<Message>,
    names: Map<Seq<char>, Seq<char>>,
    results: Seq<Seq<char>>,
    max_chars: nat,
) -> Parts
    decreases messages.len(),
{
    if messages.len() == 0 {
        Parts { list: Seq::empty(), used: 0 }
    } else {
        with_message(
            message_parts(messages.drop_last(), names, results, max_chars),
            messages.last().content@,
            names,
            results,
            max_chars,
        )
    }
}

/// The summary of the messages in a range, with the tools that were called before it.
pub open spec fn range_summary(
    messages: Seq<Message>,
    start: int,
    end: int,
    results: Seq<Seq<char>>,
    part_chars: nat,
    total_chars: nat,
) -> Option<Seq<char>> {
    let parts = message_parts(
        messages.subrange(start, end),
        tool_names(messages.take(start)),
        results,
        part_chars,
    );
    if parts.list.len() == 0 {
        None
    } else {
        Some(truncated(join(parts.list, "\n"@), total_chars))
    }
}

/// A summary of the last user message. `range` is where that message stands, `results`
/// holds the texts of its tools' results in their order. Each part has at most
/// `part_chars` characters, the whole at most `total_chars`.
pub fn extract_last_message_from_kiro_messages(
    messages: &Vec<Message>,
    range: Option<(usize, usize)>,
    results: &Vec<String>,
    part_chars: usize,
    total_chars: usize,
) -> (summary: Option<String>)
    requires
        range matches Some(range) ==> range.0 <= range.1 <= messages.len(),
    ensures
        opt_text(summary) == match range {
            Some(range) => range_summary(
                messages@,
                range.0 as int,
                range.1 as int,
                texts(results@),
                part_chars as nat,
                total_chars as nat,
            ),
            None => None,
        },
{
    let (start, end) = match range {
        Some(range) => range,
        None => return None,
    };
    let names = collect_kiro_tool_name_map(messages, start);
    let mut parts = SummaryParts { list: Vec::new(), used: 0 };
    let mut i: usize = start;
    assert(messages@.subrange(start as int, start as int) =~= Seq::<Message>::empty());
    assert(texts(parts.list@) =~= Seq::<Seq<char>>::empty());
    while i < end
        invariant
            start <= i <= end <= messages.len(),
            parts@ == message_parts(
                messages@.subrange(start as int, i as int),
                name_texts(names@),
                texts(results@),
                part_chars as nat,
            ),
        decreases end - i,
    {
        let ghost head = messages@.subrange(start as int, i + 1);
        assert(head.drop_last() =~= messages@.subrange(start as int, i as int));
        assert(head.last() == messages@[i as int]);
        append_kiro_message_summary_parts(
            &mut parts,
            &messages[i].content,
            &names,
            results,
            part_chars,
        );
        i += 1;
    }
    if parts.list.len() == 0 {
        return None;
    }
    let whole = joined(&parts.list, "\n");
    Some(truncate_summary(whole.as_str(), total_chars))
}

// ---------------------------------------------------------------------------
// Laws
// ---------------------------------------------------------------------------

/// A cut text is no longer than the limit and the dots; a text within the limit stays as
/// it is.
pub proof fn law_truncated_is_bounded(text: Seq<char>, max_chars: nat)
    ensures
        truncated(text, max_chars).len() <= max_chars + 3,
        text.len() <= max_chars ==> truncated(text, max_chars) == text,
        first_chars(truncated(text, max_chars), max_chars) == first_chars(text, max_chars),
{
    reveal_strlit("...");
    if text.len() > max_chars {
        assert(truncated(text, max_chars).take(max_chars as int) =~= text.take(max_chars as int));
    }
}

/// A text that is too long is cut to the length and ends in three dots.
pub proof fn law_a_long_text_is_cut(text: Seq<char>, max_chars: nat)
    requires
        text.len() > max_chars,
    ensures
        truncated(text, max_chars).len() == max_chars + 3,
        forall|i: int| 0 <= i < max_chars ==> #[trigger] truncated(text, max_chars)[i] == text[i],
        forall|i: int|
            max_chars <= i < max_chars + 3 ==> #[trigger] truncated(text, max_chars)[i] == '.',
{
    reveal_strlit("...");
    assert("..."@.len() == 3);
}

/// What each block adds: a text its preview, an image its mark, a tool call its name, a tool
/// result its label; a block of another kind adds nothing. Results are taken in their order,
/// one for each block of theirs.
pub proof fn law_what_a_block_adds(
    parts: Parts,
    block: JsonView,
    names: Map<Seq<char>, Seq<char>>,
    results: Seq<Seq<char>>,
    max_chars: nat,
)
    ensures
        ({
            let after = with_block(parts, block, names, results, max_chars);
            let kind = block.get_str("type"@);
            &&& after.list.len() <= parts.list.len() + 1
            &&& forall|i: int|
                0 <= i < parts.list.len() ==> #[trigger] after.list[i] == parts.list[i]
            &&& kind == Some("image"@) ==> after.list == parts.list.push("[image]"@)
            &&& kind == Some("text"@) ==> (block.get_str("text"@) matches Some(text) ==> (preview(
                text,
                max_chars,
            ).len() > 0 ==> after.list == parts.list.push(preview(text, max_chars))))
            &&& kind == Some("tool_use"@) && block.get_str("name"@) is None ==> after == parts
            &&& kind is None ==> after == parts
            &&& kind == Some("tool_result"@) && parts.used < results.len() ==> after.used
                == parts.used + 1
            &&& kind != Some("tool_result"@) ==> after.used == parts.used
        }),
{
    reveal_strlit("text");
    reveal_strlit("image");
    reveal_strlit("tool_use");
    reveal_strlit("tool_result");
    assert("text"@.len() == 4 && "image"@.len() == 5 && "tool_use"@.len() == 8
        && "tool_result"@.len() == 11);
}

/// A tool result is labelled with the name of its tool where that is known, and with the id
/// of the call where it is not; a result without an id adds nothing.
pub proof fn law_how_a_tool_result_is_labelled(
    block: JsonView,
    names: Map<Seq<char>, Seq<char>>,
    result: Seq<char>,
    max_chars: nat,
    id: Seq<char>,
)
    requires
        block.get_str("tool_use_id"@) == Some(id),
        trim(id) == id,
        id.len() > 0,
    ensures
        names.dom().contains(id) && preview(result, max_chars).len() == 0 ==> result_part(
            block,
            names,
            result,
            max_chars,
        ) == Some("[tool_result:"@ + names[id] + "]"@),
        !names.dom().contains(id) && preview(result, max_chars).len() == 0 ==> result_part(
            block,
            names,
            result,
            max_chars,
        ) == Some("[tool_result:"@ + id + "]"@),
        names.dom().contains(id) && preview(result, max_chars).len() > 0 ==> result_part(
            block,
            names,
            result,
            max_chars,
        ) == Some("[tool_result:"@ + names[id] + "] "@ + preview(result, max_chars)),
{
}

/// A tool call leaves its name under its id; the names of other calls stay.
pub proof fn law_tool_names_are_remembered(
    names: Map<Seq<char>, Seq<char>>,
    block: JsonView,
    id: Seq<char>,
    name: Seq<char>,
)
    requires
        block.get_str("id"@) == Some(id),
        block.get_str("name"@) == Some(name),
        trim(id) == id,
        trim(name) == name,
        id.len() > 0,
        name.len() > 0,
    ensures
        block.get_str("type"@) == Some("tool_use"@) ==> with_tool_name(names, block).dom().contains(
            id,
        ) && with_tool_name(names, block)[id] == name,
        block.get_str("type"@) != Some("tool_use"@) ==> with_tool_name(names, block) == names,
        forall|other: Seq<char>|
            other != id && names.dom().contains(other) ==> #[trigger] with_tool_name(
                names,
                block,
            )[other] == names[other],
{
}

/// A summary speaks of its range alone: what comes behind it is without effect.
pub proof fn law_a_summary_speaks_of_its_range(
    first: Seq<Message>,
    second: Seq<Message>,
    start: int,
    end: int,
    results: Seq<Seq<char>>,
    part_chars: nat,
    total_chars: nat,
)
    requires
        0 <= start <= end <= first.len(),
        end <= second.len(),
        first.take(end) == second.take(end),
    ensures
        range_summary(first, start, end, results, part_chars, total_chars) == range_summary(
            second,
            start,
            end,
            results,
            part_chars,
            total_chars,
        ),
        start == end ==> range_summary(first, start, end, results, part_chars, total_chars) is None,
        range_summary(first, start, end, results, part_chars, total_chars) matches Some(text)
            ==> text.len() <= total_chars + 3,
{
    assert(first.subrange(start, end) =~= first.take(end).subrange(start, end));
    assert(second.subrange(start, end) =~= second.take(end).subrange(start, end));
    assert(first.take(start) =~= first.take(end).take(start));
    assert(second.take(start) =~= second.take(end).take(start));
    if start == end {
        assert(first.subrange(start, end) =~= Seq::<Message>::empty());
    }
    let parts = message_parts(
        first.subrange(start, end),
        tool_names(first.take(start)),
        results,
        part_chars,
    );
    law_truncated_is_bounded(join(parts.list, "\n"@), total_chars);
}

} // verus!
