//! The guard that asks a client to compact its conversation before the upstream
//! refuses it, and the requests that are exempt from it.

use vstd::prelude::*;
use crate::json::{array_view, find_member, lemma_array_view, members_view, Json, JsonView};
use crate::kiro_model::{MessagesRequest, SystemMessage};
use crate::text::{chars_contain, chars_of, contains, lower, lower_chars};

verus! {

/// `needle` stands in `haystack`, ASCII letters of either case being the same.
pub open spec fn contains_ignore_case(haystack: Seq<char>, needle: Seq<char>) -> bool {
    contains(lower(haystack), lower(needle))
}

pub fn contains_ignore_ascii_case(haystack: &str, needle: &str) -> (result: bool)
    ensures
        result == contains_ignore_case(haystack@, needle@),
{
    chars_contain(&lower_chars(&chars_of(haystack)), &lower_chars(&chars_of(needle)))
}

/// The instruction by which a client asks for the summary of a conversation.
pub open spec fn is_summary_prompt(text: Seq<char>) -> bool {
    contains_ignore_case(text, "detailed summary of"@) && contains_ignore_case(
        text,
        "conversation"@,
    )
}

pub fn text_is_compaction_summary_prompt(text: &str) -> (result: bool)
    ensures
        result == is_summary_prompt(text@),
{
    contains_ignore_ascii_case(text, "detailed summary of") && contains_ignore_ascii_case(
        text,
        "conversation",
    )
}

/// Some text inside a value is the summary instruction.
pub open spec fn holds_summary_prompt(value: JsonView) -> bool
    decreases value,
{
    match value {
        JsonView::Str(text) => is_summary_prompt(text),
        JsonView::Array(items) => exists|i: int|
            0 <= i < items.len() && holds_summary_prompt(#[trigger] items[i]),
        JsonView::Object(members) => exists|key: Seq<char>|
            members.dom().contains(key) && holds_summary_prompt(#[trigger] members[key]),
        _ => false,
    }
}

proof fn lemma_item_counts(items: Seq<JsonView>, i: int)
    requires
        0 <= i < items.len(),
        holds_summary_prompt(items[i]),
    ensures
        holds_summary_prompt(JsonView::Array(items)),
{
    let value = JsonView::Array(items);
    assert(value->Array_0 == items);
}

proof fn lemma_member_counts(members: Map<Seq<char>, JsonView>, key: Seq<char>)
    requires
        members.dom().contains(key),
        holds_summary_prompt(members[key]),
    ensures
        holds_summary_prompt(JsonView::Object(members)),
{
    let value = JsonView::Object(members);
    assert(value->Object_0 == members);
}

pub fn json_value_contains_compaction_summary(value: &Json) -> (result: bool)
    ensures
        result == holds_summary_prompt(value@),
    decreases value,
{
    match value {
        Json::Str(text) => text_is_compaction_summary_prompt(text.as_str()),
        Json::Array(items) => {
            proof {
                lemma_array_view(items@);
            }
            let mut i: usize = 0;
            while i < items.len()
                invariant
                    i <= items.len(),
                    *value == Json::Array(*items),
                    value@ == JsonView::Array(array_view(items@)),
                    array_view(items@).len() == items.len(),
                    forall|k: int|
                        0 <= k < items.len() ==> #[trigger] array_view(items@)[k] == items@[k]@,
                    forall|k: int|
                        0 <= k < i ==> !holds_summary_prompt(#[trigger] array_view(items@)[k]),
                decreases items.len() - i,
            {
                assert(decreases_to!(*value => items@[i as int]));
                if json_value_contains_compaction_summary(&items[i]) {
                    assert(holds_summary_prompt(array_view(items@)[i as int]));
                    proof {
                        lemma_item_counts(array_view(items@), i as int);
                    }
                    return true;
                }
                i += 1;
            }
            false
        },
        Json::Object(members) => {
            let mut i: usize = 0;
            while i < members.len()
                invariant
                    i <= members.len(),
                    *value == Json::Object(*members),
                    value@ == JsonView::Object(members_view(members@)),
                    forall|k: int|
                        0 <= k < i ==> members_view(members@).dom().contains(
                            (#[trigger] members@[k]).0@,
                        ) && !holds_summary_prompt(members_view(members@)[members@[k].0@]),
                decreases members.len() - i,
            {
                let found = find_member(members, members[i].0.as_str());
                match found {
                    Some(j) => {
                        assert(decreases_to!(*value => members@[j as int].1));
                        if json_value_contains_compaction_summary(&members[j].1) {
                            assert(holds_summary_prompt(
                                members_view(members@)[members@[i as int].0@],
                            ));
                            proof {
                                lemma_member_counts(members_view(members@), members@[i as int].0@);
                            }
                            return true;
                        }
                    },
                    None => {
                        assert(members@[i as int].0@ == members@[i as int].0@);
                    },
                }
                i += 1;
            }
            proof {
                assert forall|key: Seq<char>|
                    members_view(members@).dom().contains(key) implies !holds_summary_prompt(
                    #[trigger] members_view(members@)[key],
                ) by {
                    lemma_member_has_entry(members@, key);
                }
            }
            false
        },
        _ => false,
    }
}

pub proof fn lemma_member_has_entry(members: Seq<(String, Json)>, key: Seq<char>)
    requires
        members_view(members).dom().contains(key),
    ensures
        exists|k: int| 0 <= k < members.len() && (#[trigger] members[k]).0@ == key,
    decreases members.len(),
{
    assert(members.len() > 0);
    assert(members_view(members) == members_view(members.drop_last()).insert(
        members.last().0@,
        members.last().1@,
    ));
    if members.last().0@ == key {
        assert(members[members.len() - 1].0@ == key);
    } else {
        let head = members.drop_last();
        lemma_member_has_entry(head, key);
        let k = choose|k: int| 0 <= k < head.len() && (#[trigger] head[k]).0@ == key;
        assert(members[k].0@ == key);
    }
}

pub open spec fn some_summary_prompt(system: Seq<SystemMessage>) -> bool {
    exists|i: int| 0 <= i < system.len() && is_summary_prompt((#[trigger] system[i]).text@)
}

/// A request for the summary of a conversation: the instruction stands in the system
/// prompt or in the last message. Earlier messages do not count.
pub open spec fn is_summary_request(request: MessagesRequest) -> bool {
    ||| request.system matches Some(system) && some_summary_prompt(system@)
    ||| request.messages@.len() > 0 && holds_summary_prompt(request.messages@.last().content@)
}

pub fn request_is_compaction_summary(request: &MessagesRequest) -> (result: bool)
    ensures
        result == is_summary_request(*request),
{
    if let Some(system) = &request.system {
        let mut i: usize = 0;
        while i < system.len()
            invariant
                i <= system.len(),
                request.system == Some(*system),
                forall|k: int| 0 <= k < i ==> !is_summary_prompt((#[trigger] system@[k]).text@),
            decreases system.len() - i,
        {
            if text_is_compaction_summary_prompt(system[i].text.as_str()) {
                assert(is_summary_prompt(system@[i as int].text@));
                assert(some_summary_prompt(system@));
                return true;
            }
            i += 1;
        }
    }
    if request.messages.len() == 0 {
        return false;
    }
    json_value_contains_compaction_summary(&request.messages[request.messages.len() - 1].content)
}

/// The token counts of the previous turn: those that the upstream reported, and the
/// local estimate at that time.
#[derive(Debug, Clone, Copy)]
pub struct AnchorTokenCounts {
    pub real_input_tokens: i32,
    pub local_input_tokens: i32,
}

pub open spec fn clamp_i32(value: int) -> int {
    if value > i32::MAX {
        i32::MAX as int
    } else if value < i32::MIN {
        i32::MIN as int
    } else {
        value
    }
}

pub open spec fn larger(a: int, b: int) -> int {
    if a < b {
        b
    } else {
        a
    }
}

/// The tokens of this turn: the local estimate, or what the previous turn really took
/// plus the growth since then where that is more.
pub open spec fn effective_tokens(local_now: i32, recovered: Option<AnchorTokenCounts>) -> int {
    match recovered {
        Some(counts) => {
            let growth = larger(0, clamp_i32(local_now - counts.local_input_tokens));
            larger(local_now as int, clamp_i32(counts.real_input_tokens + growth))
        },
        None => local_now as int,
    }
}

pub fn estimate_effective_input_tokens(local_now: i32, recovered: Option<AnchorTokenCounts>) -> (result:
    i32)
    ensures
        result == effective_tokens(local_now, recovered),
{
    match recovered {
        Some(counts) => {
            let difference: i64 = local_now as i64 - counts.local_input_tokens as i64;
            let growth: i64 = if difference < 0 {
                0
            } else if difference > 2147483647 {
                2147483647
            } else {
                difference
            };
            let sum: i64 = counts.real_input_tokens as i64 + growth;
            let baseline: i32 = if sum > 2147483647 {
                i32::MAX
            } else {
                sum as i32
            };
            if local_now < baseline {
                baseline
            } else {
                local_now
            }
        },
        None => local_now,
    }
}

/// The count as the guard compares it: a negative one counts as beyond every trigger.
pub open spec fn guard_count(tokens: i32) -> int {
    if tokens < 0 {
        tokens + 0x1_0000_0000_0000_0000
    } else {
        tokens as int
    }
}

/// The limit to name to the client where the guard stops a request. A trigger of zero
/// turns the guard off.
pub open spec fn guard(trigger: u64, tokens: i32, exempt: bool) -> Option<i32> {
    if trigger > 0 && guard_count(tokens) >= trigger && !exempt {
        Some(
            if trigger > i32::MAX {
                i32::MAX
            } else {
                trigger as i32
            },
        )
    } else {
        None
    }
}

pub fn compaction_guard(trigger: u64, tokens: i32, request: &MessagesRequest) -> (limit: Option<i32>)
    ensures
        limit == guard(trigger, tokens, is_summary_request(*request)),
{
    if trigger == 0 {
        return None;
    }
    let reached = tokens < 0 && 0xffff_ffff_8000_0000 + (tokens as i64 + 0x8000_0000) as u64
        >= trigger || tokens >= 0 && tokens as u64 >= trigger;
    if !reached || request_is_compaction_summary(request) {
        return None;
    }
    Some(
        if trigger > 2147483647 {
            i32::MAX
        } else {
            trigger as i32
        },
    )
}

// ---------------------------------------------------------------------------
// Laws
// ---------------------------------------------------------------------------

/// The estimate never falls below the local count, nor below what the previous turn
/// really took.
pub proof fn law_estimate_never_drops(local_now: i32, counts: AnchorTokenCounts)
    ensures
        effective_tokens(local_now, Some(counts)) >= local_now,
        effective_tokens(local_now, Some(counts)) >= counts.real_input_tokens,
{
}

/// A longer turn is never estimated as shorter.
pub proof fn law_estimate_is_monotone(
    less: i32,
    more: i32,
    recovered: Option<AnchorTokenCounts>,
)
    requires
        less <= more,
    ensures
        effective_tokens(less, recovered) <= effective_tokens(more, recovered),
{
}

/// Only the system prompt and the last message decide whether a request asks for a
/// summary: what stood earlier in the conversation is without effect.
pub proof fn law_history_does_not_exempt(first: MessagesRequest, second: MessagesRequest)
    requires
        first.system == second.system,
        first.messages@.len() > 0,
        second.messages@.len() > 0,
        first.messages@.last().content@ == second.messages@.last().content@,
    ensures
        is_summary_request(first) == is_summary_request(second),
{
}

/// A request for a summary always passes the guard.
pub proof fn law_summary_requests_pass(trigger: u64, tokens: i32)
    ensures
        guard(trigger, tokens, true) is None,
{
}

/// The guard stops a request exactly from its trigger on, names the trigger as the limit,
/// and is off where the trigger is zero.
pub proof fn law_the_guard_stops_from_the_trigger_on(trigger: u64, tokens: i32)
    requires
        0 <= tokens,
    ensures
        trigger == 0 ==> guard(trigger, tokens, false) is None,
        0 < trigger <= tokens ==> (guard(trigger, tokens, false) matches Some(limit) && limit
            == trigger),
        trigger > tokens ==> guard(trigger, tokens, false) is None,
{
}

/// The estimate is what the previous turn really took and what was added since, by the local
/// count, but never less than the local count; what was taken away since does not lower it.
pub proof fn law_the_estimate_adds_what_was_added(local_now: i32, counts: AnchorTokenCounts)
    requires
        0 <= counts.local_input_tokens,
        0 <= local_now,
        counts.real_input_tokens + local_now <= i32::MAX,
        i32::MIN <= counts.real_input_tokens,
    ensures
        local_now >= counts.local_input_tokens && counts.real_input_tokens
            >= counts.local_input_tokens ==> effective_tokens(local_now, Some(counts))
            == counts.real_input_tokens + (local_now - counts.local_input_tokens),
        local_now <= counts.local_input_tokens && local_now <= counts.real_input_tokens
            ==> effective_tokens(local_now, Some(counts)) == counts.real_input_tokens,
        counts.real_input_tokens <= counts.local_input_tokens && counts.real_input_tokens
            <= local_now ==> effective_tokens(local_now, Some(counts)) == local_now,
        effective_tokens(local_now, None) == local_now,
{
}

/// A request whose last message is a text, or holds one, that asks for a detailed summary of
/// the conversation is a request for a summary, however it is written; so is one whose
/// system prompt does. One without system prompt and messages is not.
pub proof fn law_what_asks_for_a_summary(request: MessagesRequest, text: Seq<char>)
    requires
        contains(lower(text), lower("detailed summary of"@)),
        contains(lower(text), lower("conversation"@)),
    ensures
        request.messages@.len() > 0 && request.messages@.last().content@ == JsonView::Str(text)
            ==> is_summary_request(request),
        request.system matches Some(system) ==> forall|i: int|
            0 <= i < system@.len() && (#[trigger] system@[i]).text@ == text ==> is_summary_request(
                request,
            ),
        request.system is None && request.messages@.len() == 0 ==> !is_summary_request(request),
{
}

} // verus!
