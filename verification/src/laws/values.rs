//! What holds of JSON values and of texts, stated of their members and their
//! characters.

use vstd::prelude::*;

use crate::events::{
    ContentView, NormalizedContent, NormalizedEvent, NormalizedTokenUsage, NormalizedToolResult,
    event_views,
};
use crate::json::{Json, JsonView, READ_DEPTH, members_of};
use crate::server::input_content;
use crate::text::{
    ascii_lower, ascii_lowercase, ascii_upper, ascii_uppercase, decimal, digit, is_white_space,
    trimmed, without_leading_space, without_trailing_space,
};

verus! {

// ---------------------------------------------------------------------------
// Members of JSON objects
// ---------------------------------------------------------------------------

/// What stands under the key, where the value is an object that has it.
pub open spec fn member_at(json: JsonView, key: Seq<char>) -> Option<JsonView> {
    match json {
        JsonView::Object(members) if members.contains_key(key) => Some(members[key]),
        _ => None,
    }
}

/// The characters of the string that stands under the key.
pub open spec fn text_at(json: JsonView, key: Seq<char>) -> Option<Seq<char>> {
    match member_at(json, key) {
        Some(JsonView::Str(text)) => Some(text),
        _ => None,
    }
}

/// The truth value that stands under the key.
pub open spec fn flag_at(json: JsonView, key: Seq<char>) -> Option<bool> {
    match member_at(json, key) {
        Some(JsonView::Bool(flag)) => Some(flag),
        _ => None,
    }
}

/// The integer within the range of `i64` that stands under the key.
pub open spec fn count_at(json: JsonView, key: Seq<char>) -> Option<i64> {
    match member_at(json, key) {
        Some(JsonView::Int(count)) => Some(count),
        _ => None,
    }
}

/// Looking a member up gives what stands under the key, and nothing where that
/// is of another kind.
pub proof fn law_lookups_read_members(json: JsonView, key: Seq<char>)
    ensures
        json.get(key) == member_at(json, key),
        json.get_str(key) == text_at(json, key),
        json.get_bool(key) == flag_at(json, key),
        json.get_i64(key) == count_at(json, key),
        json.get_array(key) == (match member_at(json, key) {
            Some(JsonView::Array(items)) => Some(items),
            _ => None,
        }),
{
}

/// The tree of a scalar is that scalar; an unsigned number that fits is the
/// signed one of the same value.
pub proof fn law_scalars_stand_for_themselves(b: bool, i: i64, u: u64, text: String)
    ensures
        Json::Null@ == JsonView::Null,
        Json::Bool(b)@ == JsonView::Bool(b),
        Json::Int(i)@ == JsonView::Int(i),
        u <= i64::MAX ==> Json::Uint(u)@ is Int && Json::Uint(u)@->Int_0 == u,
        u > i64::MAX ==> Json::Uint(u)@ == JsonView::Uint(u),
        Json::Str(text)@ == JsonView::Str(text@),
{
}

/// The tree of an array holds the items, each in its place.
pub proof fn law_arrays_keep_their_items(items: Vec<Json>, i: int)
    ensures
        Json::Array(items)@ is Array,
        Json::Array(items)@->Array_0.len() == items@.len(),
        0 <= i < items@.len() ==> Json::Array(items)@->Array_0[i] == items@[i]@,
{
}

/// Under a key stands the value of the last pair that has it.
pub proof fn law_the_last_pair_counts(pairs: Vec<(String, Json)>, i: int)
    requires
        0 <= i < pairs@.len(),
        forall|j: int| i < j < pairs@.len() ==> (#[trigger] pairs@[j]).0@ != pairs@[i].0@,
    ensures
        member_at(Json::Object(pairs)@, pairs@[i].0@) == Some(pairs@[i].1@),
{
    lemma_last_pair_counts(pairs@, i);
}

proof fn lemma_last_pair_counts(pairs: Seq<(String, Json)>, i: int)
    requires
        0 <= i < pairs.len(),
        forall|j: int| i < j < pairs.len() ==> (#[trigger] pairs[j]).0@ != pairs[i].0@,
    ensures
        members_of(pairs).contains_key(pairs[i].0@),
        members_of(pairs)[pairs[i].0@] == pairs[i].1@,
    decreases pairs.len(),
{
    let front = pairs.drop_last();
    if i < pairs.len() - 1 {
        assert(pairs[pairs.len() - 1].0@ != pairs[i].0@);
        assert forall|j: int| i < j < front.len() implies (#[trigger] front[j]).0@
            != front[i].0@ by {
            assert(front[j] == pairs[j]);
        }
        lemma_last_pair_counts(front, i);
    }
}

/// A key that no pair has is no key of the object.
pub proof fn law_no_other_members(pairs: Vec<(String, Json)>, key: Seq<char>)
    requires
        forall|i: int| 0 <= i < pairs@.len() ==> (#[trigger] pairs@[i]).0@ != key,
    ensures
        Json::Object(pairs)@ is Object,
        member_at(Json::Object(pairs)@, key) is None,
{
    lemma_no_other_members(pairs@, key);
}

proof fn lemma_no_other_members(pairs: Seq<(String, Json)>, key: Seq<char>)
    requires
        forall|i: int| 0 <= i < pairs.len() ==> (#[trigger] pairs[i]).0@ != key,
    ensures
        !members_of(pairs).contains_key(key),
    decreases pairs.len(),
{
    if pairs.len() > 0 {
        let front = pairs.drop_last();
        assert forall|i: int| 0 <= i < front.len() implies (#[trigger] front[i]).0@ != key by {
            assert(front[i] == pairs[i]);
        }
        lemma_no_other_members(front, key);
        assert(pairs[pairs.len() - 1].0@ != key);
    }
}

/// Scalars other than real numbers can be read back at any depth; an array or
/// an object can where each of its values can one level further down, and at
/// least 127 levels are read.
pub proof fn law_what_can_be_read_back(depth: nat, items: Seq<JsonView>, members: Map<
    Seq<char>,
    JsonView,
>, b: bool, i: i64, u: u64, text: Seq<char>)
    ensures
        READ_DEPTH == 127,
        JsonView::Null.is_integral(depth),
        JsonView::Bool(b).is_integral(depth),
        JsonView::Int(i).is_integral(depth),
        JsonView::Uint(u).is_integral(depth),
        JsonView::Str(text).is_integral(depth),
        (forall|k: int| 0 <= k < items.len() ==> (#[trigger] items[k]).is_integral(depth))
            ==> JsonView::Array(items).is_integral(depth + 1),
        (forall|key: Seq<char>| #[trigger]
            members.contains_key(key) ==> members[key].is_integral(depth)) ==> JsonView::Object(
            members,
        ).is_integral(depth + 1),
{
}

// ---------------------------------------------------------------------------
// Events
// ---------------------------------------------------------------------------

/// A delta is seen as what it is, with its id and its text.
pub proof fn law_deltas_are_seen_whole(item_id: String, delta: String)
    ensures
        ({
            let seen = NormalizedEvent::AgentTextDelta { item_id, delta }@;
            &&& seen is AgentTextDelta
            &&& seen->AgentTextDelta_item_id == item_id@
            &&& seen->AgentTextDelta_delta == delta@
        }),
        ({
            let seen = NormalizedEvent::ReasoningTextDelta { item_id, delta }@;
            &&& seen is ReasoningTextDelta
            &&& seen->ReasoningTextDelta_item_id == item_id@
            &&& seen->ReasoningTextDelta_delta == delta@
        }),
{
}

/// A message is seen with all its parts, each in its place.
pub proof fn law_messages_are_seen_whole(
    partial: bool,
    stop_reason: Option<String>,
    content: Vec<NormalizedContent>,
    i: int,
)
    ensures
        ({
            let seen = NormalizedEvent::AssistantMessage { partial, stop_reason, content }@;
            &&& seen is AssistantMessage
            &&& seen->partial == partial
            &&& seen->stop_reason is Some <==> stop_reason is Some
            &&& stop_reason matches Some(reason) ==> seen->stop_reason == Some(reason@)
            &&& seen->content.len() == content@.len()
            &&& 0 <= i < content@.len() ==> match content@[i] {
                NormalizedContent::AgentText { item_id, text } => seen->content[i] == (
                ContentView::AgentText { item_id: item_id@, text: text@ }),
                NormalizedContent::ToolUse { raw_id, tool, arguments } => seen->content[i] == (
                ContentView::ToolUse { raw_id: raw_id@, tool: tool@, arguments: arguments@ }),
            }
        }),
{
}

/// Tool results are seen with all that they say, each in its place.
pub proof fn law_tool_results_are_seen_whole(results: Vec<NormalizedToolResult>, i: int)
    ensures
        ({
            let seen = NormalizedEvent::ToolResults(results)@;
            &&& seen is ToolResults
            &&& seen->ToolResults_0.len() == results@.len()
            &&& 0 <= i < results@.len() ==> {
                &&& seen->ToolResults_0[i].tool_use_id == results@[i].tool_use_id@
                &&& seen->ToolResults_0[i].content == results@[i].content@
                &&& seen->ToolResults_0[i].is_error == results@[i].is_error
                &&& seen->ToolResults_0[i].exit_code == results@[i].exit_code
            }
        }),
{
}

/// A usage is seen with each of its counts.
pub proof fn law_usage_is_seen_whole(usage: NormalizedTokenUsage)
    ensures
        ({
            let seen = NormalizedEvent::TokenUsage { usage }@;
            &&& seen is TokenUsage
            &&& seen->usage.input_tokens == usage.input_tokens
            &&& seen->usage.output_tokens == usage.output_tokens
            &&& seen->usage.cache_creation_input_tokens == usage.cache_creation_input_tokens
            &&& seen->usage.cache_read_input_tokens == usage.cache_read_input_tokens
            &&& seen->usage.reasoning_output_tokens == usage.reasoning_output_tokens
            &&& seen->usage.total_tokens == usage.total_tokens
            &&& seen->usage.model is Some <==> usage.model is Some
            &&& usage.model matches Some(model) ==> seen->usage.model == Some(model@)
        }),
{
}

/// A result is seen with its error.
pub proof fn law_results_are_seen_whole(error: Option<String>)
    ensures
        ({
            let seen = NormalizedEvent::Result { error }@;
            &&& seen is Result
            &&& seen->error is Some <==> error is Some
            &&& error matches Some(error) ==> seen->error == Some(error@)
        }),
{
}

/// A list of events is seen with all its events, each in its place.
pub proof fn law_events_are_seen_in_order(events: Seq<NormalizedEvent>, i: int)
    ensures
        event_views(events).len() == events.len(),
        0 <= i < events.len() ==> event_views(events)[i] == events[i]@,
{
}

// ---------------------------------------------------------------------------
// Texts
// ---------------------------------------------------------------------------

/// Whether every character is white space.
pub open spec fn is_blank(text: Seq<char>) -> bool {
    forall|i: int| 0 <= i < text.len() ==> is_white_space(#[trigger] text[i])
}

proof fn lemma_leading_space(text: Seq<char>) -> (start: int)
    ensures
        0 <= start <= text.len(),
        is_blank(text.take(start)),
        without_leading_space(text) == text.skip(start),
        start < text.len() ==> !is_white_space(text[start]),
    decreases text.len(),
{
    if text.len() > 0 && is_white_space(text[0]) {
        let rest = lemma_leading_space(text.drop_first());
        let start = rest + 1;
        assert forall|i: int| 0 <= i < start implies is_white_space(
            #[trigger] text.take(start)[i],
        ) by {
            if i > 0 {
                assert(text.drop_first().take(rest)[i - 1] == text[i]);
            }
        }
        assert(text.drop_first().skip(rest) =~= text.skip(start));
        start
    } else {
        assert(text.skip(0) =~= text);
        0
    }
}

proof fn lemma_trailing_space(text: Seq<char>) -> (end: int)
    ensures
        0 <= end <= text.len(),
        is_blank(text.skip(end)),
        without_trailing_space(text) == text.take(end),
        end > 0 ==> !is_white_space(text[end - 1]),
    decreases text.len(),
{
    if text.len() > 0 && is_white_space(text.last()) {
        let front = text.drop_last();
        let end = lemma_trailing_space(front);
        assert forall|i: int| 0 <= i < text.skip(end).len() implies is_white_space(
            #[trigger] text.skip(end)[i],
        ) by {
            if end + i < front.len() {
                assert(front.skip(end)[i] == text[end + i]);
            }
        }
        assert(front.take(end) =~= text.take(end));
        end
    } else {
        assert(text.take(text.len() as int) =~= text);
        text.len() as int
    }
}

/// Trimming takes white space off both ends and nothing else: what is left
/// neither begins nor ends with any, and the text is blank before and behind it.
pub proof fn law_trimming_takes_outer_space_alone(text: Seq<char>) -> (place: (int, int))
    ensures
        0 <= place.0 <= place.1 <= text.len(),
        trimmed(text) == text.subrange(place.0, place.1),
        is_blank(text.subrange(0, place.0)),
        is_blank(text.subrange(place.1, text.len() as int)),
        place.0 < place.1 ==> !is_white_space(text[place.0]) && !is_white_space(text[place.1 - 1]),
{
    let start = lemma_leading_space(text);
    let rest = text.skip(start);
    let length = lemma_trailing_space(rest);
    let end = start + length;
    assert(rest.take(length) =~= text.subrange(start, end));
    assert(text.take(start) =~= text.subrange(0, start));
    assert(rest.skip(length) =~= text.subrange(end, text.len() as int));
    if length > 0 {
        assert(rest[length - 1] == text[end - 1]);
    }
    (start, end)
}

/// A text that neither begins nor ends with white space is trimmed already.
pub proof fn law_bare_text_is_trimmed(text: Seq<char>)
    requires
        text.len() > 0 ==> !is_white_space(text[0]) && !is_white_space(text.last()),
    ensures
        trimmed(text) == text,
{
}

/// White space is what Unicode calls so: twenty-five characters.
pub proof fn law_white_space(c: char)
    ensures
        is_white_space(c) <==> ('\t' <= c <= '\r' || c == ' ' || c == '\u{85}' || c == '\u{a0}' || c
            == '\u{1680}' || '\u{2000}' <= c <= '\u{200a}' || '\u{2028}' <= c <= '\u{2029}' || c
            == '\u{202f}' || c == '\u{205f}' || c == '\u{3000}'),
{
}

/// A line that comes in is passed over where it is blank; of any other the
/// trimmed text is taken.
pub proof fn law_lines_are_taken_trimmed(line: &str, content: Option<String>)
    requires
        call_ensures(input_content, (line,), content),
    ensures
        content is None <==> is_blank(line@),
        content matches Some(text) ==> text@ == trimmed(line@),
{
    let place = law_trimming_takes_outer_space_alone(line@);
    if is_blank(line@) && place.0 < place.1 {
        assert(is_white_space(line@[place.0]));
    }
    if place.0 == place.1 {
        assert forall|i: int| 0 <= i < line@.len() implies is_white_space(#[trigger] line@[i]) by {
            if i < place.0 {
                assert(line@.subrange(0, place.0)[i] == line@[i]);
            } else {
                assert(line@.subrange(place.1, line@.len() as int)[i - place.1] == line@[i]);
            }
        }
    }
}

/// The number that a numeral stands for.
pub open spec fn numeral_value(numeral: Seq<char>) -> int
    decreases numeral.len(),
{
    if numeral.len() == 0 {
        0
    } else {
        numeral_value(numeral.drop_last()) * 10 + (numeral.last() as u32 - '0' as u32)
    }
}

/// The numeral of a number is made of digits, stands for the number, and has no
/// zero in front but where it is the numeral of zero.
pub proof fn law_numerals_have_their_value(n: nat)
    ensures
        numeral_value(decimal(n)) == n,
        forall|i: int| 0 <= i < decimal(n).len() ==> '0' <= #[trigger] decimal(n)[i] <= '9',
        decimal(n).len() > 0,
        n > 0 ==> decimal(n)[0] != '0',
    decreases n,
{
    if n < 10 {
        assert(decimal(n).drop_last() =~= Seq::empty());
        assert(numeral_value(Seq::empty()) == 0);
        assert(decimal(n).last() == digit(n));
    } else {
        law_numerals_have_their_value(n / 10);
        assert(decimal(n).drop_last() =~= decimal(n / 10));
        assert(decimal(n).last() == digit(n % 10));
        assert(decimal(n)[0] == decimal(n / 10)[0]);
    }
}

/// Changing the case of ASCII letters keeps every other character and its
/// place, and each change undoes the other.
pub proof fn law_case_changes_letters_alone(text: Seq<char>, i: int)
    requires
        0 <= i < text.len(),
    ensures
        ascii_lowercase(text).len() == text.len(),
        ascii_uppercase(text).len() == text.len(),
        ascii_lowercase(text)[i] == text[i] <==> !('A' <= text[i] <= 'Z'),
        'A' <= text[i] <= 'Z' ==> ascii_lowercase(text)[i] as u32 - 'a' as u32 == text[i] as u32
            - 'A' as u32,
        ascii_uppercase(text)[i] == text[i] <==> !('a' <= text[i] <= 'z'),
        'a' <= text[i] <= 'z' ==> ascii_uppercase(text)[i] as u32 - 'A' as u32 == text[i] as u32
            - 'a' as u32,
{
    assert(ascii_lowercase(text)[i] == ascii_lower(text[i]));
    assert(ascii_uppercase(text)[i] == ascii_upper(text[i]));
}

} // verus!
