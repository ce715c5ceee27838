//! The frames of the agent's RPC stream and the events that they stand for.
//!
//! - `message_update` `text_delta`: a piece of the answer
//! - `message_update` `thinking_delta`: a piece of the reasoning
//! - `tool_execution_start`: a tool call
//! - `tool_execution_end`: the result of a tool call
//! - assistant `message_end`: the tokens used and the whole text of a message
//! - `error` and a failed `response`: the error of the turn
//! - `agent_settled`: the end of the turn

use vstd::prelude::*;
use vstd::string::*;

use crate::events::{
    ContentView, EventView, NormalizedContent, NormalizedEvent, NormalizedTokenUsage,
    NormalizedToolResult, ToolResultView, UsageView, event_views,
};
use crate::json::{
    Json, JsonView, READ_DEPTH, json_text, members_of, option_json, parse_json, parsed_json,
};
use crate::text::{concat2, decimal, push_decimal, text_eq, trim, trimmed};

verus! {

/// What is kept over the frames of one turn: the number of assistant messages
/// that have begun. The agent sends several in a turn, one for each round of
/// the model.
#[derive(Debug)]
pub struct PiTurnState {
    pub assistant_messages: u64,
}

impl Default for PiTurnState {
    /// The state in which a turn begins: no message yet.
    fn default() -> (state: Self)
        ensures
            state.assistant_messages == 0,
    {
        PiTurnState { assistant_messages: 0 }
    }
}

/// The item id of the answer of round `round` in turn `turn`.
pub open spec fn message_id(turn: nat, round: nat) -> Seq<char> {
    "pi-msg-"@ + decimal(turn) + "-"@ + decimal(round)
}

/// The item id of the reasoning of round `round` in turn `turn`.
pub open spec fn thinking_id(turn: nat, round: nat) -> Seq<char> {
    "pi-thinking-"@ + decimal(turn) + "-"@ + decimal(round)
}

fn item_id(prefix: &str, turn: u64, round: u64) -> (id: String)
    ensures
        id@ == prefix@ + decimal(turn as nat) + "-"@ + decimal(round as nat),
{
    let mut id = prefix.to_owned();
    push_decimal(&mut id, turn);
    id.append("-");
    push_decimal(&mut id, round);
    id
}

impl PiTurnState {
    /// The item id that the deltas and the whole text of the current message
    /// share.
    pub fn message_item_id(&self, turn: u64) -> (id: String)
        ensures
            id@ == message_id(turn as nat, self.assistant_messages as nat),
    {
        item_id("pi-msg-", turn, self.assistant_messages)
    }

    /// The item id of the reasoning of the current message.
    pub fn thinking_item_id(&self, turn: u64) -> (id: String)
        ensures
            id@ == thinking_id(turn as nat, self.assistant_messages as nat),
    {
        item_id("pi-thinking-", turn, self.assistant_messages)
    }
}

/// The text, or the empty one where there is none.
pub open spec fn or_empty(text: Option<Seq<char>>) -> Seq<char> {
    match text {
        Some(text) => text,
        None => Seq::empty(),
    }
}

/// The value, or null where there is none.
pub open spec fn or_null(json: Option<JsonView>) -> JsonView {
    match json {
        Some(json) => json,
        None => JsonView::Null,
    }
}

/// The characters of a string that is not empty, or else `fallback`.
pub open spec fn text_or(value: Option<JsonView>, fallback: Seq<char>) -> Seq<char> {
    let text = or_empty(or_null(value).as_str());
    if text.len() > 0 {
        text
    } else {
        fallback
    }
}

/// The text of a string that is not empty, or else `fallback`.
pub fn string_or(value: Option<&Json>, fallback: &str) -> (result: String)
    ensures
        result@ == text_or(option_json(value), fallback@),
{
    match value {
        Some(json) => match json.as_str() {
            Some(text) => {
                if text.is_empty() {
                    fallback.to_owned()
                } else {
                    text.to_owned()
                }
            },
            None => fallback.to_owned(),
        },
        None => fallback.to_owned(),
    }
}

/// What one part of a content list adds to the text: the text of a part of
/// type `text`, nothing for the others.
pub open spec fn part_text(part: JsonView) -> Seq<char> {
    if part.get_str("type"@) == Some("text"@) {
        or_empty(part.get_str("text"@))
    } else {
        Seq::empty()
    }
}

/// The texts of the parts, one behind the other.
pub open spec fn joined_text(parts: Seq<JsonView>) -> Seq<char>
    decreases parts.len(),
{
    if parts.len() == 0 {
        Seq::empty()
    } else {
        joined_text(parts.drop_last()) + part_text(parts.last())
    }
}

/// The text of a value with a `content` list; empty where it has none.
pub open spec fn content_text(holder: JsonView) -> Seq<char> {
    match holder.get_array("content"@) {
        Some(parts) => joined_text(parts),
        None => Seq::empty(),
    }
}

/// The text of the `content` list of `holder`.
pub fn text_of_content(holder: &Json) -> (result: String)
    ensures
        result@ == content_text(holder@),
{
    let mut out = String::new();
    if let Some(content) = holder.get("content") {
        if let Some(parts) = content.as_array() {
            let ghost views = content@->Array_0;
            let mut i: usize = 0;
            while i < parts.len()
                invariant
                    i <= parts.len(),
                    views.len() == parts@.len(),
                    forall|k: int| 0 <= k < parts@.len() ==> views[k] == (#[trigger] parts@[k])@,
                    out@ == joined_text(views.take(i as int)),
                decreases parts.len() - i,
            {
                let part = &parts[i];
                proof {
                    assert(views.take(i + 1).drop_last() =~= views.take(i as int));
                    assert(views.take(i + 1).last() == part@);
                }
                if let Some(kind) = part.get_str("type") {
                    if text_eq(kind, "text") {
                        if let Some(text) = part.get_str("text") {
                            out.append(text);
                        }
                    }
                }
                assert(out@ =~= joined_text(views.take(i + 1)));
                i = i + 1;
            }
            assert(views.take(views.len() as int) =~= views);
        }
    }
    out
}

/// What a tool result says without being written out as JSON: the texts of its
/// content list where they come to something, or else the string that it is,
/// or else nothing if it is null.
pub open spec fn plain_result(result: JsonView) -> Option<Seq<char>> {
    if content_text(result).len() > 0 {
        Some(content_text(result))
    } else {
        match result {
            JsonView::Str(text) => Some(text),
            JsonView::Null => Some(Seq::empty()),
            _ => None,
        }
    }
}

/// The text of a tool result that needs no writing out as JSON.
pub fn plain_result_text(result: &Json) -> (text: Option<String>)
    ensures
        text.deep_view() == plain_result(result@),
{
    let joined = text_of_content(result);
    if !joined.as_str().is_empty() {
        return Some(joined);
    }
    match result.as_str() {
        Some(text) => Some(text.to_owned()),
        None => {
            if result.is_null() {
                Some(String::new())
            } else {
                None
            }
        },
    }
}

/// The text of a tool result: what it says plainly, or else its JSON.
pub open spec fn result_text(result: Option<JsonView>) -> Seq<char> {
    match result {
        None => Seq::empty(),
        Some(result) => match plain_result(result) {
            Some(text) => text,
            None => json_text(result),
        },
    }
}

/// The text of a tool result. A result carries a list of content parts; other
/// shapes are written out as JSON rather than dropped, so that nothing but no
/// result, null and the empty string reads as empty. What is written out can be
/// read back, where all its numbers are integers.
pub fn tool_result_text(result: Option<&Json>) -> (text: String)
    ensures
        text@ == result_text(option_json(result)),
        text@.len() == 0 <==> (match option_json(result) {
            None => true,
            Some(JsonView::Null) => true,
            Some(JsonView::Str(string)) => string.len() == 0,
            _ => false,
        }),
        result matches Some(json) ==> (plain_result(json@) is None && json@.is_integral(
            READ_DEPTH as nat,
        ) ==> parsed_json(text@) == Some(json@)),
{
    match result {
        None => String::new(),
        Some(result) => match plain_result_text(result) {
            Some(text) => text,
            None => result.to_text(),
        },
    }
}

/// The tokens that an assistant message reports; none where it reports no
/// count.
pub open spec fn message_usage(message: JsonView) -> Option<UsageView> {
    match message.get("usage"@) {
        None => None,
        Some(counts) => {
            let usage = UsageView {
                model: message.get_str("model"@),
                input_tokens: counts.get_i64("input"@),
                output_tokens: counts.get_i64("output"@),
                cache_creation_input_tokens: counts.get_i64("cacheWrite"@),
                cache_read_input_tokens: counts.get_i64("cacheRead"@),
                reasoning_output_tokens: counts.get_i64("reasoning"@),
                total_tokens: counts.get_i64("totalTokens"@),
            };
            if usage.has_counts() {
                Some(usage)
            } else {
                None
            }
        },
    }
}

/// The tokens that an assistant message reports.
pub fn normalize_usage(message: &Json) -> (usage: Option<NormalizedTokenUsage>)
    ensures
        (match usage {
            Some(usage) => Some(usage@),
            None => None,
        }) == message_usage(message@),
{
    let counts = match message.get("usage") {
        Some(counts) => counts,
        None => {
            return None;
        },
    };
    let usage = NormalizedTokenUsage {
        model: match message.get_str("model") {
            Some(model) => Some(model.to_owned()),
            None => None,
        },
        input_tokens: counts.get_i64("input"),
        output_tokens: counts.get_i64("output"),
        cache_creation_input_tokens: counts.get_i64("cacheWrite"),
        cache_read_input_tokens: counts.get_i64("cacheRead"),
        reasoning_output_tokens: counts.get_i64("reasoning"),
        total_tokens: counts.get_i64("totalTokens"),
    };
    if usage.has_counts() {
        Some(usage)
    } else {
        None
    }
}

/// The type of a frame; empty where it has none.
pub open spec fn frame_kind(frame: JsonView) -> Seq<char> {
    or_empty(frame.get_str("type"@))
}

/// Whether the frame begins an assistant message.
pub open spec fn begins_assistant(frame: JsonView) -> bool {
    &&& frame_kind(frame) == "message_start"@
    &&& or_null(frame.get("message"@)).get_str("role"@) == Some("assistant"@)
}

/// The events of a `message_update` frame.
pub open spec fn update_events(turn: nat, round: nat, frame: JsonView) -> Seq<EventView> {
    let update = or_null(frame.get("assistantMessageEvent"@));
    let delta = or_empty(update.get_str("delta"@));
    if delta.len() == 0 {
        Seq::empty()
    } else if update.get_str("type"@) == Some("text_delta"@) {
        seq![EventView::AgentTextDelta { item_id: message_id(turn, round), delta }]
    } else if update.get_str("type"@) == Some("thinking_delta"@) {
        seq![EventView::ReasoningTextDelta { item_id: thinking_id(turn, round), delta }]
    } else {
        Seq::empty()
    }
}

/// The stop reason of an assistant message: `end_turn` where the model stopped
/// by itself, open otherwise.
pub open spec fn stop_reason(message: JsonView) -> Option<Seq<char>> {
    if message.get_str("stopReason"@) == Some("stop"@) {
        Some("end_turn"@)
    } else {
        None
    }
}

/// The events of a `message_end` frame: for an assistant message its usage and
/// then its text, each where there is any.
pub open spec fn end_events(turn: nat, round: nat, frame: JsonView) -> Seq<EventView> {
    let message = or_null(frame.get("message"@));
    let text = content_text(message);
    let usage_part: Seq<EventView> = match message_usage(message) {
        Some(usage) => seq![EventView::TokenUsage { usage }],
        None => Seq::empty(),
    };
    let text_part: Seq<EventView> = if text.len() > 0 {
        seq![
            EventView::AssistantMessage {
                partial: false,
                stop_reason: stop_reason(message),
                content: seq![ContentView::AgentText { item_id: message_id(turn, round), text }],
            },
        ]
    } else {
        Seq::empty()
    };
    if message.get_str("role"@) == Some("assistant"@) {
        usage_part + text_part
    } else {
        Seq::empty()
    }
}

/// The event of a `tool_execution_start` frame.
pub open spec fn tool_use_event(frame: JsonView) -> EventView {
    EventView::AssistantMessage {
        partial: false,
        stop_reason: None,
        content: seq![
            ContentView::ToolUse {
                raw_id: text_or(frame.get("toolCallId"@), "tool"@),
                tool: text_or(frame.get("toolName"@), "tool"@),
                arguments: match frame.get("args"@) {
                    Some(arguments) => arguments,
                    None => JsonView::Object(Map::empty()),
                },
            },
        ],
    }
}

/// The event of a `tool_execution_end` frame.
pub open spec fn tool_result_event(frame: JsonView) -> EventView {
    EventView::ToolResults(
        seq![
            ToolResultView {
                tool_use_id: text_or(frame.get("toolCallId"@), "tool"@),
                content: result_text(frame.get("result"@)),
                is_error: frame.get_bool("isError"@) == Some(true),
                exit_code: None,
            },
        ],
    )
}

/// The message of a failed response.
pub open spec fn response_error(frame: JsonView) -> Seq<char> {
    "pi "@ + text_or(frame.get("command"@), "command"@) + " failed: "@ + text_or(
        frame.get("error"@),
        "request failed"@,
    )
}

/// The events that a frame stands for, in round `round` of turn `turn`.
pub open spec fn frame_events(turn: nat, round: nat, frame: JsonView) -> Seq<EventView> {
    let kind = frame_kind(frame);
    if kind == "message_update"@ {
        update_events(turn, round, frame)
    } else if kind == "message_end"@ {
        end_events(turn, round, frame)
    } else if kind == "tool_execution_start"@ {
        seq![tool_use_event(frame)]
    } else if kind == "tool_execution_end"@ {
        seq![tool_result_event(frame)]
    } else if kind == "error"@ {
        seq![EventView::Result { error: Some(text_or(frame.get("message"@), "pi turn failed"@)) }]
    } else if kind == "response"@ {
        if frame.get_bool("success"@) == Some(false) {
            seq![EventView::Result { error: Some(response_error(frame)) }]
        } else {
            Seq::empty()
        }
    } else if kind == "agent_settled"@ {
        seq![EventView::Result { error: None }]
    } else {
        Seq::empty()
    }
}

/// The round that a frame leaves: one more where it begins an assistant
/// message.
pub open spec fn next_round(round: nat, frame: JsonView) -> nat {
    if begins_assistant(frame) {
        round + 1
    } else {
        round
    }
}

/// The kinds of frames that matter are not empty and differ from one another:
/// two of them in their first letter, all others in their length.
pub proof fn lemma_frame_kinds()
    ensures
        "message_start"@.len() == 13,
        "message_update"@.len() == 14,
        "message_end"@.len() == 11,
        "tool_execution_start"@.len() == 20,
        "tool_execution_end"@.len() == 18,
        "error"@.len() == 5,
        "response"@.len() == 8,
        "agent_settled"@.len() == 13,
        "message_start"@ != "agent_settled"@,
{
    reveal_strlit("message_start");
    reveal_strlit("message_update");
    reveal_strlit("message_end");
    reveal_strlit("tool_execution_start");
    reveal_strlit("tool_execution_end");
    reveal_strlit("error");
    reveal_strlit("response");
    reveal_strlit("agent_settled");
    assert("message_start"@[0] == 'm');
    assert("agent_settled"@[0] == 'a');
}

/// Whether the frame begins an assistant message.
pub fn begins_assistant_message(frame: &Json) -> (result: bool)
    ensures
        result == begins_assistant(frame@),
{
    match frame.get_str("type") {
        Some(kind) => {
            if !text_eq(kind, "message_start") {
                return false;
            }
        },
        None => {
            proof {
                lemma_frame_kinds();
            }
            return false;
        },
    }
    match frame.get("message") {
        Some(message) => match message.get_str("role") {
            Some(role) => text_eq(role, "assistant"),
            None => false,
        },
        None => false,
    }
}

fn normalize_update(turn: u64, state: &PiTurnState, frame: &Json) -> (events: Vec<NormalizedEvent>)
    ensures
        event_views(events@) == update_events(turn as nat, state.assistant_messages as nat, frame@),
{
    let mut events: Vec<NormalizedEvent> = Vec::new();
    if let Some(update) = frame.get("assistantMessageEvent") {
        if let Some(delta) = update.get_str("delta") {
            if !delta.is_empty() {
                if let Some(kind) = update.get_str("type") {
                    if text_eq(kind, "text_delta") {
                        events.push(
                            NormalizedEvent::AgentTextDelta {
                                item_id: state.message_item_id(turn),
                                delta: delta.to_owned(),
                            },
                        );
                    } else if text_eq(kind, "thinking_delta") {
                        events.push(
                            NormalizedEvent::ReasoningTextDelta {
                                item_id: state.thinking_item_id(turn),
                                delta: delta.to_owned(),
                            },
                        );
                    }
                }
            }
        }
    }
    assert(event_views(events@) =~= update_events(turn as nat, state.assistant_messages as nat, frame@));
    events
}

fn normalize_end(turn: u64, state: &PiTurnState, frame: &Json) -> (events: Vec<NormalizedEvent>)
    ensures
        event_views(events@) == end_events(turn as nat, state.assistant_messages as nat, frame@),
{
    let mut events: Vec<NormalizedEvent> = Vec::new();
    if let Some(message) = frame.get("message") {
        let from_assistant = match message.get_str("role") {
            Some(role) => text_eq(role, "assistant"),
            None => false,
        };
        if from_assistant {
            if let Some(usage) = normalize_usage(message) {
                events.push(NormalizedEvent::TokenUsage { usage });
            }
            let text = text_of_content(message);
            if !text.as_str().is_empty() {
                let stopped = match message.get_str("stopReason") {
                    Some(reason) => text_eq(reason, "stop"),
                    None => false,
                };
                let mut content: Vec<NormalizedContent> = Vec::new();
                content.push(
                    NormalizedContent::AgentText { item_id: state.message_item_id(turn), text },
                );
                let event = NormalizedEvent::AssistantMessage {
                    partial: false,
                    stop_reason: if stopped {
                        Some("end_turn".to_owned())
                    } else {
                        None
                    },
                    content,
                };
                assert(event@->content =~= seq![content@[0]@]);
                events.push(event);
            }
        }
    }
    assert(event_views(events@) =~= end_events(turn as nat, state.assistant_messages as nat, frame@));
    events
}

fn normalize_tool_use(frame: &Json) -> (event: NormalizedEvent)
    ensures
        event@ == tool_use_event(frame@),
{
    let arguments = match frame.get("args") {
        Some(arguments) => arguments.copy(),
        None => {
            let pairs: Vec<(String, Json)> = Vec::new();
            assert(members_of(pairs@) == Map::<Seq<char>, JsonView>::empty());
            Json::Object(pairs)
        },
    };
    let mut content: Vec<NormalizedContent> = Vec::new();
    content.push(
        NormalizedContent::ToolUse {
            raw_id: string_or(frame.get("toolCallId"), "tool"),
            tool: string_or(frame.get("toolName"), "tool"),
            arguments,
        },
    );
    let event = NormalizedEvent::AssistantMessage { partial: false, stop_reason: None, content };
    assert(event@->content =~= tool_use_event(frame@)->content);
    event
}

fn normalize_tool_result(frame: &Json) -> (event: NormalizedEvent)
    ensures
        event@ == tool_result_event(frame@),
{
    let mut results: Vec<NormalizedToolResult> = Vec::new();
    results.push(
        NormalizedToolResult {
            tool_use_id: string_or(frame.get("toolCallId"), "tool"),
            content: tool_result_text(frame.get("result")),
            is_error: match frame.get_bool("isError") {
                Some(is_error) => is_error,
                None => false,
            },
            exit_code: None,
        },
    );
    let event = NormalizedEvent::ToolResults(results);
    assert(event@->ToolResults_0 =~= tool_result_event(frame@)->ToolResults_0);
    event
}

fn failed_response(frame: &Json) -> (message: String)
    ensures
        message@ == response_error(frame@),
{
    let command = string_or(frame.get("command"), "command");
    let error = string_or(frame.get("error"), "request failed");
    let mut message = concat2("pi ", command.as_str());
    message.append(" failed: ");
    message.append(error.as_str());
    message
}

/// Translates one frame into events. `agent_settled` is the frame that ends a
/// turn; an error is kept until then.
pub fn normalize_pi_frame(turn: u64, state: &mut PiTurnState, frame: &Json) -> (events: Vec<
    NormalizedEvent,
>)
    requires
        begins_assistant(frame@) ==> old(state).assistant_messages < u64::MAX,
    ensures
        event_views(events@) == frame_events(
            turn as nat,
            old(state).assistant_messages as nat,
            frame@,
        ),
        final(state).assistant_messages == next_round(
            old(state).assistant_messages as nat,
            frame@,
        ),
{
    proof {
        lemma_frame_kinds();
    }
    let kind = match frame.get_str("type") {
        Some(kind) => kind,
        None => {
            let events: Vec<NormalizedEvent> = Vec::new();
            assert(event_views(events@) =~= Seq::empty());
            return events;
        },
    };
    let mut events: Vec<NormalizedEvent> = Vec::new();
    if text_eq(kind, "message_start") {
        if begins_assistant_message(frame) {
            state.assistant_messages = state.assistant_messages + 1;
        }
    } else if text_eq(kind, "message_update") {
        return normalize_update(turn, state, frame);
    } else if text_eq(kind, "message_end") {
        return normalize_end(turn, state, frame);
    } else if text_eq(kind, "tool_execution_start") {
        events.push(normalize_tool_use(frame));
    } else if text_eq(kind, "tool_execution_end") {
        events.push(normalize_tool_result(frame));
    } else if text_eq(kind, "error") {
        let message = string_or(frame.get("message"), "pi turn failed");
        events.push(NormalizedEvent::Result { error: Some(message) });
    } else if text_eq(kind, "response") {
        let failed = match frame.get_bool("success") {
            Some(success) => !success,
            None => false,
        };
        if failed {
            events.push(NormalizedEvent::Result { error: Some(failed_response(frame)) });
        }
    } else if text_eq(kind, "agent_settled") {
        events.push(NormalizedEvent::Result { error: None });
    }
    assert(event_views(events@) =~= frame_events(
            turn as nat,
            old(state).assistant_messages as nat,
            frame@,
        ));
    events
}

/// Reads a line of the agent's stream as a frame; `None` where the line is no
/// JSON.
pub fn read_frame(line: &str) -> (frame: Option<Json>)
    ensures
        (match frame {
            Some(frame) => Some(frame@),
            None => None,
        }) == parsed_json(trimmed(line@)),
{
    parse_json(trim(line))
}

} // verus!
