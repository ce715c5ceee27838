//! What becomes of each kind of frame, stated of the members of the frame and
//! of the events that come out.

use vstd::prelude::*;

use crate::events::{EventView, NormalizedEvent, NormalizedTokenUsage, ends_turn};
use crate::frame::{
    PiTurnState, begins_assistant_message, content_text, end_events, frame_events, joined_text,
    lemma_frame_kinds, message_id, message_usage, next_round, normalize_pi_frame, normalize_usage,
    part_text, plain_result_text, read_frame, result_text, string_or, text_of_content, thinking_id,
    tool_result_text, update_events,
};
use crate::json::{Json, JsonView, json_text, parsed_json};
use crate::laws::values::{count_at, flag_at, member_at, text_at};
use crate::laws::{
    all_let_run, events_of_frames, frames_of, law_running_turn_reports_every_frame, reported,
    round_after,
};
use crate::text::{decimal, trimmed};
use crate::turn::{Arrival, TurnPhase, TurnView};

verus! {

/// The type of a frame, where it has one.
pub open spec fn kind_of(frame: JsonView) -> Option<Seq<char>> {
    text_at(frame, "type"@)
}

/// Whether the frame says this of a message of the assistant.
pub open spec fn is_of_assistant(frame: JsonView, message: JsonView) -> bool {
    &&& member_at(frame, "message"@) == Some(message)
    &&& text_at(message, "role"@) == Some("assistant"@)
}

/// The string under the key, or the other text where there is none or it is
/// empty.
pub open spec fn named(json: JsonView, key: Seq<char>, other: Seq<char>) -> Seq<char> {
    match text_at(json, key) {
        Some(text) if text.len() > 0 => text,
        _ => other,
    }
}

// ---------------------------------------------------------------------------
// The function that translates
// ---------------------------------------------------------------------------

/// Translating a frame gives its events, each in its place, and counts the
/// message where it begins one.
pub proof fn law_a_frame_becomes_its_events(
    turn: u64,
    state: &mut PiTurnState,
    frame: &Json,
    events: Vec<NormalizedEvent>,
    i: int,
)
    requires
        call_ensures(normalize_pi_frame, (turn, state, frame), events),
    ensures
        events@.len() == frame_events(
            turn as nat,
            old(state).assistant_messages as nat,
            frame@,
        ).len(),
        0 <= i < events@.len() ==> events@[i]@ == frame_events(
            turn as nat,
            old(state).assistant_messages as nat,
            frame@,
        )[i],
        final(state).assistant_messages == next_round(
            old(state).assistant_messages as nat,
            frame@,
        ),
{
}

/// The ids of the current message, as the functions give them, and the state in
/// which a turn begins.
pub proof fn law_ids_are_given(
    state: &PiTurnState,
    turn: u64,
    answer: String,
    reasoning: String,
    fresh: PiTurnState,
)
    requires
        call_ensures(PiTurnState::message_item_id, (state, turn), answer),
        call_ensures(PiTurnState::thinking_item_id, (state, turn), reasoning),
        call_ensures(PiTurnState::default, (), fresh),
    ensures
        answer@ == "pi-msg-"@ + decimal(turn as nat) + "-"@ + decimal(
            state.assistant_messages as nat,
        ),
        reasoning@ == "pi-thinking-"@ + decimal(turn as nat) + "-"@ + decimal(
            state.assistant_messages as nat,
        ),
        fresh.assistant_messages == 0,
{
}

/// A line is read without the white space around it.
pub proof fn law_lines_are_read_trimmed(line: &str, frame: Option<Json>)
    requires
        call_ensures(read_frame, (line,), frame),
    ensures
        frame is Some <==> parsed_json(trimmed(line@)) is Some,
        frame matches Some(json) ==> parsed_json(trimmed(line@)) == Some(json@),
{
}

/// A string that is not empty is taken as it is; for anything else the fallback
/// stands in.
pub proof fn law_fallbacks_stand_in(value: Option<&Json>, fallback: &str, result: String)
    requires
        call_ensures(string_or, (value, fallback), result),
    ensures
        ({
            let text = match value {
                Some(json) => match json@ {
                    JsonView::Str(text) => text,
                    _ => Seq::empty(),
                },
                None => Seq::empty(),
            };
            result@ == (if text.len() > 0 {
                text
            } else {
                fallback@
            })
        }),
{
}

// ---------------------------------------------------------------------------
// Deltas
// ---------------------------------------------------------------------------

/// A text delta that is not empty becomes one delta of the answer, and a
/// thinking delta one of the reasoning, with the same characters.
pub proof fn law_deltas_are_verbatim(
    turn: nat,
    round: nat,
    frame: JsonView,
    update: JsonView,
    delta: Seq<char>,
)
    requires
        kind_of(frame) == Some("message_update"@),
        member_at(frame, "assistantMessageEvent"@) == Some(update),
        text_at(update, "delta"@) == Some(delta),
        delta.len() > 0,
    ensures
        ({
            let events = frame_events(turn, round, frame);
            &&& text_at(update, "type"@) == Some("text_delta"@) ==> {
                &&& events.len() == 1
                &&& events[0] is AgentTextDelta
                &&& events[0]->AgentTextDelta_delta == delta
                &&& events[0]->AgentTextDelta_item_id == message_id(turn, round)
            }
            &&& text_at(update, "type"@) == Some("thinking_delta"@) ==> {
                &&& events.len() == 1
                &&& events[0] is ReasoningTextDelta
                &&& events[0]->ReasoningTextDelta_delta == delta
                &&& events[0]->ReasoningTextDelta_item_id == thinking_id(turn, round)
            }
        }),
{
    reveal_strlit("text_delta");
    reveal_strlit("thinking_delta");
    assert("text_delta"@.len() == 10);
    assert("thinking_delta"@.len() == 14);
    assert(frame_events(turn, round, frame) == update_events(turn, round, frame));
}

/// An update without a delta, or with an empty one, or of another type says
/// nothing.
pub proof fn law_other_updates_are_silent(turn: nat, round: nat, frame: JsonView)
    requires
        kind_of(frame) == Some("message_update"@),
        ({
            let update = match member_at(frame, "assistantMessageEvent"@) {
                Some(update) => update,
                None => JsonView::Null,
            };
            ||| text_at(update, "delta"@) is None
            ||| text_at(update, "delta"@)->0.len() == 0
            ||| text_at(update, "type"@) != Some("text_delta"@) && text_at(update, "type"@) != Some(
                "thinking_delta"@,
            )
        }),
    ensures
        frame_events(turn, round, frame).len() == 0,
{
    assert(frame_events(turn, round, frame) == update_events(turn, round, frame));
}

/// The piece that a frame streams in updates of that type.
pub open spec fn piece(frame: JsonView, update_type: Seq<char>) -> Seq<char> {
    match member_at(frame, "assistantMessageEvent"@) {
        Some(update) if kind_of(frame) == Some("message_update"@) && text_at(update, "type"@)
            == Some(update_type) => match text_at(update, "delta"@) {
            Some(delta) => delta,
            None => Seq::empty(),
        },
        _ => Seq::empty(),
    }
}

/// The pieces that the frames stream, one behind the other.
pub open spec fn pieces(frames: Seq<JsonView>, update_type: Seq<char>) -> Seq<char>
    decreases frames.len(),
{
    if frames.len() == 0 {
        Seq::empty()
    } else {
        pieces(frames.drop_last(), update_type) + piece(frames.last(), update_type)
    }
}

/// The deltas of the answer among the events, one behind the other.
pub open spec fn streamed_answer(events: Seq<EventView>) -> Seq<char>
    decreases events.len(),
{
    if events.len() == 0 {
        Seq::empty()
    } else {
        streamed_answer(events.drop_last()) + (match events.last() {
            EventView::AgentTextDelta { delta, .. } => delta,
            _ => Seq::empty(),
        })
    }
}

/// The deltas of the reasoning among the events, one behind the other.
pub open spec fn streamed_reasoning(events: Seq<EventView>) -> Seq<char>
    decreases events.len(),
{
    if events.len() == 0 {
        Seq::empty()
    } else {
        streamed_reasoning(events.drop_last()) + (match events.last() {
            EventView::ReasoningTextDelta { delta, .. } => delta,
            _ => Seq::empty(),
        })
    }
}

proof fn lemma_streamed_joins(first: Seq<EventView>, second: Seq<EventView>)
    ensures
        streamed_answer(first + second) == streamed_answer(first) + streamed_answer(second),
        streamed_reasoning(first + second) == streamed_reasoning(first) + streamed_reasoning(
            second,
        ),
    decreases second.len(),
{
    if second.len() == 0 {
        assert(first + second =~= first);
        assert(streamed_answer(first) + streamed_answer(second) =~= streamed_answer(first));
        assert(streamed_reasoning(first) + streamed_reasoning(second) =~= streamed_reasoning(
            first,
        ));
    } else {
        lemma_streamed_joins(first, second.drop_last());
        assert((first + second).drop_last() =~= first + second.drop_last());
        assert(streamed_answer(first + second) =~= streamed_answer(first) + streamed_answer(
            second,
        ));
        assert(streamed_reasoning(first + second) =~= streamed_reasoning(first)
            + streamed_reasoning(second));
    }
}

proof fn lemma_no_deltas(events: Seq<EventView>)
    requires
        forall|i: int|
            0 <= i < events.len() ==> !((#[trigger] events[i]) is AgentTextDelta)
                && !(events[i] is ReasoningTextDelta),
    ensures
        streamed_answer(events) == Seq::<char>::empty(),
        streamed_reasoning(events) == Seq::<char>::empty(),
    decreases events.len(),
{
    if events.len() > 0 {
        let front = events.drop_last();
        assert forall|i: int| 0 <= i < front.len() implies !((#[trigger] front[i]) is AgentTextDelta)
            && !(front[i] is ReasoningTextDelta) by {
            assert(front[i] == events[i]);
        }
        lemma_no_deltas(front);
        assert(!(events[events.len() - 1] is AgentTextDelta));
        assert(streamed_answer(events) =~= Seq::empty());
        assert(streamed_reasoning(events) =~= Seq::empty());
    }
}

/// What one frame streams comes out of it, character for character.
proof fn lemma_streamed_of_frame(turn: nat, round: nat, frame: JsonView)
    ensures
        streamed_answer(frame_events(turn, round, frame)) == piece(frame, "text_delta"@),
        streamed_reasoning(frame_events(turn, round, frame)) == piece(frame, "thinking_delta"@),
{
    reveal_strlit("text_delta");
    reveal_strlit("thinking_delta");
    assert("text_delta"@.len() == 10);
    assert("thinking_delta"@.len() == 14);
    lemma_frame_kinds();
    let events = frame_events(turn, round, frame);
    if kind_of(frame) == Some("message_update"@) {
        assert(events == update_events(turn, round, frame));
        if events.len() == 1 {
            assert(events.drop_last() =~= Seq::empty());
            assert(streamed_answer(Seq::<EventView>::empty()) =~= Seq::empty());
            assert(streamed_reasoning(Seq::<EventView>::empty()) =~= Seq::empty());
        }
        assert(streamed_answer(events) =~= piece(frame, "text_delta"@));
        assert(streamed_reasoning(events) =~= piece(frame, "thinking_delta"@));
    } else {
        if kind_of(frame) == Some("message_end"@) {
            assert(events == end_events(turn, round, frame));
        }
        lemma_no_deltas(events);
    }
}

/// Over any run of frames, the deltas of the answer joined are the text deltas
/// of the frames joined, and the deltas of the reasoning are the thinking
/// deltas: no character is lost, added or changed.
pub proof fn law_streams_keep_every_character(turn: nat, round: nat, frames: Seq<JsonView>)
    ensures
        streamed_answer(events_of_frames(turn, round, frames)) == pieces(frames, "text_delta"@),
        streamed_reasoning(events_of_frames(turn, round, frames)) == pieces(
            frames,
            "thinking_delta"@,
        ),
    decreases frames.len(),
{
    if frames.len() > 0 {
        let front = frames.drop_last();
        let here = round_after(round, front);
        law_streams_keep_every_character(turn, round, front);
        lemma_streamed_of_frame(turn, here, frames.last());
        lemma_streamed_joins(
            events_of_frames(turn, round, front),
            frame_events(turn, here, frames.last()),
        );
    }
}

/// A running turn has reported, joined, what its frames have streamed so far.
pub proof fn law_turns_stream_every_character(turn: TurnView, arrivals: Seq<Arrival>)
    requires
        turn.phase == TurnPhase::Running,
        all_let_run(turn.turn, arrivals),
    ensures
        streamed_answer(reported(turn, arrivals)) == pieces(frames_of(arrivals), "text_delta"@),
        streamed_reasoning(reported(turn, arrivals)) == pieces(
            frames_of(arrivals),
            "thinking_delta"@,
        ),
{
    law_running_turn_reports_every_frame(turn, arrivals);
    law_streams_keep_every_character(turn.turn, turn.round, frames_of(arrivals));
}

/// An item id is made of its prefix, the number of the turn and that of the
/// round, with a dash between them.
pub proof fn law_ids_name_turn_and_round(turn: nat, round: nat)
    ensures
        message_id(turn, round) == "pi-msg-"@ + decimal(turn) + "-"@ + decimal(round),
        thinking_id(turn, round) == "pi-thinking-"@ + decimal(turn) + "-"@ + decimal(round),
{
}

// ---------------------------------------------------------------------------
// Messages
// ---------------------------------------------------------------------------

/// Whether any of the counts is there.
pub open spec fn counts_something(usage: JsonView) -> bool {
    ||| count_at(usage, "input"@) is Some
    ||| count_at(usage, "output"@) is Some
    ||| count_at(usage, "cacheWrite"@) is Some
    ||| count_at(usage, "cacheRead"@) is Some
    ||| count_at(usage, "reasoning"@) is Some
    ||| count_at(usage, "totalTokens"@) is Some
}

/// Whether the message reports its tokens.
pub open spec fn reports_tokens(message: JsonView) -> bool {
    member_at(message, "usage"@) is Some && counts_something(member_at(message, "usage"@)->0)
}

/// The end of a message of the assistant that counts something reports, first
/// and once, its usage: each count as it stands under its own key, and none
/// where no integer stands there.
pub proof fn law_usage_reports_each_count(
    turn: nat,
    round: nat,
    frame: JsonView,
    message: JsonView,
    usage: JsonView,
)
    requires
        kind_of(frame) == Some("message_end"@),
        is_of_assistant(frame, message),
        member_at(message, "usage"@) == Some(usage),
        counts_something(usage),
    ensures
        ({
            let events = frame_events(turn, round, frame);
            &&& events.len() > 0
            &&& events[0] is TokenUsage
            &&& events[0]->usage.input_tokens == count_at(usage, "input"@)
            &&& events[0]->usage.output_tokens == count_at(usage, "output"@)
            &&& events[0]->usage.cache_creation_input_tokens == count_at(usage, "cacheWrite"@)
            &&& events[0]->usage.cache_read_input_tokens == count_at(usage, "cacheRead"@)
            &&& events[0]->usage.reasoning_output_tokens == count_at(usage, "reasoning"@)
            &&& events[0]->usage.total_tokens == count_at(usage, "totalTokens"@)
            &&& events[0]->usage.model == text_at(message, "model"@)
            &&& forall|i: int| 0 < i < events.len() ==> !((#[trigger] events[i]) is TokenUsage)
        }),
{
    lemma_frame_kinds();
    assert(frame_events(turn, round, frame) == end_events(turn, round, frame));
    assert(message_usage(message) is Some);
}

/// The usage of a message has each count as it stands under its own key; there
/// is one exactly where something is counted.
pub proof fn law_usage_takes_each_count(message: &Json, usage: Option<NormalizedTokenUsage>)
    requires
        call_ensures(normalize_usage, (message,), usage),
    ensures
        usage is Some <==> reports_tokens(message@),
        usage matches Some(usage) ==> {
            let counts = member_at(message@, "usage"@)->0;
            &&& usage.input_tokens == count_at(counts, "input"@)
            &&& usage.output_tokens == count_at(counts, "output"@)
            &&& usage.cache_creation_input_tokens == count_at(counts, "cacheWrite"@)
            &&& usage.cache_read_input_tokens == count_at(counts, "cacheRead"@)
            &&& usage.reasoning_output_tokens == count_at(counts, "reasoning"@)
            &&& usage.total_tokens == count_at(counts, "totalTokens"@)
            &&& usage.model is Some <==> text_at(message@, "model"@) is Some
            &&& usage.model matches Some(model) ==> text_at(message@, "model"@) == Some(model@)
        },
{
    if let Some(usage) = usage {
        assert(usage@.model == usage.model.deep_view());
    }
}

/// Usage is reported by nothing but the end of a message of the assistant that
/// counts something.
pub proof fn law_nothing_else_reports_usage(turn: nat, round: nat, frame: JsonView, i: int)
    requires
        0 <= i < frame_events(turn, round, frame).len(),
        frame_events(turn, round, frame)[i] is TokenUsage,
    ensures
        i == 0,
        kind_of(frame) == Some("message_end"@),
        member_at(frame, "message"@) is Some,
        is_of_assistant(frame, member_at(frame, "message"@)->0),
        reports_tokens(member_at(frame, "message"@)->0),
{
    lemma_frame_kinds();
    if kind_of(frame) == Some("message_update"@) {
        assert(frame_events(turn, round, frame) == update_events(turn, round, frame));
    } else if kind_of(frame) == Some("message_end"@) {
        assert(frame_events(turn, round, frame) == end_events(turn, round, frame));
    }
}

/// What one part says: the text of a part of type `text`.
pub open spec fn said_by(part: JsonView) -> Seq<char> {
    match text_at(part, "text"@) {
        Some(text) if text_at(part, "type"@) == Some("text"@) => text,
        _ => Seq::empty(),
    }
}

/// What the parts say, one behind the other.
pub open spec fn said_by_all(parts: Seq<JsonView>) -> Seq<char>
    decreases parts.len(),
{
    if parts.len() == 0 {
        Seq::empty()
    } else {
        said_by(parts[0]) + said_by_all(parts.skip(1))
    }
}

/// What the content list of a value says.
pub open spec fn said_in(holder: JsonView) -> Seq<char> {
    match member_at(holder, "content"@) {
        Some(JsonView::Array(parts)) => said_by_all(parts),
        _ => Seq::empty(),
    }
}

proof fn lemma_joined_is_said(parts: Seq<JsonView>)
    ensures
        joined_text(parts) == said_by_all(parts),
    decreases parts.len(),
{
    if parts.len() == 1 {
        assert(parts.drop_last() =~= Seq::empty());
        assert(parts.skip(1) =~= Seq::empty());
        assert(part_text(parts[0]) == said_by(parts[0]));
        assert(joined_text(Seq::empty()) =~= Seq::empty());
        assert(said_by_all(Seq::empty()) =~= Seq::empty());
        assert(joined_text(parts) =~= said_by_all(parts));
    } else if parts.len() > 1 {
        let front = parts.drop_last();
        let rest = parts.skip(1);
        let middle = rest.drop_last();
        assert(front.skip(1) =~= middle);
        lemma_joined_is_said(front);
        lemma_joined_is_said(rest);
        lemma_joined_is_said(middle);
        assert(part_text(parts.last()) == said_by(parts.last()));
        assert(joined_text(rest) == joined_text(middle) + part_text(parts.last()));
        assert(said_by_all(front) == said_by(parts[0]) + said_by_all(middle));
        assert(joined_text(parts) =~= said_by_all(parts));
    }
}

proof fn lemma_content_is_said(holder: JsonView)
    ensures
        content_text(holder) == said_in(holder),
{
    if let Some(JsonView::Array(parts)) = member_at(holder, "content"@) {
        lemma_joined_is_said(parts);
    }
}

/// The text of a content list is what its parts of type `text` say, each
/// unchanged and in its place.
pub proof fn law_content_is_what_its_parts_say(holder: &Json, text: String)
    requires
        call_ensures(text_of_content, (holder,), text),
    ensures
        text@ == said_in(holder@),
{
    lemma_content_is_said(holder@);
}

/// The end of a message of the assistant that says something reports, last and
/// once, the whole text, under the id of its deltas; `stop` is the only reason
/// that ends the turn. One that says nothing reports no message.
pub proof fn law_message_ends_report_the_whole_text(
    turn: nat,
    round: nat,
    frame: JsonView,
    message: JsonView,
)
    requires
        kind_of(frame) == Some("message_end"@),
        is_of_assistant(frame, message),
    ensures
        ({
            let events = frame_events(turn, round, frame);
            let said = said_in(message);
            &&& events.len() == (if reports_tokens(message) {
                1int
            } else {
                0int
            }) + (if said.len() > 0 {
                1int
            } else {
                0int
            })
            &&& said.len() == 0 ==> forall|i: int|
                0 <= i < events.len() ==> (#[trigger] events[i]) is TokenUsage
            &&& said.len() > 0 ==> {
                &&& events.last() is AssistantMessage
                &&& !events.last()->partial
                &&& events.last()->content.len() == 1
                &&& events.last()->content[0] is AgentText
                &&& events.last()->content[0]->item_id == message_id(turn, round)
                &&& events.last()->content[0]->text == said
                &&& text_at(message, "stopReason"@) == Some("stop"@)
                    ==> events.last()->stop_reason == Some("end_turn"@)
                &&& text_at(message, "stopReason"@) != Some("stop"@)
                    ==> events.last()->stop_reason is None
            }
        }),
{
    lemma_frame_kinds();
    lemma_content_is_said(message);
    assert(frame_events(turn, round, frame) == end_events(turn, round, frame));
}

/// A message begins, of the assistant, where the frame says so, and nowhere
/// else; its beginning is no event.
pub proof fn law_rounds_begin_with_messages(turn: nat, round: nat, frame: JsonView)
    ensures
        ({
            let begins = kind_of(frame) == Some("message_start"@) && member_at(
                frame,
                "message"@,
            ) is Some && is_of_assistant(frame, member_at(frame, "message"@)->0);
            &&& begins ==> next_round(round, frame) == round + 1
            &&& !begins ==> next_round(round, frame) == round
        }),
        kind_of(frame) == Some("message_start"@) ==> frame_events(turn, round, frame).len() == 0,
{
    lemma_frame_kinds();
}

/// Whether a frame begins a message of the assistant, as the function tells it.
pub proof fn law_beginnings_are_told(frame: &Json, result: bool)
    requires
        call_ensures(begins_assistant_message, (frame,), result),
    ensures
        result <==> kind_of(frame@) == Some("message_start"@) && member_at(
            frame@,
            "message"@,
        ) is Some && is_of_assistant(frame@, member_at(frame@, "message"@)->0),
{
    lemma_frame_kinds();
}

/// What ends is not the assistant's: no event.
pub proof fn law_ends_of_others_are_silent(turn: nat, round: nat, frame: JsonView)
    requires
        kind_of(frame) == Some("message_end"@),
        member_at(frame, "message"@) is None || !is_of_assistant(
            frame,
            member_at(frame, "message"@)->0,
        ),
    ensures
        frame_events(turn, round, frame).len() == 0,
{
    lemma_frame_kinds();
    assert(frame_events(turn, round, frame) == end_events(turn, round, frame));
}

// ---------------------------------------------------------------------------
// Tools
// ---------------------------------------------------------------------------

/// A tool that begins becomes one call of it, with its id, its name and its
/// arguments as they came.
pub proof fn law_tool_starts_become_calls(turn: nat, round: nat, frame: JsonView)
    requires
        kind_of(frame) == Some("tool_execution_start"@),
    ensures
        ({
            let events = frame_events(turn, round, frame);
            let call = events[0]->content[0];
            &&& events.len() == 1
            &&& events[0] is AssistantMessage
            &&& !events[0]->partial
            &&& events[0]->stop_reason is None
            &&& events[0]->content.len() == 1
            &&& call is ToolUse
            &&& call->raw_id == named(frame, "toolCallId"@, "tool"@)
            &&& call->tool == named(frame, "toolName"@, "tool"@)
            &&& member_at(frame, "args"@) matches Some(arguments) ==> call->arguments == arguments
            &&& member_at(frame, "args"@) is None ==> call->arguments is Object
                && call->arguments->Object_0.dom() =~= Set::<Seq<char>>::empty()
        }),
{
    lemma_frame_kinds();
}

/// A tool that ends becomes one result, with its id and whether it failed:
/// exactly where the frame says so, whatever else it says.
pub proof fn law_tool_ends_become_results(turn: nat, round: nat, frame: JsonView)
    requires
        kind_of(frame) == Some("tool_execution_end"@),
    ensures
        ({
            let events = frame_events(turn, round, frame);
            let result = events[0]->ToolResults_0[0];
            &&& events.len() == 1
            &&& events[0] is ToolResults
            &&& events[0]->ToolResults_0.len() == 1
            &&& result.tool_use_id == named(frame, "toolCallId"@, "tool"@)
            &&& flag_at(frame, "isError"@) matches Some(failed) ==> result.is_error == failed
            &&& flag_at(frame, "isError"@) is None ==> !result.is_error
            &&& result.exit_code is None
            &&& result.content == result_text(member_at(frame, "result"@))
        }),
{
    lemma_frame_kinds();
}

/// The result of a tool is what its content list says; where that is nothing, a
/// string stands for itself, null for nothing, and any other value is written
/// out as JSON.
pub proof fn law_results_say_what_the_tool_said(result: JsonView)
    ensures
        said_in(result).len() > 0 ==> result_text(Some(result)) == said_in(result),
        result matches JsonView::Str(text) ==> result_text(Some(result)) == text,
        result is Null ==> result_text(Some(result)).len() == 0,
        said_in(result).len() == 0 && !(result is Str) && !(result is Null) ==> result_text(
            Some(result),
        ) == json_text(result),
        result_text(None).len() == 0,
{
    lemma_content_is_said(result);
}

/// The text of a tool result, as the function gives it.
pub proof fn law_tool_results_read_as_said(result: Option<&Json>, text: String)
    requires
        call_ensures(tool_result_text, (result,), text),
    ensures
        result is None ==> text@.len() == 0,
        result matches Some(json) ==> {
            &&& said_in(json@).len() > 0 ==> text@ == said_in(json@)
            &&& json@ matches JsonView::Str(string) ==> text@ == string
            &&& json@ is Null ==> text@.len() == 0
            &&& said_in(json@).len() == 0 && !(json@ is Str) && !(json@ is Null) ==> text@
                == json_text(json@)
        },
{
    if let Some(json) = result {
        law_results_say_what_the_tool_said(json@);
    }
}

/// A result needs writing out exactly where its content list says nothing and
/// it is neither a string nor null; otherwise it reads as what it says.
pub proof fn law_plain_results_read_as_said(result: &Json, text: Option<String>)
    requires
        call_ensures(plain_result_text, (result,), text),
    ensures
        text is None <==> said_in(result@).len() == 0 && !(result@ is Str) && !(result@ is Null),
        text matches Some(plain) ==> {
            &&& said_in(result@).len() > 0 ==> plain@ == said_in(result@)
            &&& result@ matches JsonView::Str(string) ==> plain@ == string
            &&& result@ is Null ==> plain@.len() == 0
        },
{
    lemma_content_is_said(result@);
}

/// The call of a tool and its result carry one id where their frames do.
pub proof fn law_call_and_result_share_id(
    turn: nat,
    round1: nat,
    start: JsonView,
    round2: nat,
    end: JsonView,
)
    requires
        kind_of(start) == Some("tool_execution_start"@),
        kind_of(end) == Some("tool_execution_end"@),
        text_at(start, "toolCallId"@) == text_at(end, "toolCallId"@),
    ensures
        frame_events(turn, round1, start)[0]->content[0]->raw_id == frame_events(
            turn,
            round2,
            end,
        )[0]->ToolResults_0[0].tool_use_id,
{
    law_tool_starts_become_calls(turn, round1, start);
    law_tool_ends_become_results(turn, round2, end);
}

// ---------------------------------------------------------------------------
// Errors and the end
// ---------------------------------------------------------------------------

/// An error becomes one result with its message.
pub proof fn law_errors_keep_their_message(turn: nat, round: nat, frame: JsonView)
    requires
        kind_of(frame) == Some("error"@),
    ensures
        frame_events(turn, round, frame).len() == 1,
        frame_events(turn, round, frame)[0] is Result,
        frame_events(turn, round, frame)[0]->error == Some(
            named(frame, "message"@, "pi turn failed"@),
        ),
{
    lemma_frame_kinds();
}

/// A response that failed becomes one result that names the command and the
/// error; any other response says nothing.
pub proof fn law_failed_responses_are_errors(turn: nat, round: nat, frame: JsonView)
    requires
        kind_of(frame) == Some("response"@),
    ensures
        flag_at(frame, "success"@) != Some(false) ==> frame_events(turn, round, frame).len() == 0,
        flag_at(frame, "success"@) == Some(false) ==> {
            let events = frame_events(turn, round, frame);
            &&& events.len() == 1
            &&& events[0] is Result
            &&& events[0]->error == Some(
                "pi "@ + named(frame, "command"@, "command"@) + " failed: "@ + named(
                    frame,
                    "error"@,
                    "request failed"@,
                ),
            )
        },
{
    lemma_frame_kinds();
}

/// `agent_settled` becomes one result without an error, and is the only frame
/// that ends a turn.
pub proof fn law_settled_is_the_end(turn: nat, round: nat, frame: JsonView)
    ensures
        kind_of(frame) == Some("agent_settled"@) ==> {
            &&& frame_events(turn, round, frame).len() == 1
            &&& frame_events(turn, round, frame)[0] is Result
            &&& frame_events(turn, round, frame)[0]->error is None
        },
        ends_turn(frame_events(turn, round, frame)) <==> kind_of(frame) == Some("agent_settled"@),
{
    lemma_frame_kinds();
    crate::laws::law_only_settled_ends_turn(turn, round, frame);
}

/// Exactly a result without an error ends a turn.
pub proof fn law_terminal_events(event: EventView)
    ensures
        event.is_terminal() <==> event == (EventView::Result { error: None }),
{
}

/// Whether an event ends its turn, and whether a usage counts anything, as the
/// functions tell it.
pub proof fn law_ends_and_counts_are_told(
    event: &NormalizedEvent,
    ends: bool,
    usage: &NormalizedTokenUsage,
    counts: bool,
)
    requires
        call_ensures(NormalizedEvent::is_terminal, (event,), ends),
        call_ensures(NormalizedTokenUsage::has_counts, (usage,), counts),
    ensures
        ends <==> (*event matches NormalizedEvent::Result { error } && error is None),
        !counts <==> {
            &&& usage.input_tokens is None
            &&& usage.output_tokens is None
            &&& usage.cache_creation_input_tokens is None
            &&& usage.cache_read_input_tokens is None
            &&& usage.reasoning_output_tokens is None
            &&& usage.total_tokens is None
        },
{
}

/// A frame of no known kind, or of none, says nothing and counts nothing.
pub proof fn law_other_frames_are_silent(turn: nat, round: nat, frame: JsonView)
    requires
        kind_of(frame) != Some("message_start"@),
        kind_of(frame) != Some("message_update"@),
        kind_of(frame) != Some("message_end"@),
        kind_of(frame) != Some("tool_execution_start"@),
        kind_of(frame) != Some("tool_execution_end"@),
        kind_of(frame) != Some("error"@),
        kind_of(frame) != Some("response"@),
        kind_of(frame) != Some("agent_settled"@),
    ensures
        frame_events(turn, round, frame).len() == 0,
        next_round(round, frame) == round,
{
    lemma_frame_kinds();
}

} // verus!
