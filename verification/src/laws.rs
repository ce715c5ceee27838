//! What holds of the library as a whole.
//!
//! - [`frames`]: what becomes of each kind of frame
//! - [`turns`]: what a turn does about each signal
//! - [`serving`]: what the server does about each input
//! - [`process`]: how the agent process is planned and started
//! - [`prompts`]: what is sent to the agent
//! - [`values`]: JSON values and texts

pub mod frames;
pub mod process;
pub mod prompts;
pub mod serving;
pub mod turns;
pub mod values;

use vstd::prelude::*;
use vstd::utf8::*;

use crate::child::{
    ArgView, EnvView, OverridesView, PlanView, child_plan, effort_word, either, filled, marker_path,
    resumes, session_path, start_args, thinking_level, wanted_overrides,
};
use crate::command::{UserInput, message_text};
use crate::events::{EventView, ends_turn};
use crate::frame::{
    begins_assistant, end_events, frame_events, frame_kind, lemma_frame_kinds, message_id,
    message_usage, next_round, or_null, thinking_id, update_events,
};
use crate::json::JsonView;
use crate::server::{
    BlocksCommand, ServerPhase, ServerSignal, expects, is_interrupt, is_message, is_user_message,
    messages_after, phase_after, turns_after,
};
use crate::text::{
    ascii_lowercase, ascii_uppercase, decimal, is_white_space, lemma_decimal_digits,
    lemma_decimal_injective, trimmed, without_leading_space, without_trailing_space,
};
use crate::turn::{
    Arrival, SignalView, TurnPhase, TurnView, drain_is_over, is_meant_for, turn_action, turn_after,
    turn_id,
};

verus! {

// ---------------------------------------------------------------------------
// Item ids
// ---------------------------------------------------------------------------

/// Two numerals with a dash between them can be told apart again.
proof fn lemma_dashed_injective(prefix: Seq<char>, a: nat, b: nat, c: nat, d: nat)
    requires
        prefix + decimal(a) + "-"@ + decimal(b) == prefix + decimal(c) + "-"@ + decimal(d),
    ensures
        a == c,
        b == d,
{
    reveal_strlit("-");
    lemma_decimal_digits(a);
    lemma_decimal_digits(b);
    lemma_decimal_digits(c);
    lemma_decimal_digits(d);
    let x = prefix + decimal(a) + "-"@ + decimal(b);
    let y = prefix + decimal(c) + "-"@ + decimal(d);
    let p = prefix.len() as int;
    let m = decimal(a).len() as int;
    let n = decimal(c).len() as int;
    assert(x[p + m] == '-');
    assert(y[p + n] == '-');
    if m < n {
        assert(y[p + m] == decimal(c)[m]);
    }
    if n < m {
        assert(x[p + n] == decimal(a)[n]);
    }
    assert(m == n);
    assert(x.subrange(p, p + m) =~= decimal(a));
    assert(y.subrange(p, p + n) =~= decimal(c));
    assert(x.subrange(p + m + 1, x.len() as int) =~= decimal(b));
    assert(y.subrange(p + n + 1, y.len() as int) =~= decimal(d));
    lemma_decimal_injective(a, c);
    lemma_decimal_injective(b, d);
}

/// The answers of two rounds, of one turn or of two, have different item ids,
/// and so has their reasoning.
pub proof fn law_rounds_have_distinct_ids(turn1: nat, round1: nat, turn2: nat, round2: nat)
    requires
        turn1 != turn2 || round1 != round2,
    ensures
        message_id(turn1, round1) != message_id(turn2, round2),
        thinking_id(turn1, round1) != thinking_id(turn2, round2),
{
    if message_id(turn1, round1) == message_id(turn2, round2) {
        lemma_dashed_injective("pi-msg-"@, turn1, round1, turn2, round2);
    }
    if thinking_id(turn1, round1) == thinking_id(turn2, round2) {
        lemma_dashed_injective("pi-thinking-"@, turn1, round1, turn2, round2);
    }
}

/// No item id stands for both an answer and a reasoning.
pub proof fn law_answer_and_reasoning_ids_differ(
    turn1: nat,
    round1: nat,
    turn2: nat,
    round2: nat,
)
    ensures
        message_id(turn1, round1) != thinking_id(turn2, round2),
{
    reveal_strlit("pi-msg-");
    reveal_strlit("pi-thinking-");
    assert(message_id(turn1, round1)[3] == 'm');
    assert(thinking_id(turn2, round2)[3] == 't');
}

/// Two turns have different ids.
pub proof fn law_turns_have_distinct_ids(turn1: nat, turn2: nat)
    requires
        turn1 != turn2,
    ensures
        turn_id(turn1) != turn_id(turn2),
{
    if turn_id(turn1) == turn_id(turn2) {
        let p = "turn-"@.len() as int;
        let id = turn_id(turn1);
        assert(id.subrange(p, id.len() as int) =~= decimal(turn1));
        assert(id.subrange(p, id.len() as int) =~= decimal(turn2));
        lemma_decimal_injective(turn1, turn2);
    }
}

/// The round after a list of frames.
pub open spec fn round_after(round: nat, frames: Seq<JsonView>) -> nat
    decreases frames.len(),
{
    if frames.len() == 0 {
        round
    } else {
        next_round(round_after(round, frames.drop_last()), frames.last())
    }
}

/// How many of the frames begin an assistant message.
pub open spec fn messages_begun(frames: Seq<JsonView>) -> nat
    decreases frames.len(),
{
    if frames.len() == 0 {
        0
    } else {
        messages_begun(frames.drop_last()) + (if begins_assistant(frames.last()) {
            1nat
        } else {
            0nat
        })
    }
}

/// The round counts the assistant messages that have begun.
pub proof fn law_round_counts_messages(round: nat, frames: Seq<JsonView>)
    ensures
        round_after(round, frames) == round + messages_begun(frames),
    decreases frames.len(),
{
    if frames.len() > 0 {
        law_round_counts_messages(round, frames.drop_last());
    }
}

/// The text deltas of a message and its whole text carry one item id, whatever
/// frames come between them, as long as no other message begins.
pub proof fn law_deltas_and_text_share_id(
    turn: nat,
    round: nat,
    delta_frame: JsonView,
    between: Seq<JsonView>,
    end_frame: JsonView,
    i: int,
    j: int,
    k: int,
)
    requires
        messages_begun(between) == 0,
        0 <= i < frame_events(turn, round, delta_frame).len(),
        frame_events(turn, round, delta_frame)[i] is AgentTextDelta,
        0 <= j < frame_events(turn, round_after(round, between), end_frame).len(),
        frame_events(turn, round_after(round, between), end_frame)[j] is AssistantMessage,
        0 <= k < frame_events(
            turn,
            round_after(round, between),
            end_frame,
        )[j]->content.len(),
        frame_events(
            turn,
            round_after(round, between),
            end_frame,
        )[j]->content[k] is AgentText,
    ensures
        frame_events(turn, round, delta_frame)[i]->AgentTextDelta_item_id == frame_events(
            turn,
            round_after(round, between),
            end_frame,
        )[j]->content[k]->item_id,
{
    law_round_counts_messages(round, between);
    lemma_text_delta_id(turn, round, delta_frame, i);
    let events = frame_events(turn, round, end_frame);
    let kind = frame_kind(end_frame);
    if kind == "message_update"@ {
        assert(events == update_events(turn, round, end_frame));
    } else if kind == "message_end"@ {
        assert(events == end_events(turn, round, end_frame));
    }
}

proof fn lemma_text_delta_id(turn: nat, round: nat, frame: JsonView, i: int)
    requires
        0 <= i < frame_events(turn, round, frame).len(),
        frame_events(turn, round, frame)[i] is AgentTextDelta,
    ensures
        frame_events(turn, round, frame)[i]->AgentTextDelta_item_id == message_id(turn, round),
        !begins_assistant(frame),
{
    lemma_frame_kinds();
    let kind = frame_kind(frame);
    if kind == "message_update"@ {
        assert(frame_events(turn, round, frame) == update_events(turn, round, frame));
    } else if kind == "message_end"@ {
        assert(frame_events(turn, round, frame) == end_events(turn, round, frame));
    }
}

/// A delta that comes after another message has begun carries another item id.
pub proof fn law_next_message_has_another_id(
    turn: nat,
    round: nat,
    first: JsonView,
    between: Seq<JsonView>,
    second: JsonView,
    i: int,
    j: int,
)
    requires
        messages_begun(between) > 0,
        0 <= i < frame_events(turn, round, first).len(),
        frame_events(turn, round, first)[i] is AgentTextDelta,
        0 <= j < frame_events(turn, round_after(round, between), second).len(),
        frame_events(turn, round_after(round, between), second)[j] is AgentTextDelta,
    ensures
        frame_events(turn, round, first)[i]->AgentTextDelta_item_id != frame_events(
            turn,
            round_after(round, between),
            second,
        )[j]->AgentTextDelta_item_id,
{
    law_round_counts_messages(round, between);
    lemma_text_delta_id(turn, round, first, i);
    lemma_text_delta_id(turn, round_after(round, between), second, j);
    law_rounds_have_distinct_ids(turn, round, turn, round_after(round, between));
}

// ---------------------------------------------------------------------------
// Frames
// ---------------------------------------------------------------------------

/// `agent_settled` is the frame that ends a turn, and the only one.
pub proof fn law_only_settled_ends_turn(turn: nat, round: nat, frame: JsonView)
    ensures
        ends_turn(frame_events(turn, round, frame)) <==> frame_kind(frame) == "agent_settled"@,
{
    let kind = frame_kind(frame);
    let events = frame_events(turn, round, frame);
    lemma_frame_kinds();
    if kind == "agent_settled"@ {
        assert(events[0].is_terminal());
    } else {
        assert forall|i: int| 0 <= i < events.len() implies !(#[trigger] events[i]).is_terminal() by {
            if kind == "message_update"@ {
                assert(events == update_events(turn, round, frame));
            } else if kind == "message_end"@ {
                assert(events == end_events(turn, round, frame));
            }
        }
    }
}

/// The beginning and the end of a message that is not the assistant's leave no
/// trace.
pub proof fn law_other_messages_are_ignored(turn: nat, round: nat, frame: JsonView)
    requires
        frame_kind(frame) == "message_start"@ || frame_kind(frame) == "message_end"@,
        or_null(frame.get("message"@)).get_str("role"@) != Some("assistant"@),
    ensures
        frame_events(turn, round, frame) == Seq::<EventView>::empty(),
        next_round(round, frame) == round,
{
    lemma_frame_kinds();
}

/// Token usage is reported only where some count is known.
pub proof fn law_reported_usage_has_counts(turn: nat, round: nat, frame: JsonView, i: int)
    requires
        0 <= i < frame_events(turn, round, frame).len(),
        frame_events(turn, round, frame)[i] is TokenUsage,
    ensures
        frame_events(turn, round, frame)[i]->usage.has_counts(),
{
    let kind = frame_kind(frame);
    if kind == "message_update"@ {
        assert(frame_events(turn, round, frame) == update_events(turn, round, frame));
    } else if kind == "message_end"@ {
        assert(frame_events(turn, round, frame) == end_events(turn, round, frame));
        assert(message_usage(or_null(frame.get("message"@))) is Some);
    }
}

// ---------------------------------------------------------------------------
// Turns
// ---------------------------------------------------------------------------

/// What a turn is after a list of signals. A turn that is over takes no more.
pub open spec fn turn_after_all(turn: TurnView, arrivals: Seq<Arrival>) -> TurnView
    decreases arrivals.len(),
{
    if arrivals.len() == 0 {
        turn
    } else {
        let before = turn_after_all(turn, arrivals.drop_last());
        if before.phase == TurnPhase::Over {
            before
        } else {
            turn_after(before, arrivals.last())
        }
    }
}

/// The events that a turn reports over a list of signals.
pub open spec fn reported(turn: TurnView, arrivals: Seq<Arrival>) -> Seq<EventView>
    decreases arrivals.len(),
{
    if arrivals.len() == 0 {
        Seq::empty()
    } else {
        let before = turn_after_all(turn, arrivals.drop_last());
        let so_far = reported(turn, arrivals.drop_last());
        if before.phase == TurnPhase::Over {
            so_far
        } else {
            so_far + turn_action(before, arrivals.last()).events()
        }
    }
}

/// The events of a list of frames, one behind the other.
pub open spec fn events_of_frames(turn: nat, round: nat, frames: Seq<JsonView>) -> Seq<EventView>
    decreases frames.len(),
{
    if frames.len() == 0 {
        Seq::empty()
    } else {
        events_of_frames(turn, round, frames.drop_last()) + frame_events(
            turn,
            round_after(round, frames.drop_last()),
            frames.last(),
        )
    }
}

/// The frames among the signals.
pub open spec fn frames_of(arrivals: Seq<Arrival>) -> Seq<JsonView>
    decreases arrivals.len(),
{
    if arrivals.len() == 0 {
        Seq::empty()
    } else {
        match arrivals.last().signal {
            SignalView::Frame(Some(frame)) => frames_of(arrivals.drop_last()).push(frame),
            _ => frames_of(arrivals.drop_last()),
        }
    }
}

/// Whether a signal lets a running turn go on: any but `agent_settled`, an
/// interrupt that is meant for the turn, and the end of the stream.
pub open spec fn lets_run(turn: nat, signal: SignalView) -> bool {
    match signal {
        SignalView::Interrupt { messages_before } => !is_meant_for(turn, messages_before),
        SignalView::Frame(Some(frame)) => frame_kind(frame) != "agent_settled"@,
        SignalView::Frame(None) => true,
        SignalView::Idle => true,
        SignalView::ReadFailed => false,
        SignalView::Closed => false,
    }
}

/// Whether all the signals let a running turn go on.
pub open spec fn all_let_run(turn: nat, arrivals: Seq<Arrival>) -> bool {
    forall|i: int| 0 <= i < arrivals.len() ==> lets_run(turn, (#[trigger] arrivals[i]).signal)
}

/// A running turn goes on running as long as nothing ends it, stale interrupts
/// among the rest, and has reported the events of every frame, in their order.
pub proof fn law_running_turn_reports_every_frame(turn: TurnView, arrivals: Seq<Arrival>)
    requires
        turn.phase == TurnPhase::Running,
        all_let_run(turn.turn, arrivals),
    ensures
        turn_after_all(turn, arrivals) == (TurnView {
            turn: turn.turn,
            round: round_after(turn.round, frames_of(arrivals)),
            phase: TurnPhase::Running,
        }),
        reported(turn, arrivals) == events_of_frames(turn.turn, turn.round, frames_of(arrivals)),
    decreases arrivals.len(),
{
    if arrivals.len() > 0 {
        let front = arrivals.drop_last();
        assert forall|i: int| 0 <= i < front.len() implies lets_run(
            turn.turn,
            (#[trigger] front[i]).signal,
        ) by {
            assert(front[i] == arrivals[i]);
        }
        law_running_turn_reports_every_frame(turn, front);
        let last = arrivals[arrivals.len() - 1];
        assert(lets_run(turn.turn, last.signal));
        if let SignalView::Frame(Some(frame)) = last.signal {
            let round = round_after(turn.round, frames_of(front));
            assert(frames_of(arrivals) == frames_of(front).push(frame));
            assert(frames_of(arrivals).drop_last() =~= frames_of(front));
            law_only_settled_ends_turn(turn.turn, round, frame);
        } else {
            assert(reported(turn, arrivals) =~= reported(turn, front));
        }
    }
}

/// The first `agent_settled` finishes a running turn, with the events of every
/// frame up to it reported and none after it.
pub proof fn law_settled_finishes_turn(
    turn: TurnView,
    arrivals: Seq<Arrival>,
    settled: JsonView,
    drained_millis: nat,
    rest: Seq<Arrival>,
)
    requires
        turn.phase == TurnPhase::Running,
        all_let_run(turn.turn, arrivals),
        frame_kind(settled) == "agent_settled"@,
    ensures
        ({
            let last = Arrival { drained_millis, signal: SignalView::Frame(Some(settled)) };
            &&& turn_action(turn_after_all(turn, arrivals), last) is Finish
            &&& turn_after_all(turn, arrivals.push(last) + rest).phase == TurnPhase::Over
            &&& reported(turn, arrivals.push(last) + rest) == events_of_frames(
                turn.turn,
                turn.round,
                frames_of(arrivals),
            ).push(EventView::Result { error: None })
        }),
{
    let last = Arrival { drained_millis, signal: SignalView::Frame(Some(settled)) };
    let through = arrivals.push(last);
    let round = round_after(turn.round, frames_of(arrivals));
    law_running_turn_reports_every_frame(turn, arrivals);
    assert(through.drop_last() =~= arrivals);
    law_only_settled_ends_turn(turn.turn, round, settled);
    lemma_frame_kinds();
    assert(frame_events(turn.turn, round, settled) == seq![EventView::Result { error: None }]);
    assert(reported(turn, through) =~= events_of_frames(
        turn.turn,
        turn.round,
        frames_of(arrivals),
    ).push(EventView::Result { error: None }));
    lemma_over_stays_over(turn, through, rest);
}

/// A turn that is over stays as it is.
proof fn lemma_over_stays_over(turn: TurnView, arrivals: Seq<Arrival>, rest: Seq<Arrival>)
    requires
        turn_after_all(turn, arrivals).phase == TurnPhase::Over,
    ensures
        turn_after_all(turn, arrivals + rest) == turn_after_all(turn, arrivals),
        reported(turn, arrivals + rest) == reported(turn, arrivals),
    decreases rest.len(),
{
    if rest.len() == 0 {
        assert(arrivals + rest =~= arrivals);
    } else {
        lemma_over_stays_over(turn, arrivals, rest.drop_last());
        assert((arrivals + rest).drop_last() =~= arrivals + rest.drop_last());
    }
}

/// An interrupt that is meant for a running turn has the agent told to stop;
/// any other changes nothing.
pub proof fn law_only_a_timely_interrupt_aborts(
    turn: TurnView,
    messages_before: nat,
    drained_millis: nat,
)
    requires
        turn.phase == TurnPhase::Running,
    ensures
        ({
            let interrupt = Arrival {
                drained_millis,
                signal: SignalView::Interrupt { messages_before },
            };
            &&& is_meant_for(turn.turn, messages_before) ==> turn_action(turn, interrupt) is Abort
                && turn_after(turn, interrupt).phase == TurnPhase::Draining
            &&& !is_meant_for(turn.turn, messages_before) ==> turn_action(turn, interrupt) is Poll
                && turn_after(turn, interrupt) == turn
        }),
{
}

/// An interrupted turn reports nothing more, and can only end as interrupted.
pub proof fn law_interrupted_turn_is_silent(turn: TurnView, arrivals: Seq<Arrival>)
    requires
        turn.phase == TurnPhase::Draining,
    ensures
        ({
            let drained = turn_after_all(turn, arrivals);
            &&& drained.phase != TurnPhase::Running
            &&& reported(turn, arrivals) == Seq::<EventView>::empty()
            &&& drained.phase != TurnPhase::Over ==> forall|arrival: Arrival|
                {
                    let action = #[trigger] turn_action(drained, arrival);
                    action is Drain || action is FinishInterrupted
                }
        }),
    decreases arrivals.len(),
{
    if arrivals.len() > 0 {
        law_interrupted_turn_is_silent(turn, arrivals.drop_last());
        assert(reported(turn, arrivals) =~= Seq::empty());
    }
}

/// An interrupted turn takes in the `agent_settled` of its own run, so that it
/// cannot end the next one.
pub proof fn law_interrupted_turn_takes_settled(
    turn: TurnView,
    settled: JsonView,
    drained_millis: nat,
)
    requires
        turn.phase == TurnPhase::Draining,
        frame_kind(settled) == "agent_settled"@,
    ensures
        ({
            let arrival = Arrival { drained_millis, signal: SignalView::Frame(Some(settled)) };
            &&& turn_action(turn, arrival) is FinishInterrupted
            &&& turn_after(turn, arrival).phase == TurnPhase::Over
        }),
{
    law_only_settled_ends_turn(turn.turn, turn.round, settled);
}

/// An interrupted turn ends when its time is over, and before that with
/// `agent_settled` or when nothing comes or the stream ends; other frames keep
/// it waiting until then.
pub proof fn law_interrupted_turn_waits_in_bounds(turn: TurnView, arrival: Arrival)
    requires
        turn.phase == TurnPhase::Draining,
    ensures
        turn_action(turn, arrival) is FinishInterrupted <==> drain_is_over(arrival.drained_millis)
            || (match arrival.signal {
            SignalView::Interrupt { .. } => false,
            SignalView::Frame(None) => false,
            SignalView::Frame(Some(frame)) => frame_kind(frame) == "agent_settled"@,
            _ => true,
        }),
{
    if let SignalView::Frame(Some(frame)) = arrival.signal {
        law_only_settled_ends_turn(turn.turn, turn.round, frame);
    }
}

/// The wait of an interrupted turn is bounded: with the first signal that is
/// taken up when its time is over it has ended, as interrupted, whatever came.
pub proof fn law_drain_is_bounded(turn: TurnView, arrivals: Seq<Arrival>)
    requires
        turn.phase == TurnPhase::Draining,
        arrivals.len() > 0,
        drain_is_over(arrivals.last().drained_millis),
    ensures
        turn_after_all(turn, arrivals).phase == TurnPhase::Over,
        reported(turn, arrivals) == Seq::<EventView>::empty(),
        turn_after_all(turn, arrivals.drop_last()).phase != TurnPhase::Over ==> turn_action(
            turn_after_all(turn, arrivals.drop_last()),
            arrivals.last(),
        ) is FinishInterrupted,
{
    law_interrupted_turn_is_silent(turn, arrivals);
    law_interrupted_turn_is_silent(turn, arrivals.drop_last());
}

// ---------------------------------------------------------------------------
// The agent process
// ---------------------------------------------------------------------------

proof fn lemma_lowercase_trims(text: Seq<char>)
    ensures
        without_leading_space(ascii_lowercase(text)) == ascii_lowercase(
            without_leading_space(text),
        ),
        without_trailing_space(ascii_lowercase(text)) == ascii_lowercase(
            without_trailing_space(text),
        ),
    decreases text.len(),
{
    if text.len() > 0 {
        lemma_lowercase_trims(text.drop_first());
        lemma_lowercase_trims(text.drop_last());
        assert(ascii_lowercase(text).drop_first() =~= ascii_lowercase(text.drop_first()));
        assert(ascii_lowercase(text).drop_last() =~= ascii_lowercase(text.drop_last()));
    }
}

/// The white space around a reasoning effort does not matter.
pub proof fn law_level_ignores_outer_space(value: Seq<char>)
    ensures
        thinking_level(trimmed(value)) == thinking_level(value),
{
    law_trimmed_is_trimmed(value);
}

/// The case of its ASCII letters does not matter in a reasoning effort.
pub proof fn law_level_ignores_ascii_case(a: Seq<char>, b: Seq<char>)
    requires
        ascii_lowercase(a) == ascii_lowercase(b),
    ensures
        thinking_level(a) == thinking_level(b),
{
    lemma_lowercase_trims(a);
    lemma_lowercase_trims(b);
    lemma_lowercase_trims(without_leading_space(a));
    lemma_lowercase_trims(without_leading_space(b));
}

/// A reasoning effort may as well be written in capitals.
pub proof fn law_level_in_capitals(value: Seq<char>)
    ensures
        thinking_level(ascii_uppercase(value)) == thinking_level(value),
{
    assert(ascii_lowercase(ascii_uppercase(value)) =~= ascii_lowercase(value));
    law_level_ignores_ascii_case(value, ascii_uppercase(value));
}

proof fn lemma_word_is_its_effort(word: Seq<char>)
    requires
        word.len() > 0,
        forall|i: int| 0 <= i < word.len() ==> 'a' <= #[trigger] word[i] <= 'z',
    ensures
        effort_word(word) == word,
{
    assert(!is_white_space(word[0]));
    assert(!is_white_space(word.last()));
    assert(ascii_lowercase(word) =~= word);
    assert(is_ascii_chars(word));
}

/// Each level, and `none`, is the word that it comes down to.
pub proof fn lemma_levels_are_words(word: Seq<char>)
    ensures
        word == "off"@ || word == "minimal"@ || word == "low"@ || word == "medium"@ || word
            == "high"@ || word == "xhigh"@ || word == "max"@ || word == "none"@ ==> effort_word(
            word,
        ) == word,
{
    reveal_strlit("off");
    reveal_strlit("minimal");
    reveal_strlit("low");
    reveal_strlit("medium");
    reveal_strlit("high");
    reveal_strlit("xhigh");
    reveal_strlit("max");
    reveal_strlit("none");
    if word == "off"@ || word == "minimal"@ || word == "low"@ || word == "medium"@ || word
        == "high"@ || word == "xhigh"@ || word == "max"@ || word == "none"@ {
        lemma_word_is_its_effort(word);
    }
}

/// A thinking level is one of seven words, and each of them names itself.
pub proof fn law_levels_name_themselves(value: Seq<char>)
    requires
        thinking_level(value) is Some,
    ensures
        ({
            let level = thinking_level(value)->0;
            &&& level == "off"@ || level == "minimal"@ || level == "low"@ || level == "medium"@
                || level == "high"@ || level == "xhigh"@ || level == "max"@
            &&& thinking_level(level) == Some(level)
        }),
{
    lemma_levels_are_words(thinking_level(value)->0);
}

/// The thinking level that a process is started with is always one that it
/// knows.
pub proof fn law_wanted_level_is_known(
    model: Option<Seq<char>>,
    provider: Option<Seq<char>>,
    reasoning: Option<Seq<char>>,
    env: EnvView,
)
    ensures
        wanted_overrides(model, provider, reasoning, env).thinking matches Some(level) ==> level
            == "off"@ || level == "minimal"@ || level == "low"@ || level == "medium"@ || level
            == "high"@ || level == "xhigh"@ || level == "max"@,
{
}

/// A process that was started for a message serves every later message with
/// the same wishes.
pub proof fn law_started_child_is_kept(
    current: Option<OverridesView>,
    model: Option<Seq<char>>,
    provider: Option<Seq<char>>,
    reasoning: Option<Seq<char>>,
    env: EnvView,
)
    ensures
        child_plan(current, wanted_overrides(model, provider, reasoning, env)) matches
            PlanView::Start { overrides, .. } ==> child_plan(
            Some(overrides),
            wanted_overrides(model, provider, reasoning, env),
        ) is Keep,
{
}

/// A process is kept exactly where it runs with the model, the provider and
/// the thinking level that are wanted; otherwise it is replaced.
pub proof fn law_changed_overrides_restart(current: OverridesView, wanted: OverridesView)
    ensures
        child_plan(Some(current), wanted) is Keep <==> current.model == wanted.model
            && current.provider == wanted.provider && current.thinking == wanted.thinking,
        child_plan(Some(current), wanted) !is Keep ==> child_plan(Some(current), wanted)
            == (PlanView::Start { overrides: wanted, replace: true }),
{
}

proof fn lemma_trim_ends(text: Seq<char>)
    ensures
        without_leading_space(text).len() > 0 ==> !is_white_space(without_leading_space(text)[0]),
        without_trailing_space(text).len() > 0 ==> !is_white_space(
            without_trailing_space(text).last(),
        ),
        without_trailing_space(text).len() <= text.len(),
        without_trailing_space(text) =~= text.take(without_trailing_space(text).len() as int),
    decreases text.len(),
{
    if text.len() > 0 {
        lemma_trim_ends(text.drop_first());
        lemma_trim_ends(text.drop_last());
    }
}

/// Trimming twice is trimming once.
pub proof fn law_trimmed_is_trimmed(text: Seq<char>)
    ensures
        trimmed(trimmed(text)) == trimmed(text),
{
    let once = trimmed(text);
    let front = without_leading_space(text);
    lemma_trim_ends(text);
    lemma_trim_ends(front);
    if once.len() > 0 {
        assert(once[0] == front[0]);
    }
}

/// A model or a provider that is set is never blank, and has no white space
/// around it.
pub proof fn law_overrides_are_trimmed(
    model: Option<Seq<char>>,
    provider: Option<Seq<char>>,
    reasoning: Option<Seq<char>>,
    env: EnvView,
)
    ensures
        ({
            let wanted = wanted_overrides(model, provider, reasoning, env);
            &&& wanted.model matches Some(text) ==> text.len() > 0 && trimmed(text) == text
            &&& wanted.provider matches Some(text) ==> text.len() > 0 && trimmed(text) == text
        }),
{
    assert forall|value: Option<Seq<char>>| #[trigger] filled(value) is Some implies trimmed(
        filled(value)->0,
    ) == filled(value)->0 && filled(value)->0.len() > 0 by {
        law_trimmed_is_trimmed(value->0);
    }
    let wanted = wanted_overrides(model, provider, reasoning, env);
    assert(wanted.model == either(filled(model), filled(env.model)));
    assert(wanted.provider == either(filled(provider), filled(env.model_provider)));
}

/// A blank wish is as good as none.
pub proof fn law_blank_wish_is_none(
    model: Seq<char>,
    provider: Option<Seq<char>>,
    reasoning: Option<Seq<char>>,
    env: EnvView,
)
    requires
        trimmed(model).len() == 0,
    ensures
        wanted_overrides(Some(model), provider, reasoning, env) == wanted_overrides(
            None,
            provider,
            reasoning,
            env,
        ),
{
}

/// The marker of a begun session lies in the directory of the sessions, and
/// there is one exactly where there is such a directory.
pub proof fn law_marker_lies_with_sessions(env: EnvView)
    ensures
        marker_path(env) is Some <==> session_path(env) is Some,
        marker_path(env) matches Some(marker) ==> marker.base == session_path(env)->0.base
            && marker.segments.drop_last() == session_path(env)->0.segments,
{
    if let Some(dir) = session_path(env) {
        assert(marker_path(env)->0.segments.drop_last() =~= dir.segments);
    }
}

/// A process that resumes is started like any other, but for `--continue` at
/// the end.
pub proof fn law_resuming_adds_continue(overrides: OverridesView, env: EnvView)
    ensures
        start_args(overrides, env, true) == start_args(overrides, env, false).push(
            ArgView::Text("--continue"@),
        ),
{
    assert(start_args(overrides, env, true) =~= start_args(overrides, env, false).push(
        ArgView::Text("--continue"@),
    ));
}

/// Where sessions have a place, the process that finds the marker resumes and
/// the one that does not starts afresh; without a place none resumes.
pub proof fn law_marked_session_is_resumed(overrides: OverridesView, env: EnvView)
    ensures
        session_path(env) is Some ==> start_args(overrides, env, resumes(env, true))
            == start_args(overrides, env, false).push(ArgView::Text("--continue"@)),
        session_path(env) is None ==> start_args(overrides, env, resumes(env, true))
            == start_args(overrides, env, false),
        start_args(overrides, env, resumes(env, false)) == start_args(overrides, env, false),
{
    law_resuming_adds_continue(overrides, env);
}

/// Whether the marker of a begun session exists after a list of attempts to
/// start the process, true for those that succeeded: the first success leaves
/// it, where sessions have a place. At first there is none.
pub open spec fn marked(env: EnvView, attempts: Seq<bool>) -> bool
    decreases attempts.len(),
{
    if attempts.len() == 0 {
        false
    } else {
        marked(env, attempts.drop_last()) || (attempts.last() && marker_path(env) is Some)
    }
}

/// Where sessions have a place, every process up to and with the first that
/// starts begins afresh, and every later one resumes, whatever they run with.
pub proof fn law_later_children_resume(
    env: EnvView,
    attempts: Seq<bool>,
    overrides: OverridesView,
)
    requires
        session_path(env) is Some,
    ensures
        resumes(env, marked(env, attempts)) <==> attempts.contains(true),
        !attempts.contains(true) ==> start_args(overrides, env, resumes(env, marked(env, attempts)))
            == start_args(overrides, env, false),
        attempts.contains(true) ==> start_args(overrides, env, resumes(env, marked(env, attempts)))
            == start_args(overrides, env, false).push(ArgView::Text("--continue"@)),
    decreases attempts.len(),
{
    law_resuming_adds_continue(overrides, env);
    if attempts.len() > 0 {
        let front = attempts.drop_last();
        law_later_children_resume(env, front, overrides);
        if attempts.contains(true) {
            let i = choose|i: int| 0 <= i < attempts.len() && attempts[i];
            if i < attempts.len() - 1 {
                assert(front[i]);
            }
        }
        if front.contains(true) {
            let i = choose|i: int| 0 <= i < front.len() && front[i];
            assert(attempts[i]);
        }
        if attempts.last() {
            assert(attempts[attempts.len() - 1]);
        }
    }
}

// ---------------------------------------------------------------------------
// Messages
// ---------------------------------------------------------------------------

/// A message that is put together of two reads like the two, with a line break
/// between them.
pub proof fn law_message_text_joins(first: Seq<UserInput>, second: Seq<UserInput>)
    requires
        first.len() > 0,
        second.len() > 0,
    ensures
        message_text(first + second) == message_text(first) + "\n"@ + message_text(second),
    decreases second.len(),
{
    assert((first + second).drop_last() =~= first + second.drop_last());
    assert((first + second).last() == second.last());
    if second.len() == 1 {
        assert(first + second.drop_last() =~= first);
    } else {
        law_message_text_joins(first, second.drop_last());
        assert(message_text(first + second) =~= message_text(first) + "\n"@ + message_text(second));
    }
}

// ---------------------------------------------------------------------------
// The server
// ---------------------------------------------------------------------------

/// The number of turns after a list of signals.
pub open spec fn turns_after_all(turns: nat, signals: Seq<ServerSignal>) -> nat
    decreases signals.len(),
{
    if signals.len() == 0 {
        turns
    } else {
        turns_after(turns_after_all(turns, signals.drop_last()), signals.last())
    }
}

/// The number of user messages after a list of inputs.
pub open spec fn messages_after_all(
    messages: nat,
    inputs: Seq<Result<BlocksCommand, String>>,
) -> nat
    decreases inputs.len(),
{
    if inputs.len() == 0 {
        messages
    } else {
        messages_after(messages_after_all(messages, inputs.drop_last()), inputs.last())
    }
}

/// The inputs among the signals.
pub open spec fn inputs_of(signals: Seq<ServerSignal>) -> Seq<Result<BlocksCommand, String>>
    decreases signals.len(),
{
    if signals.len() == 0 {
        Seq::empty()
    } else {
        match signals.last() {
            ServerSignal::Input(input) => inputs_of(signals.drop_last()).push(input),
            _ => inputs_of(signals.drop_last()),
        }
    }
}

/// The inputs that go to the server: all but the interrupts.
pub open spec fn server_inputs(
    inputs: Seq<Result<BlocksCommand, String>>,
) -> Seq<Result<BlocksCommand, String>>
    decreases inputs.len(),
{
    if inputs.len() == 0 {
        Seq::empty()
    } else if is_interrupt(inputs.last()) {
        server_inputs(inputs.drop_last())
    } else {
        server_inputs(inputs.drop_last()).push(inputs.last())
    }
}

/// Turns are numbered by the user messages: nothing else takes a number.
pub proof fn law_turns_count_user_messages(turns: nat, signals: Seq<ServerSignal>)
    ensures
        turns_after_all(turns, signals) == messages_after_all(turns, inputs_of(signals)),
    decreases signals.len(),
{
    if signals.len() > 0 {
        law_turns_count_user_messages(turns, signals.drop_last());
        if let ServerSignal::Input(input) = signals.last() {
            assert(inputs_of(signals).drop_last() =~= inputs_of(signals.drop_last()));
        }
    }
}

proof fn lemma_interrupts_take_no_number(
    messages: nat,
    inputs: Seq<Result<BlocksCommand, String>>,
)
    ensures
        messages_after_all(messages, server_inputs(inputs)) == messages_after_all(messages, inputs),
    decreases inputs.len(),
{
    if inputs.len() > 0 {
        lemma_interrupts_take_no_number(messages, inputs.drop_last());
        if !is_interrupt(inputs.last()) {
            assert(server_inputs(inputs).drop_last() =~= server_inputs(inputs.drop_last()));
        }
    }
}

proof fn lemma_messages_grow(inputs: Seq<Result<BlocksCommand, String>>, i: int, j: int)
    requires
        0 <= i <= j <= inputs.len(),
    ensures
        messages_after_all(0, inputs.take(i)) <= messages_after_all(0, inputs.take(j)),
    decreases j - i,
{
    if i < j {
        lemma_messages_grow(inputs, i, j - 1);
        assert(inputs.take(j).drop_last() =~= inputs.take(j - 1));
    }
}

/// The turn of a user message has the number that the router counts: once the
/// server has had the inputs up to the message that are meant for it, it has
/// begun as many turns as there were user messages.
pub proof fn law_message_gets_its_number(
    inputs: Seq<Result<BlocksCommand, String>>,
    signals: Seq<ServerSignal>,
)
    requires
        inputs_of(signals) == server_inputs(inputs),
    ensures
        turns_after_all(0, signals) == messages_after_all(0, inputs),
{
    law_turns_count_user_messages(0, signals);
    lemma_interrupts_take_no_number(0, inputs);
}

/// An interrupt that came before a user message never reaches the turn of that
/// message: it is passed over, and the turn is what it was.
pub proof fn law_stale_interrupt_is_passed_over(
    inputs: Seq<Result<BlocksCommand, String>>,
    i: int,
    j: int,
    turn: TurnView,
    drained_millis: nat,
)
    requires
        0 <= i < j < inputs.len(),
        is_interrupt(inputs[i]),
        is_message(inputs[j]),
        turn.turn == messages_after_all(0, inputs.take(j + 1)),
        turn.phase == TurnPhase::Running,
    ensures
        ({
            let messages_before = messages_after_all(0, inputs.take(i));
            let interrupt = Arrival {
                drained_millis,
                signal: SignalView::Interrupt { messages_before },
            };
            &&& !is_meant_for(turn.turn, messages_before)
            &&& turn_action(turn, interrupt) is Poll
            &&& turn_after(turn, interrupt) == turn
        }),
{
    lemma_messages_grow(inputs, i, j);
    assert(inputs.take(j + 1).drop_last() =~= inputs.take(j));
}

/// An interrupt that came behind a user message breaks off the turn of that
/// message, where it finds it running.
pub proof fn law_timely_interrupt_aborts(
    inputs: Seq<Result<BlocksCommand, String>>,
    j: int,
    i: int,
    turn: TurnView,
    drained_millis: nat,
)
    requires
        0 <= j < i < inputs.len(),
        is_message(inputs[j]),
        is_interrupt(inputs[i]),
        turn.turn == messages_after_all(0, inputs.take(j + 1)),
        turn.phase == TurnPhase::Running,
    ensures
        turn_action(
            turn,
            Arrival {
                drained_millis,
                signal: SignalView::Interrupt {
                    messages_before: messages_after_all(0, inputs.take(i)),
                },
            },
        ) is Abort,
{
    lemma_messages_grow(inputs, j + 1, i);
}

/// After a user message, the end of its turn is awaited; after a turn that
/// failed, the look at the process; and after that, the next input.
pub proof fn law_server_comes_back_to_input(
    message: ServerSignal,
    error: Option<String>,
    alive: Option<bool>,
)
    requires
        is_user_message(message),
    ensures
        expects(phase_after(message), ServerSignal::TurnEnded(error)),
        error is None ==> phase_after(ServerSignal::TurnEnded(error)) == ServerPhase::Idle,
        error is Some ==> expects(
            phase_after(ServerSignal::TurnEnded(error)),
            ServerSignal::ChildProbed(alive),
        ),
        phase_after(ServerSignal::ChildProbed(alive)) == ServerPhase::Idle,
{
}

} // verus!
