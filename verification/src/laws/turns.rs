//! What a turn does about each signal, stated of the signal, the time and the
//! number of the turn.

use vstd::prelude::*;

use crate::events::{NormalizedEvent, any_terminal, event_views};
use crate::frame::{frame_events, next_round};
use crate::json::{JsonView, parsed_json};
use crate::laws::frames::{kind_of, law_settled_is_the_end};
use crate::text::trimmed;
use crate::turn::{
    ActionView, Arrival, INTERRUPT_DRAIN_SECS, POLL_MILLIS, PiTurn, SignalView, TurnAction,
    TurnPhase, TurnSignal, TurnView, drain_is_over, drain_wait, interrupt_applies, turn_action,
    turn_after,
};

verus! {

/// A running turn delivers the events of every frame, and finishes with those of
/// `agent_settled`; what is no frame is passed over; a stream that fails or ends
/// fails the turn.
pub proof fn law_running_turns_answer_signals(
    turn: TurnView,
    drained_millis: nat,
    frame: JsonView,
)
    requires
        turn.phase == TurnPhase::Running,
    ensures
        ({
            let with_frame = Arrival { drained_millis, signal: SignalView::Frame(Some(frame)) };
            let events = frame_events(turn.turn, turn.round, frame);
            let settled = kind_of(frame) == Some("agent_settled"@);
            let after = turn_after(turn, with_frame);
            &&& settled ==> turn_action(turn, with_frame) == ActionView::Finish(events)
            &&& !settled ==> turn_action(turn, with_frame) == ActionView::Deliver(events)
            &&& after.turn == turn.turn
            &&& after.round == next_round(turn.round, frame)
            &&& after.phase == (if settled {
                TurnPhase::Over
            } else {
                TurnPhase::Running
            })
        }),
        ({
            let noise = Arrival { drained_millis, signal: SignalView::Frame(None) };
            turn_action(turn, noise) is Poll && turn_after(turn, noise) == turn
        }),
        ({
            let idle = Arrival { drained_millis, signal: SignalView::Idle };
            turn_action(turn, idle) is Poll && turn_after(turn, idle) == turn
        }),
        ({
            let failed = Arrival { drained_millis, signal: SignalView::ReadFailed };
            turn_action(turn, failed) is FailRead && turn_after(turn, failed).phase
                == TurnPhase::Over
        }),
        ({
            let closed = Arrival { drained_millis, signal: SignalView::Closed };
            turn_action(turn, closed) is FailExited && turn_after(turn, closed).phase
                == TurnPhase::Over
        }),
{
    law_settled_is_the_end(turn.turn, turn.round, frame);
}

/// An interrupt breaks off a running turn exactly where as many user messages
/// came before it as the turn has for its number, or more; then the turn drains.
pub proof fn law_interrupts_break_off_their_turn(
    turn: TurnView,
    drained_millis: nat,
    messages_before: nat,
)
    requires
        turn.phase == TurnPhase::Running,
    ensures
        ({
            let interrupt = Arrival {
                drained_millis,
                signal: SignalView::Interrupt { messages_before },
            };
            let after = turn_after(turn, interrupt);
            &&& messages_before >= turn.turn ==> {
                &&& turn_action(turn, interrupt) is Abort
                &&& after.phase == TurnPhase::Draining
                &&& after.turn == turn.turn
                &&& after.round == turn.round
            }
            &&& messages_before < turn.turn ==> turn_action(turn, interrupt) is Poll && after == turn
        }),
{
}

/// A draining turn ends as interrupted with `agent_settled`, with a stream that
/// is silent, fails or ends, and in any case half a minute after the
/// interruption; until then it goes on draining, and counts its rounds.
pub proof fn law_draining_turns_answer_signals(turn: TurnView, arrival: Arrival)
    requires
        turn.phase == TurnPhase::Draining,
    ensures
        ({
            let ends = arrival.drained_millis >= 30_000 || match arrival.signal {
                SignalView::Frame(Some(frame)) => kind_of(frame) == Some("agent_settled"@),
                SignalView::Frame(None) => false,
                SignalView::Interrupt { .. } => false,
                SignalView::Idle => true,
                SignalView::ReadFailed => true,
                SignalView::Closed => true,
            };
            let after = turn_after(turn, arrival);
            &&& ends ==> turn_action(turn, arrival) is FinishInterrupted && after.phase
                == TurnPhase::Over
            &&& !ends ==> turn_action(turn, arrival) is Drain && after.phase == TurnPhase::Draining
            &&& after.turn == turn.turn
            &&& arrival.drained_millis < 30_000 ==> (arrival.signal matches SignalView::Frame(
                Some(frame),
            ) ==> after.round == next_round(turn.round, frame))
            &&& !(arrival.signal is Frame) ==> after.round == turn.round
        }),
{
    if let SignalView::Frame(Some(frame)) = arrival.signal {
        law_settled_is_the_end(turn.turn, turn.round, frame);
    }
}

/// Exactly a turn that delivers or finishes reports events, and exactly one that
/// finishes or fails is over.
pub proof fn law_actions_report_and_end(action: ActionView)
    ensures
        action matches ActionView::Deliver(events) ==> action.events() == events
            && !action.is_last(),
        action matches ActionView::Finish(events) ==> action.events() == events
            && action.is_last(),
        !(action is Deliver) && !(action is Finish) ==> action.events().len() == 0,
        action is Poll || action is Abort || action is Drain ==> !action.is_last(),
        action is FinishInterrupted || action is FailRead || action is FailExited
            ==> action.is_last(),
{
}

/// An interrupted turn has thirty seconds, counted from the interruption, and a
/// running one looks for an interrupt every fifty milliseconds.
pub proof fn law_turns_have_their_time(elapsed_millis: u64, wait: Option<u64>)
    requires
        call_ensures(drain_wait, (elapsed_millis,), wait),
    ensures
        POLL_MILLIS == 50,
        INTERRUPT_DRAIN_SECS == 30,
        drain_is_over(elapsed_millis as nat) <==> elapsed_millis >= 30_000,
        wait is Some <==> elapsed_millis < 30_000,
        wait matches Some(millis) ==> elapsed_millis + millis == 30_000,
{
}

/// How long a turn waits for a line: a running one fifty milliseconds, one that
/// drains what is left of its time.
pub proof fn law_turns_wait_for_lines(turn: &PiTurn, drained_millis: u64, wait: Option<u64>)
    requires
        call_ensures(PiTurn::wait_millis, (turn, drained_millis), wait),
    ensures
        turn.phase == TurnPhase::Running ==> wait == Some(50u64),
        turn.phase == TurnPhase::Draining ==> {
            &&& wait is Some <==> drained_millis < 30_000
            &&& wait matches Some(millis) ==> drained_millis + millis == 30_000
        },
{
}

/// An interrupt applies to the turn exactly where the message of the turn came
/// before it.
pub proof fn law_interrupts_apply(turn: u64, messages_before: u64, result: bool)
    requires
        call_ensures(interrupt_applies, (turn, messages_before), result),
    ensures
        result <==> turn <= messages_before,
{
}

/// A turn begins running, under its number, with no message begun.
pub proof fn law_turns_begin_running(turn: u64, result: PiTurn)
    requires
        call_ensures(PiTurn::new, (turn,), result),
    ensures
        result.turn == turn,
        result.state.assistant_messages == 0,
        result.phase == TurnPhase::Running,
{
}

/// A step does what the turn does about the signal at that time, and leaves the
/// turn as it then is.
pub proof fn law_steps_answer_the_signal(
    turn: &mut PiTurn,
    drained_millis: u64,
    signal: TurnSignal,
    action: TurnAction,
)
    requires
        call_ensures(PiTurn::step, (turn, drained_millis, signal), action),
    ensures
        ({
            let before = TurnView {
                turn: old(turn).turn as nat,
                round: old(turn).state.assistant_messages as nat,
                phase: old(turn).phase,
            };
            let arrival = Arrival { drained_millis: drained_millis as nat, signal: signal@ };
            &&& action@ == turn_action(before, arrival)
            &&& final(turn).turn == turn_after(before, arrival).turn
            &&& final(turn).state.assistant_messages == turn_after(before, arrival).round
            &&& final(turn).phase == turn_after(before, arrival).phase
        }),
{
}

/// A line is taken as the frame that it holds without the white space around it.
pub proof fn law_lines_are_taken_as_frames(
    turn: &mut PiTurn,
    drained_millis: u64,
    line: &str,
    action: TurnAction,
)
    requires
        call_ensures(PiTurn::step_line, (turn, drained_millis, line), action),
    ensures
        ({
            let before = TurnView {
                turn: old(turn).turn as nat,
                round: old(turn).state.assistant_messages as nat,
                phase: old(turn).phase,
            };
            let arrival = Arrival {
                drained_millis: drained_millis as nat,
                signal: SignalView::Frame(parsed_json(trimmed(line@))),
            };
            &&& action@ == turn_action(before, arrival)
            &&& final(turn).turn == turn_after(before, arrival).turn
            &&& final(turn).state.assistant_messages == turn_after(before, arrival).round
            &&& final(turn).phase == turn_after(before, arrival).phase
        }),
{
}

/// A signal is seen as what it is.
pub proof fn law_signals_are_seen_whole(signal: TurnSignal)
    ensures
        match signal {
            TurnSignal::Interrupt { messages_before } => signal@ is Interrupt
                && signal@->messages_before == messages_before,
            TurnSignal::Frame(Some(frame)) => signal@ == SignalView::Frame(Some(frame@)),
            TurnSignal::Frame(None) => signal@ == SignalView::Frame(None),
            TurnSignal::ReadFailed => signal@ is ReadFailed,
            TurnSignal::Idle => signal@ is Idle,
            TurnSignal::Closed => signal@ is Closed,
        },
{
}

/// An action is seen as what it is, with its events.
pub proof fn law_actions_are_seen_whole(action: TurnAction)
    ensures
        match action {
            TurnAction::Poll => action@ is Poll,
            TurnAction::Abort => action@ is Abort,
            TurnAction::Drain => action@ is Drain,
            TurnAction::Deliver(events) => action@ == ActionView::Deliver(event_views(events@)),
            TurnAction::Finish(events) => action@ == ActionView::Finish(event_views(events@)),
            TurnAction::FinishInterrupted => action@ is FinishInterrupted,
            TurnAction::FailRead => action@ is FailRead,
            TurnAction::FailExited => action@ is FailExited,
        },
{
}

/// One of the events ends the turn exactly where one is a result without an
/// error.
pub proof fn law_a_bare_result_ends_the_turn(events: &Vec<NormalizedEvent>, result: bool)
    requires
        call_ensures(any_terminal, (events,), result),
    ensures
        result <==> exists|i: int|
            0 <= i < events@.len() && ((#[trigger] events@[i]) matches NormalizedEvent::Result {
                error,
            } && error is None),
{
    let views = event_views(events@);
    if result {
        let i = choose|i: int| 0 <= i < views.len() && (#[trigger] views[i]).is_terminal();
        assert(views[i] == events@[i]@);
        assert(events@[i] is Result);
    }
    if exists|i: int|
        0 <= i < events@.len() && ((#[trigger] events@[i]) matches NormalizedEvent::Result { error }
            && error is None) {
        let i = choose|i: int|
            0 <= i < events@.len() && ((#[trigger] events@[i]) matches NormalizedEvent::Result {
                error,
            } && error is None);
        assert(views[i] == events@[i]@);
        assert(views[i].is_terminal());
    }
}

} // verus!
