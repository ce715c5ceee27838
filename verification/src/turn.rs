//! One turn: from the prompt to the frame that ends it, or to its interruption.
//!
//! The turn is a state machine. Whoever runs it tells it what has come (a
//! line, an interrupt, nothing, the end of the stream), and how long after an
//! interruption, and does what it says.

use vstd::prelude::*;
use vstd::string::*;

use crate::command::{
    UserInput, message_text, prompt_command, prompt_json, user_input_text,
};
use crate::events::{
    EventView, NormalizedEvent, any_terminal, ends_turn, event_views,
};
use crate::frame::{
    PiTurnState, begins_assistant, frame_events, next_round, normalize_pi_frame, read_frame,
};
use crate::json::{Json, JsonView, parsed_json};
use crate::text::{decimal, push_decimal, trimmed};

verus! {

/// How long an interrupted turn may take to deliver the frame that ends it, in
/// seconds.
pub const INTERRUPT_DRAIN_SECS: u64 = 30;

/// How long to wait for a line before looking for an interrupt again, in
/// milliseconds.
pub const POLL_MILLIS: u64 = 50;

/// What the reports of a turn are labelled with.
#[derive(Debug)]
pub struct TurnConfig {
    pub harness: String,
    pub turn_id: String,
    pub cli_version: String,
    pub model_provider: String,
}

/// What begins a turn: the labels of its reports, whether it is the first one,
/// and the command to send.
#[derive(Debug)]
pub struct TurnOpening {
    pub config: TurnConfig,
    pub first_turn: bool,
    pub prompt: Json,
}

/// The id of turn number `turn`.
pub open spec fn turn_id(turn: nat) -> Seq<char> {
    "turn-"@ + decimal(turn)
}

/// What begins turn number `turn` on an agent with that provider.
pub fn open_turn(turn: u64, provider: &Option<String>, input: &Vec<UserInput>) -> (opening:
    TurnOpening)
    ensures
        opening.config.harness@ == "pi"@,
        opening.config.turn_id@ == turn_id(turn as nat),
        opening.config.cli_version@ == "pi"@,
        opening.config.model_provider@ == (match provider {
            Some(provider) => provider@,
            None => "pi"@,
        }),
        opening.first_turn == (turn == 1),
        opening.prompt@ == prompt_json(message_text(input@)),
{
    let mut id = "turn-".to_owned();
    push_decimal(&mut id, turn);
    TurnOpening {
        config: TurnConfig {
            harness: "pi".to_owned(),
            turn_id: id,
            cli_version: "pi".to_owned(),
            model_provider: match provider {
                Some(provider) => provider.clone(),
                None => "pi".to_owned(),
            },
        },
        first_turn: turn == 1,
        prompt: prompt_command(user_input_text(input)),
    }
}

/// Whether an interrupted turn has had its time, that many milliseconds after
/// the agent was told to stop.
pub open spec fn drain_is_over(drained_millis: nat) -> bool {
    drained_millis >= INTERRUPT_DRAIN_SECS * 1000
}

/// How long an interrupted turn may wait for a line, in milliseconds, that long
/// after the agent was told to stop; none where its time is over.
pub fn drain_wait(elapsed_millis: u64) -> (wait: Option<u64>)
    ensures
        wait == (if elapsed_millis < INTERRUPT_DRAIN_SECS * 1000 {
            Some((INTERRUPT_DRAIN_SECS * 1000 - elapsed_millis) as u64)
        } else {
            None
        }),
        wait is None <==> drain_is_over(elapsed_millis as nat),
{
    let limit: u64 = INTERRUPT_DRAIN_SECS * 1000;
    if elapsed_millis < limit {
        Some(limit - elapsed_millis)
    } else {
        None
    }
}

/// Whether an interrupt that came behind that many user messages is meant for
/// the turn: it is where the message of the turn was there before it.
pub open spec fn is_meant_for(turn: nat, messages_before: nat) -> bool {
    messages_before >= turn
}

/// Whether an interrupt that came behind that many user messages is meant for
/// the turn. One from before the message of the turn is stale.
pub fn interrupt_applies(turn: u64, messages_before: u64) -> (result: bool)
    ensures
        result == (messages_before >= turn),
        result == is_meant_for(turn as nat, messages_before as nat),
{
    messages_before >= turn
}

/// How far a turn has come.
#[derive(Debug, Clone, Copy, PartialEq, Eq, Structural)]
pub enum TurnPhase {
    /// Frames are turned into events.
    Running,
    /// The turn was interrupted; frames are thrown away until the one that
    /// ends the run.
    Draining,
    Over,
}

/// A turn under way.
#[derive(Debug)]
pub struct PiTurn {
    pub turn: u64,
    pub state: PiTurnState,
    pub phase: TurnPhase,
}

/// What a [`PiTurn`] is.
pub struct TurnView {
    pub turn: nat,
    pub round: nat,
    pub phase: TurnPhase,
}

impl View for PiTurn {
    type V = TurnView;

    open spec fn view(&self) -> TurnView {
        TurnView {
            turn: self.turn as nat,
            round: self.state.assistant_messages as nat,
            phase: self.phase,
        }
    }
}

/// What has come.
#[derive(Debug)]
pub enum TurnSignal {
    /// The user asks to break off, behind that many user messages.
    Interrupt { messages_before: u64 },
    /// A line, with the frame that it holds; none where it is no JSON.
    Frame(Option<Json>),
    /// Reading the stream failed.
    ReadFailed,
    /// Nothing within the time to wait.
    Idle,
    /// The stream is at its end.
    Closed,
}

/// What a [`TurnSignal`] is.
pub enum SignalView {
    Interrupt { messages_before: nat },
    Frame(Option<JsonView>),
    ReadFailed,
    Idle,
    Closed,
}

impl View for TurnSignal {
    type V = SignalView;

    open spec fn view(&self) -> SignalView {
        match *self {
            TurnSignal::Interrupt { messages_before } => SignalView::Interrupt {
                messages_before: messages_before as nat,
            },
            TurnSignal::Frame(Some(frame)) => SignalView::Frame(Some(frame@)),
            TurnSignal::Frame(None) => SignalView::Frame(None),
            TurnSignal::ReadFailed => SignalView::ReadFailed,
            TurnSignal::Idle => SignalView::Idle,
            TurnSignal::Closed => SignalView::Closed,
        }
    }
}

/// A signal, and how many milliseconds after the agent was told to stop it is
/// taken up. The time counts for an interrupted turn only.
pub struct Arrival {
    pub drained_millis: nat,
    pub signal: SignalView,
}

/// What is to be done.
#[derive(Debug)]
pub enum TurnAction {
    /// Look for an interrupt and wait for a line.
    Poll,
    /// Send the command that breaks off the run, then wait for a line until
    /// the time for that is over.
    Abort,
    /// Go on waiting for a line until that time is over.
    Drain,
    /// Report the events, then go on.
    Deliver(Vec<NormalizedEvent>),
    /// Report the events, then that the turn is finished.
    Finish(Vec<NormalizedEvent>),
    /// Report that the turn was interrupted.
    FinishInterrupted,
    /// Give up: the stream cannot be read.
    FailRead,
    /// Give up: the agent is gone.
    FailExited,
}

/// What a [`TurnAction`] is.
pub enum ActionView {
    Poll,
    Abort,
    Drain,
    Deliver(Seq<EventView>),
    Finish(Seq<EventView>),
    FinishInterrupted,
    FailRead,
    FailExited,
}

impl View for TurnAction {
    type V = ActionView;

    open spec fn view(&self) -> ActionView {
        match *self {
            TurnAction::Poll => ActionView::Poll,
            TurnAction::Abort => ActionView::Abort,
            TurnAction::Drain => ActionView::Drain,
            TurnAction::Deliver(events) => ActionView::Deliver(event_views(events@)),
            TurnAction::Finish(events) => ActionView::Finish(event_views(events@)),
            TurnAction::FinishInterrupted => ActionView::FinishInterrupted,
            TurnAction::FailRead => ActionView::FailRead,
            TurnAction::FailExited => ActionView::FailExited,
        }
    }
}

/// What a running turn does about a signal. An interrupt that is not meant for
/// it is passed over.
pub open spec fn running_action(turn: TurnView, signal: SignalView) -> ActionView {
    match signal {
        SignalView::Interrupt { messages_before } => if is_meant_for(turn.turn, messages_before) {
            ActionView::Abort
        } else {
            ActionView::Poll
        },
        SignalView::Frame(Some(frame)) => {
            let events = frame_events(turn.turn, turn.round, frame);
            if ends_turn(events) {
                ActionView::Finish(events)
            } else {
                ActionView::Deliver(events)
            }
        },
        SignalView::Frame(None) => ActionView::Poll,
        SignalView::Idle => ActionView::Poll,
        SignalView::ReadFailed => ActionView::FailRead,
        SignalView::Closed => ActionView::FailExited,
    }
}

/// What an interrupted turn does about a signal: until its time is over it
/// waits for the frame that ends the run, or for the stream to fall silent or
/// fail; then it is at its end, whatever comes.
pub open spec fn draining_action(turn: TurnView, arrival: Arrival) -> ActionView {
    if drain_is_over(arrival.drained_millis) {
        ActionView::FinishInterrupted
    } else {
        match arrival.signal {
            SignalView::Interrupt { .. } => ActionView::Drain,
            SignalView::Frame(Some(frame)) => if ends_turn(
                frame_events(turn.turn, turn.round, frame),
            ) {
                ActionView::FinishInterrupted
            } else {
                ActionView::Drain
            },
            SignalView::Frame(None) => ActionView::Drain,
            SignalView::Idle | SignalView::ReadFailed | SignalView::Closed => {
                ActionView::FinishInterrupted
            },
        }
    }
}

/// What a turn does about a signal.
pub open spec fn turn_action(turn: TurnView, arrival: Arrival) -> ActionView
    recommends
        turn.phase != TurnPhase::Over,
{
    if turn.phase == TurnPhase::Draining {
        draining_action(turn, arrival)
    } else {
        running_action(turn, arrival.signal)
    }
}

impl ActionView {
    /// Whether the turn is over with this action.
    pub open spec fn is_last(self) -> bool {
        self is Finish || self is FinishInterrupted || self is FailRead || self is FailExited
    }

    /// The events that the action reports.
    pub open spec fn events(self) -> Seq<EventView> {
        match self {
            ActionView::Deliver(events) => events,
            ActionView::Finish(events) => events,
            _ => Seq::empty(),
        }
    }
}

/// What a turn is after a signal.
pub open spec fn turn_after(turn: TurnView, arrival: Arrival) -> TurnView {
    let action = turn_action(turn, arrival);
    TurnView {
        turn: turn.turn,
        round: match arrival.signal {
            SignalView::Frame(Some(frame)) => if turn.phase == TurnPhase::Draining
                && drain_is_over(arrival.drained_millis) {
                turn.round
            } else {
                next_round(turn.round, frame)
            },
            _ => turn.round,
        },
        phase: if action.is_last() {
            TurnPhase::Over
        } else if action is Abort {
            TurnPhase::Draining
        } else {
            turn.phase
        },
    }
}

/// Whether the signal is a frame that begins an assistant message.
pub open spec fn signal_begins_assistant(signal: SignalView) -> bool {
    signal matches SignalView::Frame(Some(frame)) && begins_assistant(frame)
}

impl PiTurn {
    /// Turn number `turn`, with its prompt just sent.
    pub fn new(turn: u64) -> (result: Self)
        ensures
            result@ == (TurnView { turn: turn as nat, round: 0, phase: TurnPhase::Running }),
    {
        PiTurn { turn, state: PiTurnState::default(), phase: TurnPhase::Running }
    }

    /// How long to wait for a line, in milliseconds, that long after the agent
    /// was told to stop; none where an interrupted turn has had its time.
    pub fn wait_millis(&self, drained_millis: u64) -> (wait: Option<u64>)
        ensures
            self.phase != TurnPhase::Draining ==> wait == Some(POLL_MILLIS),
            self.phase == TurnPhase::Draining ==> wait == (if drained_millis < INTERRUPT_DRAIN_SECS
                * 1000 {
                Some((INTERRUPT_DRAIN_SECS * 1000 - drained_millis) as u64)
            } else {
                None
            }),
    {
        match self.phase {
            TurnPhase::Draining => drain_wait(drained_millis),
            _ => Some(POLL_MILLIS),
        }
    }

    fn take_frame(&mut self, frame: &Json) -> (action: TurnAction)
        requires
            old(self).phase == TurnPhase::Running,
            begins_assistant(frame@) ==> old(self).state.assistant_messages < u64::MAX,
        ensures
            action@ == running_action(old(self)@, SignalView::Frame(Some(frame@))),
            final(self)@ == (TurnView {
                turn: old(self)@.turn,
                round: next_round(old(self)@.round, frame@),
                phase: if action@ is Finish {
                    TurnPhase::Over
                } else {
                    TurnPhase::Running
                },
            }),
    {
        let events = normalize_pi_frame(self.turn, &mut self.state, frame);
        if any_terminal(&events) {
            self.phase = TurnPhase::Over;
            TurnAction::Finish(events)
        } else {
            TurnAction::Deliver(events)
        }
    }

    fn run_on(&mut self, signal: TurnSignal) -> (action: TurnAction)
        requires
            old(self).phase == TurnPhase::Running,
            signal_begins_assistant(signal@) ==> old(self).state.assistant_messages < u64::MAX,
        ensures
            forall|drained_millis: nat| #[trigger]
                turn_action(old(self)@, Arrival { drained_millis, signal: signal@ }) == action@,
            forall|drained_millis: nat| #[trigger]
                turn_after(old(self)@, Arrival { drained_millis, signal: signal@ })
                    == final(self)@,
    {
        match signal {
            TurnSignal::Interrupt { messages_before } => {
                if interrupt_applies(self.turn, messages_before) {
                    self.phase = TurnPhase::Draining;
                    TurnAction::Abort
                } else {
                    TurnAction::Poll
                }
            },
            TurnSignal::Frame(Some(frame)) => self.take_frame(&frame),
            TurnSignal::Frame(None) => TurnAction::Poll,
            TurnSignal::Idle => TurnAction::Poll,
            TurnSignal::ReadFailed => {
                self.phase = TurnPhase::Over;
                TurnAction::FailRead
            },
            TurnSignal::Closed => {
                self.phase = TurnPhase::Over;
                TurnAction::FailExited
            },
        }
    }

    fn drain(&mut self, drained_millis: u64, signal: TurnSignal) -> (action: TurnAction)
        requires
            old(self).phase == TurnPhase::Draining,
            signal_begins_assistant(signal@) ==> old(self).state.assistant_messages < u64::MAX,
        ensures
            action@ == turn_action(
                old(self)@,
                Arrival { drained_millis: drained_millis as nat, signal: signal@ },
            ),
            final(self)@ == turn_after(
                old(self)@,
                Arrival { drained_millis: drained_millis as nat, signal: signal@ },
            ),
    {
        let done = if drain_wait(drained_millis).is_none() {
            true
        } else {
            match signal {
                TurnSignal::Interrupt { .. } => false,
                TurnSignal::Frame(Some(frame)) => {
                    let events = normalize_pi_frame(self.turn, &mut self.state, &frame);
                    any_terminal(&events)
                },
                TurnSignal::Frame(None) => false,
                TurnSignal::Idle => true,
                TurnSignal::ReadFailed => true,
                TurnSignal::Closed => true,
            }
        };
        if done {
            self.phase = TurnPhase::Over;
            TurnAction::FinishInterrupted
        } else {
            TurnAction::Drain
        }
    }

    /// Tells the turn what has come, that many milliseconds after the agent was
    /// told to stop (any number will do while the turn runs); the answer is what
    /// to do about it.
    pub fn step(&mut self, drained_millis: u64, signal: TurnSignal) -> (action: TurnAction)
        requires
            old(self).phase != TurnPhase::Over,
            signal_begins_assistant(signal@) ==> old(self).state.assistant_messages < u64::MAX,
        ensures
            action@ == turn_action(
                old(self)@,
                Arrival { drained_millis: drained_millis as nat, signal: signal@ },
            ),
            final(self)@ == turn_after(
                old(self)@,
                Arrival { drained_millis: drained_millis as nat, signal: signal@ },
            ),
    {
        match self.phase {
            TurnPhase::Draining => self.drain(drained_millis, signal),
            _ => self.run_on(signal),
        }
    }

    /// Hands the turn a line of the agent's stream.
    pub fn step_line(&mut self, drained_millis: u64, line: &str) -> (action: TurnAction)
        requires
            old(self).phase != TurnPhase::Over,
            old(self).state.assistant_messages < u64::MAX,
        ensures
            action@ == turn_action(
                old(self)@,
                Arrival {
                    drained_millis: drained_millis as nat,
                    signal: SignalView::Frame(parsed_json(trimmed(line@))),
                },
            ),
            final(self)@ == turn_after(
                old(self)@,
                Arrival {
                    drained_millis: drained_millis as nat,
                    signal: SignalView::Frame(parsed_json(trimmed(line@))),
                },
            ),
    {
        self.step(drained_millis, TurnSignal::Frame(read_frame(line)))
    }
}

} // verus!
