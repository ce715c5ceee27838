//! The server: messages come in, each becomes a turn of the agent.
//!
//! The server is a state machine, too. Whoever runs it tells it what has come
//! and does what it says.

use vstd::prelude::*;
use vstd::string::*;

use crate::command::UserInput;
use crate::text::{trim, trimmed};

verus! {

/// A user message, and how it is to be run.
#[derive(Debug)]
pub struct UserMessage {
    pub input: Vec<UserInput>,
    pub client_user_message_id: Option<String>,
    pub model: Option<String>,
    pub provider: Option<String>,
    pub reasoning: Option<String>,
}

/// A command that comes in.
#[derive(Debug)]
pub enum BlocksCommand {
    User(UserMessage),
    Interrupt,
    AttachmentChunk,
}

/// What a line that comes in holds, without the white space around it; none
/// where it is blank.
pub open spec fn line_content(line: Seq<char>) -> Option<Seq<char>> {
    if trimmed(line).len() > 0 {
        Some(trimmed(line))
    } else {
        None
    }
}

/// What a line that comes in holds; none where it is blank, to be passed over.
pub fn input_content(line: &str) -> (content: Option<String>)
    ensures
        content.deep_view() == line_content(line@),
{
    let core = trim(line);
    if core.is_empty() {
        None
    } else {
        Some(core.to_owned())
    }
}

/// Where an input goes: to the turn that runs, or to the server.
#[derive(Debug)]
pub enum Route {
    /// An interrupt, and how many user messages came before it.
    Interrupt { messages_before: u64 },
    Server(Result<BlocksCommand, String>),
}

/// Whether the input is a user message.
pub open spec fn is_message(input: Result<BlocksCommand, String>) -> bool {
    input matches Ok(BlocksCommand::User(_))
}

/// Whether the input is an interrupt.
pub open spec fn is_interrupt(input: Result<BlocksCommand, String>) -> bool {
    input matches Ok(BlocksCommand::Interrupt)
}

/// Sends each input its way, and counts the user messages.
#[derive(Debug)]
pub struct InputRouter {
    pub user_messages: u64,
}

/// Where an input goes that comes behind `messages` user messages. An interrupt
/// goes past the server, which is busy while a turn runs; everything else waits
/// in line.
pub open spec fn route_of(messages: u64, input: Result<BlocksCommand, String>) -> Route {
    if is_interrupt(input) {
        Route::Interrupt { messages_before: messages }
    } else {
        Route::Server(input)
    }
}

/// The number of user messages after an input.
pub open spec fn messages_after(messages: nat, input: Result<BlocksCommand, String>) -> nat {
    if is_message(input) {
        messages + 1
    } else {
        messages
    }
}

impl InputRouter {
    /// A router that has seen no message.
    pub fn new() -> (router: Self)
        ensures
            router.user_messages == 0,
    {
        InputRouter { user_messages: 0 }
    }

    /// Sends an input its way.
    pub fn route_input(&mut self, input: Result<BlocksCommand, String>) -> (route: Route)
        requires
            is_message(input) ==> old(self).user_messages < u64::MAX,
        ensures
            route == route_of(old(self).user_messages, input),
            final(self).user_messages == messages_after(old(self).user_messages as nat, input),
    {
        match input {
            Ok(BlocksCommand::Interrupt) => Route::Interrupt {
                messages_before: self.user_messages,
            },
            Ok(BlocksCommand::User(message)) => {
                self.user_messages = self.user_messages + 1;
                Route::Server(Ok(BlocksCommand::User(message)))
            },
            other => Route::Server(other),
        }
    }
}

/// What the server is at.
#[derive(Debug, Clone, Copy, PartialEq, Eq, Structural)]
pub enum ServerPhase {
    /// It waits for an input.
    Idle,
    /// A turn runs.
    InTurn,
    /// A turn failed; the agent process is to be looked at.
    AfterFailure,
}

/// The server: the number of turns so far, and what it is at.
#[derive(Debug)]
pub struct PiServer {
    pub turn: u64,
    pub phase: ServerPhase,
}

/// What has come.
#[derive(Debug)]
pub enum ServerSignal {
    /// A command, or what is wrong with the line that should have held one.
    Input(Result<BlocksCommand, String>),
    /// The turn is over, with the error that it failed with.
    TurnEnded(Option<String>),
    /// Whether the agent process is alive; none where there is no process.
    ChildProbed(Option<bool>),
}

/// An error to report: which agent, at what, and what it was.
#[derive(Debug)]
pub struct BlocksError {
    pub harness: String,
    pub stage: String,
    pub message: String,
}

/// What is to be done.
#[derive(Debug)]
pub enum ServerAction {
    /// Run turn number `turn` with the message.
    RunTurn { turn: u64, message: UserMessage },
    /// Note that an interrupt came while no turn ran.
    NoteInterrupt,
    /// Report the error, then wait for an input.
    Report(BlocksError),
    /// Report the error, then see whether the agent process is alive.
    ReportAndProbe(BlocksError),
    /// Drop the dead agent process, so that the next message starts another.
    DropChild,
    /// Wait for an input.
    Await,
}

/// Whether the server, at that, can be told this.
pub open spec fn expects(phase: ServerPhase, signal: ServerSignal) -> bool {
    match signal {
        ServerSignal::Input(_) => phase == ServerPhase::Idle,
        ServerSignal::TurnEnded(_) => phase == ServerPhase::InTurn,
        ServerSignal::ChildProbed(_) => phase == ServerPhase::AfterFailure,
    }
}

/// Whether the signal is a user message.
pub open spec fn is_user_message(signal: ServerSignal) -> bool {
    signal matches ServerSignal::Input(input) && is_message(input)
}

/// Whether the error says that, of the agent, at that stage.
pub open spec fn is_report(error: BlocksError, stage: Seq<char>, message: Seq<char>) -> bool {
    &&& error.harness@ == "pi"@
    &&& error.stage@ == stage
    &&& error.message@ == message
}

/// Whether the action is the answer to the signal, for a server that has run
/// `turns` turns.
pub open spec fn answers(turns: nat, signal: ServerSignal, action: ServerAction) -> bool {
    match signal {
        ServerSignal::Input(Ok(BlocksCommand::User(message))) => action == (
        ServerAction::RunTurn { turn: (turns + 1) as u64, message }),
        ServerSignal::Input(Ok(BlocksCommand::Interrupt)) => action is NoteInterrupt,
        ServerSignal::Input(Ok(BlocksCommand::AttachmentChunk)) => action is Await,
        ServerSignal::Input(Err(message)) => action matches ServerAction::Report(error)
            && is_report(error, "input"@, message@),
        ServerSignal::TurnEnded(None) => action is Await,
        ServerSignal::TurnEnded(Some(message)) => action matches ServerAction::ReportAndProbe(error)
            && is_report(error, "turn"@, message@),
        ServerSignal::ChildProbed(alive) => if alive == Some(false) {
            action is DropChild
        } else {
            action is Await
        },
    }
}

/// The number of turns after a signal.
pub open spec fn turns_after(turns: nat, signal: ServerSignal) -> nat {
    if is_user_message(signal) {
        turns + 1
    } else {
        turns
    }
}

/// What the server is at after a signal.
pub open spec fn phase_after(signal: ServerSignal) -> ServerPhase {
    match signal {
        ServerSignal::Input(Ok(BlocksCommand::User(_))) => ServerPhase::InTurn,
        ServerSignal::TurnEnded(Some(_)) => ServerPhase::AfterFailure,
        _ => ServerPhase::Idle,
    }
}

fn report(stage: &str, message: String) -> (error: BlocksError)
    ensures
        is_report(error, stage@, message@),
{
    BlocksError { harness: "pi".to_owned(), stage: stage.to_owned(), message }
}

impl PiServer {
    /// A server that has run no turn.
    pub fn new() -> (server: Self)
        ensures
            server.turn == 0,
            server.phase == ServerPhase::Idle,
    {
        PiServer { turn: 0, phase: ServerPhase::Idle }
    }

    /// Whether the input that came last is dealt with. Then the interrupts
    /// that wait are dropped, as no turn runs that they could break off.
    pub fn drops_interrupts(&self) -> (result: bool)
        ensures
            result == (self.phase == ServerPhase::Idle),
    {
        match self.phase {
            ServerPhase::Idle => true,
            _ => false,
        }
    }

    /// Tells the server what has come; the answer is what to do about it.
    pub fn step(&mut self, signal: ServerSignal) -> (action: ServerAction)
        requires
            expects(old(self).phase, signal),
            is_user_message(signal) ==> old(self).turn < u64::MAX,
        ensures
            answers(old(self).turn as nat, signal, action),
            final(self).turn == turns_after(old(self).turn as nat, signal),
            final(self).phase == phase_after(signal),
    {
        match signal {
            ServerSignal::Input(Ok(BlocksCommand::User(message))) => {
                self.turn = self.turn + 1;
                self.phase = ServerPhase::InTurn;
                ServerAction::RunTurn { turn: self.turn, message }
            },
            ServerSignal::Input(Ok(BlocksCommand::Interrupt)) => ServerAction::NoteInterrupt,
            ServerSignal::Input(Ok(BlocksCommand::AttachmentChunk)) => ServerAction::Await,
            ServerSignal::Input(Err(message)) => ServerAction::Report(report("input", message)),
            ServerSignal::TurnEnded(None) => {
                self.phase = ServerPhase::Idle;
                ServerAction::Await
            },
            ServerSignal::TurnEnded(Some(message)) => {
                self.phase = ServerPhase::AfterFailure;
                ServerAction::ReportAndProbe(report("turn", message))
            },
            ServerSignal::ChildProbed(alive) => {
                self.phase = ServerPhase::Idle;
                match alive {
                    Some(alive) => {
                        if alive {
                            ServerAction::Await
                        } else {
                            ServerAction::DropChild
                        }
                    },
                    None => ServerAction::Await,
                }
            },
        }
    }
}

} // verus!
