//! What the server and the router do about each input, stated of the input.

use vstd::prelude::*;

use crate::server::{
    BlocksCommand, BlocksError, InputRouter, PiServer, Route, ServerAction, ServerPhase,
    ServerSignal, UserMessage,
};

verus! {

/// Whether the error names the agent, the stage and the message.
pub open spec fn says(error: BlocksError, stage: Seq<char>, message: Seq<char>) -> bool {
    &&& error.harness@ == "pi"@
    &&& error.stage@ == stage
    &&& error.message@ == message
}

/// A user message is run, unchanged, as the next turn.
pub proof fn law_messages_become_turns(
    server: &mut PiServer,
    message: UserMessage,
    action: ServerAction,
)
    requires
        old(server).turn < u64::MAX,
        call_ensures(
            PiServer::step,
            (server, ServerSignal::Input(Ok(BlocksCommand::User(message)))),
            action,
        ),
    ensures
        action is RunTurn,
        action->turn == old(server).turn + 1,
        action->message == message,
        final(server).turn == old(server).turn + 1,
        final(server).phase == ServerPhase::InTurn,
{
}

/// An interrupt that comes to the server is noted, an attachment passed over,
/// and what cannot be read is reported with what is wrong with it; none of them
/// is a turn.
pub proof fn law_other_inputs_are_no_turns(
    server: &mut PiServer,
    input: Result<BlocksCommand, String>,
    action: ServerAction,
)
    requires
        !(input matches Ok(BlocksCommand::User(_))),
        call_ensures(PiServer::step, (server, ServerSignal::Input(input)), action),
    ensures
        input matches Ok(BlocksCommand::Interrupt) ==> action is NoteInterrupt,
        input matches Ok(BlocksCommand::AttachmentChunk) ==> action is Await,
        input matches Err(message) ==> action is Report && says(
            action->Report_0,
            "input"@,
            message@,
        ),
        final(server).turn == old(server).turn,
        final(server).phase == ServerPhase::Idle,
{
}

/// A turn that has ended well is followed by the next input; one that has failed
/// is reported, and the process is looked at.
pub proof fn law_failed_turns_are_reported(
    server: &mut PiServer,
    error: Option<String>,
    action: ServerAction,
)
    requires
        call_ensures(PiServer::step, (server, ServerSignal::TurnEnded(error)), action),
    ensures
        error is None ==> action is Await && final(server).phase == ServerPhase::Idle,
        error matches Some(message) ==> {
            &&& action is ReportAndProbe
            &&& says(action->ReportAndProbe_0, "turn"@, message@)
            &&& final(server).phase == ServerPhase::AfterFailure
        },
        final(server).turn == old(server).turn,
{
}

/// A process that is dead is dropped; one that lives, or none, is left.
pub proof fn law_dead_processes_are_dropped(
    server: &mut PiServer,
    alive: Option<bool>,
    action: ServerAction,
)
    requires
        call_ensures(PiServer::step, (server, ServerSignal::ChildProbed(alive)), action),
    ensures
        alive == Some(false) ==> action is DropChild,
        alive != Some(false) ==> action is Await,
        final(server).turn == old(server).turn,
        final(server).phase == ServerPhase::Idle,
{
}

/// A server begins with no turn, waiting for an input; and the interrupts that
/// wait are dropped exactly while it waits for one.
pub proof fn law_servers_begin_idle(
    fresh: PiServer,
    server: &PiServer,
    drops: bool,
)
    requires
        call_ensures(PiServer::new, (), fresh),
        call_ensures(PiServer::drops_interrupts, (server,), drops),
    ensures
        fresh.turn == 0,
        fresh.phase == ServerPhase::Idle,
        drops <==> server.phase == ServerPhase::Idle,
{
}

/// An interrupt goes past the server, with the number of user messages before
/// it; every other input goes to the server as it is, and a user message counts.
pub proof fn law_inputs_go_their_way(
    router: &mut InputRouter,
    input: Result<BlocksCommand, String>,
    route: Route,
)
    requires
        call_ensures(InputRouter::route_input, (router, input), route),
    ensures
        input matches Ok(BlocksCommand::Interrupt) ==> {
            &&& route is Interrupt
            &&& route->messages_before == old(router).user_messages
        },
        !(input matches Ok(BlocksCommand::Interrupt)) ==> route == Route::Server(input),
        input matches Ok(BlocksCommand::User(_)) ==> final(router).user_messages
            == old(router).user_messages + 1,
        !(input matches Ok(BlocksCommand::User(_))) ==> final(router).user_messages
            == old(router).user_messages,
{
}

/// A router begins with no message.
pub proof fn law_routers_begin_empty(router: InputRouter)
    requires
        call_ensures(InputRouter::new, (), router),
    ensures
        router.user_messages == 0,
{
}

} // verus!
