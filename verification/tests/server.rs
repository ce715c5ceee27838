use pi_harness::command::UserInput;
use pi_harness::server::{
    input_content, BlocksCommand, InputRouter, PiServer, Route, ServerAction, ServerPhase,
    ServerSignal, UserMessage,
};
use pi_harness::turn::{PiTurn, TurnAction, TurnSignal};

fn message(text: &str) -> BlocksCommand {
    BlocksCommand::User(UserMessage {
        input: vec![UserInput::Text {
            text: text.to_string(),
        }],
        client_user_message_id: None,
        model: None,
        provider: None,
        reasoning: None,
    })
}

#[test]
fn blank_lines_are_passed_over() {
    assert_eq!(input_content(" \t\u{2003}"), None);
    assert_eq!(input_content("  {} \r").as_deref(), Some("{}"));
}

#[test]
fn interrupts_go_past_the_server() {
    let mut router = InputRouter::new();
    assert!(matches!(
        router.route_input(Ok(BlocksCommand::Interrupt)),
        Route::Interrupt { messages_before: 0 }
    ));
    assert!(matches!(
        router.route_input(Ok(BlocksCommand::AttachmentChunk)),
        Route::Server(Ok(BlocksCommand::AttachmentChunk))
    ));
    assert!(matches!(
        router.route_input(Err("bad".to_string())),
        Route::Server(Err(error)) if error == "bad"
    ));
    assert_eq!(router.user_messages, 0);
    match router.route_input(Ok(message("hi"))) {
        Route::Server(Ok(BlocksCommand::User(message))) => assert_eq!(message.input.len(), 1),
        other => panic!("unexpected route: {other:?}"),
    }
    assert!(matches!(
        router.route_input(Ok(BlocksCommand::Interrupt)),
        Route::Interrupt { messages_before: 1 }
    ));
}

#[test]
fn an_interrupt_reaches_no_later_turn() {
    let mut router = InputRouter::new();
    let mut server = PiServer::new();
    let mut interrupts = vec![];
    let mut last_turn = 0;
    for input in [
        Ok(message("one")),
        Ok(BlocksCommand::Interrupt),
        Err("bad".to_string()),
        Ok(BlocksCommand::Interrupt),
        Ok(message("two")),
    ] {
        match router.route_input(input) {
            Route::Interrupt { messages_before } => interrupts.push(messages_before),
            Route::Server(input) => {
                if let ServerAction::RunTurn { turn, .. } = server.step(ServerSignal::Input(input)) {
                    last_turn = turn;
                    server.step(ServerSignal::TurnEnded(None));
                }
            }
        }
    }
    assert_eq!(last_turn, 2);
    assert_eq!(interrupts, [1, 1]);
    let mut turn = PiTurn::new(last_turn);
    for messages_before in interrupts {
        let action = turn.step(0, TurnSignal::Interrupt { messages_before });
        assert!(matches!(action, TurnAction::Poll));
    }
    match router.route_input(Ok(BlocksCommand::Interrupt)) {
        Route::Interrupt { messages_before } => assert!(matches!(
            turn.step(0, TurnSignal::Interrupt { messages_before }),
            TurnAction::Abort
        )),
        other => panic!("unexpected route: {other:?}"),
    }
}

#[test]
fn turns_are_numbered_by_user_messages() {
    let mut server = PiServer::new();
    assert!(server.drops_interrupts());
    for expected in 1..4u64 {
        let action = server.step(ServerSignal::Input(Ok(message("hi"))));
        match action {
            ServerAction::RunTurn { turn, message } => {
                assert_eq!(turn, expected);
                assert_eq!(message.input.len(), 1);
            }
            other => panic!("unexpected action: {other:?}"),
        }
        assert!(!server.drops_interrupts());
        assert!(matches!(
            server.step(ServerSignal::TurnEnded(None)),
            ServerAction::Await
        ));
        assert!(matches!(
            server.step(ServerSignal::Input(Ok(BlocksCommand::AttachmentChunk))),
            ServerAction::Await
        ));
        assert!(matches!(
            server.step(ServerSignal::Input(Ok(BlocksCommand::Interrupt))),
            ServerAction::NoteInterrupt
        ));
        assert_eq!(server.turn, expected);
    }
}

#[test]
fn a_dead_child_is_dropped_after_a_failed_turn() {
    for (alive, dropped) in [(Some(false), true), (Some(true), false), (None, false)] {
        let mut server = PiServer::new();
        server.step(ServerSignal::Input(Ok(message("hi"))));
        match server.step(ServerSignal::TurnEnded(Some("gone".to_string()))) {
            ServerAction::ReportAndProbe(error) => {
                assert_eq!(error.harness, "pi");
                assert_eq!(error.stage, "turn");
                assert_eq!(error.message, "gone");
            }
            other => panic!("unexpected action: {other:?}"),
        }
        assert_eq!(server.phase, ServerPhase::AfterFailure);
        let action = server.step(ServerSignal::ChildProbed(alive));
        assert_eq!(matches!(action, ServerAction::DropChild), dropped);
        assert!(server.drops_interrupts());
    }
}

#[test]
fn bad_input_is_reported() {
    let mut server = PiServer::new();
    match server.step(ServerSignal::Input(Err("no json".to_string()))) {
        ServerAction::Report(error) => {
            assert_eq!(error.harness, "pi");
            assert_eq!(error.stage, "input");
            assert_eq!(error.message, "no json");
        }
        other => panic!("unexpected action: {other:?}"),
    }
    assert_eq!(server.turn, 0);
    assert_eq!(server.phase, ServerPhase::Idle);
}
