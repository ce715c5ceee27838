use pi_harness::command::{
    abort_command, command_line, prompt_command, user_input_text, UserInput,
};
use pi_harness::events::NormalizedEvent;
use pi_harness::json::parse_json;
use pi_harness::turn::{
    drain_wait, interrupt_applies, open_turn, PiTurn, TurnAction, TurnPhase, TurnSignal,
};

const SETTLED: &str = "{\"type\":\"agent_settled\"}";
const DELTA: &str =
    "{\"type\":\"message_update\",\"assistantMessageEvent\":{\"type\":\"text_delta\",\"delta\":\"a\"}}";
const START: &str = "{\"type\":\"message_start\",\"message\":{\"role\":\"assistant\"}}";

fn text(text: &str) -> UserInput {
    UserInput::Text {
        text: text.to_string(),
    }
}

#[test]
fn messages_read_as_one_prompt() {
    assert_eq!(user_input_text(&vec![]), "");
    assert_eq!(user_input_text(&vec![text("hi")]), "hi");
    let items = vec![
        text("hi"),
        UserInput::Image {
            url: "http://x/y.png".to_string(),
        },
        UserInput::LocalImage {
            path: "/tmp/a.png".to_string(),
        },
        UserInput::Skill {
            name: "s".to_string(),
            path: "/s".to_string(),
        },
        UserInput::Mention {
            name: "m".to_string(),
            path: "app://m".to_string(),
        },
        text(""),
    ];
    assert_eq!(
        user_input_text(&items),
        "hi\n[image: http://x/y.png]\n[image file: /tmp/a.png]\n[skill: s at /s]\n[mention: m at app://m]\n"
    );
}

#[test]
fn a_command_is_one_line() {
    let line = command_line(&prompt_command("two\nlines".to_string()));
    assert_eq!(line, "{\"message\":\"two\\nlines\",\"type\":\"prompt\"}\n");
    assert_eq!(command_line(&abort_command()), "{\"type\":\"abort\"}\n");
}

#[test]
fn a_turn_opens_with_its_labels_and_prompt() {
    let opening = open_turn(1, &None, &vec![text("hi")]);
    assert!(opening.first_turn);
    assert_eq!(opening.config.harness, "pi");
    assert_eq!(opening.config.turn_id, "turn-1");
    assert_eq!(opening.config.cli_version, "pi");
    assert_eq!(opening.config.model_provider, "pi");
    assert_eq!(opening.prompt.get_str("type"), Some("prompt"));
    assert_eq!(opening.prompt.get_str("message"), Some("hi"));
    let later = open_turn(12, &Some("acme".to_string()), &vec![]);
    assert!(!later.first_turn);
    assert_eq!(later.config.turn_id, "turn-12");
    assert_eq!(later.config.model_provider, "acme");
}

#[test]
fn a_turn_runs_until_it_is_settled() {
    let mut turn = PiTurn::new(4);
    assert!(matches!(turn.step(0, TurnSignal::Idle), TurnAction::Poll));
    assert!(matches!(turn.step_line(0, "noise"), TurnAction::Poll));
    assert!(matches!(turn.step_line(0, START), TurnAction::Deliver(events) if events.is_empty()));
    match turn.step_line(0, DELTA) {
        TurnAction::Deliver(events) => assert!(matches!(
            &events[..],
            [NormalizedEvent::AgentTextDelta { item_id, delta }]
                if item_id == "pi-msg-4-1" && delta == "a"
        )),
        other => panic!("unexpected action: {other:?}"),
    }
    assert!(matches!(
        turn.step_line(0, "{\"type\":\"error\",\"message\":\"down\"}"),
        TurnAction::Deliver(events) if events.len() == 1
    ));
    assert_eq!(turn.phase, TurnPhase::Running);
    assert!(matches!(
        turn.step_line(0, SETTLED),
        TurnAction::Finish(events) if matches!(&events[..], [NormalizedEvent::Result { error: None }])
    ));
    assert_eq!(turn.phase, TurnPhase::Over);
}

#[test]
fn an_interrupted_turn_is_drained_in_silence() {
    let mut turn = PiTurn::new(1);
    assert!(matches!(turn.step(0, TurnSignal::Interrupt { messages_before: 1 }), TurnAction::Abort));
    assert_eq!(turn.phase, TurnPhase::Draining);
    assert!(matches!(turn.step_line(0, DELTA), TurnAction::Drain));
    assert!(matches!(turn.step_line(0, "noise"), TurnAction::Drain));
    assert!(matches!(turn.step(0, TurnSignal::Interrupt { messages_before: 1 }), TurnAction::Drain));
    assert!(matches!(turn.step_line(0, SETTLED), TurnAction::FinishInterrupted));
    assert_eq!(turn.phase, TurnPhase::Over);
    for signal in [TurnSignal::Idle, TurnSignal::ReadFailed, TurnSignal::Closed] {
        let mut turn = PiTurn::new(1);
        turn.step(0, TurnSignal::Interrupt { messages_before: 1 });
        assert!(matches!(turn.step(29_999, signal), TurnAction::FinishInterrupted));
        assert_eq!(turn.phase, TurnPhase::Over);
    }
}

#[test]
fn a_turn_fails_with_its_stream() {
    let mut turn = PiTurn::new(1);
    assert!(matches!(turn.step(0, TurnSignal::ReadFailed), TurnAction::FailRead));
    assert_eq!(turn.phase, TurnPhase::Over);
    let mut turn = PiTurn::new(1);
    assert!(matches!(turn.step(0, TurnSignal::Closed), TurnAction::FailExited));
    assert_eq!(turn.phase, TurnPhase::Over);
}

#[test]
fn a_command_reads_back() {
    let command = prompt_command("a \"b\"\n\u{e9}".to_string());
    let line = command_line(&command);
    let back = parse_json(line.strip_suffix('\n').unwrap()).unwrap();
    assert_eq!(back.to_value(), command.to_value());
}

#[test]
fn a_drain_is_bounded() {
    assert_eq!(drain_wait(0), Some(30_000));
    assert_eq!(drain_wait(29_999), Some(1));
    assert_eq!(drain_wait(30_000), None);
    assert_eq!(drain_wait(u64::MAX), None);
    for line in [DELTA, START, SETTLED, "noise"] {
        let mut turn = PiTurn::new(1);
        assert_eq!(turn.wait_millis(40_000), Some(50));
        turn.step(40_000, TurnSignal::Interrupt { messages_before: 1 });
        assert_eq!(turn.phase, TurnPhase::Draining);
        assert!(matches!(turn.step_line(29_999, DELTA), TurnAction::Drain));
        assert_eq!(turn.wait_millis(29_999), Some(1));
        assert_eq!(turn.wait_millis(30_000), None);
        assert!(matches!(turn.step_line(30_000, line), TurnAction::FinishInterrupted));
        assert_eq!(turn.phase, TurnPhase::Over);
    }
    for signal in [
        TurnSignal::Interrupt { messages_before: 1 },
        TurnSignal::Frame(None),
        TurnSignal::Idle,
        TurnSignal::ReadFailed,
        TurnSignal::Closed,
    ] {
        let mut turn = PiTurn::new(1);
        turn.step(0, TurnSignal::Interrupt { messages_before: 1 });
        assert!(matches!(turn.step(30_001, signal), TurnAction::FinishInterrupted));
        assert_eq!(turn.phase, TurnPhase::Over);
    }
}

#[test]
fn a_stale_interrupt_is_passed_over() {
    assert!(!interrupt_applies(2, 1));
    assert!(interrupt_applies(2, 2));
    assert!(interrupt_applies(2, 3));
    let mut turn = PiTurn::new(2);
    for messages_before in [0, 1] {
        let action = turn.step(0, TurnSignal::Interrupt { messages_before });
        assert!(matches!(action, TurnAction::Poll));
        assert_eq!(turn.phase, TurnPhase::Running);
    }
    assert!(matches!(turn.step_line(0, SETTLED), TurnAction::Finish(_)));
    let mut turn = PiTurn::new(2);
    let action = turn.step(0, TurnSignal::Interrupt { messages_before: 3 });
    assert!(matches!(action, TurnAction::Abort));
}
