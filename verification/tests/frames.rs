use pi_harness::events::{any_terminal, NormalizedContent, NormalizedEvent};
use pi_harness::frame::{
    begins_assistant_message, normalize_pi_frame, normalize_usage, plain_result_text, read_frame,
    string_or, tool_result_text, PiTurnState,
};
use pi_harness::json::Json;

fn s(text: &str) -> Json {
    Json::Str(text.to_string())
}

fn obj(members: Vec<(&str, Json)>) -> Json {
    Json::Object(
        members
            .into_iter()
            .map(|(key, value)| (key.to_string(), value))
            .collect(),
    )
}

fn arr(items: Vec<Json>) -> Json {
    Json::Array(items)
}

fn is_terminal(events: &[NormalizedEvent]) -> bool {
    events.iter().any(NormalizedEvent::is_terminal)
}

fn assistant_start() -> Json {
    obj(vec![
        ("type", s("message_start")),
        (
            "message",
            obj(vec![("role", s("assistant")), ("content", arr(vec![]))]),
        ),
    ])
}

#[test]
fn text_delta_becomes_agent_text_delta() {
    let mut state = PiTurnState::default();
    let events = normalize_pi_frame(
        1,
        &mut state,
        &obj(vec![
            ("type", s("message_update")),
            (
                "assistantMessageEvent",
                obj(vec![
                    ("type", s("text_delta")),
                    ("delta", s("Running a quick check.")),
                    ("contentIndex", Json::Int(0)),
                ]),
            ),
        ]),
    );
    assert!(!is_terminal(&events));
    assert!(matches!(
        &events[..],
        [NormalizedEvent::AgentTextDelta { delta, .. }] if delta == "Running a quick check."
    ));
}

#[test]
fn thinking_delta_becomes_reasoning_delta() {
    let mut state = PiTurnState::default();
    let events = normalize_pi_frame(
        1,
        &mut state,
        &obj(vec![
            ("type", s("message_update")),
            (
                "assistantMessageEvent",
                obj(vec![("type", s("thinking_delta")), ("delta", s("hmm"))]),
            ),
        ]),
    );
    assert!(matches!(
        &events[..],
        [NormalizedEvent::ReasoningTextDelta { delta, .. }] if delta == "hmm"
    ));
}

#[test]
fn tool_execution_start_becomes_tool_use() {
    let mut state = PiTurnState::default();
    let events = normalize_pi_frame(
        1,
        &mut state,
        &obj(vec![
            ("type", s("tool_execution_start")),
            ("toolCallId", s("call_mock_1")),
            ("toolName", s("bash")),
            ("args", obj(vec![("command", s("echo hello-from-pi"))])),
        ]),
    );
    match &events[..] {
        [NormalizedEvent::AssistantMessage { content, .. }] => match &content[..] {
            [NormalizedContent::ToolUse { raw_id, tool, arguments }] => {
                assert_eq!(raw_id, "call_mock_1");
                assert_eq!(tool, "bash");
                assert_eq!(arguments.get_str("command"), Some("echo hello-from-pi"));
                assert_eq!(arguments.to_value()["command"], "echo hello-from-pi");
            }
            other => panic!("unexpected content: {other:?}"),
        },
        other => panic!("unexpected events: {other:?}"),
    }
}

#[test]
fn tool_execution_end_becomes_tool_result() {
    let mut state = PiTurnState::default();
    let events = normalize_pi_frame(
        1,
        &mut state,
        &obj(vec![
            ("type", s("tool_execution_end")),
            ("toolCallId", s("call_mock_1")),
            ("toolName", s("bash")),
            (
                "result",
                obj(vec![(
                    "content",
                    arr(vec![obj(vec![
                        ("type", s("text")),
                        ("text", s("hello-from-pi\n")),
                    ])]),
                )]),
            ),
            ("isError", Json::Bool(false)),
        ]),
    );
    match &events[..] {
        [NormalizedEvent::ToolResults(results)] => {
            assert_eq!(results.len(), 1);
            assert_eq!(results[0].tool_use_id, "call_mock_1");
            assert_eq!(results[0].content, "hello-from-pi\n");
            assert!(!results[0].is_error);
            assert_eq!(results[0].exit_code, None);
        }
        other => panic!("unexpected events: {other:?}"),
    }
}

#[test]
fn assistant_message_end_emits_usage_and_final_text() {
    let mut state = PiTurnState::default();
    normalize_pi_frame(1, &mut state, &assistant_start());
    let events = normalize_pi_frame(
        1,
        &mut state,
        &obj(vec![
            ("type", s("message_end")),
            (
                "message",
                obj(vec![
                    ("role", s("assistant")),
                    ("stopReason", s("stop")),
                    (
                        "content",
                        arr(vec![obj(vec![
                            ("type", s("text")),
                            ("text", s("TOOL_OK hello-from-pi")),
                        ])]),
                    ),
                    (
                        "usage",
                        obj(vec![
                            ("input", Json::Int(140)),
                            ("output", Json::Int(8)),
                            ("cacheRead", Json::Int(0)),
                            ("cacheWrite", Json::Int(0)),
                            ("reasoning", Json::Int(0)),
                            ("totalTokens", Json::Int(148)),
                            ("cost", obj(vec![])),
                        ]),
                    ),
                ]),
            ),
        ]),
    );
    assert_eq!(events.len(), 2);
    assert!(matches!(
        &events[0],
        NormalizedEvent::TokenUsage { usage }
            if usage.input_tokens == Some(140) && usage.output_tokens == Some(8)
    ));
    match &events[1] {
        NormalizedEvent::AssistantMessage { stop_reason, content, .. } => {
            assert_eq!(stop_reason.as_deref(), Some("end_turn"));
            assert!(matches!(
                &content[..],
                [NormalizedContent::AgentText { text, .. }] if text == "TOOL_OK hello-from-pi"
            ));
        }
        other => panic!("unexpected event: {other:?}"),
    }
}

#[test]
fn tool_use_round_keeps_stop_reason_open() {
    let mut state = PiTurnState::default();
    normalize_pi_frame(1, &mut state, &assistant_start());
    let events = normalize_pi_frame(
        1,
        &mut state,
        &obj(vec![
            ("type", s("message_end")),
            (
                "message",
                obj(vec![
                    ("role", s("assistant")),
                    ("stopReason", s("toolUse")),
                    (
                        "content",
                        arr(vec![
                            obj(vec![
                                ("type", s("text")),
                                ("text", s("Running a quick check.")),
                            ]),
                            obj(vec![
                                ("type", s("toolCall")),
                                ("id", s("call_mock_1")),
                                ("name", s("bash")),
                            ]),
                        ]),
                    ),
                ]),
            ),
        ]),
    );
    match &events[..] {
        [NormalizedEvent::AssistantMessage { stop_reason, .. }] => {
            assert!(stop_reason.is_none());
        }
        other => panic!("unexpected events: {other:?}"),
    }
}

#[test]
fn user_and_tool_result_messages_are_ignored() {
    let mut state = PiTurnState::default();
    for role in ["user", "toolResult"] {
        let events = normalize_pi_frame(
            1,
            &mut state,
            &obj(vec![
                ("type", s("message_end")),
                (
                    "message",
                    obj(vec![
                        ("role", s(role)),
                        (
                            "content",
                            arr(vec![obj(vec![("type", s("text")), ("text", s("hi"))])]),
                        ),
                    ]),
                ),
            ]),
        );
        assert!(events.is_empty(), "{role} message leaked events");
        let start = obj(vec![
            ("type", s("message_start")),
            ("message", obj(vec![("role", s(role))])),
        ]);
        assert!(!begins_assistant_message(&start));
        assert!(normalize_pi_frame(1, &mut state, &start).is_empty());
    }
    assert_eq!(state.assistant_messages, 0);
}

#[test]
fn agent_settled_is_terminal() {
    let mut state = PiTurnState::default();
    let events = normalize_pi_frame(1, &mut state, &obj(vec![("type", s("agent_settled"))]));
    assert!(is_terminal(&events));
    assert!(any_terminal(&events));
    assert!(matches!(
        &events[..],
        [NormalizedEvent::Result { error: None }]
    ));
}

#[test]
fn error_event_latches_turn_error() {
    let mut state = PiTurnState::default();
    let events = normalize_pi_frame(
        1,
        &mut state,
        &obj(vec![
            ("type", s("error")),
            ("message", s("provider unreachable")),
        ]),
    );
    assert!(matches!(
        &events[..],
        [NormalizedEvent::Result { error: Some(error) }] if error == "provider unreachable"
    ));
}

#[test]
fn failed_response_latches_turn_error() {
    let mut state = PiTurnState::default();
    let events = normalize_pi_frame(
        1,
        &mut state,
        &obj(vec![
            ("type", s("response")),
            ("command", s("prompt")),
            ("success", Json::Bool(false)),
            ("error", s("no session")),
        ]),
    );
    assert!(matches!(
        &events[..],
        [NormalizedEvent::Result { error: Some(error) }] if error == "pi prompt failed: no session"
    ));
    let ok = normalize_pi_frame(
        1,
        &mut state,
        &obj(vec![
            ("type", s("response")),
            ("command", s("prompt")),
            ("success", Json::Bool(true)),
        ]),
    );
    assert!(ok.is_empty());
}

fn text_delta(delta: &str) -> Json {
    obj(vec![
        ("type", s("message_update")),
        (
            "assistantMessageEvent",
            obj(vec![("type", s("text_delta")), ("delta", s(delta))]),
        ),
    ])
}

#[test]
fn assistant_rounds_get_distinct_item_ids() {
    let mut state = PiTurnState::default();
    let start = obj(vec![
        ("type", s("message_start")),
        ("message", obj(vec![("role", s("assistant"))])),
    ]);
    normalize_pi_frame(3, &mut state, &start);
    let first = normalize_pi_frame(3, &mut state, &text_delta("a"));
    normalize_pi_frame(3, &mut state, &start);
    let second = normalize_pi_frame(3, &mut state, &text_delta("b"));
    let id = |events: &[NormalizedEvent]| match events {
        [NormalizedEvent::AgentTextDelta { item_id, .. }] => item_id.clone(),
        other => panic!("unexpected events: {other:?}"),
    };
    assert_eq!(id(&first), "pi-msg-3-1");
    assert_eq!(id(&second), "pi-msg-3-2");
}

#[test]
fn item_ids_spell_out_turn_and_round() {
    let state = PiTurnState { assistant_messages: 1207 };
    assert_eq!(state.message_item_id(10), "pi-msg-10-1207");
    assert_eq!(state.thinking_item_id(10), "pi-thinking-10-1207");
    let fresh = PiTurnState::default();
    assert_eq!(fresh.message_item_id(u64::MAX), "pi-msg-18446744073709551615-0");
}

#[test]
fn deltas_and_text_of_a_message_share_an_item_id() {
    let mut state = PiTurnState::default();
    normalize_pi_frame(2, &mut state, &assistant_start());
    let delta = normalize_pi_frame(2, &mut state, &text_delta("whole"));
    let end = normalize_pi_frame(
        2,
        &mut state,
        &obj(vec![
            ("type", s("message_end")),
            (
                "message",
                obj(vec![
                    ("role", s("assistant")),
                    (
                        "content",
                        arr(vec![
                            obj(vec![("type", s("text")), ("text", s("who"))]),
                            obj(vec![("type", s("thinking")), ("text", s("no"))]),
                            obj(vec![("type", s("text")), ("text", Json::Int(1))]),
                            obj(vec![("type", s("text")), ("text", s("le"))]),
                        ]),
                    ),
                ]),
            ),
        ]),
    );
    let delta_id = match &delta[..] {
        [NormalizedEvent::AgentTextDelta { item_id, .. }] => item_id.clone(),
        other => panic!("unexpected events: {other:?}"),
    };
    match &end[..] {
        [NormalizedEvent::AssistantMessage { partial, content, .. }] => match &content[..] {
            [NormalizedContent::AgentText { item_id, text }] => {
                assert!(!partial);
                assert_eq!(item_id, &delta_id);
                assert_eq!(text, "whole");
            }
            other => panic!("unexpected content: {other:?}"),
        },
        other => panic!("unexpected events: {other:?}"),
    }
}

#[test]
fn empty_and_unknown_updates_make_no_event() {
    let mut state = PiTurnState::default();
    assert!(normalize_pi_frame(1, &mut state, &text_delta("")).is_empty());
    let odd = obj(vec![
        ("type", s("message_update")),
        (
            "assistantMessageEvent",
            obj(vec![("type", s("toolcall_delta")), ("delta", s("x"))]),
        ),
    ]);
    assert!(normalize_pi_frame(1, &mut state, &odd).is_empty());
    let bare = obj(vec![("type", s("message_update"))]);
    assert!(normalize_pi_frame(1, &mut state, &bare).is_empty());
    assert!(normalize_pi_frame(1, &mut state, &obj(vec![("type", s("turn_end"))])).is_empty());
    assert!(normalize_pi_frame(1, &mut state, &Json::Null).is_empty());
    assert!(normalize_pi_frame(1, &mut state, &obj(vec![("type", Json::Int(3))])).is_empty());
    assert_eq!(state.assistant_messages, 0);
}

#[test]
fn missing_fields_fall_back() {
    let mut state = PiTurnState::default();
    match &normalize_pi_frame(1, &mut state, &obj(vec![("type", s("tool_execution_start"))]))[..] {
        [NormalizedEvent::AssistantMessage { content, stop_reason, .. }] => match &content[..] {
            [NormalizedContent::ToolUse { raw_id, tool, arguments }] => {
                assert_eq!(raw_id, "tool");
                assert_eq!(tool, "tool");
                assert!(stop_reason.is_none());
                assert_eq!(arguments.to_text(), "{}");
            }
            other => panic!("unexpected content: {other:?}"),
        },
        other => panic!("unexpected events: {other:?}"),
    }
    let end = obj(vec![
        ("type", s("tool_execution_end")),
        ("toolCallId", s("")),
        ("isError", Json::Bool(true)),
    ]);
    match &normalize_pi_frame(1, &mut state, &end)[..] {
        [NormalizedEvent::ToolResults(results)] => {
            assert_eq!(results[0].tool_use_id, "tool");
            assert_eq!(results[0].content, "");
            assert!(results[0].is_error);
        }
        other => panic!("unexpected events: {other:?}"),
    }
    assert!(matches!(
        &normalize_pi_frame(1, &mut state, &obj(vec![("type", s("error"))]))[..],
        [NormalizedEvent::Result { error: Some(error) }] if error == "pi turn failed"
    ));
    let response = obj(vec![("type", s("response")), ("success", Json::Bool(false))]);
    let events = normalize_pi_frame(1, &mut state, &response);
    assert!(matches!(
        &events[..],
        [NormalizedEvent::Result { error: Some(error) }]
            if error == "pi command failed: request failed"
    ));
    assert!(!is_terminal(&events));
    assert_eq!(string_or(Some(&s("x")), "y"), "x");
    assert_eq!(string_or(None, "y"), "y");
}

#[test]
fn usage_without_counts_is_not_reported() {
    let none = obj(vec![("model", s("m"))]);
    assert!(normalize_usage(&none).is_none());
    let blank = obj(vec![("usage", obj(vec![("input", s("12"))]))]);
    assert!(normalize_usage(&blank).is_none());
    let read = read_frame("{\"model\":\"m\",\"usage\":{\"input\":1.5,\"cacheWrite\":-3,\"cacheRead\":9223372036854775808}}").unwrap();
    let usage = normalize_usage(&read).unwrap();
    assert_eq!(usage.model.as_deref(), Some("m"));
    assert_eq!(usage.input_tokens, None);
    assert_eq!(usage.cache_creation_input_tokens, Some(-3));
    assert_eq!(usage.cache_read_input_tokens, None);
    assert_eq!(usage.total_tokens, None);
}

#[test]
fn tool_results_of_other_shapes_are_written_out() {
    assert_eq!(tool_result_text(None), "");
    assert_eq!(tool_result_text(Some(&Json::Null)), "");
    assert_eq!(tool_result_text(Some(&s("plain"))), "plain");
    let other = read_frame(" {\"b\": [1, 2.50, \"x\\ny\"], \"a\": null} \n").unwrap();
    assert!(plain_result_text(&other).is_none());
    assert_eq!(
        tool_result_text(Some(&other)),
        "{\"a\":null,\"b\":[1,2.5,\"x\\ny\"]}"
    );
    let empty = read_frame("{\"content\":[{\"type\":\"image\",\"text\":\"no\"}]}").unwrap();
    assert_eq!(
        tool_result_text(Some(&empty)),
        "{\"content\":[{\"text\":\"no\",\"type\":\"image\"}]}"
    );
}

#[test]
fn lines_are_trimmed_and_read() {
    assert!(read_frame("not json").is_none());
    assert!(read_frame("").is_none());
    // White space that JSON itself does not know is taken off, too.
    let frame = read_frame("\u{a0}\u{3000}{\"type\":\"agent_settled\"}\u{2028}").unwrap();
    let mut state = PiTurnState::default();
    assert!(is_terminal(&normalize_pi_frame(1, &mut state, &frame)));
    assert!(begins_assistant_message(
        &read_frame("{\"type\":\"message_start\",\"message\":{\"role\":\"assistant\"}}").unwrap()
    ));
}

#[test]
fn no_tool_result_is_dropped() {
    assert_eq!(tool_result_text(Some(&s(""))), "");
    for (text, expected) in [
        ("false", "false"),
        ("0", "0"),
        ("[]", "[]"),
        ("{}", "{}"),
        ("{\"content\":[]}", "{\"content\":[]}"),
        ("{\"content\":\"x\"}", "{\"content\":\"x\"}"),
        ("[18446744073709551615,-1]", "[18446744073709551615,-1]"),
    ] {
        let result = read_frame(text).unwrap();
        let written = tool_result_text(Some(&result));
        assert_eq!(written, expected);
        assert_eq!(read_frame(&written).unwrap().to_value(), result.to_value());
    }
}
