//! The events of a turn, in the form that is the same for every agent.

use vstd::prelude::*;

use crate::json::{Json, JsonView};

verus! {

/// A part of an assistant message.
#[derive(Debug)]
pub enum NormalizedContent {
    AgentText { item_id: String, text: String },
    ToolUse { raw_id: String, tool: String, arguments: Json },
}

/// The tokens that one model call used. A count that was not reported is
/// absent.
#[derive(Debug)]
pub struct NormalizedTokenUsage {
    pub model: Option<String>,
    pub input_tokens: Option<i64>,
    pub output_tokens: Option<i64>,
    pub cache_creation_input_tokens: Option<i64>,
    pub cache_read_input_tokens: Option<i64>,
    pub reasoning_output_tokens: Option<i64>,
    pub total_tokens: Option<i64>,
}

/// What a tool gave back.
#[derive(Debug)]
pub struct NormalizedToolResult {
    pub tool_use_id: String,
    pub content: String,
    pub is_error: bool,
    pub exit_code: Option<i32>,
}

#[derive(Debug)]
pub enum NormalizedEvent {
    AgentTextDelta { item_id: String, delta: String },
    ReasoningTextDelta { item_id: String, delta: String },
    AssistantMessage {
        partial: bool,
        stop_reason: Option<String>,
        content: Vec<NormalizedContent>,
    },
    ToolResults(Vec<NormalizedToolResult>),
    TokenUsage { usage: NormalizedTokenUsage },
    Result { error: Option<String> },
}

/// What a [`NormalizedContent`] is.
pub enum ContentView {
    AgentText { item_id: Seq<char>, text: Seq<char> },
    ToolUse { raw_id: Seq<char>, tool: Seq<char>, arguments: JsonView },
}

/// What a [`NormalizedTokenUsage`] is.
pub struct UsageView {
    pub model: Option<Seq<char>>,
    pub input_tokens: Option<i64>,
    pub output_tokens: Option<i64>,
    pub cache_creation_input_tokens: Option<i64>,
    pub cache_read_input_tokens: Option<i64>,
    pub reasoning_output_tokens: Option<i64>,
    pub total_tokens: Option<i64>,
}

/// What a [`NormalizedToolResult`] is.
pub struct ToolResultView {
    pub tool_use_id: Seq<char>,
    pub content: Seq<char>,
    pub is_error: bool,
    pub exit_code: Option<i32>,
}

/// What a [`NormalizedEvent`] is.
pub enum EventView {
    AgentTextDelta { item_id: Seq<char>, delta: Seq<char> },
    ReasoningTextDelta { item_id: Seq<char>, delta: Seq<char> },
    AssistantMessage { partial: bool, stop_reason: Option<Seq<char>>, content: Seq<ContentView> },
    ToolResults(Seq<ToolResultView>),
    TokenUsage { usage: UsageView },
    Result { error: Option<Seq<char>> },
}

impl View for NormalizedContent {
    type V = ContentView;

    open spec fn view(&self) -> ContentView {
        match *self {
            NormalizedContent::AgentText { item_id, text } => ContentView::AgentText {
                item_id: item_id@,
                text: text@,
            },
            NormalizedContent::ToolUse { raw_id, tool, arguments } => ContentView::ToolUse {
                raw_id: raw_id@,
                tool: tool@,
                arguments: arguments@,
            },
        }
    }
}

impl View for NormalizedTokenUsage {
    type V = UsageView;

    open spec fn view(&self) -> UsageView {
        UsageView {
            model: self.model.deep_view(),
            input_tokens: self.input_tokens,
            output_tokens: self.output_tokens,
            cache_creation_input_tokens: self.cache_creation_input_tokens,
            cache_read_input_tokens: self.cache_read_input_tokens,
            reasoning_output_tokens: self.reasoning_output_tokens,
            total_tokens: self.total_tokens,
        }
    }
}

impl View for NormalizedToolResult {
    type V = ToolResultView;

    open spec fn view(&self) -> ToolResultView {
        ToolResultView {
            tool_use_id: self.tool_use_id@,
            content: self.content@,
            is_error: self.is_error,
            exit_code: self.exit_code,
        }
    }
}

impl View for NormalizedEvent {
    type V = EventView;

    open spec fn view(&self) -> EventView {
        match *self {
            NormalizedEvent::AgentTextDelta { item_id, delta } => EventView::AgentTextDelta {
                item_id: item_id@,
                delta: delta@,
            },
            NormalizedEvent::ReasoningTextDelta { item_id, delta } => EventView::ReasoningTextDelta {
                item_id: item_id@,
                delta: delta@,
            },
            NormalizedEvent::AssistantMessage { partial, stop_reason, content } => {
                EventView::AssistantMessage {
                    partial,
                    stop_reason: stop_reason.deep_view(),
                    content: content@.map_values(|part: NormalizedContent| part@),
                }
            },
            NormalizedEvent::ToolResults(results) => EventView::ToolResults(
                results@.map_values(|result: NormalizedToolResult| result@),
            ),
            NormalizedEvent::TokenUsage { usage } => EventView::TokenUsage { usage: usage@ },
            NormalizedEvent::Result { error } => EventView::Result { error: error.deep_view() },
        }
    }
}

/// What a list of events is.
pub open spec fn event_views(events: Seq<NormalizedEvent>) -> Seq<EventView> {
    events.map_values(|event: NormalizedEvent| event@)
}

impl UsageView {
    /// Whether any count was reported.
    pub open spec fn has_counts(self) -> bool {
        ||| self.input_tokens is Some
        ||| self.output_tokens is Some
        ||| self.cache_creation_input_tokens is Some
        ||| self.cache_read_input_tokens is Some
        ||| self.reasoning_output_tokens is Some
        ||| self.total_tokens is Some
    }
}

impl NormalizedTokenUsage {
    /// Whether any count was reported.
    pub fn has_counts(&self) -> (result: bool)
        ensures
            result == self@.has_counts(),
    {
        self.input_tokens.is_some() || self.output_tokens.is_some()
            || self.cache_creation_input_tokens.is_some()
            || self.cache_read_input_tokens.is_some() || self.reasoning_output_tokens.is_some()
            || self.total_tokens.is_some()
    }
}

impl EventView {
    /// Whether the event ends its turn. A result that carries an error is kept
    /// for the end of the turn and does not bring it about.
    pub open spec fn is_terminal(self) -> bool {
        self matches EventView::Result { error } && error is None
    }
}

/// Whether one of the events ends the turn.
pub open spec fn ends_turn(events: Seq<EventView>) -> bool {
    exists|i: int| 0 <= i < events.len() && (#[trigger] events[i]).is_terminal()
}

impl NormalizedEvent {
    /// Whether the event ends its turn.
    pub fn is_terminal(&self) -> (result: bool)
        ensures
            result == self@.is_terminal(),
    {
        match self {
            NormalizedEvent::Result { error } => error.is_none(),
            _ => false,
        }
    }
}

/// Whether one of the events ends the turn.
pub fn any_terminal(events: &Vec<NormalizedEvent>) -> (result: bool)
    ensures
        result == ends_turn(event_views(events@)),
{
    let mut i: usize = 0;
    while i < events.len()
        invariant
            i <= events.len(),
            forall|k: int| 0 <= k < i ==> !(#[trigger] event_views(events@)[k]).is_terminal(),
        decreases events.len() - i,
    {
        assert(event_views(events@)[i as int] == events@[i as int]@);
        if events[i].is_terminal() {
            return true;
        }
        i = i + 1;
    }
    false
}

} // verus!
