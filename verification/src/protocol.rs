//! The shape of a model response, as the dispatch loop reads it.
//!
//! The unverified shell turns the endpoint's response into these plain
//! values; the dispatch rules consult only the first choice.

use vstd::prelude::*;

verus! {

/// Why the model stopped generating, as its response reports it.
#[derive(Clone, Copy, Debug, PartialEq, Eq, Structural)]
pub enum FinishReason {
    /// The model wants the advertised tools invoked.
    ToolCalls,
    Stop,
    Length,
    ContentFilter,
}

/// One tool invocation the model asked for: the function's name and the raw
/// JSON-encoded argument payload.
#[derive(Debug, Clone)]
pub struct ToolCallIntent {
    pub name: String,
    pub arguments: String,
}

/// The view of a tool-call intent.
pub ghost struct IntentView {
    pub name: Seq<char>,
    pub arguments: Seq<char>,
}

impl View for ToolCallIntent {
    type V = IntentView;

    open spec fn view(&self) -> IntentView {
        IntentView { name: self.name@, arguments: self.arguments@ }
    }
}

/// One response choice: termination reason, optional reply text, optional
/// tool-call list.
#[derive(Debug, Clone)]
pub struct ModelChoice {
    pub finish_reason: Option<FinishReason>,
    pub content: Option<String>,
    pub tool_calls: Option<Vec<ToolCallIntent>>,
}

/// The view of a response choice.
pub ghost struct ChoiceView {
    pub finish_reason: Option<FinishReason>,
    pub content: Option<Seq<char>>,
    pub tool_calls: Option<Seq<IntentView>>,
}

impl View for ModelChoice {
    type V = ChoiceView;

    open spec fn view(&self) -> ChoiceView {
        ChoiceView {
            finish_reason: self.finish_reason,
            content: match self.content {
                Some(c) => Some(c@),
                None => None,
            },
            tool_calls: match self.tool_calls {
                Some(calls) => Some(calls@.map_values(|t: ToolCallIntent| t@)),
                None => None,
            },
        }
    }
}

/// The model's reply to one request. Only the first choice is consulted.
#[derive(Debug, Clone)]
pub struct ModelResponse {
    pub choices: Vec<ModelChoice>,
}

impl View for ModelResponse {
    type V = Seq<ChoiceView>;

    open spec fn view(&self) -> Seq<ChoiceView> {
        self.choices@.map_values(|c: ModelChoice| c@)
    }
}

} // verus!
