//! Tool calls, wizard responses, and how a response is read.

use vstd::prelude::*;
use crate::text::{contains_pattern, remove_all, contains_text, remove_text};

verus! {

#[verifier::external_type_specification]
#[verifier::external_body]
pub struct ExJsonValue(serde_json::Value);

/// Copies a JSON value.
///
/// Trusted: `serde_json::Value`'s `Clone` is derived, so the copy is the same
/// value as the original; that is what the contract claims.
#[verifier::external_body]
pub(crate) fn copy_json(v: &serde_json::Value) -> (r: serde_json::Value)
    ensures
        r == *v,
{
    v.clone()
}

/// Text the wizard appends to a response to have it forwarded to the model as context.
pub const FORWARD_MARKER: &'static str = "__FORWARD_TO_AI__";

/// The reply that hands a tool call back to the agent for execution.
pub const DELEGATE_REPLY: &'static str = "__DELEGATE__";

/// Content handed back when the wizard lets the model answer by itself.
pub const USE_MODEL_CONTENT: &'static str = "{\"use_model\": true}";

/// A tool call made by the model.
#[derive(Debug, PartialEq)]
pub struct ToolCallRequest {
    pub name: String,
    pub arguments: serde_json::Value,
    pub call_id: Option<String>,
}

/// A wizard's answer to a tool call.
#[derive(Debug, PartialEq)]
pub struct ToolResponse {
    pub call_id: String,
    pub response: String,
    pub use_model: bool,
    pub skip_ai: bool,
    pub delegate: bool,
    pub timestamp: String,
}

/// What the wizard sees: the calls still waiting and the number of sessions.
#[derive(Debug, PartialEq)]
pub struct WizardStatus {
    pub pending_calls: Vec<ToolCallRequest>,
    pub active_sessions: usize,
}

/// How a wizard's response is to be used.
#[derive(Clone, Copy, Debug, PartialEq, Eq, Structural)]
pub enum ResponseMode {
    /// Return the response as the final answer; the model is not asked.
    SkipAi,
    /// Hand the tool call back to the agent, which executes it.
    DelegateToAgent,
    /// Let the model handle the tool call itself.
    LetAiAnswer,
    /// Forward the response to the model as added context.
    AddContextAndForward,
    /// The response is the tool's result.
    AnswerAsTool,
}

/// The mode of a response: skipping the model wins over delegating to the
/// agent, which wins over letting the model answer, which wins over a forward
/// marker in the text; otherwise it is a tool answer.
pub open spec fn mode_of(r: ToolResponse) -> ResponseMode {
    if r.skip_ai {
        ResponseMode::SkipAi
    } else if r.delegate {
        ResponseMode::DelegateToAgent
    } else if r.use_model {
        ResponseMode::LetAiAnswer
    } else if contains_pattern(r.response@, FORWARD_MARKER@) {
        ResponseMode::AddContextAndForward
    } else {
        ResponseMode::AnswerAsTool
    }
}

/// The name of each mode.
pub open spec fn mode_label(m: ResponseMode) -> Seq<char> {
    match m {
        ResponseMode::SkipAi => "skip_ai"@,
        ResponseMode::DelegateToAgent => "delegate_to_agent"@,
        ResponseMode::LetAiAnswer => "let_ai_answer"@,
        ResponseMode::AddContextAndForward => "add_context_and_forward"@,
        ResponseMode::AnswerAsTool => "answer_as_tool"@,
    }
}

/// The content and completion flag that a blocked dispatch returns for a
/// wizard's response that does not delegate to the agent.
pub open spec fn dispatched_content(r: ToolResponse) -> (Seq<char>, bool) {
    if r.skip_ai {
        (r.response@, true)
    } else if r.use_model {
        (USE_MODEL_CONTENT@, false)
    } else if contains_pattern(r.response@, FORWARD_MARKER@) {
        (remove_all(r.response@, FORWARD_MARKER@), false)
    } else {
        (r.response@, false)
    }
}

/// The content that a poll returns for a stored response.
pub open spec fn polled_content(r: ToolResponse) -> Seq<char> {
    if r.use_model {
        USE_MODEL_CONTENT@
    } else {
        r.response@
    }
}

/// Whether a tool call carries the id `id`.
pub open spec fn names_call(c: ToolCallRequest, id: Seq<char>) -> bool {
    c.call_id matches Some(x) && x@ == id
}

impl ResponseMode {
    /// The name of the mode.
    pub fn label(&self) -> (s: &'static str)
        ensures
            s@ == mode_label(*self),
    {
        match self {
            ResponseMode::SkipAi => "skip_ai",
            ResponseMode::DelegateToAgent => "delegate_to_agent",
            ResponseMode::LetAiAnswer => "let_ai_answer",
            ResponseMode::AddContextAndForward => "add_context_and_forward",
            ResponseMode::AnswerAsTool => "answer_as_tool",
        }
    }
}

/// Copies an optional text.
fn copy_opt_string(s: &Option<String>) -> (r: Option<String>)
    ensures
        r == *s,
{
    match s {
        Some(x) => Some(x.clone()),
        None => None,
    }
}

impl ToolCallRequest {
    /// A copy of the call.
    pub fn duplicate(&self) -> (r: Self)
        ensures
            r == *self,
    {
        ToolCallRequest {
            name: self.name.clone(),
            arguments: copy_json(&self.arguments),
            call_id: copy_opt_string(&self.call_id),
        }
    }

    /// Whether the call carries the id `id`.
    pub fn has_id(&self, id: &String) -> (r: bool)
        ensures
            r == names_call(*self, id@),
    {
        match &self.call_id {
            Some(x) => *x == *id,
            None => false,
        }
    }
}

impl ToolResponse {
    /// A copy of the response.
    pub fn duplicate(&self) -> (r: Self)
        ensures
            r == *self,
    {
        ToolResponse {
            call_id: self.call_id.clone(),
            response: self.response.clone(),
            use_model: self.use_model,
            skip_ai: self.skip_ai,
            delegate: self.delegate,
            timestamp: self.timestamp.clone(),
        }
    }
}

/// The mode in which a wizard's response is to be used.
pub fn response_mode(r: &ToolResponse) -> (m: ResponseMode)
    ensures
        m == mode_of(*r),
{
    if r.skip_ai {
        ResponseMode::SkipAi
    } else if r.delegate {
        ResponseMode::DelegateToAgent
    } else if r.use_model {
        ResponseMode::LetAiAnswer
    } else if contains_text(r.response.as_str(), FORWARD_MARKER) {
        ResponseMode::AddContextAndForward
    } else {
        ResponseMode::AnswerAsTool
    }
}

/// The content, and whether the tool loop is complete, that a blocked
/// dispatch returns for the wizard's response when it does not delegate.
pub fn dispatch_content(r: &ToolResponse) -> (c: (String, bool))
    ensures
        c.0@ == dispatched_content(*r).0,
        c.1 == dispatched_content(*r).1,
{
    if r.skip_ai {
        (r.response.clone(), true)
    } else if r.use_model {
        (USE_MODEL_CONTENT.to_string(), false)
    } else if contains_text(r.response.as_str(), FORWARD_MARKER) {
        (remove_text(r.response.as_str(), FORWARD_MARKER), false)
    } else {
        (r.response.clone(), false)
    }
}

/// The content that a poll returns for a stored response.
pub fn poll_content(r: &ToolResponse) -> (c: String)
    ensures
        c@ == polled_content(*r),
{
    if r.use_model {
        USE_MODEL_CONTENT.to_string()
    } else {
        r.response.clone()
    }
}

} // verus!
