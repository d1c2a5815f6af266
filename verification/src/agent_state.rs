//! Agent finite state machine: states, events and the transition table.
//!
//! Every (state, event) pair maps to a definite successor; pairs the table
//! does not list leave the state unchanged, and the terminal states
//! `FinalMessage` and `Terminated` never change.
use vstd::prelude::*;

verus! {

/// Why the agent stopped.
#[derive(Debug, Clone, PartialEq, Eq)]
pub enum TerminationReason {
    Success,
    Error { message: String },
    MaxStepsExceeded,
    Timeout,
    Cancelled,
}

/// Agent states.
#[derive(Debug, Clone, PartialEq, Eq)]
pub enum AgentState {
    Idle,
    ParsingDirective,
    ExecutingTool { tool_id: String, input: serde_json::Value },
    WaitingForContext,
    RecoveringError { error: String, retry_count: u8 },
    FinalizingResponse,
    FinalMessage {
        content: String,
        data: Option<serde_json::Value>,
        metadata: Option<serde_json::Value>,
    },
    Terminated { reason: TerminationReason },
}

/// Outcome of one tool execution.
#[derive(Debug, Clone)]
pub struct ToolResult {
    pub tool: String,
    pub input: serde_json::Value,
    pub success: bool,
    pub output: serde_json::Value,
    pub message: Option<String>,
}

/// Events that drive the state machine.
#[derive(Debug, Clone)]
pub enum Event {
    PromptReceived { prompt: String },
    DirectiveParsed { tool: String, input: serde_json::Value },
    DirectivesParsed { tools: Vec<(String, serde_json::Value)> },
    FinalResponse,
    ToolCompleted { tool: String, output: serde_json::Value },
    ToolsCompleted { results: Vec<Result<ToolResult, String>> },
    ToolFailed { tool: String, error: String },
    ContextReceived { context: String },
    ResponseSent,
    MaxStepsExceeded,
    Timeout,
    Error { message: String },
    Cancelled,
}

/// Whether a state is terminal: a final message or a termination.
pub open spec fn is_terminal_spec(s: AgentState) -> bool {
    s is FinalMessage || s is Terminated
}

/// Whether `e` is the response being sent while the response is finalised.
pub open spec fn sends_response(s: AgentState, e: Event) -> bool {
    s is FinalizingResponse && e is ResponseSent
}

/// A final message with empty content and neither data nor metadata.
pub open spec fn is_empty_final_message(r: AgentState) -> bool {
    r matches AgentState::FinalMessage { content, data, metadata } && content@.len() == 0 && data is None
        && metadata is None
}

/// Whether `r` is the state after `e` in state `s`: the empty final message when
/// the response is sent, else `transition_spec(s, e)`.
pub open spec fn next_state(s: AgentState, e: Event, r: AgentState) -> bool {
    if sends_response(s, e) {
        is_empty_final_message(r)
    } else {
        r == transition_spec(s, e)
    }
}

/// The state after `e` in state `s`, for every pair but a sent response
/// (see `next_state`).
pub open spec fn transition_spec(s: AgentState, e: Event) -> AgentState {
    match s {
        AgentState::Idle => match e {
            Event::PromptReceived { .. } => AgentState::ParsingDirective,
            Event::Cancelled => AgentState::Terminated { reason: TerminationReason::Cancelled },
            Event::Error { message } => AgentState::RecoveringError { error: message, retry_count: 0 },
            _ => s,
        },
        AgentState::ParsingDirective => match e {
            Event::DirectiveParsed { tool, input } => AgentState::ExecutingTool { tool_id: tool, input },
            Event::DirectivesParsed { tools } => if tools@.len() > 0 {
                AgentState::ExecutingTool { tool_id: tools@[0].0, input: tools@[0].1 }
            } else {
                AgentState::FinalizingResponse
            },
            Event::FinalResponse => AgentState::FinalizingResponse,
            Event::Error { message } => AgentState::RecoveringError { error: message, retry_count: 0 },
            Event::MaxStepsExceeded => AgentState::Terminated { reason: TerminationReason::MaxStepsExceeded },
            Event::Timeout => AgentState::Terminated { reason: TerminationReason::Timeout },
            Event::Cancelled => AgentState::Terminated { reason: TerminationReason::Cancelled },
            _ => s,
        },
        AgentState::ExecutingTool { .. } => match e {
            Event::ToolCompleted { .. } => AgentState::ParsingDirective,
            Event::ToolsCompleted { .. } => AgentState::ParsingDirective,
            Event::ToolFailed { error, .. } => AgentState::RecoveringError { error, retry_count: 0 },
            Event::Error { message } => AgentState::RecoveringError { error: message, retry_count: 0 },
            Event::MaxStepsExceeded => AgentState::Terminated { reason: TerminationReason::MaxStepsExceeded },
            Event::Timeout => AgentState::Terminated { reason: TerminationReason::Timeout },
            Event::Cancelled => AgentState::Terminated { reason: TerminationReason::Cancelled },
            _ => s,
        },
        AgentState::WaitingForContext => match e {
            Event::ContextReceived { .. } => AgentState::ParsingDirective,
            Event::Timeout => AgentState::Terminated { reason: TerminationReason::Timeout },
            Event::Cancelled => AgentState::Terminated { reason: TerminationReason::Cancelled },
            Event::Error { message } => AgentState::RecoveringError { error: message, retry_count: 0 },
            _ => s,
        },
        AgentState::RecoveringError { error, retry_count } => match e {
            Event::Error { .. } => AgentState::RecoveringError {
                error,
                retry_count: if retry_count < 255 {
                    (retry_count + 1) as u8
                } else {
                    255
                },
            },
            Event::PromptReceived { .. } => AgentState::ParsingDirective,
            Event::Timeout => AgentState::Terminated { reason: TerminationReason::Error { message: error } },
            Event::MaxStepsExceeded => AgentState::Terminated {
                reason: TerminationReason::Error { message: error },
            },
            Event::Cancelled => AgentState::Terminated { reason: TerminationReason::Cancelled },
            _ => s,
        },
        AgentState::FinalizingResponse => match e {
            Event::ResponseSent => arbitrary(),
            Event::Timeout => AgentState::Terminated { reason: TerminationReason::Timeout },
            Event::Cancelled => AgentState::Terminated { reason: TerminationReason::Cancelled },
            Event::Error { message } => AgentState::RecoveringError { error: message, retry_count: 0 },
            _ => s,
        },
        AgentState::FinalMessage { .. } => s,
        AgentState::Terminated { .. } => s,
    }
}

impl AgentState {
    /// Whether the agent reached a final message or a termination.
    pub fn is_terminal(&self) -> (r: bool)
        ensures
            r == is_terminal_spec(*self),
    {
        matches!(self, AgentState::Terminated { .. } | AgentState::FinalMessage { .. })
    }

    /// Name of the state, without its data.
    pub fn name(&self) -> (r: &'static str)
        ensures
            r@ == state_name(*self),
    {
        match self {
            AgentState::Idle => "Idle",
            AgentState::ParsingDirective => "ParsingDirective",
            AgentState::ExecutingTool { .. } => "ExecutingTool",
            AgentState::WaitingForContext => "WaitingForContext",
            AgentState::RecoveringError { .. } => "RecoveringError",
            AgentState::FinalizingResponse => "FinalizingResponse",
            AgentState::FinalMessage { .. } => "FinalMessage",
            AgentState::Terminated { .. } => "Terminated",
        }
    }

    /// Apply `event` and return the next state.
    pub fn transition(self, event: Event) -> (r: AgentState)
        ensures
            next_state(self, event, r),
    {
        let s = self;
        match s {
            AgentState::Idle => match event {
                Event::PromptReceived { .. } => AgentState::ParsingDirective,
                Event::Cancelled => AgentState::Terminated { reason: TerminationReason::Cancelled },
                Event::Error { message } => AgentState::RecoveringError { error: message, retry_count: 0 },
                _ => AgentState::Idle,
            },
            AgentState::ParsingDirective => match event {
                Event::DirectiveParsed { tool, input } => AgentState::ExecutingTool { tool_id: tool, input },
                Event::DirectivesParsed { tools } => {
                    let mut tools = tools;
                    if tools.len() > 0 {
                        let (tool, input) = tools.remove(0);
                        AgentState::ExecutingTool { tool_id: tool, input }
                    } else {
                        AgentState::FinalizingResponse
                    }
                },
                Event::FinalResponse => AgentState::FinalizingResponse,
                Event::Error { message } => AgentState::RecoveringError { error: message, retry_count: 0 },
                Event::MaxStepsExceeded => AgentState::Terminated {
                    reason: TerminationReason::MaxStepsExceeded,
                },
                Event::Timeout => AgentState::Terminated { reason: TerminationReason::Timeout },
                Event::Cancelled => AgentState::Terminated { reason: TerminationReason::Cancelled },
                _ => AgentState::ParsingDirective,
            },
            AgentState::ExecutingTool { tool_id, input } => match event {
                Event::ToolCompleted { .. } => AgentState::ParsingDirective,
                Event::ToolsCompleted { .. } => AgentState::ParsingDirective,
                Event::ToolFailed { error, .. } => AgentState::RecoveringError { error, retry_count: 0 },
                Event::Error { message } => AgentState::RecoveringError { error: message, retry_count: 0 },
                Event::MaxStepsExceeded => AgentState::Terminated {
                    reason: TerminationReason::MaxStepsExceeded,
                },
                Event::Timeout => AgentState::Terminated { reason: TerminationReason::Timeout },
                Event::Cancelled => AgentState::Terminated { reason: TerminationReason::Cancelled },
                _ => AgentState::ExecutingTool { tool_id, input },
            },
            AgentState::WaitingForContext => match event {
                Event::ContextReceived { .. } => AgentState::ParsingDirective,
                Event::Timeout => AgentState::Terminated { reason: TerminationReason::Timeout },
                Event::Cancelled => AgentState::Terminated { reason: TerminationReason::Cancelled },
                Event::Error { message } => AgentState::RecoveringError { error: message, retry_count: 0 },
                _ => AgentState::WaitingForContext,
            },
            AgentState::RecoveringError { error, retry_count } => match event {
                Event::Error { .. } => AgentState::RecoveringError {
                    error,
                    retry_count: if retry_count < 255 {
                        retry_count + 1
                    } else {
                        255
                    },
                },
                Event::PromptReceived { .. } => AgentState::ParsingDirective,
                Event::Timeout => AgentState::Terminated {
                    reason: TerminationReason::Error { message: error },
                },
                Event::MaxStepsExceeded => AgentState::Terminated {
                    reason: TerminationReason::Error { message: error },
                },
                Event::Cancelled => AgentState::Terminated { reason: TerminationReason::Cancelled },
                _ => AgentState::RecoveringError { error, retry_count },
            },
            AgentState::FinalizingResponse => match event {
                Event::ResponseSent => AgentState::FinalMessage {
                    content: String::new(),
                    data: None,
                    metadata: None,
                },
                Event::Timeout => AgentState::Terminated { reason: TerminationReason::Timeout },
                Event::Cancelled => AgentState::Terminated { reason: TerminationReason::Cancelled },
                Event::Error { message } => AgentState::RecoveringError { error: message, retry_count: 0 },
                _ => AgentState::FinalizingResponse,
            },
            AgentState::FinalMessage { content, data, metadata } => AgentState::FinalMessage {
                content,
                data,
                metadata,
            },
            AgentState::Terminated { reason } => AgentState::Terminated { reason },
        }
    }
}

/// Name of a state, without its data.
pub open spec fn state_name(s: AgentState) -> Seq<char> {
    match s {
        AgentState::Idle => "Idle"@,
        AgentState::ParsingDirective => "ParsingDirective"@,
        AgentState::ExecutingTool { .. } => "ExecutingTool"@,
        AgentState::WaitingForContext => "WaitingForContext"@,
        AgentState::RecoveringError { .. } => "RecoveringError"@,
        AgentState::FinalizingResponse => "FinalizingResponse"@,
        AgentState::FinalMessage { .. } => "FinalMessage"@,
        AgentState::Terminated { .. } => "Terminated"@,
    }
}

/// Terminal states are sticky: no event changes a final message or a termination.
pub proof fn law_terminal_states_are_sticky(s: AgentState, e: Event, r: AgentState)
    requires
        is_terminal_spec(s),
        next_state(s, e, r),
    ensures
        r == s,
{
}

/// Cancellation always ends in a terminal state.
pub proof fn law_cancel_reaches_terminal(s: AgentState, r: AgentState)
    requires
        next_state(s, Event::Cancelled, r),
    ensures
        is_terminal_spec(r),
{
}

/// Every error met while recovering counts one more retry (up to 255) and keeps
/// the first error message.
pub proof fn law_recovery_counts_errors(error: String, retry_count: u8, message: String, r: AgentState)
    requires
        next_state(AgentState::RecoveringError { error, retry_count }, Event::Error { message }, r),
    ensures
        r == (AgentState::RecoveringError {
            error,
            retry_count: if retry_count < 255 {
                (retry_count + 1) as u8
            } else {
                255
            },
        }),
{
}

/// A state that is not terminal stays non-terminal or reaches a terminal state;
/// a non-terminal state never reaches `FinalMessage` except by sending the response.
pub proof fn law_final_message_only_after_response(s: AgentState, e: Event, r: AgentState)
    requires
        !is_terminal_spec(s),
        next_state(s, e, r),
        r is FinalMessage,
    ensures
        sends_response(s, e),
{
}

/// A finished tool hands control back to directive parsing: in every
/// executing-tool state, a completed tool (or a completed batch of tools)
/// leads to `ParsingDirective`.
pub proof fn law_tool_completion_resumes_parsing(s: AgentState, e: Event, r: AgentState)
    requires
        s is ExecutingTool,
        e is ToolCompleted || e is ToolsCompleted,
        next_state(s, e, r),
    ensures
        r == AgentState::ParsingDirective,
{
}

/// New input is parsed for directives: a prompt while idle or while recovering,
/// and context while waiting for it, all lead to `ParsingDirective`.
pub proof fn law_input_starts_parsing(s: AgentState, e: Event, r: AgentState)
    requires
        (s is Idle && e is PromptReceived) || (s is RecoveringError && e is PromptReceived) || (s is WaitingForContext
            && e is ContextReceived),
        next_state(s, e, r),
    ensures
        r == AgentState::ParsingDirective,
{
}

/// A parsed directive runs the tool it names with its input; of several, the
/// first; none, or a final response, moves on to finalising the response.
pub proof fn law_directive_selects_tool(e: Event, r: AgentState)
    requires
        next_state(AgentState::ParsingDirective, e, r),
    ensures
        e matches Event::DirectiveParsed { tool, input } ==> r == (AgentState::ExecutingTool { tool_id: tool, input }),
        e matches Event::DirectivesParsed { tools } ==> if tools@.len() > 0 {
            r == (AgentState::ExecutingTool { tool_id: tools@[0].0, input: tools@[0].1 })
        } else {
            r == AgentState::FinalizingResponse
        },
        e is FinalResponse ==> r == AgentState::FinalizingResponse,
{
}

/// An error in any working state (idle, parsing, executing a tool, waiting for
/// context, finalising) starts recovery with that error and no retries yet; so
/// does a failed tool, with the tool's error.
pub proof fn law_errors_start_recovery(s: AgentState, e: Event, r: AgentState)
    requires
        s is Idle || s is ParsingDirective || s is ExecutingTool || s is WaitingForContext || s is FinalizingResponse,
        next_state(s, e, r),
    ensures
        e matches Event::Error { message } ==> r == (AgentState::RecoveringError { error: message, retry_count: 0 }),
        s is ExecutingTool ==> (e matches Event::ToolFailed { error, .. } ==> r == (AgentState::RecoveringError {
            error,
            retry_count: 0,
        })),
{
}

/// Limits end the run: cancellation of any non-terminal state terminates it as
/// cancelled; a timeout while parsing, executing, waiting or finalising
/// terminates it as timed out; running out of steps while parsing or executing
/// terminates it as such.
pub proof fn law_limits_terminate(s: AgentState, e: Event, r: AgentState)
    requires
        !is_terminal_spec(s),
        next_state(s, e, r),
    ensures
        e is Cancelled ==> r == (AgentState::Terminated { reason: TerminationReason::Cancelled }),
        (s is ParsingDirective || s is ExecutingTool || s is WaitingForContext || s is FinalizingResponse) && e is Timeout
            ==> r == (AgentState::Terminated { reason: TerminationReason::Timeout }),
        (s is ParsingDirective || s is ExecutingTool) && e is MaxStepsExceeded ==> r == (AgentState::Terminated {
            reason: TerminationReason::MaxStepsExceeded,
        }),
{
}

} // verus!
