//! Chat service decisions: the request of a plain chat, the options of an
//! agent run, and the outcome shown to the caller (details only in debug mode).
//! What the chat service hands back and how it shapes requests.
use vstd::prelude::*;

use crate::client::ChatRequest;
use crate::domain::MessagePart;
use crate::fsm::{AgentOptions, AgentStep};

verus! {

/// What a chat request returns to its caller.
/// The answer of the chat service; the debugging fields are set only on
/// request.
#[derive(Debug)]
pub struct ChatServiceOutcome {
    pub logs: Option<Vec<String>>,
    pub session_id: String,
    pub content: serde_json::Value,
    pub provider: Option<String>,
    pub model: Option<String>,
    pub tool_steps: Option<Vec<AgentStep>>,
}

/// The outcome of a request: the session and content always; the logs,
/// provider, model and tool steps only in debug mode.
/// The service answer: the debugging fields (logs, provider, model, tool
/// steps) are present exactly when `debug` is set.
pub fn construct_outcome(debug: bool, session_id: String, content: serde_json::Value, logs: Vec<String>, provider: String, model: String, tool_steps: Vec<AgentStep>) -> (r: ChatServiceOutcome)
    ensures
        r.session_id == session_id,
        r.content == content,
        debug ==> r.logs == Some(logs) && r.provider == Some(provider) && r.model == Some(model) && r.tool_steps == Some(
            tool_steps,
        ),
        !debug ==> r.logs is None && r.provider is None && r.model is None && r.tool_steps is None,
{
    if !debug {
        ChatServiceOutcome { logs: None, session_id, content, provider: None, model: None, tool_steps: None }
    } else {
        ChatServiceOutcome {
            logs: Some(logs),
            session_id,
            content,
            provider: Some(provider),
            model: Some(model),
            tool_steps: Some(tool_steps),
        }
    }
}

/// The request of a plain chat: the message as given, in raw mode.
/// A raw chat request: the message is sent without history or template.
pub fn raw_chat_request(prompt: String, attachments: Vec<MessagePart>, system_prompt: Option<String>, session_id: Option<String>) -> (r: ChatRequest)
    ensures
        r == (ChatRequest {
            prompt,
            attachments,
            system_prompt,
            session_id,
            raw_mode: true,
            bypass_template: false,
            force_json: false,
        }),
{
    ChatRequest { prompt, attachments, system_prompt, session_id, raw_mode: true, bypass_template: false, force_json: false }
}

/// The options of an agent run: the request's system prompt, session and
/// attachments, and its step limit when it gives one (else the options'
/// default, zero).
/// Agent options for a request; without a step limit the limit is 0.
pub fn agent_options_for(system_prompt: Option<String>, session_id: Option<String>, attachments: Vec<MessagePart>, max_tool_steps: Option<usize>) -> (r: AgentOptions)
    ensures
        r.system_prompt == system_prompt,
        r.session_id == session_id,
        r.attachments == attachments,
        r.max_steps == match max_tool_steps {
            Some(m) => m,
            None => 0,
        },
{
    let max_steps = match max_tool_steps {
        Some(m) => m,
        None => 0,
    };
    AgentOptions { system_prompt, session_id, max_steps, attachments }
}

} // verus!
