//! Canonical tool call and tool result envelopes and their validation.
use vstd::prelude::*;

use crate::json::{is_object, json_is_object};
use crate::text::{all_whitespace, is_blank, opt_view};

verus! {

/// Tool call envelope used at the runtime boundary.
#[derive(Debug)]
pub struct ToolCallEnvelope {
    pub tool: String,
    pub arguments: serde_json::Value,
    pub correlation_id: Option<String>,
}

/// Tool result envelope used at the runtime boundary.
#[derive(Debug)]
pub struct ToolResultEnvelope {
    pub tool: String,
    pub success: bool,
    pub output: serde_json::Value,
    pub error: Option<String>,
    pub correlation_id: Option<String>,
}

/// Why an envelope was refused.
#[derive(Debug, Clone, Copy, PartialEq, Eq, Structural)]
pub enum EnvelopeError {
    MissingTool,
    InvalidArguments,
    InconsistentResult,
}

/// The human-readable text of an envelope error.
pub open spec fn envelope_error_text(e: EnvelopeError) -> Seq<char> {
    match e {
        EnvelopeError::MissingTool => "tool must be a non-empty string"@,
        EnvelopeError::InvalidArguments => "arguments must be a JSON object"@,
        EnvelopeError::InconsistentResult => "error must be present for failed results and absent for successful ones"@,
    }
}

impl EnvelopeError {
    /// The human-readable text of the error.
    pub fn message(&self) -> (r: &'static str)
        ensures
            r@ == envelope_error_text(*self),
    {
        match self {
            EnvelopeError::MissingTool => "tool must be a non-empty string",
            EnvelopeError::InvalidArguments => "arguments must be a JSON object",
            EnvelopeError::InconsistentResult => "error must be present for failed results and absent for successful ones",
        }
    }

    /// `"invalid MCP tool {phase} envelope: {message}"`.
    pub fn to_transport_message(&self, phase: &str) -> (r: String)
        ensures
            r@ == "invalid MCP tool "@ + phase@ + " envelope: "@ + envelope_error_text(*self),
    {
        let mut r = "invalid MCP tool ".to_owned();
        r.append(phase);
        r.append(" envelope: ");
        r.append(self.message());
        r
    }
}

/// The verdict on a tool call envelope.
pub open spec fn tool_call_verdict(tool: Seq<char>, arguments_are_object: bool) -> Result<(), EnvelopeError> {
    if all_whitespace(tool) {
        Err(EnvelopeError::MissingTool)
    } else if !arguments_are_object {
        Err(EnvelopeError::InvalidArguments)
    } else {
        Ok(())
    }
}

/// Validate a tool call envelope: the tool name must hold a non-whitespace
/// character and the arguments must be a JSON object.
pub fn validate_tool_call_envelope(env: &ToolCallEnvelope) -> (r: Result<(), EnvelopeError>)
    ensures
        r == tool_call_verdict(env.tool@, json_is_object(env.arguments)),
{
    if is_blank(env.tool.as_str()) {
        return Err(EnvelopeError::MissingTool);
    }
    if !is_object(&env.arguments) {
        return Err(EnvelopeError::InvalidArguments);
    }
    Ok(())
}

/// The verdict on a tool result envelope.
pub open spec fn tool_result_verdict(tool: Seq<char>, success: bool, error: Option<Seq<char>>) -> Result<(), EnvelopeError> {
    if all_whitespace(tool) {
        Err(EnvelopeError::MissingTool)
    } else {
        let has_error_text = match error {
            Some(e) => !all_whitespace(e),
            None => false,
        };
        if success == has_error_text {
            Err(EnvelopeError::InconsistentResult)
        } else {
            Ok(())
        }
    }
}

/// Validate a tool result envelope: the tool name must hold a non-whitespace
/// character, a successful result carries no error text and a failed one does.
pub fn validate_tool_result_envelope(env: &ToolResultEnvelope) -> (r: Result<(), EnvelopeError>)
    ensures
        r == tool_result_verdict(env.tool@, env.success, opt_view(env.error)),
{
    if is_blank(env.tool.as_str()) {
        return Err(EnvelopeError::MissingTool);
    }
    let has_error_text = match &env.error {
        Some(e) => !is_blank(e.as_str()),
        None => false,
    };
    if env.success == has_error_text {
        Err(EnvelopeError::InconsistentResult)
    } else {
        Ok(())
    }
}

} // verus!
