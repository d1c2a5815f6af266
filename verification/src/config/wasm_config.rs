//! Configuration of an agent running inside a WebAssembly host; providers and
//! keys are the host's concern and do not appear here.
use vstd::prelude::*;

use crate::config::app::default_template_text;
use crate::decimal::{push_signed_decimal, signed_decimal};
use crate::string_map::StringMap;

verus! {

/// Path of the agent configuration file.
pub const WASM_CONFIG_PATH: &'static str = "wasm-agent.pc";

/// `chrono::Utc::now().timestamp_millis()`: milliseconds since the Unix epoch
/// on the UTC clock. The value is whatever the clock reads; nothing is stated of it.
#[verifier::external_body]
fn utc_now_millis() -> (r: i64) {
    chrono::Utc::now().timestamp_millis()
}

/// Agent settings.
#[derive(Debug, Clone)]
pub struct AgentConfig {
    /// Maximum tool interaction steps.
    pub max_steps: u32,
    /// Verbose logging.
    pub verbose: bool,
    /// Run tools without confirmation.
    pub auto_execute_tools: bool,
    /// Session timeout in seconds.
    pub session_timeout_secs: u32,
    /// Session id.
    pub session_id: String,
}

impl AgentConfig {
    /// The default settings, with the session id `session-{millis}`.
    pub fn default_at(millis: i64) -> (r: Self)
        ensures
            r.max_steps == 10,
            !r.verbose,
            r.auto_execute_tools,
            r.session_timeout_secs == 300,
            r.session_id@ == "session-"@ + signed_decimal(millis as int),
    {
        let mut session_id = "session-".to_owned();
        push_signed_decimal(&mut session_id, millis);
        AgentConfig { max_steps: 10, verbose: false, auto_execute_tools: true, session_timeout_secs: 300, session_id }
    }
}

impl Default for AgentConfig {
    /// The default settings, with a session id made from the current UTC time.
    fn default() -> (r: Self)
        ensures
            r.max_steps == 10,
            !r.verbose,
            r.auto_execute_tools,
            r.session_timeout_secs == 300,
            exists|t: i64| r.session_id@ == "session-"@ + signed_decimal(t as int),
    {
        let t = utc_now_millis();
        AgentConfig::default_at(t)
    }
}

/// Prompt templates of the agent.
#[derive(Debug, Clone)]
pub struct PromptConfig {
    pub template: String,
    pub tool_guidance: String,
    pub fallback_guidance: String,
    pub json_retry_message: String,
    pub tool_result_instruction: String,
    pub agent_instructions: String,
    pub ui_instructions: String,
    pub language_instructions: String,
    pub agent_max_steps_error: String,
    pub no_tools_guidance: String,
}

impl PromptConfig {
    /// The default prompt template.
    pub fn default_template() -> (r: &'static str)
        ensures
            r@ == default_template_text(),
    {
        "You are a helpful AI assistant.\n\n{{custom_instruction}}\n\n{{language_guidance}}\n\n{{tool_guidance}}"
    }
}

impl Default for PromptConfig {
    fn default() -> (r: Self)
        ensures
            r.template@ == default_template_text(),
            r.tool_guidance@ == "You have access to tools. Use them only when necessary."@,
            r.fallback_guidance@ == "If request is outside tool scope, apologize politely."@,
            r.json_retry_message@ == "Invalid JSON. Output ONLY valid JSON object."@,
            r.tool_result_instruction@ == "Tool complete. Process result and respond with valid JSON."@,
            r.agent_instructions@ == "You are an autonomous assistant that calls tools."@,
            r.ui_instructions@ == "Follow UI hydration rules for data display."@,
            r.language_instructions@ == "Detect user language and respond in same language."@,
            r.agent_max_steps_error@ == "Agent exceeded maximum tool interactions."@,
            r.no_tools_guidance@ == "No tools available."@,
    {
        PromptConfig {
            template: Self::default_template().to_owned(),
            tool_guidance: "You have access to tools. Use them only when necessary.".to_owned(),
            fallback_guidance: "If request is outside tool scope, apologize politely.".to_owned(),
            json_retry_message: "Invalid JSON. Output ONLY valid JSON object.".to_owned(),
            tool_result_instruction: "Tool complete. Process result and respond with valid JSON.".to_owned(),
            agent_instructions: "You are an autonomous assistant that calls tools.".to_owned(),
            ui_instructions: "Follow UI hydration rules for data display.".to_owned(),
            language_instructions: "Detect user language and respond in same language.".to_owned(),
            agent_max_steps_error: "Agent exceeded maximum tool interactions.".to_owned(),
            no_tools_guidance: "No tools available.".to_owned(),
        }
    }
}

/// A JSON schema that responses are checked against.
#[derive(Debug, Clone)]
pub struct JsonSchemaConfig {
    /// Schema name.
    pub name: String,
    /// The schema, JSON encoded.
    pub schema_json: String,
    /// Whether validation is enforced.
    pub enforced: bool,
}

/// Complete agent configuration.
#[derive(Debug, Clone)]
pub struct WasmAgentConfig {
    pub agent: AgentConfig,
    pub prompts: PromptConfig,
    pub schemas: Vec<JsonSchemaConfig>,
    /// Free-form key-value pairs.
    pub custom: StringMap,
}

impl Default for WasmAgentConfig {
    fn default() -> (r: Self)
        ensures
            r.agent.max_steps == 10,
            r.agent.session_timeout_secs == 300,
            r.prompts.template@ == default_template_text(),
            r.schemas@.len() == 0,
            r.custom.wf(),
            r.custom.len_spec() == 0,
    {
        WasmAgentConfig {
            agent: AgentConfig::default(),
            prompts: PromptConfig::default(),
            schemas: Vec::new(),
            custom: StringMap::new(),
        }
    }
}

} // verus!
