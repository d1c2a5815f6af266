//! The stored form of the configuration, kept as one binary blob.
use vstd::prelude::*;

use crate::config::app::{default_bind, default_bind_text, default_template_text};
use crate::string_map::StringMap;

verus! {

/// Path of the configuration file.
pub const CONFIG_PATH: &'static str = "app.pc";

/// Stored application configuration.
#[derive(Debug, Clone)]
pub struct AppConfig {
    /// REST server settings.
    pub server: ServerConfig,
    /// Model providers.
    pub providers: Vec<ProviderConfig>,
    /// Default provider and model.
    pub model: ModelConfig,
    /// Prompt texts.
    pub prompts: PromptsConfig,
    /// Agent settings.
    pub agent: AgentConfig,
    /// Free-form key-value pairs.
    pub custom: StringMap,
}

/// Stored REST server settings.
#[derive(Debug, Clone)]
pub struct ServerConfig {
    /// Bind address.
    pub bind: String,
    /// CORS allowed origins.
    pub cors_origins: Vec<String>,
    /// API documentation servers.
    pub docs: Vec<DocServerConfig>,
}

impl Default for ServerConfig {
    fn default() -> (r: Self)
        ensures
            r.bind@ == default_bind_text(),
            r.cors_origins@.len() == 0,
            r.docs@.len() == 0,
    {
        ServerConfig { bind: default_bind(), cors_origins: Vec::new(), docs: Vec::new() }
    }
}

/// Stored API documentation server entry.
#[derive(Debug, Clone)]
pub struct DocServerConfig {
    pub url: String,
    pub description: String,
}

/// Stored provider entry.
#[derive(Debug, Clone)]
pub struct ProviderConfig {
    /// Unique provider id.
    pub id: String,
    /// API family (openai, anthropic, ollama, gemini, ...).
    pub provider_type: String,
    /// API endpoint URL.
    pub endpoint: String,
    /// Name of the environment variable holding the API key.
    pub api_key: String,
    /// Models offered.
    pub models: Vec<ModelInfo>,
}

/// Stored model entry.
#[derive(Debug, Clone)]
pub struct ModelInfo {
    pub name: String,
    pub display_name: String,
}

/// Stored default provider and model.
#[derive(Debug, Clone)]
pub struct ModelConfig {
    /// Default provider id.
    pub default_provider: String,
    /// Default model name.
    pub model: String,
}

impl Default for ModelConfig {
    fn default() -> (r: Self)
        ensures
            r.default_provider@ == "ollama"@,
            r.model@ == "llama3"@,
    {
        ModelConfig { default_provider: "ollama".to_owned(), model: "llama3".to_owned() }
    }
}

/// Stored prompt texts; an empty text stands for "not configured".
#[derive(Debug, Clone)]
pub struct PromptsConfig {
    pub template: String,
    pub tool_guidance: String,
    pub fallback_guidance: String,
    pub json_retry_message: String,
    pub tool_result_instruction: String,
    pub agent_instructions: String,
    pub ui_instructions: String,
    pub language_instructions: String,
    pub agent_max_steps_error: String,
    pub no_tools_guidance: String,
    /// Field names probed when the model answers with an unknown action.
    pub fallback_response_keys: Vec<String>,
}

/// The stored default of `tool_guidance`.
pub open spec fn stored_default_tool_guidance() -> Seq<char> {
    "You have access to the following tools. Use them only when necessary to fulfill the user request:"@
}

/// The stored default of `fallback_guidance`.
pub open spec fn stored_default_fallback_guidance() -> Seq<char> {
    "If the request is outside the scope of available tools, apologize politely and explain your limitations."@
}

/// The stored default of `json_retry_message`.
pub open spec fn stored_default_json_retry_message() -> Seq<char> {
    "System Error: Invalid JSON format returned. Please output ONLY the raw JSON object for the tool call or final response. Do not use Markdown blocks or explanations."@
}

/// The stored default of `tool_result_instruction`.
pub open spec fn stored_default_tool_result_instruction() -> Seq<char> {
    "Tool execution complete. Process this result and respond with a VALID JSON object."@
}

/// The stored default of `agent_instructions`.
pub open spec fn stored_default_agent_instructions() -> Seq<char> {
    "You are an autonomous assistant that can call tools to solve user requests."@
}

/// The stored default of `ui_instructions`.
pub open spec fn stored_default_ui_instructions() -> Seq<char> {
    "Follow UI hydration rules for data display."@
}

/// The stored default of `language_instructions`.
pub open spec fn stored_default_language_instructions() -> Seq<char> {
    "Detect the user's language automatically and answer using that same language."@
}

/// The stored default of `agent_max_steps_error`.
pub open spec fn stored_default_agent_max_steps_error() -> Seq<char> {
    "agent exceeded the maximum number of tool interactions"@
}

/// The stored default of `no_tools_guidance`.
pub open spec fn stored_default_no_tools_guidance() -> Seq<char> {
    "No additional tools are currently configured."@
}

impl Default for PromptsConfig {
    fn default() -> (r: Self)
        ensures
            r.template@ == default_template_text(),
            r.tool_guidance@ == stored_default_tool_guidance(),
            r.fallback_guidance@ == stored_default_fallback_guidance(),
            r.json_retry_message@ == stored_default_json_retry_message(),
            r.tool_result_instruction@ == stored_default_tool_result_instruction(),
            r.agent_instructions@ == stored_default_agent_instructions(),
            r.ui_instructions@ == stored_default_ui_instructions(),
            r.language_instructions@ == stored_default_language_instructions(),
            r.agent_max_steps_error@ == stored_default_agent_max_steps_error(),
            r.no_tools_guidance@ == stored_default_no_tools_guidance(),
            r.fallback_response_keys@.len() == 0,
    {
        PromptsConfig {
            template: Self::default_template().to_owned(),
            tool_guidance: "You have access to the following tools. Use them only when necessary to fulfill the user request:".to_owned(),
            fallback_guidance: "If the request is outside the scope of available tools, apologize politely and explain your limitations.".to_owned(),
            json_retry_message: "System Error: Invalid JSON format returned. Please output ONLY the raw JSON object for the tool call or final response. Do not use Markdown blocks or explanations.".to_owned(),
            tool_result_instruction: "Tool execution complete. Process this result and respond with a VALID JSON object.".to_owned(),
            agent_instructions: "You are an autonomous assistant that can call tools to solve user requests.".to_owned(),
            ui_instructions: "Follow UI hydration rules for data display.".to_owned(),
            language_instructions: "Detect the user's language automatically and answer using that same language.".to_owned(),
            agent_max_steps_error: "agent exceeded the maximum number of tool interactions".to_owned(),
            no_tools_guidance: "No additional tools are currently configured.".to_owned(),
            fallback_response_keys: Vec::new(),
        }
    }
}

impl PromptsConfig {
    /// The default prompt template.
    pub fn default_template() -> (r: &'static str)
        ensures
            r@ == default_template_text(),
    {
        "You are a helpful AI assistant.\n\n{{custom_instruction}}\n\n{{language_guidance}}\n\n{{tool_guidance}}"
    }
}

/// Stored agent settings.
#[derive(Debug, Clone, Copy, PartialEq, Eq)]
pub struct AgentConfig {
    /// Maximum tool interaction steps.
    pub max_steps: u32,
    /// Verbose logging.
    pub verbose: bool,
    /// Run tools without confirmation.
    pub auto_execute_tools: bool,
    /// Session timeout in seconds.
    pub session_timeout_secs: u32,
}

impl Default for AgentConfig {
    fn default() -> (r: Self)
        ensures
            r.max_steps == 10,
            !r.verbose,
            r.auto_execute_tools,
            r.session_timeout_secs == 300,
    {
        AgentConfig { max_steps: 10, verbose: false, auto_execute_tools: true, session_timeout_secs: 300 }
    }
}

impl Default for AppConfig {
    fn default() -> (r: Self)
        ensures
            r.server.bind@ == default_bind_text(),
            r.server.cors_origins@.len() == 0,
            r.server.docs@.len() == 0,
            r.providers@.len() == 0,
            r.model.default_provider@ == "ollama"@,
            r.model.model@ == "llama3"@,
            r.prompts.template@ == default_template_text(),
            r.agent.max_steps == 10,
            r.custom.wf(),
            r.custom.len_spec() == 0,
    {
        AppConfig {
            server: ServerConfig::default(),
            providers: Vec::new(),
            model: ModelConfig::default(),
            prompts: PromptsConfig::default(),
            agent: AgentConfig::default(),
            custom: StringMap::new(),
        }
    }
}

} // verus!
