//! Runtime application configuration: REST server settings, prompt texts with
//! their defaults, tools and servers.
use vstd::prelude::*;

use crate::config::server::ServerConfig;
use crate::config::tool::ToolConfig;

verus! {

/// The default REST bind address.
pub open spec fn default_bind_text() -> Seq<char> {
    "127.0.0.1:8080"@
}

/// `127.0.0.1:8080`.
pub fn default_bind() -> (r: String)
    ensures
        r@ == default_bind_text(),
{
    "127.0.0.1:8080".to_owned()
}

/// API documentation server entry.
#[derive(Debug)]
pub struct DocServerConfig {
    pub url: String,
    pub description: String,
}

impl Clone for DocServerConfig {
    fn clone(&self) -> (r: Self)
        ensures
            r == *self,
    {
        DocServerConfig { url: self.url.clone(), description: self.description.clone() }
    }
}

/// A copy of each string, in order.
pub fn clone_strings(v: &Vec<String>) -> (r: Vec<String>)
    ensures
        r@ == v@,
{
    let mut r: Vec<String> = Vec::new();
    let mut i: usize = 0;
    while i < v.len()
        invariant
            i <= v@.len(),
            r@ == v@.take(i as int),
        decreases v@.len() - i,
    {
        r.push(v[i].clone());
        proof {
            assert(v@.take(i + 1) =~= v@.take(i as int).push(v@[i as int]));
        }
        i = i + 1;
    }
    proof {
        assert(v@.take(i as int) =~= v@);
    }
    r
}

/// A copy of each documentation entry, in order.
pub fn clone_docs(v: &Vec<DocServerConfig>) -> (r: Vec<DocServerConfig>)
    ensures
        r@ == v@,
{
    let mut r: Vec<DocServerConfig> = Vec::new();
    let mut i: usize = 0;
    while i < v.len()
        invariant
            i <= v@.len(),
            r@ == v@.take(i as int),
        decreases v@.len() - i,
    {
        r.push(v[i].clone());
        proof {
            assert(v@.take(i + 1) =~= v@.take(i as int).push(v@[i as int]));
        }
        i = i + 1;
    }
    proof {
        assert(v@.take(i as int) =~= v@);
    }
    r
}

/// REST server configuration.
#[derive(Debug, Clone)]
pub struct RestServerConfig {
    /// Bind address, such as `127.0.0.1:8080`.
    pub bind: String,
    /// CORS allowed origins.
    pub cors_origins: Vec<String>,
    /// API documentation servers.
    pub docs: Vec<DocServerConfig>,
}

impl Default for RestServerConfig {
    fn default() -> (r: Self)
        ensures
            r.bind@ == default_bind_text(),
            r.cors_origins@.len() == 0,
            r.docs@.len() == 0,
    {
        RestServerConfig { bind: default_bind(), cors_origins: Vec::new(), docs: Vec::new() }
    }
}

/// The text of a configured prompt, or `default` when none is configured.
pub open spec fn text_or(o: Option<String>, default: Seq<char>) -> Seq<char> {
    match o {
        Some(s) => s@,
        None => default,
    }
}
/// The default prompt template.
pub open spec fn default_template_text() -> Seq<char> {
    "You are a helpful AI assistant.\n\n{{custom_instruction}}\n\n{{language_guidance}}\n\n{{tool_guidance}}"@
}
/// The default guidance shown when tools are available.
pub open spec fn default_tool_guidance_text() -> Seq<char> {
    "You have access to the following tools. Use them only when necessary to fulfill the user request:"@
}
/// The default guidance for requests outside the tools' scope.
pub open spec fn default_fallback_guidance_text() -> Seq<char> {
    "If the request is outside the scope of available tools, apologize politely and explain your limitations."@
}
/// The default message sent back when the model returns invalid JSON.
pub open spec fn default_json_retry_message_text() -> Seq<char> {
    "System Error: Invalid JSON format returned. Please output ONLY the raw JSON object for the tool call or final response. Do not use Markdown blocks or explanations."@
}
/// The default instruction for processing a tool result.
pub open spec fn default_tool_result_instruction_text() -> Seq<char> {
    "Tool execution complete. Process this result and respond with a VALID JSON object.\n\nIF THE TOOL RETURNED DATA (like a list of posts):\nYou MUST return a JSON object containing:\n1. \"message\": Your friendly text explanation.\n2. \"data\": The step ID reference.\n\nFormat for FINAL ANSWER:\n{\n  \"action\": \"final\",\n  \"response\": {\n    \"message\": \"Here is the information you requested...\",\n    \"data\": \"step_N\"\n  }\n}\n(Replace 'step_N' with the actual step ID, e.g., step_0)\n\nIF YOU NEED TO CALL ANOTHER TOOL:\n{\n  \"action\": \"call_tool\",\n  \"tool\": \"...\",\n  \"input\": {...}\n}\n\nCRITICAL:\n1. DO NOT return the raw data in the 'message' string.\n2. DO NOT summarize the data content in the 'message'.\n3. ALWAYS provide a 'message' so the user feels attended to."@
}
/// The default base rules of the autonomous assistant.
pub open spec fn default_agent_instructions_text() -> Seq<char> {
    "You are an autonomous assistant that can call tools to solve user requests.\nAll responses must be valid JSON without commentary or code fences.\nWhen you need to invoke a single tool, respond with: {\"action\":\"call_tool\",\"tool\":\"tool_name\",\"input\":{...}}.\nWhen you need to invoke multiple tools simultaneously, respond with: {\"action\":\"call_tools\",\"tools\":[{\"name\":\"tool1\",\"input\":{...}}, {\"name\":\"tool2\",\"input\":{...}}]}.\nTo obtain the list of available tools, call the special tool: {\"action\":\"call_tool\",\"tool\":\"list_tools\"}.\nWhen you are ready to give the final answer to the user, respond with: {\"action\":\"final\",\"response\":{\"content\":\"...\", \"data\":\"step_N\"}} where 'step_N' refers to the index of a tool call result.\nIf your response includes data from tool calls, put the reference to the tool result in a 'data' field with the value 'step_N' where N is the step number.\nFor example: {\"action\":\"final\",\"response\":{\"content\":\"Here are the latest posts\",\"data\":\"step_0\"}}.\nIMPORTANT: Always return JSON for final responses, never plain text. If you want to include data from a tool call, reference it using the 'data' field with the appropriate step index.\nCRITICAL: Do not repeat or summarize the content of tool results in the 'content' field. Simply mention that the data exists and reference it using the 'data' field. The system will automatically embed the actual data from the tool result.\nABSOLUTELY CRITICAL: Your final response must be a JSON object with 'content' and 'data' fields. Do not return a string as the value of the 'response' field. The 'response' field must contain an object, not a string."@
}
/// The default rules for late-bound UI data.
pub open spec fn default_ui_instructions_text() -> Seq<char> {
    "DATA FIELD REPLACEMENT:\nIf your response includes data from tool calls, put the reference to the tool result in a 'data' field with the value 'step_N' where N is the step number.\nThe system will automatically replace 'step_N' with the actual JSON data from the tool call result.\nFor example: {\"action\":\"final\",\"response\":{\"content\":\"Analysis complete\",\"data\":\"step_0\"}} where 'step_0' will be replaced with the actual data from the first tool call."@
}
/// The default language detection rules.
pub open spec fn default_language_instructions_text() -> Seq<char> {
    "Detect the user's language automatically and answer using that same language unless they explicitly request another language.\nDo not call any translation-related tools; handle language understanding internally."@
}
/// The default message shown when the step limit is reached.
pub open spec fn default_agent_max_steps_error_text() -> Seq<char> {
    "agent exceeded the maximum number of tool interactions"@
}
/// The default guidance shown when no tool is configured.
pub open spec fn default_no_tools_guidance_text() -> Seq<char> {
    "No additional tools are currently configured."@
}
/// The default field names probed when the model answers with an unknown action.
pub open spec fn default_fallback_response_keys_spec() -> Seq<Seq<char>> {
    seq!["response"@, "content"@, "message"@]
}

/// The configured fallback field names when there is at least one, else the defaults.
pub open spec fn effective_fallback_keys(o: Option<Vec<String>>) -> Seq<Seq<char>> {
    match o {
        Some(keys) => if keys@.len() > 0 {
            keys@.map_values(|k: String| k@)
        } else {
            default_fallback_response_keys_spec()
        },
        None => default_fallback_response_keys_spec(),
    }
}

/// Configurable prompt texts; an absent text falls back to its default.
#[derive(Debug, Clone)]
pub struct PromptsConfig {
    /// The prompt template, if configured.
    pub template: Option<String>,
    /// The guidance shown when tools are available, if configured.
    pub tool_guidance: Option<String>,
    /// The guidance for requests outside the tools' scope, if configured.
    pub fallback_guidance: Option<String>,
    /// The message sent back when the model returns invalid JSON, if configured.
    pub json_retry_message: Option<String>,
    /// The instruction for processing a tool result, if configured.
    pub tool_result_instruction: Option<String>,
    /// The base rules of the autonomous assistant, if configured.
    pub agent_instructions: Option<String>,
    /// The rules for late-bound UI data, if configured.
    pub ui_instructions: Option<String>,
    /// The language detection rules, if configured.
    pub language_instructions: Option<String>,
    /// The message shown when the step limit is reached, if configured.
    pub agent_max_steps_error: Option<String>,
    /// The guidance shown when no tool is configured, if configured.
    pub no_tools_guidance: Option<String>,
    /// Field names probed when the model answers with an unknown action.
    pub fallback_response_keys: Option<Vec<String>>,
}

/// Whether no prompt text and no fallback field name is configured.
pub open spec fn prompts_unset(p: PromptsConfig) -> bool {
    &&& p.template is None
    &&& p.tool_guidance is None
    &&& p.fallback_guidance is None
    &&& p.json_retry_message is None
    &&& p.tool_result_instruction is None
    &&& p.agent_instructions is None
    &&& p.ui_instructions is None
    &&& p.language_instructions is None
    &&& p.agent_max_steps_error is None
    &&& p.no_tools_guidance is None
    &&& p.fallback_response_keys is None
}

impl Default for PromptsConfig {
    fn default() -> (r: Self)
        ensures
            prompts_unset(r),
    {
        PromptsConfig {
            template: None,
            tool_guidance: None,
            fallback_guidance: None,
            json_retry_message: None,
            tool_result_instruction: None,
            agent_instructions: None,
            ui_instructions: None,
            language_instructions: None,
            agent_max_steps_error: None,
            no_tools_guidance: None,
            fallback_response_keys: None,
        }
    }
}

impl PromptsConfig {
    /// The default prompt template.
    pub fn default_template() -> (r: &'static str)
        ensures
            r@ == default_template_text(),
    {
        "You are a helpful AI assistant.\n\n{{custom_instruction}}\n\n{{language_guidance}}\n\n{{tool_guidance}}"
    }

    /// The default guidance shown when tools are available.
    pub fn default_tool_guidance() -> (r: &'static str)
        ensures
            r@ == default_tool_guidance_text(),
    {
        "You have access to the following tools. Use them only when necessary to fulfill the user request:"
    }

    /// The default guidance for requests outside the tools' scope.
    pub fn default_fallback_guidance() -> (r: &'static str)
        ensures
            r@ == default_fallback_guidance_text(),
    {
        "If the request is outside the scope of available tools, apologize politely and explain your limitations."
    }

    /// The default message sent back when the model returns invalid JSON.
    pub fn default_json_retry_message() -> (r: &'static str)
        ensures
            r@ == default_json_retry_message_text(),
    {
        "System Error: Invalid JSON format returned. Please output ONLY the raw JSON object for the tool call or final response. Do not use Markdown blocks or explanations."
    }

    /// The default instruction for processing a tool result.
    pub fn default_tool_result_instruction() -> (r: &'static str)
        ensures
            r@ == default_tool_result_instruction_text(),
    {
        "Tool execution complete. Process this result and respond with a VALID JSON object.\n\nIF THE TOOL RETURNED DATA (like a list of posts):\nYou MUST return a JSON object containing:\n1. \"message\": Your friendly text explanation.\n2. \"data\": The step ID reference.\n\nFormat for FINAL ANSWER:\n{\n  \"action\": \"final\",\n  \"response\": {\n    \"message\": \"Here is the information you requested...\",\n    \"data\": \"step_N\"\n  }\n}\n(Replace 'step_N' with the actual step ID, e.g., step_0)\n\nIF YOU NEED TO CALL ANOTHER TOOL:\n{\n  \"action\": \"call_tool\",\n  \"tool\": \"...\",\n  \"input\": {...}\n}\n\nCRITICAL:\n1. DO NOT return the raw data in the 'message' string.\n2. DO NOT summarize the data content in the 'message'.\n3. ALWAYS provide a 'message' so the user feels attended to."
    }

    /// The default base rules of the autonomous assistant.
    pub fn default_agent_instructions() -> (r: &'static str)
        ensures
            r@ == default_agent_instructions_text(),
    {
        "You are an autonomous assistant that can call tools to solve user requests.\nAll responses must be valid JSON without commentary or code fences.\nWhen you need to invoke a single tool, respond with: {\"action\":\"call_tool\",\"tool\":\"tool_name\",\"input\":{...}}.\nWhen you need to invoke multiple tools simultaneously, respond with: {\"action\":\"call_tools\",\"tools\":[{\"name\":\"tool1\",\"input\":{...}}, {\"name\":\"tool2\",\"input\":{...}}]}.\nTo obtain the list of available tools, call the special tool: {\"action\":\"call_tool\",\"tool\":\"list_tools\"}.\nWhen you are ready to give the final answer to the user, respond with: {\"action\":\"final\",\"response\":{\"content\":\"...\", \"data\":\"step_N\"}} where 'step_N' refers to the index of a tool call result.\nIf your response includes data from tool calls, put the reference to the tool result in a 'data' field with the value 'step_N' where N is the step number.\nFor example: {\"action\":\"final\",\"response\":{\"content\":\"Here are the latest posts\",\"data\":\"step_0\"}}.\nIMPORTANT: Always return JSON for final responses, never plain text. If you want to include data from a tool call, reference it using the 'data' field with the appropriate step index.\nCRITICAL: Do not repeat or summarize the content of tool results in the 'content' field. Simply mention that the data exists and reference it using the 'data' field. The system will automatically embed the actual data from the tool result.\nABSOLUTELY CRITICAL: Your final response must be a JSON object with 'content' and 'data' fields. Do not return a string as the value of the 'response' field. The 'response' field must contain an object, not a string."
    }

    /// The default rules for late-bound UI data.
    pub fn default_ui_instructions() -> (r: &'static str)
        ensures
            r@ == default_ui_instructions_text(),
    {
        "DATA FIELD REPLACEMENT:\nIf your response includes data from tool calls, put the reference to the tool result in a 'data' field with the value 'step_N' where N is the step number.\nThe system will automatically replace 'step_N' with the actual JSON data from the tool call result.\nFor example: {\"action\":\"final\",\"response\":{\"content\":\"Analysis complete\",\"data\":\"step_0\"}} where 'step_0' will be replaced with the actual data from the first tool call."
    }

    /// The default language detection rules.
    pub fn default_language_instructions() -> (r: &'static str)
        ensures
            r@ == default_language_instructions_text(),
    {
        "Detect the user's language automatically and answer using that same language unless they explicitly request another language.\nDo not call any translation-related tools; handle language understanding internally."
    }

    /// The default message shown when the step limit is reached.
    pub fn default_agent_max_steps_error() -> (r: &'static str)
        ensures
            r@ == default_agent_max_steps_error_text(),
    {
        "agent exceeded the maximum number of tool interactions"
    }

    /// The default guidance shown when no tool is configured.
    pub fn default_no_tools_guidance() -> (r: &'static str)
        ensures
            r@ == default_no_tools_guidance_text(),
    {
        "No additional tools are currently configured."
    }

    /// The configured prompt template, or its default.
    pub fn template(&self) -> (r: &str)
        ensures
            r@ == text_or(self.template, default_template_text()),
    {
        match &self.template {
            Some(s) => s.as_str(),
            None => Self::default_template(),
        }
    }

    /// The configured guidance shown when tools are available, or its default.
    pub fn tool_guidance(&self) -> (r: &str)
        ensures
            r@ == text_or(self.tool_guidance, default_tool_guidance_text()),
    {
        match &self.tool_guidance {
            Some(s) => s.as_str(),
            None => Self::default_tool_guidance(),
        }
    }

    /// The configured guidance for requests outside the tools' scope, or its default.
    pub fn fallback_guidance(&self) -> (r: &str)
        ensures
            r@ == text_or(self.fallback_guidance, default_fallback_guidance_text()),
    {
        match &self.fallback_guidance {
            Some(s) => s.as_str(),
            None => Self::default_fallback_guidance(),
        }
    }

    /// The configured message sent back when the model returns invalid JSON, or its default.
    pub fn json_retry_message(&self) -> (r: &str)
        ensures
            r@ == text_or(self.json_retry_message, default_json_retry_message_text()),
    {
        match &self.json_retry_message {
            Some(s) => s.as_str(),
            None => Self::default_json_retry_message(),
        }
    }

    /// The configured instruction for processing a tool result, or its default.
    pub fn tool_result_instruction(&self) -> (r: &str)
        ensures
            r@ == text_or(self.tool_result_instruction, default_tool_result_instruction_text()),
    {
        match &self.tool_result_instruction {
            Some(s) => s.as_str(),
            None => Self::default_tool_result_instruction(),
        }
    }

    /// The configured base rules of the autonomous assistant, or its default.
    pub fn agent_instructions(&self) -> (r: &str)
        ensures
            r@ == text_or(self.agent_instructions, default_agent_instructions_text()),
    {
        match &self.agent_instructions {
            Some(s) => s.as_str(),
            None => Self::default_agent_instructions(),
        }
    }

    /// The configured rules for late-bound UI data, or its default.
    pub fn ui_instructions(&self) -> (r: &str)
        ensures
            r@ == text_or(self.ui_instructions, default_ui_instructions_text()),
    {
        match &self.ui_instructions {
            Some(s) => s.as_str(),
            None => Self::default_ui_instructions(),
        }
    }

    /// The configured language detection rules, or its default.
    pub fn language_instructions(&self) -> (r: &str)
        ensures
            r@ == text_or(self.language_instructions, default_language_instructions_text()),
    {
        match &self.language_instructions {
            Some(s) => s.as_str(),
            None => Self::default_language_instructions(),
        }
    }

    /// The configured message shown when the step limit is reached, or its default.
    pub fn agent_max_steps_error(&self) -> (r: &str)
        ensures
            r@ == text_or(self.agent_max_steps_error, default_agent_max_steps_error_text()),
    {
        match &self.agent_max_steps_error {
            Some(s) => s.as_str(),
            None => Self::default_agent_max_steps_error(),
        }
    }

    /// The configured guidance shown when no tool is configured, or its default.
    pub fn no_tools_guidance(&self) -> (r: &str)
        ensures
            r@ == text_or(self.no_tools_guidance, default_no_tools_guidance_text()),
    {
        match &self.no_tools_guidance {
            Some(s) => s.as_str(),
            None => Self::default_no_tools_guidance(),
        }
    }

    /// The default field names probed when the model answers with an unknown action:
    /// `response`, `content` and `message`.
    pub fn default_fallback_response_keys() -> (r: Vec<&'static str>)
        ensures
            r@.len() == 3,
            forall|i: int| 0 <= i < 3 ==> #[trigger] r@[i]@ == default_fallback_response_keys_spec()[i],
    {
        let mut r: Vec<&'static str> = Vec::new();
        r.push("response");
        r.push("content");
        r.push("message");
        r
    }

    /// The configured fallback field names when there is at least one, else the
    /// defaults.
    pub fn fallback_response_keys(&self) -> (r: Vec<&str>)
        ensures
            r@.len() == effective_fallback_keys(self.fallback_response_keys).len(),
            forall|i: int| 0 <= i < r@.len() ==> #[trigger] r@[i]@ == effective_fallback_keys(self.fallback_response_keys)[i],
    {
        match &self.fallback_response_keys {
            Some(keys) => {
                if keys.len() > 0 {
                    let mut r: Vec<&str> = Vec::new();
                    let mut i: usize = 0;
                    while i < keys.len()
                        invariant
                            i <= keys@.len(),
                            r@.len() == i,
                            forall|j: int| 0 <= j < i ==> #[trigger] r@[j]@ == keys@[j]@,
                        decreases keys@.len() - i,
                    {
                        r.push(keys[i].as_str());
                        i = i + 1;
                    }
                    return r;
                }
            },
            None => {},
        }
        Self::default_fallback_response_keys()
    }
}

/// Application runtime configuration.
#[derive(Debug, Clone)]
pub struct AppConfig {
    /// Preferred provider id.
    pub default_provider: String,
    /// Preferred model name.
    pub model: String,
    pub system_prompt: Option<String>,
    pub tools: Vec<ToolConfig>,
    pub servers: Vec<ServerConfig>,
    /// REST server settings.
    pub rest_server: RestServerConfig,
    /// Prompt texts.
    pub prompts: PromptsConfig,
}

impl Default for AppConfig {
    fn default() -> (r: Self)
        ensures
            r.default_provider@ == "local"@,
            r.model@ == "default"@,
            r.system_prompt is None,
            r.tools@.len() == 0,
            r.servers@.len() == 0,
            r.rest_server.bind@ == default_bind_text(),
            r.rest_server.cors_origins@.len() == 0,
            r.rest_server.docs@.len() == 0,
            prompts_unset(r.prompts),
    {
        AppConfig {
            default_provider: "local".to_owned(),
            model: "default".to_owned(),
            system_prompt: None,
            tools: Vec::new(),
            servers: Vec::new(),
            rest_server: RestServerConfig::default(),
            prompts: PromptsConfig::default(),
        }
    }
}

impl AppConfig {
    /// The prompt template, or its default.
    pub fn prompt_template(&self) -> (r: &str)
        ensures
            r@ == text_or(self.prompts.template, default_template_text()),
    {
        self.prompts.template()
    }
}

} // verus!
