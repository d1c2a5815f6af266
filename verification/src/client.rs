//! The chat client's own logic: its configuration, the system prompt composed
//! from the prompt template, the request prepared for the model from the
//! session history, and the exchange recorded once the model has answered.
//! The host performs the model call between `prepare_chat` and `complete_chat`.
use vstd::prelude::*;

use crate::compose::{replace_all, replace_all_spec, summarise, summary_spec, tidy_lines, tidy_lines_spec, trim, trim_spec};
use crate::config::app::{
    clone_strings, default_bind_text, default_fallback_guidance_text, default_template_text,
    default_tool_guidance_text, prompts_unset, text_or, AppConfig, PromptsConfig, RestServerConfig,
};
use crate::config::loader::stored_text;
use crate::config::serializer::rendered_config;
use crate::config::server::ServerConfig;
use crate::config::tool::ToolConfig;
use crate::context_window::{law_prune_never_grows, messages_tokens, prune_messages, prune_spec, ContextWindowPolicy};
use crate::decimal::{decimal, push_decimal};
use crate::domain::{msgs_view, parts_view, ChatMessage, ChatMessageView, MessagePart, MessageRole, PartView};
use crate::multi_agent::task::{is_hyphenated_uuid, new_uuid};
use crate::session_store::{lru_touch, SessionStore};
use crate::text::opt_view;

verus! {

fn clone_opt(s: &Option<String>) -> (r: Option<String>)
    ensures
        r == *s,
{
    match s {
        Some(x) => Some(x.clone()),
        None => None,
    }
}

/// A copy of each tool, in order.
pub fn clone_tools(v: &Vec<ToolConfig>) -> (r: Vec<ToolConfig>)
    ensures
        r@ == v@,
{
    let mut r: Vec<ToolConfig> = Vec::new();
    let mut i: usize = 0;
    while i < v.len()
        invariant
            i <= v@.len(),
            r@ == v@.take(i as int),
        decreases v@.len() - i,
    {
        r.push(v[i].clone());
        proof {
            assert(v@.take(i + 1) =~= v@.take(i as int).push(v@[i as int]));
        }
        i = i + 1;
    }
    proof {
        assert(v@.take(i as int) =~= v@);
    }
    r
}

/// Whether two server configurations carry the same settings.
pub open spec fn same_server(a: ServerConfig, b: ServerConfig) -> bool {
    &&& a.name == b.name
    &&& a.transport == b.transport
    &&& a.command == b.command
    &&& a.args@ == b.args@
    &&& a.env.entries_spec() == b.env.entries_spec()
    &&& a.workdir == b.workdir
    &&& a.url == b.url
    &&& a.headers.entries_spec() == b.headers.entries_spec()
    &&& a.default_timezone == b.default_timezone
    &&& a.default_city == b.default_city
}

/// A copy of a server configuration.
pub fn clone_server(s: &ServerConfig) -> (r: ServerConfig)
    ensures
        same_server(r, *s),
{
    ServerConfig {
        name: s.name.clone(),
        transport: s.transport,
        command: clone_opt(&s.command),
        args: clone_strings(&s.args),
        env: s.env.clone(),
        workdir: clone_opt(&s.workdir),
        url: clone_opt(&s.url),
        headers: s.headers.clone(),
        default_timezone: clone_opt(&s.default_timezone),
        default_city: clone_opt(&s.default_city),
    }
}

/// A copy of each server configuration, in order.
pub fn clone_servers(v: &Vec<ServerConfig>) -> (r: Vec<ServerConfig>)
    ensures
        r@.len() == v@.len(),
        forall|i: int| 0 <= i < v@.len() ==> same_server(#[trigger] r@[i], v@[i]),
{
    let mut r: Vec<ServerConfig> = Vec::new();
    let mut i: usize = 0;
    while i < v.len()
        invariant
            i <= v@.len(),
            r@.len() == i,
            forall|j: int| 0 <= j < i ==> same_server(#[trigger] r@[j], v@[j]),
        decreases v@.len() - i,
    {
        r.push(clone_server(&v[i]));
        i = i + 1;
    }
    r
}

/// Whether two prompt configurations hold the same texts and field names.
pub open spec fn same_prompts(a: PromptsConfig, b: PromptsConfig) -> bool {
    &&& a.template == b.template
    &&& a.tool_guidance == b.tool_guidance
    &&& a.fallback_guidance == b.fallback_guidance
    &&& a.json_retry_message == b.json_retry_message
    &&& a.tool_result_instruction == b.tool_result_instruction
    &&& a.agent_instructions == b.agent_instructions
    &&& a.ui_instructions == b.ui_instructions
    &&& a.language_instructions == b.language_instructions
    &&& a.agent_max_steps_error == b.agent_max_steps_error
    &&& a.no_tools_guidance == b.no_tools_guidance
    &&& a.fallback_response_keys is Some <==> b.fallback_response_keys is Some
    &&& a.fallback_response_keys is Some ==> a.fallback_response_keys.unwrap()@ == b.fallback_response_keys.unwrap()@
}

/// A copy of a prompts configuration.
pub fn clone_prompts(p: &PromptsConfig) -> (r: PromptsConfig)
    ensures
        same_prompts(r, *p),
{
    PromptsConfig {
        template: clone_opt(&p.template),
        tool_guidance: clone_opt(&p.tool_guidance),
        fallback_guidance: clone_opt(&p.fallback_guidance),
        json_retry_message: clone_opt(&p.json_retry_message),
        tool_result_instruction: clone_opt(&p.tool_result_instruction),
        agent_instructions: clone_opt(&p.agent_instructions),
        ui_instructions: clone_opt(&p.ui_instructions),
        language_instructions: clone_opt(&p.language_instructions),
        agent_max_steps_error: clone_opt(&p.agent_max_steps_error),
        no_tools_guidance: clone_opt(&p.no_tools_guidance),
        fallback_response_keys: match &p.fallback_response_keys {
            Some(keys) => Some(clone_strings(keys)),
            None => None,
        },
    }
}

// ── Configuration ───────────────────────────────────────────────────────────

/// Configuration of the chat client.
#[derive(Debug, Clone)]
pub struct ClientConfig {
    /// Default provider id.
    pub default_provider: String,
    /// Default model name.
    pub default_model: String,
    /// System prompt used when a request brings none.
    pub default_system_prompt: Option<String>,
    /// Tools offered by the servers.
    pub tools: Vec<ToolConfig>,
    /// Tool servers.
    pub servers: Vec<ServerConfig>,
    /// Prompt texts.
    pub prompts: PromptsConfig,
}

impl ClientConfig {
    /// A configuration for this provider and model, with no system prompt,
    /// tool or server and the default prompts.
    pub fn new(default_provider: &str, default_model: &str) -> (r: Self)
        ensures
            r.default_provider@ == default_provider@,
            r.default_model@ == default_model@,
            r.default_system_prompt is None,
            r.tools@.len() == 0,
            r.servers@.len() == 0,
            prompts_unset(r.prompts),
    {
        ClientConfig {
            default_provider: default_provider.to_owned(),
            default_model: default_model.to_owned(),
            default_system_prompt: None,
            tools: Vec::new(),
            servers: Vec::new(),
            prompts: PromptsConfig::default(),
        }
    }

    /// Set the default system prompt.
    pub fn with_system_prompt(self, prompt: &str) -> (r: Self)
        ensures
            r.default_system_prompt matches Some(p) && p@ == prompt@,
            r.default_provider == self.default_provider,
            r.default_model == self.default_model,
            r.tools == self.tools,
            r.servers == self.servers,
            r.prompts == self.prompts,
    {
        ClientConfig { default_system_prompt: Some(prompt.to_owned()), ..self }
    }

    /// Set the tools.
    pub fn with_tools(self, tools: Vec<ToolConfig>) -> (r: Self)
        ensures
            r == (ClientConfig { tools, ..self }),
    {
        ClientConfig { tools, ..self }
    }

    /// Set the servers.
    pub fn with_servers(self, servers: Vec<ServerConfig>) -> (r: Self)
        ensures
            r == (ClientConfig { servers, ..self }),
    {
        ClientConfig { servers, ..self }
    }

    /// Set the prompts.
    pub fn with_prompts(self, prompts: PromptsConfig) -> (r: Self)
        ensures
            r == (ClientConfig { prompts, ..self }),
    {
        ClientConfig { prompts, ..self }
    }

    /// The prompt template, or its default.
    pub fn prompt_template(&self) -> (r: &str)
        ensures
            r@ == text_or(self.prompts.template, default_template_text()),
    {
        self.prompts.template()
    }

    /// The runtime configuration with this client's settings and default REST
    /// settings.
    pub fn to_app_config(&self) -> (r: AppConfig)
        ensures
            r.default_provider == self.default_provider,
            r.model == self.default_model,
            r.system_prompt == self.default_system_prompt,
            r.tools@ == self.tools@,
            r.servers@.len() == self.servers@.len(),
            forall|i: int| 0 <= i < self.servers@.len() ==> same_server(#[trigger] r.servers@[i], self.servers@[i]),
            r.rest_server.bind@ == default_bind_text(),
            r.rest_server.cors_origins@.len() == 0,
            r.rest_server.docs@.len() == 0,
            same_prompts(r.prompts, self.prompts),
    {
        AppConfig {
            default_provider: self.default_provider.clone(),
            model: self.default_model.clone(),
            system_prompt: clone_opt(&self.default_system_prompt),
            tools: clone_tools(&self.tools),
            servers: clone_servers(&self.servers),
            rest_server: RestServerConfig::default(),
            prompts: clone_prompts(&self.prompts),
        }
    }
}

/// Read-only view of a client configuration for display layers.
#[derive(Debug)]
pub struct ClientConfigSnapshot {
    pub model: String,
    pub default_provider: String,
    pub system_prompt: Option<String>,
    pub prompt_template: String,
    pub tools: Vec<ToolConfig>,
    pub servers: Vec<ServerConfig>,
    /// TOML rendering of the configuration.
    pub raw: String,
}

/// The snapshot of a client configuration: its settings, prompt template and
/// TOML rendering.
pub fn config_snapshot(config: &ClientConfig) -> (r: ClientConfigSnapshot)
    ensures
        r.model == config.default_model,
        r.default_provider == config.default_provider,
        r.system_prompt == config.default_system_prompt,
        r.prompt_template@ == text_or(config.prompts.template, default_template_text()),
        r.tools@ == config.tools@,
        r.servers@.len() == config.servers@.len(),
        r.raw@ == rendered_config(opt_view(config.default_system_prompt), text_or(config.prompts.template, default_template_text()), config.tools@),
{
    let app = config.to_app_config();
    let prompt_template = app.prompt_template().to_owned();
    let raw = app.to_raw_toml();
    ClientConfigSnapshot {
        model: app.model,
        default_provider: app.default_provider,
        system_prompt: app.system_prompt,
        prompt_template,
        tools: app.tools,
        servers: app.servers,
        raw,
    }
}

// ── System prompt ───────────────────────────────────────────────────────────

/// The line listing one tool: `- {name}: {description}`.
pub open spec fn tool_guidance_line(t: ToolConfig) -> Seq<char> {
    "- "@ + t.name@ + ": "@ + match t.description {
        Some(d) => d@,
        None => "No description available."@,
    } + "\n"@
}

/// The lines listing the tools, in order.
pub open spec fn tool_guidance_lines(ts: Seq<ToolConfig>) -> Seq<char>
    decreases ts.len(),
{
    if ts.len() == 0 {
        Seq::empty()
    } else {
        tool_guidance_lines(ts.drop_last()) + tool_guidance_line(ts.last())
    }
}

/// The tool guidance of a configuration: the fallback guidance alone without
/// tools, else the tool guidance, the tool list and the fallback guidance.
pub open spec fn tool_guidance_text(config: ClientConfig) -> Seq<char> {
    let fallback = text_or(config.prompts.fallback_guidance, default_fallback_guidance_text());
    if config.tools@.len() == 0 {
        fallback
    } else {
        text_or(config.prompts.tool_guidance, default_tool_guidance_text()) + "\n"@ + tool_guidance_lines(config.tools@)
            + fallback
    }
}

/// The system prompt composed from the template: the placeholders replaced
/// (language guidance by nothing, tool guidance and the custom instruction by
/// their trimmed texts), leftover placeholders removed, lines trimmed and runs
/// of blank lines reduced to one; the trimmed custom instruction alone when
/// the template is empty.
pub open spec fn composed_prompt(config: ClientConfig, custom: Seq<char>) -> Seq<char> {
    let template = text_or(config.prompts.template, default_template_text());
    if template.len() == 0 {
        trim_spec(custom)
    } else {
        let first = replace_all_spec(
            replace_all_spec(
                replace_all_spec(template, "{{language_guidance}}"@, Seq::empty()),
                "{{tool_guidance}}"@,
                trim_spec(tool_guidance_text(config)),
            ),
            "{{custom_instruction}}"@,
            trim_spec(custom),
        );
        let second = replace_all_spec(
            replace_all_spec(
                replace_all_spec(first, "{{language_guidance}}"@, Seq::empty()),
                "{{tool_guidance}}"@,
                Seq::empty(),
            ),
            "{{custom_instruction}}"@,
            Seq::empty(),
        );
        tidy_lines_spec(second)
    }
}

fn tool_guidance(config: &ClientConfig) -> (r: String)
    ensures
        r@ == tool_guidance_text(*config),
{
    let fallback = config.prompts.fallback_guidance();
    if config.tools.len() == 0 {
        return fallback.to_owned();
    }
    let mut text = config.prompts.tool_guidance().to_owned();
    text.append("\n");
    let ghost head = text@;
    let mut i: usize = 0;
    while i < config.tools.len()
        invariant
            i <= config.tools@.len(),
            text@ == head + tool_guidance_lines(config.tools@.take(i as int)),
        decreases config.tools@.len() - i,
    {
        proof {
            assert(config.tools@.take(i + 1).drop_last() =~= config.tools@.take(i as int));
        }
        let tool = &config.tools[i];
        text.append("- ");
        text.append(tool.name.as_str());
        text.append(": ");
        match &tool.description {
            Some(d) => text.append(d.as_str()),
            None => text.append("No description available."),
        }
        text.append("\n");
        i = i + 1;
    }
    proof {
        assert(config.tools@.take(i as int) =~= config.tools@);
    }
    text.append(fallback);
    text
}

/// The system prompt for a request whose own prompt (or the default one) is
/// `override_prompt`.
pub fn compose_system_prompt(config: &ClientConfig, override_prompt: Option<String>) -> (r: String)
    ensures
        r@ == composed_prompt(*config, stored_text(opt_view(override_prompt))),
{
    let template = config.prompt_template();
    let custom = match override_prompt {
        Some(p) => p,
        None => String::new(),
    };
    if template.unicode_len() == 0 {
        return trim(custom.as_str());
    }
    let guidance = tool_guidance(config);
    let guidance_trimmed = trim(guidance.as_str());
    let custom_trimmed = trim(custom.as_str());
    proof {
        reveal_strlit("{{language_guidance}}");
        reveal_strlit("{{tool_guidance}}");
        reveal_strlit("{{custom_instruction}}");
        reveal_strlit("");
        assert(""@ =~= Seq::<char>::empty());
    }
    let a = replace_all(template, "{{language_guidance}}", "");
    let b = replace_all(a.as_str(), "{{tool_guidance}}", guidance_trimmed.as_str());
    let c = replace_all(b.as_str(), "{{custom_instruction}}", custom_trimmed.as_str());
    let d = replace_all(c.as_str(), "{{language_guidance}}", "");
    let e = replace_all(d.as_str(), "{{tool_guidance}}", "");
    let f = replace_all(e.as_str(), "{{custom_instruction}}", "");
    tidy_lines(f.as_str())
}

// ── Preparing and completing a chat turn ────────────────────────────────────

/// Request parameters of one chat turn.
#[derive(Debug, Clone)]
pub struct ChatRequest {
    /// The user's message.
    pub prompt: String,
    /// File or image attachments.
    pub attachments: Vec<MessagePart>,
    /// System prompt for this request.
    pub system_prompt: Option<String>,
    /// Session to continue.
    pub session_id: Option<String>,
    /// Send the message alone: no system prompt, history or template.
    pub raw_mode: bool,
    /// Use the system prompt as given, without the template.
    pub bypass_template: bool,
    /// Ask the model for JSON output.
    pub force_json: bool,
}

impl Default for ChatRequest {
    fn default() -> (r: Self)
        ensures
            r.prompt@.len() == 0,
            r.attachments@.len() == 0,
            r.system_prompt is None,
            r.session_id is None,
            !r.raw_mode,
            !r.bypass_template,
            !r.force_json,
    {
        ChatRequest {
            prompt: String::new(),
            attachments: Vec::new(),
            system_prompt: None,
            session_id: None,
            raw_mode: false,
            bypass_template: false,
            force_json: false,
        }
    }
}

/// A request to the model.
#[derive(Debug, Clone)]
pub struct ModelRequest {
    pub provider: String,
    pub model: String,
    pub messages: Vec<ChatMessage>,
    pub session_id: Option<String>,
    pub force_json: bool,
}

/// The model's answer.
#[derive(Debug, Clone)]
pub struct ModelResponse {
    pub message: ChatMessage,
    pub session_id: Option<String>,
}

/// A chat turn ready for the model, with what is needed to record it after.
#[derive(Debug)]
pub struct PreparedChatTurn {
    pub session_id: String,
    pub provider: String,
    pub model: String,
    pub model_request: ModelRequest,
    pub user_message: ChatMessage,
    pub logs: Vec<String>,
}

/// The result of a chat turn.
#[derive(Debug)]
pub struct ChatResult {
    /// The model's answer text.
    pub content: String,
    pub session_id: String,
    pub provider: String,
    pub model: String,
    pub logs: Vec<String>,
}

/// The system prompt of a non-raw request: the request's prompt as given when
/// the template is bypassed, else the prompt composed from the request's (or
/// the default) system prompt.
pub open spec fn request_system_prompt(config: ClientConfig, request: ChatRequest) -> Seq<char> {
    if request.bypass_template {
        stored_text(opt_view(request.system_prompt))
    } else {
        let chosen = if request.system_prompt is Some {
            request.system_prompt
        } else {
            config.default_system_prompt
        };
        composed_prompt(config, stored_text(opt_view(chosen)))
    }
}

/// The messages sent to the model: for a non-raw request, the system prompt
/// (when not empty) and the session history; then the user message.
pub open spec fn request_messages(config: ClientConfig, request: ChatRequest, history: Seq<ChatMessageView>, user: ChatMessageView) -> Seq<ChatMessageView> {
    if request.raw_mode {
        seq![user]
    } else {
        let system = request_system_prompt(config, request);
        let head = if system.len() == 0 {
            Seq::empty()
        } else {
            seq![ChatMessageView { role: MessageRole::System, parts: seq![PartView::Text { text: system }] }]
        };
        head + history + seq![user]
    }
}

/// The user message of a request: its text, then its attachments.
pub open spec fn user_message_view(request: ChatRequest) -> ChatMessageView {
    ChatMessageView {
        role: MessageRole::User,
        parts: seq![PartView::Text { text: request.prompt@ }] + parts_view(request.attachments@),
    }
}

fn clone_parts_vec(v: &Vec<MessagePart>) -> (r: Vec<MessagePart>)
    ensures
        r@ == v@,
{
    let mut r: Vec<MessagePart> = Vec::new();
    let mut i: usize = 0;
    while i < v.len()
        invariant
            i <= v@.len(),
            r@ == v@.take(i as int),
        decreases v@.len() - i,
    {
        r.push(v[i].clone());
        proof {
            assert(v@.take(i + 1) =~= v@.take(i as int).push(v@[i as int]));
        }
        i = i + 1;
    }
    proof {
        assert(v@.take(i as int) =~= v@);
    }
    r
}

fn clone_messages(v: &Vec<ChatMessage>) -> (r: Vec<ChatMessage>)
    ensures
        msgs_view(r@) == msgs_view(v@),
{
    let mut r: Vec<ChatMessage> = Vec::new();
    let mut i: usize = 0;
    while i < v.len()
        invariant
            i <= v@.len(),
            msgs_view(r@) == msgs_view(v@.take(i as int)),
        decreases v@.len() - i,
    {
        let ghost before = r@;
        r.push(v[i].clone());
        proof {
            assert(msgs_view(r@) =~= msgs_view(before).push(v@[i as int]@));
            assert(msgs_view(v@.take(i + 1)) =~= msgs_view(v@.take(i as int)).push(v@[i as int]@));
        }
        i = i + 1;
    }
    proof {
        assert(v@.take(i as int) =~= v@);
    }
    r
}

/// The views of a sequence of strings.
pub open spec fn texts_view(s: Seq<String>) -> Seq<Seq<char>> {
    s.map_values(|t: String| t@)
}

/// The log lines between the first and the last of a prepared turn whose
/// session held `history_len` messages: for a raw request, a note that it goes
/// out as is; else the size of a non-empty history and a preview of a
/// non-empty system prompt.
pub open spec fn prepared_middle_logs(config: ClientConfig, request: ChatRequest, history_len: nat) -> Seq<Seq<char>> {
    if request.raw_mode {
        seq!["Raw mode: sending request directly to model"@]
    } else {
        let system = request_system_prompt(config, request);
        (if history_len > 0 {
            seq!["Previous conversation history: "@ + decimal(history_len) + " messages"@]
        } else {
            Seq::empty()
        }) + (if system.len() > 0 {
            seq!["System prompt active: "@ + summary_spec(system)]
        } else {
            Seq::empty()
        })
    }
}

/// The log lines of a prepared turn whose session held `history_len`
/// messages: the provider and model, the lines of `prepared_middle_logs`, and
/// last a preview of the user's message with the number of its attachments.
pub open spec fn prepared_logs(config: ClientConfig, request: ChatRequest, history_len: nat) -> Seq<Seq<char>> {
    seq!["Provider '"@ + config.default_provider@ + "' with model '"@ + config.default_model@ + "'"@]
        + prepared_middle_logs(config, request, history_len) + seq![
        "User: "@ + summary_spec(request.prompt@) + if request.attachments@.len() > 0 {
            " (with "@ + decimal(request.attachments@.len()) + " attachment(s))"@
        } else {
            Seq::<char>::empty()
        },
    ]
}

/// Prepare a chat turn without calling the model: the session is the
/// request's (a fresh id when it has none); the messages are those of
/// `request_messages` over the session's stored history; the logs name the
/// provider and model and describe what was assembled.
pub fn prepare_chat(config: &ClientConfig, sessions: &SessionStore, request: ChatRequest) -> (r: PreparedChatTurn)
    requires
        sessions.wf(),
    ensures
        request.session_id matches Some(s) ==> r.session_id == s,
        request.session_id is None ==> is_hyphenated_uuid(r.session_id@),
        r.provider == config.default_provider,
        r.model == config.default_model,
        r.model_request.provider == config.default_provider,
        r.model_request.model == config.default_model,
        r.model_request.session_id == Some(r.session_id),
        r.model_request.force_json == request.force_json,
        r.user_message@ == user_message_view(request),
        msgs_view(r.model_request.messages@) == request_messages(
            *config,
            request,
            match sessions.history(r.session_id@) {
                Some(h) => msgs_view(h),
                None => Seq::empty(),
            },
            user_message_view(request),
        ),
        texts_view(r.logs@) == prepared_logs(
            *config,
            request,
            match sessions.history(r.session_id@) {
                Some(h) => h.len(),
                None => 0,
            },
        ),
{
    let provider = config.default_provider.clone();
    let model = config.default_model.clone();
    let session_id = match &request.session_id {
        Some(s) => s.clone(),
        None => new_uuid(),
    };
    let mut logs: Vec<String> = Vec::new();
    let mut first = "Provider '".to_owned();
    first.append(provider.as_str());
    first.append("' with model '");
    first.append(model.as_str());
    first.append("'");
    logs.push(first);
    let ghost history_len: nat = match sessions.history(session_id@) {
        Some(h) => h.len(),
        None => 0,
    };
    let ghost head_logs = texts_view(logs@);
    proof {
        assert(head_logs =~= seq![
            "Provider '"@ + config.default_provider@ + "' with model '"@ + config.default_model@ + "'"@,
        ]);
    }
    let mut messages: Vec<ChatMessage> = Vec::new();
    let ghost history_view = match sessions.history(session_id@) {
        Some(h) => msgs_view(h),
        None => Seq::<ChatMessageView>::empty(),
    };
    if request.raw_mode {
        logs.push("Raw mode: sending request directly to model".to_owned());
        proof {
            assert(texts_view(logs@) =~= head_logs + prepared_middle_logs(*config, request, history_len));
        }
    } else {
        let history = match sessions.get(session_id.as_str()) {
            Some(h) => clone_messages(h),
            None => Vec::new(),
        };
        proof {
            assert(history@.len() == msgs_view(history@).len());
            assert(history@.len() == history_len);
        }
        let ghost before_history = texts_view(logs@);
        if history.len() > 0 {
            let mut line = "Previous conversation history: ".to_owned();
            push_decimal(&mut line, history.len() as u64);
            line.append(" messages");
            logs.push(line);
        }
        let ghost history_logs: Seq<Seq<char>> = if history_len > 0 {
            seq!["Previous conversation history: "@ + decimal(history_len) + " messages"@]
        } else {
            Seq::empty()
        };
        proof {
            assert(texts_view(logs@) =~= before_history + history_logs);
        }
        let ghost before_system = texts_view(logs@);
        let system_prompt = if request.bypass_template {
            match &request.system_prompt {
                Some(p) => p.clone(),
                None => String::new(),
            }
        } else {
            let chosen = match &request.system_prompt {
                Some(p) => Some(p.clone()),
                None => clone_opt(&config.default_system_prompt),
            };
            compose_system_prompt(config, chosen)
        };
        if system_prompt.as_str().unicode_len() > 0 {
            let mut line = "System prompt active: ".to_owned();
            let preview = summarise(system_prompt.as_str());
            line.append(preview.as_str());
            logs.push(line);
            messages.push(ChatMessage::new(MessageRole::System, system_prompt.as_str()));
        }
        proof {
            let system = request_system_prompt(*config, request);
            assert(system_prompt@ == system);
            assert(texts_view(logs@) =~= before_system + if system.len() > 0 {
                seq!["System prompt active: "@ + summary_spec(system)]
            } else {
                Seq::<Seq<char>>::empty()
            });
            assert(texts_view(logs@) =~= head_logs + prepared_middle_logs(*config, request, history_len));
        }
        let mut i: usize = 0;
        let ghost head = msgs_view(messages@);
        while i < history.len()
            invariant
                i <= history@.len(),
                msgs_view(messages@) == head + msgs_view(history@).take(i as int),
            decreases history@.len() - i,
        {
            let ghost before = messages@;
            messages.push(history[i].clone());
            proof {
                assert(msgs_view(messages@) =~= msgs_view(before).push(history@[i as int]@));
                assert(msgs_view(history@).take(i + 1) =~= msgs_view(history@).take(i as int).push(history@[i as int]@));
            }
            i = i + 1;
        }
        proof {
            assert(msgs_view(history@).take(i as int) =~= msgs_view(history@));
        }
    }
    let mut user_parts: Vec<MessagePart> = Vec::new();
    user_parts.push(MessagePart::text(request.prompt.as_str()));
    let mut attachments = clone_parts_vec(&request.attachments);
    let ghost text_part = user_parts@;
    user_parts.append(&mut attachments);
    let user_message = ChatMessage::with_parts(MessageRole::User, user_parts);
    proof {
        assert(parts_view(text_part + request.attachments@) =~= seq![PartView::Text { text: request.prompt@ }] + parts_view(request.attachments@));
    }
    let preview = summarise(request.prompt.as_str());
    let ghost before_user = messages@;
    messages.push(user_message.clone());
    proof {
        assert(msgs_view(messages@) =~= msgs_view(before_user).push(user_message@));
    }
    let mut line = "User: ".to_owned();
    line.append(preview.as_str());
    if request.attachments.len() > 0 {
        line.append(" (with ");
        push_decimal(&mut line, request.attachments.len() as u64);
        line.append(" attachment(s))");
    }
    let ghost before_user_log = texts_view(logs@);
    proof {
        assert(before_user_log =~= head_logs + prepared_middle_logs(*config, request, history_len));
        assert(line@ == "User: "@ + summary_spec(request.prompt@) + if request.attachments@.len() > 0 {
            " (with "@ + decimal(request.attachments@.len()) + " attachment(s))"@
        } else {
            Seq::<char>::empty()
        });
    }
    logs.push(line);
    proof {
        assert(texts_view(logs@) =~= before_user_log.push(line@));
        assert(texts_view(logs@) =~= prepared_logs(*config, request, history_len));
    }
    PreparedChatTurn {
        session_id: session_id.clone(),
        provider: provider.clone(),
        model: model.clone(),
        model_request: ModelRequest {
            provider,
            model,
            messages,
            session_id: Some(session_id),
            force_json: request.force_json,
        },
        user_message,
        logs,
    }
}

/// Record a chat turn once the model answered: the session is the model's
/// (else the prepared one), the user message and the answer are appended to
/// its history, and the result carries the answer text and the logs with a
/// preview of the answer.
pub fn complete_chat(sessions: &mut SessionStore, prepared: PreparedChatTurn, response: ModelResponse) -> (r: ChatResult)
    requires
        old(sessions).wf(),
    ensures
        final(sessions).wf(),
        r.session_id == match response.session_id {
            Some(s) => s,
            None => prepared.session_id,
        },
        r.content@ == response.message@.content(),
        r.provider == prepared.provider,
        r.model == prepared.model,
        r.logs@.drop_last() == prepared.logs@,
        r.logs@.last()@ == "Model: "@ + summary_spec(response.message@.content()),
        final(sessions).ids() == lru_touch(old(sessions).ids(), r.session_id@, old(sessions).capacity()),
        final(sessions).history(r.session_id@) matches Some(h) && msgs_view(h) == match old(sessions).history(r.session_id@) {
            Some(old_h) => msgs_view(old_h),
            None => Seq::empty(),
        } + seq![prepared.user_message@, response.message@],
        forall|k: Seq<char>|
            k != r.session_id@ && #[trigger] final(sessions).ids().contains(k) ==> final(sessions).history(k)
                == old(sessions).history(k),
{
    let final_session = match &response.session_id {
        Some(s) => s.clone(),
        None => prepared.session_id.clone(),
    };
    let content = response.message.content();
    let preview = summarise(content.as_str());
    let mut logs = prepared.logs;
    let ghost old_logs = logs@;
    let mut line = "Model: ".to_owned();
    line.append(preview.as_str());
    logs.push(line);
    proof {
        assert(logs@.drop_last() =~= old_logs);
    }
    let mut exchange: Vec<ChatMessage> = Vec::new();
    exchange.push(prepared.user_message);
    exchange.push(response.message);
    let ghost ex = exchange@;
    sessions.push_messages(final_session.as_str(), exchange);
    proof {
        let h_old = match old(sessions).history(final_session@) {
            Some(h) => h,
            None => Seq::<ChatMessage>::empty(),
        };
        assert(msgs_view(h_old + ex) =~= msgs_view(h_old) + seq![ex[0]@, ex[1]@]);
    }
    ChatResult { content, session_id: final_session, provider: prepared.provider, model: prepared.model, logs }
}

/// Prune the history of session `session_id` to fit `policy` (see
/// `prune_messages`); the number of messages removed, 0 when the session is
/// not held. A held session becomes the most recently used one.
pub fn prune_session(sessions: &mut SessionStore, session_id: &str, policy: &ContextWindowPolicy) -> (r: usize)
    requires
        old(sessions).wf(),
        old(sessions).history(session_id@) matches Some(h) ==> messages_tokens(msgs_view(h)) <= usize::MAX,
    ensures
        final(sessions).wf(),
        old(sessions).history(session_id@) is None ==> r == 0 && final(sessions).ids() == old(sessions).ids(),
        old(sessions).history(session_id@) matches Some(h) ==> {
            &&& final(sessions).history(session_id@) matches Some(nh) && msgs_view(nh) == prune_spec(msgs_view(h), *policy)
            &&& r == h.len() - prune_spec(msgs_view(h), *policy).len()
            &&& final(sessions).ids() == lru_touch(old(sessions).ids(), session_id@, old(sessions).capacity())
        },
        forall|k: Seq<char>|
            k != session_id@ && #[trigger] final(sessions).ids().contains(k) ==> final(sessions).history(k)
                == old(sessions).history(k),
{
    match sessions.get_mut(session_id) {
        Some(history) => {
            let before = history.len();
            let pruned = prune_messages(history.as_slice(), policy);
            proof {
                law_prune_never_grows(msgs_view(history@), *policy);
            }
            let after = pruned.len();
            *history = pruned;
            before - after
        },
        None => 0,
    }
}

} // verus!
