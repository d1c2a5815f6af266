//! Conversions between the stored configuration and the runtime one.
use vstd::prelude::*;

use crate::config::app;
use crate::config::app::clone_strings;
use crate::config::postcard_config as stored;
use crate::string_map::StringMap;
use crate::text::opt_view;

verus! {

/// A stored prompt text as the runtime sees it: empty means not configured.
pub open spec fn nonempty_text(s: Seq<char>) -> Option<Seq<char>> {
    if s.len() == 0 {
        None
    } else {
        Some(s)
    }
}

/// A runtime prompt text as it is stored: not configured is stored empty.
pub open spec fn stored_text(o: Option<Seq<char>>) -> Seq<char> {
    match o {
        Some(s) => s,
        None => Seq::<char>::empty(),
    }
}

/// `s` when it is not empty.
pub fn opt_nonempty(s: &str) -> (r: Option<String>)
    ensures
        opt_view(r) == nonempty_text(s@),
{
    if s.unicode_len() == 0 {
        None
    } else {
        Some(s.to_owned())
    }
}

fn text_or_empty(o: &Option<String>) -> (r: String)
    ensures
        r@ == stored_text(opt_view(*o)),
{
    match o {
        Some(s) => s.clone(),
        None => String::new(),
    }
}

/// Whether two documentation lists hold the same entries.
pub open spec fn same_docs(a: Seq<app::DocServerConfig>, b: Seq<stored::DocServerConfig>) -> bool {
    &&& a.len() == b.len()
    &&& forall|i: int| 0 <= i < a.len() ==> (#[trigger] a[i]).url == b[i].url && a[i].description == b[i].description
}

fn docs_to_app(v: &Vec<stored::DocServerConfig>) -> (r: Vec<app::DocServerConfig>)
    ensures
        same_docs(r@, v@),
{
    let mut r: Vec<app::DocServerConfig> = Vec::new();
    let mut i: usize = 0;
    while i < v.len()
        invariant
            i <= v@.len(),
            r@.len() == i,
            forall|j: int| 0 <= j < i ==> (#[trigger] r@[j]).url == v@[j].url && r@[j].description == v@[j].description,
        decreases v@.len() - i,
    {
        r.push(app::DocServerConfig { url: v[i].url.clone(), description: v[i].description.clone() });
        i = i + 1;
    }
    r
}

fn docs_to_stored(v: &Vec<app::DocServerConfig>) -> (r: Vec<stored::DocServerConfig>)
    ensures
        same_docs(v@, r@),
{
    let mut r: Vec<stored::DocServerConfig> = Vec::new();
    let mut i: usize = 0;
    while i < v.len()
        invariant
            i <= v@.len(),
            r@.len() == i,
            forall|j: int| 0 <= j < i ==> v@[j].url == (#[trigger] r@[j]).url && v@[j].description == r@[j].description,
        decreases v@.len() - i,
    {
        r.push(stored::DocServerConfig { url: v[i].url.clone(), description: v[i].description.clone() });
        i = i + 1;
    }
    r
}

/// The runtime configuration described by a stored one: routing, REST settings
/// and prompt texts carry over (empty texts become unset, an empty list of
/// fallback names becomes unset); there is no system prompt, tool or server.
pub fn convert_to_app_config(pc: &stored::AppConfig) -> (r: app::AppConfig)
    ensures
        r.default_provider == pc.model.default_provider,
        r.model == pc.model.model,
        r.system_prompt is None,
        r.tools@.len() == 0,
        r.servers@.len() == 0,
        r.rest_server.bind == pc.server.bind,
        r.rest_server.cors_origins@ == pc.server.cors_origins@,
        same_docs(r.rest_server.docs@, pc.server.docs@),
        opt_view(r.prompts.template) == nonempty_text(pc.prompts.template@),
        opt_view(r.prompts.tool_guidance) == nonempty_text(pc.prompts.tool_guidance@),
        opt_view(r.prompts.fallback_guidance) == nonempty_text(pc.prompts.fallback_guidance@),
        opt_view(r.prompts.json_retry_message) == nonempty_text(pc.prompts.json_retry_message@),
        opt_view(r.prompts.tool_result_instruction) == nonempty_text(pc.prompts.tool_result_instruction@),
        opt_view(r.prompts.agent_instructions) == nonempty_text(pc.prompts.agent_instructions@),
        opt_view(r.prompts.ui_instructions) == nonempty_text(pc.prompts.ui_instructions@),
        opt_view(r.prompts.language_instructions) == nonempty_text(pc.prompts.language_instructions@),
        opt_view(r.prompts.agent_max_steps_error) == nonempty_text(pc.prompts.agent_max_steps_error@),
        opt_view(r.prompts.no_tools_guidance) == nonempty_text(pc.prompts.no_tools_guidance@),
        r.prompts.fallback_response_keys is None <==> pc.prompts.fallback_response_keys@.len() == 0,
        r.prompts.fallback_response_keys matches Some(k) ==> k@ == pc.prompts.fallback_response_keys@,
{
    app::AppConfig {
        default_provider: pc.model.default_provider.clone(),
        model: pc.model.model.clone(),
        system_prompt: None,
        tools: Vec::new(),
        servers: Vec::new(),
        rest_server: app::RestServerConfig {
            bind: pc.server.bind.clone(),
            cors_origins: clone_strings(&pc.server.cors_origins),
            docs: docs_to_app(&pc.server.docs),
        },
        prompts: app::PromptsConfig {
            template: opt_nonempty(pc.prompts.template.as_str()),
            tool_guidance: opt_nonempty(pc.prompts.tool_guidance.as_str()),
            fallback_guidance: opt_nonempty(pc.prompts.fallback_guidance.as_str()),
            json_retry_message: opt_nonempty(pc.prompts.json_retry_message.as_str()),
            tool_result_instruction: opt_nonempty(pc.prompts.tool_result_instruction.as_str()),
            agent_instructions: opt_nonempty(pc.prompts.agent_instructions.as_str()),
            ui_instructions: opt_nonempty(pc.prompts.ui_instructions.as_str()),
            language_instructions: opt_nonempty(pc.prompts.language_instructions.as_str()),
            agent_max_steps_error: opt_nonempty(pc.prompts.agent_max_steps_error.as_str()),
            no_tools_guidance: opt_nonempty(pc.prompts.no_tools_guidance.as_str()),
            fallback_response_keys: if pc.prompts.fallback_response_keys.len() == 0 {
                None
            } else {
                Some(clone_strings(&pc.prompts.fallback_response_keys))
            },
        },
    }
}

/// The stored form of a runtime configuration: REST settings, routing and
/// prompt texts (unset texts stored empty); no provider, default agent
/// settings, no custom pair.
pub fn convert_to_postcard_config(config: &app::AppConfig) -> (r: stored::AppConfig)
    ensures
        r.server.bind == config.rest_server.bind,
        r.server.cors_origins@ == config.rest_server.cors_origins@,
        same_docs(config.rest_server.docs@, r.server.docs@),
        r.providers@.len() == 0,
        r.model.default_provider == config.default_provider,
        r.model.model == config.model,
        r.prompts.template@ == stored_text(opt_view(config.prompts.template)),
        r.prompts.tool_guidance@ == stored_text(opt_view(config.prompts.tool_guidance)),
        r.prompts.fallback_guidance@ == stored_text(opt_view(config.prompts.fallback_guidance)),
        r.prompts.json_retry_message@ == stored_text(opt_view(config.prompts.json_retry_message)),
        r.prompts.tool_result_instruction@ == stored_text(opt_view(config.prompts.tool_result_instruction)),
        r.prompts.agent_instructions@ == stored_text(opt_view(config.prompts.agent_instructions)),
        r.prompts.ui_instructions@ == stored_text(opt_view(config.prompts.ui_instructions)),
        r.prompts.language_instructions@ == stored_text(opt_view(config.prompts.language_instructions)),
        r.prompts.agent_max_steps_error@ == stored_text(opt_view(config.prompts.agent_max_steps_error)),
        r.prompts.no_tools_guidance@ == stored_text(opt_view(config.prompts.no_tools_guidance)),
        r.prompts.fallback_response_keys@ == match config.prompts.fallback_response_keys {
            Some(k) => k@,
            None => Seq::<String>::empty(),
        },
        r.agent.max_steps == 10,
        !r.agent.verbose,
        r.agent.auto_execute_tools,
        r.agent.session_timeout_secs == 300,
        r.custom.wf(),
        r.custom.len_spec() == 0,
{
    stored::AppConfig {
        server: stored::ServerConfig {
            bind: config.rest_server.bind.clone(),
            cors_origins: clone_strings(&config.rest_server.cors_origins),
            docs: docs_to_stored(&config.rest_server.docs),
        },
        providers: Vec::new(),
        model: stored::ModelConfig {
            default_provider: config.default_provider.clone(),
            model: config.model.clone(),
        },
        prompts: stored::PromptsConfig {
            template: text_or_empty(&config.prompts.template),
            tool_guidance: text_or_empty(&config.prompts.tool_guidance),
            fallback_guidance: text_or_empty(&config.prompts.fallback_guidance),
            json_retry_message: text_or_empty(&config.prompts.json_retry_message),
            tool_result_instruction: text_or_empty(&config.prompts.tool_result_instruction),
            agent_instructions: text_or_empty(&config.prompts.agent_instructions),
            ui_instructions: text_or_empty(&config.prompts.ui_instructions),
            language_instructions: text_or_empty(&config.prompts.language_instructions),
            agent_max_steps_error: text_or_empty(&config.prompts.agent_max_steps_error),
            no_tools_guidance: text_or_empty(&config.prompts.no_tools_guidance),
            fallback_response_keys: match &config.prompts.fallback_response_keys {
                Some(k) => clone_strings(k),
                None => Vec::new(),
            },
        },
        agent: stored::AgentConfig::default(),
        custom: StringMap::new(),
    }
}

/// A stored prompt text survives the trip to the runtime form and back.
pub proof fn law_stored_text_roundtrip(s: Seq<char>)
    ensures
        stored_text(nonempty_text(s)) == s,
{
}

/// A runtime prompt text that is unset or not empty survives the trip to the
/// stored form and back.
pub proof fn law_runtime_text_roundtrip(o: Option<Seq<char>>)
    requires
        o matches Some(s) ==> s.len() > 0,
    ensures
        nonempty_text(stored_text(o)) == o,
{
}

} // verus!
