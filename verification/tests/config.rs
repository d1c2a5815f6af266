use antikythera_core::config::app::{AppConfig, DocServerConfig, PromptsConfig};
use antikythera_core::config::cache::{accept_cache, CacheMismatch, ConfigCache, SCHEMA_VERSION};
use antikythera_core::config::loader::{convert_to_app_config, convert_to_postcard_config, opt_nonempty};
use antikythera_core::config::migration::migration_status_from;
use antikythera_core::config::postcard_config;
use antikythera_core::config::provider::{
    ModelInfo, ModelProviderConfig, ParseableConfig, RawModelInfo, RawProviderConfig,
};
use antikythera_core::config::serializer::to_raw_toml_string;
use antikythera_core::config::server::{RawServer, ServerConfig, TransportType};
use antikythera_core::config::tool::ToolConfig;
use antikythera_core::config::wasm_config::{AgentConfig, PromptConfig, WasmAgentConfig};
use antikythera_core::config::wizard::{generate_display_name, get_default_endpoint, to_title_case};
use antikythera_core::string_map::StringMap;

#[test]
fn prompts_fall_back_to_defaults() {
    let prompts = PromptsConfig::default();
    assert_eq!(prompts.template(), PromptsConfig::default_template());
    assert_eq!(prompts.no_tools_guidance(), "No additional tools are currently configured.");
    assert_eq!(
        prompts.agent_max_steps_error(),
        "agent exceeded the maximum number of tool interactions"
    );
    assert_eq!(prompts.fallback_response_keys(), vec!["response", "content", "message"]);
}

#[test]
fn configured_prompts_win_over_defaults() {
    let mut prompts = PromptsConfig::default();
    prompts.template = Some("custom {{tool_guidance}}".to_string());
    prompts.fallback_response_keys = Some(vec!["answer".to_string()]);
    assert_eq!(prompts.template(), "custom {{tool_guidance}}");
    assert_eq!(prompts.fallback_response_keys(), vec!["answer"]);
    prompts.fallback_response_keys = Some(vec![]);
    assert_eq!(prompts.fallback_response_keys(), vec!["response", "content", "message"]);
}

#[test]
fn app_config_default_values() {
    let config = AppConfig::default();
    assert_eq!(config.default_provider, "local");
    assert_eq!(config.model, "default");
    assert_eq!(config.rest_server.bind, "127.0.0.1:8080");
    assert!(config.prompt_template().starts_with("You are a helpful AI assistant."));
}

#[test]
fn raw_toml_renders_prompt_and_tools() {
    let mut config = AppConfig::default();
    config.system_prompt = Some("Say \"hi\"".to_string());
    config.prompts.template = Some("line".to_string());
    config.tools = vec![
        ToolConfig { name: "search".to_string(), description: Some("Find \"it\"".to_string()), server: None },
        ToolConfig { name: "time".to_string(), description: None, server: None },
    ];
    let expected = "system_prompt = \"Say \\\"hi\\\"\"\n\nprompt_template = \"\"\"\nline\n\"\"\"\ntools = [\n    { name = \"search\", description = \"Find \\\"it\\\"\" },\n    \"time\",\n]\n";
    assert_eq!(to_raw_toml_string(&config), expected);
    assert_eq!(config.to_raw_toml(), expected);
}

#[test]
fn raw_toml_keeps_trailing_newline_once() {
    let mut config = AppConfig::default();
    config.prompts.template = Some("ends\n".to_string());
    assert_eq!(config.to_raw_toml(), "prompt_template = \"\"\"\nends\n\"\"\"\n");
}

#[test]
fn opt_nonempty_drops_empty_text() {
    assert_eq!(opt_nonempty(""), None);
    assert_eq!(opt_nonempty(" "), Some(" ".to_string()));
}

#[test]
fn stored_config_converts_to_runtime_and_back() {
    let mut stored = postcard_config::AppConfig::default();
    stored.prompts.tool_guidance = String::new();
    stored.server.docs.push(postcard_config::DocServerConfig {
        url: "http://docs".to_string(),
        description: "Docs".to_string(),
    });
    let runtime = convert_to_app_config(&stored);
    assert_eq!(runtime.default_provider, "ollama");
    assert_eq!(runtime.model, "llama3");
    assert_eq!(runtime.prompts.tool_guidance, None);
    assert_eq!(runtime.prompts.template.as_deref(), Some(PromptsConfig::default_template()));
    assert_eq!(runtime.prompts.fallback_response_keys, None);
    assert_eq!(runtime.rest_server.docs.len(), 1);
    assert_eq!(runtime.rest_server.docs[0].url, "http://docs");

    let back = convert_to_postcard_config(&runtime);
    assert_eq!(back.prompts.template, stored.prompts.template);
    assert_eq!(back.prompts.tool_guidance, "");
    assert_eq!(back.prompts.no_tools_guidance, stored.prompts.no_tools_guidance);
    assert_eq!(back.server.bind, stored.server.bind);
    assert_eq!(back.model.model, "llama3");
    assert!(back.providers.is_empty());
    assert_eq!(back.agent.max_steps, 10);
}

#[test]
fn runtime_config_keeps_docs_in_stored_form() {
    let mut runtime = AppConfig::default();
    runtime.rest_server.docs.push(DocServerConfig { url: "u".to_string(), description: "d".to_string() });
    runtime.rest_server.cors_origins.push("http://a".to_string());
    let stored = convert_to_postcard_config(&runtime);
    assert_eq!(stored.server.docs.len(), 1);
    assert_eq!(stored.server.docs[0].description, "d");
    assert_eq!(stored.server.cors_origins, vec!["http://a".to_string()]);
    assert_eq!(stored.prompts.template, "");
}

fn raw_server(url: Option<&str>, command: Option<&str>) -> RawServer {
    RawServer {
        name: "srv".to_string(),
        command: command.map(str::to_string),
        args: vec!["--flag".to_string()],
        env: StringMap::new(),
        workdir: None,
        url: url.map(str::to_string),
        headers: StringMap::new(),
        default_timezone: None,
        default_city: Some("Jakarta".to_string()),
    }
}

#[test]
fn raw_server_picks_transport() {
    let http = ServerConfig::from_raw(raw_server(Some("https://mcp.example.com"), Some("python")));
    assert_eq!(http.transport, TransportType::Http);
    assert!(http.is_http());
    assert_eq!(http.url(), Some("https://mcp.example.com"));
    assert!(http.command().is_none());

    let stdio = ServerConfig::from_raw(raw_server(None, Some("python")));
    assert!(stdio.is_stdio());
    assert_eq!(stdio.command().map(String::as_str), Some("python"));
    assert_eq!(stdio.args, vec!["--flag".to_string()]);
    assert_eq!(stdio.default_city.as_deref(), Some("Jakarta"));

    let builtin = ServerConfig::from_raw(raw_server(None, None));
    assert!(builtin.is_builtin());
}

fn provider(kind: &str) -> ModelProviderConfig {
    ModelProviderConfig {
        id: "p".to_string(),
        provider_type: kind.to_string(),
        endpoint: "http://localhost".to_string(),
        api_key: None,
        api_path: None,
        models: vec![],
    }
}

#[test]
fn provider_type_checks_ignore_case() {
    assert!(provider("ollama").is_ollama());
    assert!(!provider("ollama").is_gemini());
    assert!(provider("GEMINI").is_gemini());
    assert!(!provider("GEMINI").is_ollama());
}

#[test]
fn ensure_model_adds_once() {
    let mut p = provider("openai");
    p.ensure_model("gpt-4o");
    p.ensure_model("gpt-4o");
    assert_eq!(p.models.len(), 1);
    assert_eq!(p.models[0], ModelInfo { name: "gpt-4o".to_string(), display_name: None });
}

#[test]
fn raw_provider_conversion_fills_endpoint_and_models() {
    let raw = RawProviderConfig {
        id: "g".to_string(),
        provider_type: "gemini".to_string(),
        endpoint: None,
        api_key: Some("${KEY}".to_string()),
        api_path: None,
        models: vec![
            RawModelInfo::Name("a".to_string()),
            RawModelInfo::Detailed { name: "b".to_string(), display_name: Some("B".to_string()) },
        ],
    };
    let p = ModelProviderConfig::from_raw(raw);
    assert_eq!(p.endpoint, "");
    assert_eq!(p.models.len(), 2);
    assert_eq!(p.models[0].display_name, None);
    assert_eq!(p.models[1].display_name.as_deref(), Some("B"));
}

#[test]
fn wizard_names() {
    assert_eq!(generate_display_name("gpt-4-turbo"), "Gpt 4 Turbo");
    assert_eq!(generate_display_name("a--b"), "A  B");
    assert_eq!(generate_display_name(""), "");
    assert_eq!(to_title_case("gemini"), "Gemini");
    assert_eq!(to_title_case(""), "");
    assert_eq!(get_default_endpoint("Gemini"), "https://generativelanguage.googleapis.com");
    assert_eq!(get_default_endpoint("OLLAMA"), "http://127.0.0.1:11434");
    assert_eq!(get_default_endpoint("openai"), "https://api.openai.com");
    assert_eq!(get_default_endpoint("other"), "https://api.example.com");
}

#[test]
fn wasm_config_defaults() {
    let agent = AgentConfig::default_at(-42);
    assert_eq!(agent.session_id, "session--42");
    assert_eq!(AgentConfig::default_at(1700000000000).session_id, "session-1700000000000");
    let config = WasmAgentConfig::default();
    assert_eq!(config.agent.max_steps, 10);
    assert!(config.agent.session_id.starts_with("session-"));
    assert_eq!(config.prompts.template, PromptConfig::default_template());
    assert_eq!(PromptConfig::default().no_tools_guidance, "No tools available.");
}

#[test]
fn config_cache_validity_and_age() {
    let cache = ConfigCache::new_at(7u32, "config/app.toml", 100);
    assert!(cache.is_valid());
    assert_eq!(cache.age_at(160), 60);
    assert_eq!(cache.age_at(50), 0);
    assert_eq!(cache.source_path, "config/app.toml");
    let stale = ConfigCache { schema_version: 0, ..ConfigCache::new(1u8, "x") };
    assert!(!stale.is_valid());
}

#[test]
fn migration_status_texts() {
    assert_eq!(migration_status_from(true, false), "Migration needed: Postcard config not yet created");
    assert_eq!(migration_status_from(false, true), "Postcard config is up to date");
    assert_eq!(
        migration_status_from(false, false),
        "No configuration found. Run 'init' to create default config."
    );
}

#[test]
fn string_map_lists_entries_in_insertion_order() {
    let mut map = antikythera_core::string_map::StringMap::new();
    map.insert("b", "1");
    map.insert("a", "2");
    map.insert("b", "3");
    assert_eq!(map.entries(), vec![("b".to_string(), "3".to_string()), ("a".to_string(), "2".to_string())]);
}

#[test]
fn cache_entries_are_checked_before_use() {
    let entry = ConfigCache::new_at(42u32, "/test/config.toml", 100);
    assert_eq!(accept_cache(entry, "/test/config.toml"), Ok(42));
    let entry = ConfigCache::new_at(42u32, "/test/config.toml", 100);
    assert_eq!(
        accept_cache(entry, "/other.toml"),
        Err(CacheMismatch::Source { cached: "/test/config.toml".to_string(), actual: "/other.toml".to_string() })
    );
    let mut entry = ConfigCache::new_at(42u32, "/test/config.toml", 100);
    entry.schema_version = SCHEMA_VERSION + 1;
    assert_eq!(
        accept_cache(entry, "/other.toml"),
        Err(CacheMismatch::Schema { cached: SCHEMA_VERSION + 1, expected: SCHEMA_VERSION })
    );
}

#[test]
fn raw_server_expands_home_directory() {
    let mut raw = raw_server(None, Some("python"));
    raw.workdir = Some("~".to_string());
    raw.args = vec!["plain".to_string(), "~/script.py".to_string()];
    let server = ServerConfig::from_raw(raw);
    let workdir = server.workdir.clone().expect("workdir kept");
    assert_ne!(workdir, "~");
    assert_eq!(server.args[0], "plain");
    assert!(server.args[1].ends_with("/script.py"));
    assert_ne!(server.args[1], "~/script.py");
}
