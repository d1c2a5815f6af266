use antikythera_core::client::{
    compose_system_prompt, complete_chat, config_snapshot, prepare_chat, prune_session, ChatRequest,
    ClientConfig, ModelResponse,
};
use antikythera_core::compose::{replace_all, summarise, tidy_lines, trim};
use antikythera_core::config::app::PromptsConfig;
use antikythera_core::config::tool::ToolConfig;
use antikythera_core::context_window::ContextWindowPolicy;
use antikythera_core::domain::{ChatMessage, MessagePart, MessageRole};
use antikythera_core::session_store::SessionStore;

#[test]
fn trim_and_replace_follow_std() {
    for s in ["  a b \n", "", " \t", "x", "\u{3000}y\u{2003}"] {
        assert_eq!(trim(s), s.trim());
    }
    for (s, p, w) in [("aaa", "aa", "b"), ("{{x}} and {{x}}", "{{x}}", "y"), ("none", "zz", "q"), ("ab", "ab", "")] {
        assert_eq!(replace_all(s, p, w), s.replace(p, w));
    }
}

#[test]
fn tidy_lines_trims_and_collapses_blank_runs() {
    assert_eq!(tidy_lines("  a  \n\n\n  b\n\n"), "a\n\nb");
    assert_eq!(tidy_lines("\n\n"), "");
    assert_eq!(tidy_lines("x"), "x");
}

#[test]
fn summarise_previews_text() {
    assert_eq!(summarise("   "), "(empty)");
    assert_eq!(summarise("  hello \n  world "), "hello world");
    let long = "a".repeat(200);
    let preview = summarise(&long);
    assert_eq!(preview.chars().count(), 161);
    assert!(preview.ends_with('\u{2026}'));
    assert_eq!(summarise(&"b".repeat(160)), "b".repeat(160));
}

#[test]
fn client_config_builders_and_snapshot() {
    let config = ClientConfig::new("gemini", "gemini-2.0-flash")
        .with_system_prompt("Be brief.")
        .with_tools(vec![ToolConfig { name: "search".to_string(), description: None, server: None }]);
    assert_eq!(config.default_provider, "gemini");
    assert_eq!(config.default_system_prompt.as_deref(), Some("Be brief."));
    assert_eq!(config.prompt_template(), PromptsConfig::default_template());
    let app = config.to_app_config();
    assert_eq!(app.model, "gemini-2.0-flash");
    assert_eq!(app.tools.len(), 1);
    assert_eq!(app.rest_server.bind, "127.0.0.1:8080");
    let snapshot = config_snapshot(&config);
    assert_eq!(snapshot.prompt_template, PromptsConfig::default_template());
    assert!(snapshot.raw.starts_with("system_prompt = \"Be brief.\"\n\nprompt_template = \"\"\"\n"));
}

#[test]
fn compose_system_prompt_fills_template() {
    let mut prompts = PromptsConfig::default();
    prompts.template = Some("Intro\n\n{{custom_instruction}}\n\n{{language_guidance}}\n\n{{tool_guidance}}".to_string());
    prompts.tool_guidance = Some("Tools:".to_string());
    prompts.fallback_guidance = Some("Otherwise apologise.".to_string());
    let config = ClientConfig::new("p", "m").with_prompts(prompts).with_tools(vec![
        ToolConfig { name: "search".to_string(), description: Some("Find things".to_string()), server: None },
        ToolConfig { name: "time".to_string(), description: None, server: None },
    ]);
    let prompt = compose_system_prompt(&config, Some("  Be kind.  ".to_string()));
    assert_eq!(
        prompt,
        "Intro\n\nBe kind.\n\nTools:\n- search: Find things\n- time: No description available.\nOtherwise apologise."
    );
}

#[test]
fn compose_system_prompt_without_tools_uses_fallback() {
    let config = ClientConfig::new("p", "m");
    let prompt = compose_system_prompt(&config, None);
    assert_eq!(
        prompt,
        "You are a helpful AI assistant.\n\nIf the request is outside the scope of available tools, apologize politely and explain your limitations."
    );
}

#[test]
fn prepare_and_complete_chat_preserve_session_history() {
    let config = ClientConfig::new("local", "model-x");
    let mut sessions = SessionStore::new(8);
    let request = ChatRequest {
        prompt: "hello".to_string(),
        session_id: Some("s1".to_string()),
        ..ChatRequest::default()
    };
    let prepared = prepare_chat(&config, &sessions, request);
    assert_eq!(prepared.session_id, "s1");
    assert_eq!(prepared.logs[0], "Provider 'local' with model 'model-x'");
    assert_eq!(prepared.logs.last().unwrap(), "User: hello");
    assert_eq!(prepared.model_request.messages.len(), 2);
    assert_eq!(prepared.model_request.messages[0].role, MessageRole::System);
    let response = ModelResponse { message: ChatMessage::new(MessageRole::Assistant, "hi there"), session_id: None };
    let result = complete_chat(&mut sessions, prepared, response);
    assert_eq!(result.content, "hi there");
    assert_eq!(result.session_id, "s1");
    assert_eq!(result.logs.last().unwrap(), "Model: hi there");
    assert_eq!(sessions.get("s1").map(|h| h.len()), Some(2));

    let second = prepare_chat(
        &config,
        &sessions,
        ChatRequest { prompt: "again".to_string(), session_id: Some("s1".to_string()), ..ChatRequest::default() },
    );
    assert_eq!(second.model_request.messages.len(), 4);
    assert!(second.logs.iter().any(|l| l == "Previous conversation history: 2 messages"));
}

#[test]
fn complete_chat_from_host_accepts_plain_text_and_preserves_attachments() {
    let config = ClientConfig::new("host", "m");
    let mut sessions = SessionStore::new(2);
    let request = ChatRequest {
        prompt: "see file".to_string(),
        attachments: vec![MessagePart::file("a.txt", "text/plain", "ZGF0YQ==")],
        raw_mode: true,
        ..ChatRequest::default()
    };
    let prepared = prepare_chat(&config, &sessions, request);
    assert_eq!(prepared.model_request.messages.len(), 1);
    assert_eq!(prepared.user_message.parts.len(), 2);
    assert!(prepared.user_message.has_attachments());
    assert_eq!(prepared.logs.last().unwrap(), "User: see file (with 1 attachment(s))");
    let session = prepared.session_id.clone();
    let response = ModelResponse { message: ChatMessage::new(MessageRole::Assistant, "ok"), session_id: None };
    let result = complete_chat(&mut sessions, prepared, response);
    assert_eq!(result.session_id, session);
    let history = sessions.get(&session).expect("history stored");
    assert!(history[0].has_attachments());
}

#[test]
fn prune_session_reports_removed_messages() {
    let mut sessions = SessionStore::new(4);
    let long: Vec<ChatMessage> = (0..6).map(|i| ChatMessage::new(MessageRole::User, &"x".repeat(100 + i))).collect();
    sessions.push_messages("s", long);
    let policy = ContextWindowPolicy { max_tokens: 60, reserve_for_response: 0, min_history_messages: 1 };
    let removed = prune_session(&mut sessions, "s", &policy);
    assert!(removed > 0);
    assert_eq!(sessions.get("s").unwrap().len(), 6 - removed);
    assert_eq!(prune_session(&mut sessions, "missing", &policy), 0);
}

#[test]
fn prepared_logs_follow_the_request() {
    let config = ClientConfig::new("local", "model-x");
    let sessions = SessionStore::new(4);
    let raw = prepare_chat(
        &config,
        &sessions,
        ChatRequest { prompt: "ping".to_string(), raw_mode: true, ..ChatRequest::default() },
    );
    assert_eq!(
        raw.logs,
        vec![
            "Provider 'local' with model 'model-x'".to_string(),
            "Raw mode: sending request directly to model".to_string(),
            "User: ping".to_string(),
        ]
    );
    let bypass = prepare_chat(
        &config,
        &sessions,
        ChatRequest {
            prompt: "ping".to_string(),
            system_prompt: Some("Be brief.".to_string()),
            bypass_template: true,
            ..ChatRequest::default()
        },
    );
    assert_eq!(
        bypass.logs,
        vec![
            "Provider 'local' with model 'model-x'".to_string(),
            "System prompt active: Be brief.".to_string(),
            "User: ping".to_string(),
        ]
    );
}
