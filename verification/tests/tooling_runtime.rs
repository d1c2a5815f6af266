use antikythera_core::config::server::{ServerConfig, TransportType};
use antikythera_core::config::tool::ToolConfig;
use antikythera_core::string_map::StringMap;
use antikythera_core::tooling::runtime::{
    catalogue_execution, catalogue_message, extract_tool_message, is_catalogue_request, instance_plan, interpret_tool_result, probes_sse,
    resolve_tool, settle_mode, tool_arguments, tool_call_params, tool_error_from_invoke,
    tools_from_list, InstancePlan, ModeOutcome, ToolError, ToolInvokeError,
};
use antikythera_core::tooling::transport::TransportMode;
use serde_json::Value;

fn object(pairs: &[(&str, Value)]) -> Value {
    let mut map = serde_json::Map::new();
    for (k, v) in pairs {
        map.insert(k.to_string(), v.clone());
    }
    Value::Object(map)
}

fn tool(name: &str, server: Option<&str>) -> ToolConfig {
    ToolConfig { name: name.to_string(), description: None, server: server.map(|s| s.to_string()) }
}

fn server(name: &str, transport: TransportType, url: Option<&str>) -> ServerConfig {
    ServerConfig {
        name: name.to_string(),
        transport,
        command: Some("run".to_string()),
        args: vec!["--flag".to_string()],
        env: StringMap::new(),
        workdir: None,
        url: url.map(|u| u.to_string()),
        headers: StringMap::new(),
        default_timezone: None,
        default_city: None,
    }
}

#[test]
fn resolve_tool_matches_without_case_and_last_wins() {
    let tools = vec![tool("Weather", Some("first")), tool("weather", Some("second")), tool("echo", None)];
    assert_eq!(resolve_tool(&tools, "WEATHER"), Ok(("weather".to_string(), "second".to_string())));
    assert_eq!(resolve_tool(&tools, "Echo"), Err(ToolError::UnboundTool("echo".to_string())));
    assert_eq!(resolve_tool(&tools, "missing"), Err(ToolError::UnknownTool("missing".to_string())));
    assert_eq!(resolve_tool(&[], "x"), Err(ToolError::UnknownTool("x".to_string())));
}

#[test]
fn tool_arguments_replace_null_with_empty_object() {
    assert_eq!(tool_arguments(&Value::Null), object(&[]));
    let args = object(&[("city", Value::from("Jakarta"))]);
    assert_eq!(tool_arguments(&args), args);
}

#[test]
fn tool_call_params_carry_name_and_arguments() {
    let params = tool_call_params("weather.get", &Value::Null);
    assert_eq!(params, object(&[("name", Value::from("weather.get")), ("arguments", object(&[]))]));
    let args = object(&[("q", Value::from(1))]);
    let params = tool_call_params("search", &args);
    assert_eq!(params["name"], Value::from("search"));
    assert_eq!(params["arguments"], args);
}

#[test]
fn tool_message_prefers_first_text_block() {
    let result = object(&[(
        "content",
        Value::Array(vec![
            object(&[("type", Value::from("image")), ("text", Value::from("not this"))]),
            object(&[("type", Value::from("TEXT")), ("text", Value::from("   "))]),
            object(&[("type", Value::from("text")), ("text", Value::from("  hello  "))]),
        ]),
    )]);
    assert_eq!(extract_tool_message(&result), Some("hello".to_string()));
}

#[test]
fn tool_message_falls_back_to_structured_error() {
    let result = object(&[(
        "structuredContent",
        object(&[("error", object(&[("message", Value::from(" boom "))]))]),
    )]);
    assert_eq!(extract_tool_message(&result), Some("boom".to_string()));
    let blank = object(&[(
        "structuredContent",
        object(&[("error", object(&[("message", Value::from("  "))]))]),
    )]);
    assert_eq!(extract_tool_message(&blank), None);
    assert_eq!(extract_tool_message(&Value::Null), None);
}

#[test]
fn interpret_tool_result_reads_error_flag() {
    let answer = object(&[
        ("isError", Value::Bool(true)),
        ("content", Value::Array(vec![object(&[("type", Value::from("text")), ("text", Value::from("bad"))])])),
    ]);
    let exec = interpret_tool_result("t".to_string(), Value::Null, answer.clone());
    assert!(!exec.success);
    assert_eq!(exec.tool, "t");
    assert_eq!(exec.output, answer);
    assert_eq!(exec.message, Some("bad".to_string()));

    let ok = interpret_tool_result("t".to_string(), Value::from(1), object(&[("isError", Value::from("yes"))]));
    assert!(ok.success);
    assert_eq!(ok.input, Value::from(1));
    assert_eq!(ok.message, None);
}

#[test]
fn invoke_errors_map_to_tool_errors() {
    let unbound = tool_error_from_invoke("t".to_string(), ToolInvokeError::NotConfigured { server: "s".to_string() });
    assert_eq!(unbound, ToolError::UnboundTool("t".to_string()));
    let failure = ToolInvokeError::Transport { server: "s".to_string(), message: "down".to_string() };
    let exec = tool_error_from_invoke("t".to_string(), failure.clone());
    assert_eq!(exec, ToolError::Execution { tool: "t".to_string(), source: failure });
}

#[test]
fn catalogue_message_counts_tools() {
    assert_eq!(catalogue_message(0), "Configured tools available: 0 item(s).");
    assert_eq!(catalogue_message(12), "Configured tools available: 12 item(s).");
}

#[test]
fn tools_from_list_keeps_named_entries_in_order() {
    let schema = object(&[("type", Value::from("object"))]);
    let answer = object(&[(
        "tools",
        Value::Array(vec![
            object(&[("name", Value::from("a")), ("description", Value::from("first")), ("inputSchema", schema.clone())]),
            object(&[("description", Value::from("no name"))]),
            object(&[("name", Value::from("b")), ("description", Value::from(3))]),
        ]),
    )]);
    let tools = tools_from_list(&answer).expect("tools array");
    assert_eq!(tools.len(), 2);
    assert_eq!(tools[0].name, "a");
    assert_eq!(tools[0].description, Some("first".to_string()));
    assert_eq!(tools[0].input_schema, Some(schema));
    assert_eq!(tools[1].name, "b");
    assert_eq!(tools[1].description, None);
    assert_eq!(tools[1].input_schema, None);
    assert!(tools_from_list(&object(&[("tools", Value::from(1))])).is_none());
    assert!(tools_from_list(&Value::Null).is_none());
}

#[test]
fn instance_plan_for_each_transport() {
    let servers = vec![
        server("local", TransportType::Stdio, None),
        server("remote", TransportType::Http, Some("http://localhost:9000")),
        server("broken", TransportType::Http, None),
        server("inside", TransportType::Builtin, None),
    ];
    match instance_plan(&servers, "local") {
        Ok(InstancePlan::Stdio(c)) => {
            assert_eq!(c.name, "local");
            assert_eq!(c.command, Some("run".to_string()));
            assert_eq!(c.args, vec!["--flag".to_string()]);
        }
        other => panic!("unexpected plan {:?}", other),
    }
    match instance_plan(&servers, "remote") {
        Ok(InstancePlan::Http(h)) => {
            assert_eq!(h.name, "remote");
            assert_eq!(h.url, "http://localhost:9000");
            assert_eq!(h.mode, TransportMode::Auto);
            assert!(h.required_capabilities.is_empty());
        }
        other => panic!("unexpected plan {:?}", other),
    }
    assert_eq!(
        instance_plan(&servers, "broken").unwrap_err(),
        ToolInvokeError::NotConfigured { server: "broken: missing URL for HTTP transport".to_string() }
    );
    assert_eq!(
        instance_plan(&servers, "inside").unwrap_err(),
        ToolInvokeError::NotConfigured { server: "inside".to_string() }
    );
    assert_eq!(
        instance_plan(&servers, "nowhere").unwrap_err(),
        ToolInvokeError::NotConfigured { server: "nowhere".to_string() }
    );
    assert_eq!(instance_plan(&servers, "").unwrap_err(), ToolInvokeError::NotConfigured { server: String::new() });
}

#[test]
fn transport_mode_settlement() {
    assert!(probes_sse(TransportMode::Auto));
    assert!(probes_sse(TransportMode::Stateful));
    assert!(!probes_sse(TransportMode::Stateless));
    assert_eq!(
        settle_mode(TransportMode::Stateful, true),
        ModeOutcome::Use { mode: TransportMode::Stateful, post_to_base_url: false }
    );
    assert_eq!(settle_mode(TransportMode::Stateful, false), ModeOutcome::Fail);
    assert_eq!(
        settle_mode(TransportMode::Stateless, true),
        ModeOutcome::Use { mode: TransportMode::Stateless, post_to_base_url: true }
    );
    assert_eq!(
        settle_mode(TransportMode::Auto, true),
        ModeOutcome::Use { mode: TransportMode::Stateful, post_to_base_url: false }
    );
    assert_eq!(
        settle_mode(TransportMode::Auto, false),
        ModeOutcome::Use { mode: TransportMode::Stateless, post_to_base_url: true }
    );
}

#[test]
fn catalogue_requests_ignore_ascii_case() {
    assert!(is_catalogue_request("list_tools"));
    assert!(is_catalogue_request("LIST_Tools"));
    assert!(!is_catalogue_request("list_tool"));
    assert!(!is_catalogue_request("search"));
}

#[test]
fn catalogue_execution_reports_the_tools() {
    let input = Value::from("in");
    let mut entries = serde_json::Map::new();
    entries.insert("tools".to_string(), Value::Array(Vec::new()));
    let catalogue = Value::Object(entries);
    let e = catalogue_execution(input.clone(), catalogue.clone(), 3);
    assert_eq!(e.tool, "list_tools");
    assert!(e.success);
    assert_eq!(e.input, input);
    assert_eq!(e.output, catalogue);
    assert_eq!(e.message.as_deref(), Some("Configured tools available: 3 item(s)."));
}
