use antikythera_core::tooling::envelope::{
    validate_tool_call_envelope, validate_tool_result_envelope, EnvelopeError, ToolCallEnvelope,
    ToolResultEnvelope,
};
use antikythera_core::tooling::transport::{
    classify_sse_line, covers_capabilities, HttpTransportConfig, SseLine, TransportCapability, TransportMode,
};

fn object(pairs: &[(&str, serde_json::Value)]) -> serde_json::Value {
    let mut map = serde_json::Map::new();
    for (k, v) in pairs {
        map.insert(k.to_string(), v.clone());
    }
    serde_json::Value::Object(map)
}

#[test]
fn tool_call_envelope_validation_matrix() {
    let valid = ToolCallEnvelope {
        tool: "weather.get".to_string(),
        arguments: object(&[("city", serde_json::Value::from("Jakarta"))]),
        correlation_id: Some("corr-1".to_string()),
    };
    assert!(validate_tool_call_envelope(&valid).is_ok());

    let missing_tool = ToolCallEnvelope {
        tool: "  ".to_string(),
        arguments: object(&[]),
        correlation_id: None,
    };
    assert_eq!(validate_tool_call_envelope(&missing_tool), Err(EnvelopeError::MissingTool));

    let invalid_args = ToolCallEnvelope {
        tool: "weather.get".to_string(),
        arguments: serde_json::Value::Array(vec![serde_json::Value::from("unexpected")]),
        correlation_id: None,
    };
    assert_eq!(validate_tool_call_envelope(&invalid_args), Err(EnvelopeError::InvalidArguments));
}

#[test]
fn tool_result_envelope_validation_matrix() {
    let valid_success = ToolResultEnvelope {
        tool: "weather.get".to_string(),
        success: true,
        output: object(&[("ok", serde_json::Value::Bool(true))]),
        error: None,
        correlation_id: None,
    };
    assert!(validate_tool_result_envelope(&valid_success).is_ok());

    let valid_failure = ToolResultEnvelope {
        tool: "weather.get".to_string(),
        success: false,
        output: serde_json::Value::Null,
        error: Some("timeout".to_string()),
        correlation_id: None,
    };
    assert!(validate_tool_result_envelope(&valid_failure).is_ok());

    let inconsistent_success = ToolResultEnvelope {
        tool: "weather.get".to_string(),
        success: true,
        output: object(&[]),
        error: Some("must be empty".to_string()),
        correlation_id: None,
    };
    assert_eq!(
        validate_tool_result_envelope(&inconsistent_success),
        Err(EnvelopeError::InconsistentResult)
    );

    let inconsistent_failure = ToolResultEnvelope {
        tool: "weather.get".to_string(),
        success: false,
        output: object(&[]),
        error: None,
        correlation_id: None,
    };
    assert_eq!(
        validate_tool_result_envelope(&inconsistent_failure),
        Err(EnvelopeError::InconsistentResult)
    );
}

#[test]
fn tool_result_blank_error_counts_as_missing() {
    let blank_failure = ToolResultEnvelope {
        tool: "weather.get".to_string(),
        success: false,
        output: serde_json::Value::Null,
        error: Some(" \t".to_string()),
        correlation_id: None,
    };
    assert_eq!(validate_tool_result_envelope(&blank_failure), Err(EnvelopeError::InconsistentResult));
    let blank_success = ToolResultEnvelope {
        tool: "weather.get".to_string(),
        success: true,
        output: serde_json::Value::Null,
        error: Some("   ".to_string()),
        correlation_id: None,
    };
    assert!(validate_tool_result_envelope(&blank_success).is_ok());
    let no_tool = ToolResultEnvelope {
        tool: "".to_string(),
        success: true,
        output: serde_json::Value::Null,
        error: None,
        correlation_id: None,
    };
    assert_eq!(validate_tool_result_envelope(&no_tool), Err(EnvelopeError::MissingTool));
}

#[test]
fn transport_message_mapping_matrix() {
    let matrix = [
        (EnvelopeError::MissingTool, "tool must be a non-empty string"),
        (EnvelopeError::InvalidArguments, "arguments must be a JSON object"),
        (
            EnvelopeError::InconsistentResult,
            "error must be present for failed results and absent for successful ones",
        ),
    ];

    for (error, expected_tail) in matrix {
        let msg = error.to_transport_message("call");
        assert!(msg.starts_with("invalid MCP tool call envelope:"));
        assert!(msg.ends_with(expected_tail));
    }
}

#[test]
fn transport_message_is_exact() {
    assert_eq!(
        EnvelopeError::MissingTool.to_transport_message("result"),
        "invalid MCP tool result envelope: tool must be a non-empty string"
    );
}

fn config(required: Vec<TransportCapability>) -> HttpTransportConfig {
    HttpTransportConfig {
        name: "srv".to_string(),
        url: "http://localhost".to_string(),
        headers: antikythera_core::string_map::StringMap::new(),
        mode: TransportMode::default(),
        required_capabilities: required,
    }
}

#[test]
fn transport_compatibility_requires_every_capability() {
    let cfg = config(vec![TransportCapability::StatelessRpc, TransportCapability::StreamingEvents]);
    assert!(cfg.is_compatible_with(&[
        TransportCapability::StreamingEvents,
        TransportCapability::StatelessRpc,
        TransportCapability::MetadataPropagation,
    ]));
    assert!(!cfg.is_compatible_with(&[TransportCapability::StatelessRpc]));
    assert!(config(vec![]).is_compatible_with(&[]));
    assert_eq!(cfg.mode, TransportMode::Auto);
}

#[test]
fn sse_lines_are_classified() {
    assert_eq!(classify_sse_line("event: endpoint"), SseLine::Event("endpoint".to_string()));
    assert_eq!(classify_sse_line("data:/messages?session=1 "), SseLine::Data("/messages?session=1".to_string()));
    assert_eq!(classify_sse_line(""), SseLine::Blank);
    assert_eq!(classify_sse_line(": keep-alive"), SseLine::Other);
    assert_eq!(classify_sse_line("id: 7"), SseLine::Other);
    assert_eq!(classify_sse_line("event:"), SseLine::Event(String::new()));
}

#[test]
fn capability_coverage() {
    let offered = [TransportCapability::StatelessRpc, TransportCapability::StreamingEvents];
    assert!(covers_capabilities(&[], &offered));
    assert!(covers_capabilities(&[TransportCapability::StreamingEvents], &offered));
    assert!(!covers_capabilities(
        &[TransportCapability::StreamingEvents, TransportCapability::StatefulSession],
        &offered
    ));
}
