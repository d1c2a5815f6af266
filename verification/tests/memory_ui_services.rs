use antikythera_core::domain::MessagePart;
use antikythera_core::fsm::AgentStep;
use antikythera_core::memory::{AgentStateSnapshot, StateMetadata, STATE_SCHEMA_VERSION};
use antikythera_core::services::{agent_options_for, construct_outcome, raw_chat_request};
use antikythera_core::ui::AssemblerError;
use serde_json::Value;

#[test]
fn new_snapshot_starts_idle_and_compatible() {
    let snapshot = AgentStateSnapshot::new("ctx".to_string(), "agent".to_string());
    assert_eq!(snapshot.schema_version, STATE_SCHEMA_VERSION);
    assert_eq!(snapshot.context_id, "ctx");
    assert_eq!(snapshot.agent_id, "agent");
    assert_eq!(snapshot.fsm_state, "Idle");
    assert!(snapshot.history.is_empty());
    assert!(snapshot.tool_cache.is_empty());
    assert!(snapshot.context_vars.is_empty());
    assert_eq!(snapshot.metadata.steps_executed, 0);
    assert!(snapshot.timestamp > 0);
    assert!(snapshot.is_compatible());
}

#[test]
fn snapshot_with_other_schema_is_incompatible() {
    let mut snapshot = AgentStateSnapshot::new("ctx".to_string(), "agent".to_string());
    snapshot.schema_version = STATE_SCHEMA_VERSION + 1;
    assert!(!snapshot.is_compatible());
}

#[test]
fn default_metadata_is_empty() {
    let meta = StateMetadata::default();
    assert_eq!(meta.steps_executed, 0);
    assert_eq!(meta.tokens_used, 0);
    assert!(meta.last_error.is_none());
    assert!(meta.custom.is_empty());
}

#[test]
fn assembler_error_messages() {
    assert_eq!(
        AssemblerError::IndexOutOfBounds(5, 3).message(),
        "Data index 5 out of bounds (available: 3 steps)"
    );
    assert_eq!(
        AssemblerError::UnknownComponent("chart".to_string()).message(),
        "Unknown component type: 'chart' not defined in ui.toml"
    );
    assert_eq!(
        AssemblerError::MissingField("rows".to_string()).message(),
        "Missing required field 'rows' in tool output"
    );
    assert_eq!(
        AssemblerError::TypeError {
            field: "rows".to_string(),
            expected: "array".to_string(),
            actual: "string".to_string()
        }
        .message(),
        "Type error: field 'rows' expected array, got string"
    );
    assert_eq!(
        AssemblerError::InvalidStructure("empty".to_string()).message(),
        "Invalid tool output structure: empty"
    );
}

fn step() -> AgentStep {
    AgentStep {
        tool: "echo".to_string(),
        input: Value::Null,
        success: true,
        output: Value::from("ok"),
        message: None,
    }
}

#[test]
fn outcome_hides_debug_fields_unless_requested() {
    let quiet = construct_outcome(
        false,
        "s1".to_string(),
        Value::from("hi"),
        vec!["log".to_string()],
        "p".to_string(),
        "m".to_string(),
        vec![step()],
    );
    assert_eq!(quiet.session_id, "s1");
    assert_eq!(quiet.content, Value::from("hi"));
    assert!(quiet.logs.is_none());
    assert!(quiet.provider.is_none());
    assert!(quiet.model.is_none());
    assert!(quiet.tool_steps.is_none());

    let debug = construct_outcome(
        true,
        "s1".to_string(),
        Value::from("hi"),
        vec!["log".to_string()],
        "p".to_string(),
        "m".to_string(),
        vec![step()],
    );
    assert_eq!(debug.logs, Some(vec!["log".to_string()]));
    assert_eq!(debug.provider, Some("p".to_string()));
    assert_eq!(debug.model, Some("m".to_string()));
    assert_eq!(debug.tool_steps.map(|s| s.len()), Some(1));
}

#[test]
fn raw_chat_request_is_raw() {
    let req = raw_chat_request(
        "hello".to_string(),
        vec![MessagePart::Text { text: "a".to_string() }],
        Some("sys".to_string()),
        None,
    );
    assert_eq!(req.prompt, "hello");
    assert_eq!(req.attachments.len(), 1);
    assert_eq!(req.system_prompt, Some("sys".to_string()));
    assert!(req.session_id.is_none());
    assert!(req.raw_mode);
    assert!(!req.bypass_template);
    assert!(!req.force_json);
}

#[test]
fn agent_options_default_step_limit_is_zero() {
    let opts = agent_options_for(None, Some("s".to_string()), Vec::new(), None);
    assert_eq!(opts.max_steps, 0);
    assert_eq!(opts.session_id, Some("s".to_string()));
    let opts = agent_options_for(Some("sys".to_string()), None, Vec::new(), Some(7));
    assert_eq!(opts.max_steps, 7);
    assert_eq!(opts.system_prompt, Some("sys".to_string()));
}
