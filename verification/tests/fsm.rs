use antikythera_core::agent_state::{AgentState, TerminationReason};
use antikythera_core::fsm::{
    chat_retry_delay_ms, handle_directive, handle_terminal_state, next_action, split_final_response,
    tool_result_prompt, waiting_for_context_error, AgentDirective, AgentError, AgentOptions, AgentStep,
    FsmAction,
};
use serde_json::Value;

fn object(pairs: &[(&str, Value)]) -> Value {
    let mut map = serde_json::Map::new();
    for (k, v) in pairs {
        map.insert(k.to_string(), v.clone());
    }
    Value::Object(map)
}

#[test]
fn final_string_response_is_content() {
    let (content, data, metadata) = split_final_response(&Value::from("done"));
    assert_eq!(content, "done");
    assert!(data.is_none() && metadata.is_none());
}

#[test]
fn final_object_response_splits_fields() {
    let response = object(&[
        ("content", Value::from("Here")),
        ("data", Value::from("step_0")),
        ("tone", Value::from("calm")),
    ]);
    let (content, data, metadata) = split_final_response(&response);
    assert_eq!(content, "Here");
    assert_eq!(data, Some(Value::from("step_0")));
    assert_eq!(metadata, Some(object(&[("tone", Value::from("calm"))])));
}

#[test]
fn final_object_prefers_response_field_and_falls_back_to_json() {
    let both = object(&[("response", Value::from("R")), ("content", Value::from("C"))]);
    assert_eq!(split_final_response(&both).0, "R");
    let non_string = object(&[("response", Value::from(3)), ("content", Value::from("C"))]);
    assert_eq!(split_final_response(&non_string).0, non_string.to_string());
    let array = Value::Array(vec![Value::from(1)]);
    assert_eq!(split_final_response(&array).0, "[1]");
}

#[test]
fn tool_directive_spends_a_step() {
    let mut remaining = 2u32;
    let state = handle_directive(
        AgentDirective::CallTool { tool: "search".to_string(), input: Value::Null },
        &mut remaining,
    )
    .expect("steps left");
    assert_eq!(remaining, 1);
    assert!(matches!(state, AgentState::ExecutingTool { ref tool_id, .. } if tool_id == "search"));
}

#[test]
fn tool_directive_without_steps_fails() {
    let mut remaining = 0u32;
    let err = handle_directive(
        AgentDirective::CallTools(vec![("a".to_string(), Value::Null)]),
        &mut remaining,
    )
    .expect_err("no steps left");
    assert_eq!(err, AgentError::MaxStepsExceeded);
    let mut one = 1u32;
    assert_eq!(handle_directive(AgentDirective::CallTools(vec![]), &mut one), Ok(AgentState::WaitingForContext));
    assert_eq!(one, 0);
}

#[test]
fn next_action_covers_each_state() {
    assert!(matches!(next_action(&AgentState::ParsingDirective, false, true, 3), FsmAction::SendChat { with_attachments: true, with_system_prompt: true }));
    assert!(matches!(next_action(&AgentState::ParsingDirective, true, false, 3), FsmAction::Fail(AgentError::InvalidResponse(_))));
    assert!(matches!(next_action(&AgentState::WaitingForContext, false, false, 3), FsmAction::WaitForContext));
    let recovering = AgentState::RecoveringError { error: "bad json".to_string(), retry_count: 3 };
    assert!(matches!(next_action(&recovering, false, false, 3), FsmAction::Fail(AgentError::InvalidResponse(ref m)) if m == "bad json"));
    let retry = AgentState::RecoveringError { error: "bad json".to_string(), retry_count: 1 };
    assert!(matches!(next_action(&retry, false, false, 3), FsmAction::Advance(AgentState::RecoveringError { retry_count: 2, .. })));
    assert!(matches!(
        next_action(&AgentState::Idle, false, false, 3),
        FsmAction::Advance(AgentState::Terminated { reason: TerminationReason::Error { ref message } }) if message == "Invalid state: Idle"
    ));
    assert!(matches!(next_action(&AgentState::Terminated { reason: TerminationReason::Timeout }, false, false, 3), FsmAction::Finish));
}

#[test]
fn retry_delays_double() {
    assert_eq!(chat_retry_delay_ms(0), Some(200));
    assert_eq!(chat_retry_delay_ms(1), Some(400));
    assert_eq!(chat_retry_delay_ms(2), Some(800));
    assert_eq!(chat_retry_delay_ms(3), None);
}

fn step(message: Option<&str>) -> AgentStep {
    AgentStep {
        tool: "search".to_string(),
        input: Value::Null,
        success: true,
        output: Value::from("ok"),
        message: message.map(str::to_string),
    }
}

#[test]
fn tool_result_prompt_is_json() {
    let prompt = tool_result_prompt(&step(Some("found")), "Continue.");
    let parsed: Value = serde_json::from_str(&prompt).expect("valid JSON");
    assert_eq!(parsed["instruction"], Value::from("Continue."));
    assert_eq!(parsed["tool_result"]["tool"], Value::from("search"));
    assert_eq!(parsed["tool_result"]["success"], Value::Bool(true));
    assert_eq!(parsed["tool_result"]["message"], Value::from("found"));
}

#[test]
fn terminal_states_map_to_outcomes() {
    let final_state = AgentState::FinalMessage { content: "hi".to_string(), data: None, metadata: None };
    let outcome = handle_terminal_state(final_state, Some("s".to_string()), vec![], vec![]).expect("final");
    assert_eq!(outcome.response, object(&[("content", Value::from("hi"))]));
    assert_eq!(outcome.session_id, "s");

    let success = AgentState::Terminated { reason: TerminationReason::Success };
    let outcome = handle_terminal_state(success, None, vec![], vec![step(Some("last"))]).expect("success");
    assert_eq!(outcome.response, Value::from("last"));
    assert_eq!(outcome.session_id, "");

    let empty = AgentState::Terminated { reason: TerminationReason::Success };
    assert_eq!(
        handle_terminal_state(empty, None, vec![], vec![]).unwrap_err(),
        AgentError::InvalidResponse("Unknown termination".to_string())
    );
    let timeout = AgentState::Terminated { reason: TerminationReason::Timeout };
    assert_eq!(handle_terminal_state(timeout, None, vec![], vec![]).unwrap_err(), AgentError::Timeout);
    assert_eq!(
        handle_terminal_state(AgentState::Idle, None, vec![], vec![]).unwrap_err(),
        AgentError::InvalidResponse("Unexpected terminal state".to_string())
    );
    assert_eq!(
        waiting_for_context_error(),
        AgentError::InvalidResponse("Waiting for external context - use resume() to continue".to_string())
    );
}

#[test]
fn agent_options_default() {
    let options = AgentOptions::default();
    assert_eq!(options.max_steps, 0);
    assert_eq!(antikythera_core::fsm::default_max_steps(), 8);
}
