use antikythera_core::hooks::{
    combine_policy_decisions, HookContext, HookError, HookOperation, PolicyDecision, PolicyTarget,
};
use antikythera_core::observability::CallerContext;

fn caller() -> CallerContext {
    CallerContext::new().with_user_id("user-1").with_source("test")
}

#[test]
fn hook_context_builder_sets_fields() {
    let context = HookContext::new(caller(), HookOperation::AgentRun)
        .with_session_id("sess-1")
        .with_correlation_id("corr-1")
        .with_metadata("env", "test");

    assert_eq!(context.session_id.as_deref(), Some("sess-1"));
    assert_eq!(context.correlation_id.as_deref(), Some("corr-1"));
    assert_eq!(context.metadata.get("env").map(String::as_str), Some("test"));
}

#[test]
fn hook_context_correlation_id_reaches_caller() {
    let context = HookContext::new(caller(), HookOperation::ToolCall).with_correlation_id("corr-9");
    assert_eq!(context.caller.correlation_id.as_deref(), Some("corr-9"));
    assert_eq!(context.caller.user_id.as_deref(), Some("user-1"));
}

#[test]
fn hook_context_starts_with_caller_correlation() {
    let context = HookContext::new(
        CallerContext::new().with_correlation_id("corr-caller"),
        HookOperation::SessionRead,
    );
    assert_eq!(context.correlation_id.as_deref(), Some("corr-caller"));
    assert!(context.session_id.is_none());
    assert!(context.metadata.is_empty());
}

#[test]
fn policy_input_copies_context_state() {
    let context = HookContext::new(caller(), HookOperation::ToolCall)
        .with_session_id("sess-2")
        .with_correlation_id("corr-2")
        .with_metadata("scope", "internal");
    let input = context.policy_input(PolicyTarget::Tool { tool_name: "search".to_string() });

    assert_eq!(input.session_id.as_deref(), Some("sess-2"));
    assert_eq!(input.correlation_id.as_deref(), Some("corr-2"));
    assert_eq!(input.metadata.get("scope").map(String::as_str), Some("internal"));
    assert!(matches!(input.target, PolicyTarget::Tool { ref tool_name } if tool_name == "search"));
}

#[test]
fn hook_error_display_includes_name_and_message() {
    let error = HookError::new("auth", "denied");
    assert_eq!(error.to_string(), "auth: denied");
}

#[test]
fn authorize_tool_returns_deny_when_any_policy_denies() {
    let decision = combine_policy_decisions(&[PolicyDecision::Allow, PolicyDecision::Deny, PolicyDecision::Audit]);
    assert_eq!(decision, PolicyDecision::Deny);
}

#[test]
fn authorize_model_returns_audit_when_policy_requests_it() {
    let decision = combine_policy_decisions(&[PolicyDecision::Audit]);
    assert_eq!(decision, PolicyDecision::Audit);
}

#[test]
fn authorize_model_defaults_to_allow_when_no_policy_hooks_exist() {
    assert_eq!(combine_policy_decisions(&[]), PolicyDecision::Allow);
}

#[test]
fn allow_decisions_stay_allow() {
    assert_eq!(
        combine_policy_decisions(&[PolicyDecision::Allow, PolicyDecision::Allow]),
        PolicyDecision::Allow
    );
}

#[test]
fn policy_verdict_does_not_depend_on_order() {
    let a = [PolicyDecision::Audit, PolicyDecision::Allow];
    let b = [PolicyDecision::Deny];
    let ab: Vec<PolicyDecision> = a.iter().chain(b.iter()).copied().collect();
    let ba: Vec<PolicyDecision> = b.iter().chain(a.iter()).copied().collect();
    assert_eq!(combine_policy_decisions(&ab), PolicyDecision::Deny);
    assert_eq!(combine_policy_decisions(&ab), combine_policy_decisions(&ba));
    assert_eq!(combine_policy_decisions(&a), PolicyDecision::Audit);
}
