use antikythera_core::resilience::{
    estimate_tokens, should_retry_call, worst_status, CorrelationContext, HealthStatus,
    NoOpAuditSink, PolicyAuditEvent, PolicyAuditSink, PolicyEventType,
};
use antikythera_core::string_map::StringMap;

#[test]
fn new_component_after_first_success_is_healthy() {
    assert_eq!(HealthStatus::from_counts(1, 1), HealthStatus::Healthy);
}

#[test]
fn first_failure_alone_makes_component_unhealthy() {
    assert_eq!(HealthStatus::from_counts(1, 0), HealthStatus::Unhealthy);
}

#[test]
fn failure_after_success_results_in_unhealthy_at_fifty_percent() {
    assert_eq!(HealthStatus::from_counts(2, 1), HealthStatus::Unhealthy);
}

#[test]
fn many_successes_after_one_failure_recovers_to_degraded() {
    assert_eq!(HealthStatus::from_counts(6, 5), HealthStatus::Degraded);
}

#[test]
fn overall_status_is_worst_component_status() {
    assert_eq!(worst_status(&[HealthStatus::Healthy, HealthStatus::Unhealthy]), HealthStatus::Unhealthy);
    assert_eq!(worst_status(&[HealthStatus::Degraded, HealthStatus::Healthy]), HealthStatus::Degraded);
}

#[test]
fn overall_status_is_healthy_with_no_components() {
    assert_eq!(worst_status(&[]), HealthStatus::Healthy);
}

#[test]
fn health_status_names() {
    assert_eq!(HealthStatus::Healthy.as_str(), "healthy");
    assert_eq!(HealthStatus::Degraded.as_str(), "degraded");
    assert_eq!(HealthStatus::Unhealthy.as_str(), "unhealthy");
}

#[test]
fn retry_stops_at_max_attempts_or_permanent_error() {
    assert!(should_retry_call(1, 3, true));
    assert!(!should_retry_call(3, 3, true));
    assert!(!should_retry_call(1, 3, false));
}

#[test]
fn estimate_tokens_returns_positive_for_non_empty_text() {
    assert!(estimate_tokens("hello world") > 0);
    assert_eq!(estimate_tokens(&"a".repeat(40)), 10);
}

#[test]
fn policy_audit_event_builders() {
    let mut caller = StringMap::new();
    caller.insert("user", "u1");
    let event = PolicyAuditEvent::new(
        Some("corr".to_string()),
        None,
        PolicyEventType::ToolAccessDenied,
        "tool_policy",
        "deny",
        "not allowed",
    )
    .with_resource("delete-all")
    .with_caller(caller);
    assert_eq!(event.policy_name, "tool_policy");
    assert_eq!(event.decision, "deny");
    assert_eq!(event.resource.as_deref(), Some("delete-all"));
    assert_eq!(event.caller.as_ref().and_then(|c| c.get("user").cloned()), Some("u1".to_string()));
    assert!(!event.timestamp.is_empty());
    NoOpAuditSink.record_event(event);
}

#[test]
fn correlation_context_default_is_empty() {
    let ctx = CorrelationContext::default();
    assert!(ctx.correlation_id.is_none() && ctx.session_id.is_none());
}
