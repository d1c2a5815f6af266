use antikythera_core::observability::{
    AuditCategory, AuditRecord, AuditTrail, CallerContext, InMemoryObservabilityHook,
    InMemoryTracingHook, NoOpObservabilityHook, ObservabilityHook, TelemetryEvent,
    TraceSpanContext, TraceStatus, TracingHook,
};

#[test]
fn caller_context_builder() {
    let ctx = CallerContext::new()
        .with_correlation_id("corr-123")
        .with_user_id("user-456")
        .with_tenant_id("tenant-789")
        .with_source("native-cli");

    assert_eq!(ctx.correlation_id, Some("corr-123".to_string()));
    assert_eq!(ctx.user_id, Some("user-456".to_string()));
    assert_eq!(ctx.tenant_id, Some("tenant-789".to_string()));
    assert_eq!(ctx.source, Some("native-cli".to_string()));
}

#[test]
fn caller_context_metadata_replaces_same_key() {
    let ctx = CallerContext::new()
        .with_metadata("region", "eu")
        .with_metadata("tier", "gold")
        .with_metadata("region", "us");
    let meta = ctx.metadata.expect("metadata is created on first entry");
    assert_eq!(meta.len(), 2);
    assert_eq!(meta.get("region"), Some(&"us".to_string()));
    assert_eq!(meta.get("tier"), Some(&"gold".to_string()));
}

#[test]
fn ensure_correlation_id_keeps_existing_id() {
    let mut ctx = CallerContext::new().with_correlation_id("corr-1");
    assert_eq!(ctx.ensure_correlation_id(), "corr-1");
    assert_eq!(ctx.correlation_id.as_deref(), Some("corr-1"));
}

#[test]
fn ensure_correlation_id_generates_and_stores_id() {
    let mut ctx = CallerContext::new();
    let id = ctx.ensure_correlation_id();
    assert!(id.starts_with("corr-"));
    assert!(id["corr-".len()..].chars().all(|c| c.is_ascii_digit()));
    assert_eq!(ctx.correlation_id.as_deref(), Some(id.as_str()));
    assert_eq!(ctx.ensure_correlation_id(), id);
}

#[test]
fn telemetry_event_metric_attributes() {
    let event = TelemetryEvent::new("agent_step", Some("corr-123".to_string()), None)
        .with_attribute("step_count", serde_json::Value::from(5));
    let attrs = event.metric_attributes();
    assert_eq!(attrs.get("event_type"), Some(&"agent_step".to_string()));
    assert_eq!(attrs.get("correlation_id"), Some(&"corr-123".to_string()));
    assert_eq!(attrs.get("session_id"), None);
    assert_eq!(attrs.len(), 2);
    assert_eq!(event.attributes.len(), 1);
    assert_eq!(event.attributes[0].0, "step_count");
}

#[test]
fn observability_in_memory_observability_hook() {
    let mut hook = InMemoryObservabilityHook::new();

    let event1 = TelemetryEvent::new("llm_request", None, Some("s1".to_string()));
    hook.record_event(event1);

    let event2 = TelemetryEvent::new("tool_call", None, Some("s1".to_string()));
    hook.record_event(event2);

    let snapshot = hook.snapshot();
    assert_eq!(snapshot.len(), 2);

    let llm_events = hook.events_by_type("llm_request");
    assert_eq!(llm_events.len(), 1);
}

#[test]
fn tracing_in_memory_observability_hook() {
    let mut hook = InMemoryObservabilityHook::new();
    hook.record_event(TelemetryEvent::new("llm_request", None, Some("s1".to_string())));
    hook.record_event(TelemetryEvent::new("tool_call", None, Some("s1".to_string())));
    assert_eq!(hook.snapshot().len(), 2);
    assert_eq!(hook.events_by_type("llm_request").len(), 1);
    hook.clear();
    assert!(hook.snapshot().is_empty());
}

#[test]
fn no_op_hook_accepts_events() {
    let mut hook = NoOpObservabilityHook;
    hook.record_event(TelemetryEvent::new("ignored", None, None));
}

#[test]
fn in_memory_tracing_hook_records_started_and_ended_spans() {
    let mut hook = InMemoryTracingHook::new();
    let span = TraceSpanContext::new("trace-1", "span-1", "tool_call")
        .with_correlation_id("corr-99")
        .with_parent("root-0")
        .with_attribute("tool", "search");

    hook.on_span_start(span.clone());
    hook.on_span_end(span.clone(), TraceStatus::Success);

    let started = hook.started_spans();
    let ended = hook.ended_spans();
    assert_eq!(started.len(), 1);
    assert_eq!(ended.len(), 1);
    assert_eq!(started[0].trace_id, span.trace_id);
    assert_eq!(started[0].span_id, span.span_id);
    assert_eq!(started[0].parent_span_id.as_deref(), Some("root-0"));
    assert_eq!(started[0].correlation_id.as_deref(), Some("corr-99"));
    assert_eq!(started[0].attributes.get("tool"), Some(&"search".to_string()));
    assert_eq!(ended[0].1, TraceStatus::Success);
}

#[test]
fn audit_trail_can_filter_by_category() {
    let mut trail = AuditTrail::new();
    trail.append(AuditRecord::new(
        AuditCategory::PolicyDecision,
        "allow_model",
        true,
        Some("corr-1".to_string()),
    ));
    trail.append(AuditRecord::new(
        AuditCategory::ToolExecution,
        "invoke_tool",
        true,
        Some("corr-1".to_string()),
    ));

    let policies = trail.by_category(AuditCategory::PolicyDecision);
    assert_eq!(policies.len(), 1);
    assert_eq!(policies[0].action, "allow_model");
}

#[test]
fn audit_record_with_detail_sets_fields() {
    let record = AuditRecord::new(AuditCategory::ToolExecution, "call_weather", true, None)
        .with_detail("tool", "weather");

    assert_eq!(record.details.get("tool"), Some(&"weather".to_string()));
}

#[test]
fn audit_trail_snapshot_keeps_order_and_clear_empties() {
    let mut trail = AuditTrail::new();
    trail.append(AuditRecord::new(AuditCategory::ModelRequest, "first", true, None));
    trail.append(AuditRecord::new(AuditCategory::ModelRequest, "second", false, None));
    let all = trail.snapshot();
    assert_eq!(all.len(), 2);
    assert_eq!(all[0].action, "first");
    assert_eq!(all[1].action, "second");
    assert!(!all[1].allowed);
    trail.clear();
    assert!(trail.snapshot().is_empty());
}

#[test]
fn correlation_id_at_uses_the_given_time_once() {
    let mut ctx = CallerContext::new();
    assert_eq!(ctx.correlation_id_at(1_700_000_000_123), "corr-1700000000123");
    assert_eq!(ctx.correlation_id.as_deref(), Some("corr-1700000000123"));
    assert_eq!(ctx.correlation_id_at(5), "corr-1700000000123");
}
