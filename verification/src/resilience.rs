//! Resilience decisions: component health from call counts, the worst status
//! across components, when a failed call is retried, correlation context and
//! policy audit events.
use vstd::prelude::*;

use crate::context_window::TokenEstimator;
use crate::string_map::StringMap;

verus! {

// ── Health ──────────────────────────────────────────────────────────────────

/// Coarse health of a tracked component.
#[derive(Debug, Clone, Copy, PartialEq, Eq, Structural)]
pub enum HealthStatus {
    /// No failed call.
    Healthy,
    /// Some calls failed, fewer than half.
    Degraded,
    /// Half of the calls or more failed.
    Unhealthy,
}

/// The display name of a status.
pub open spec fn health_status_name(s: HealthStatus) -> Seq<char> {
    match s {
        HealthStatus::Healthy => "healthy"@,
        HealthStatus::Degraded => "degraded"@,
        HealthStatus::Unhealthy => "unhealthy"@,
    }
}

/// The status of a component after `total` calls of which `successful`
/// succeeded: healthy with an error rate of 0, degraded below 50 %,
/// unhealthy from 50 % on.
pub open spec fn status_for_spec(total: u64, successful: u64) -> HealthStatus {
    let failed = total - successful;
    if failed <= 0 {
        HealthStatus::Healthy
    } else if 2 * failed < total {
        HealthStatus::Degraded
    } else {
        HealthStatus::Unhealthy
    }
}

/// How bad a status is: 0 healthy, 1 degraded, 2 unhealthy.
pub open spec fn severity(s: HealthStatus) -> int {
    match s {
        HealthStatus::Healthy => 0,
        HealthStatus::Degraded => 1,
        HealthStatus::Unhealthy => 2,
    }
}

/// The worst of several statuses; healthy when there is none.
pub open spec fn worst_status_spec(ss: Seq<HealthStatus>) -> HealthStatus
    decreases ss.len(),
{
    if ss.len() == 0 {
        HealthStatus::Healthy
    } else {
        let rest = worst_status_spec(ss.drop_last());
        if severity(ss.last()) > severity(rest) {
            ss.last()
        } else {
            rest
        }
    }
}

impl HealthStatus {
    /// `healthy`, `degraded` or `unhealthy`.
    pub fn as_str(&self) -> (r: &'static str)
        ensures
            r@ == health_status_name(*self),
    {
        match self {
            HealthStatus::Healthy => "healthy",
            HealthStatus::Degraded => "degraded",
            HealthStatus::Unhealthy => "unhealthy",
        }
    }

    /// The status after `total` calls of which `successful` succeeded.
    pub fn from_counts(total: u64, successful: u64) -> (r: HealthStatus)
        requires
            successful <= total,
        ensures
            r == status_for_spec(total, successful),
    {
        let failed = total - successful;
        if failed == 0 {
            HealthStatus::Healthy
        } else if failed < total - failed {
            HealthStatus::Degraded
        } else {
            HealthStatus::Unhealthy
        }
    }
}

/// The worst status of several components (the overall status of a tracker).
pub fn worst_status(statuses: &[HealthStatus]) -> (r: HealthStatus)
    ensures
        r == worst_status_spec(statuses@),
        forall|i: int| 0 <= i < statuses@.len() ==> severity(#[trigger] statuses@[i]) <= severity(r),
{
    let mut worst = HealthStatus::Healthy;
    let mut i: usize = 0;
    while i < statuses.len()
        invariant
            i <= statuses@.len(),
            worst == worst_status_spec(statuses@.take(i as int)),
            forall|j: int| 0 <= j < i ==> severity(#[trigger] statuses@[j]) <= severity(worst),
        decreases statuses@.len() - i,
    {
        proof {
            assert(statuses@.take(i + 1).drop_last() =~= statuses@.take(i as int));
        }
        let s = statuses[i];
        let worse = match (s, worst) {
            (HealthStatus::Unhealthy, HealthStatus::Unhealthy) => false,
            (HealthStatus::Unhealthy, _) => true,
            (HealthStatus::Degraded, HealthStatus::Healthy) => true,
            _ => false,
        };
        if worse {
            worst = s;
        }
        i = i + 1;
    }
    proof {
        assert(statuses@.take(i as int) =~= statuses@);
    }
    worst
}

/// A component is healthy exactly when no call failed, and unhealthy exactly
/// when at least half of its calls failed.
pub proof fn law_health_thresholds(total: u64, successful: u64)
    requires
        0 < total,
        successful <= total,
    ensures
        (status_for_spec(total, successful) == HealthStatus::Healthy) <==> successful == total,
        (status_for_spec(total, successful) == HealthStatus::Unhealthy) <==> 2 * (total - successful) >= total,
{
}

/// One more failure never makes a component healthier, and one more success
/// never makes it sicker.
pub proof fn law_health_monotonic(total: u64, successful: u64)
    requires
        successful <= total,
        total < u64::MAX,
    ensures
        severity(status_for_spec((total + 1) as u64, successful)) >= severity(status_for_spec(total, successful)),
        severity(status_for_spec((total + 1) as u64, (successful + 1) as u64)) <= severity(status_for_spec(total, successful)) || total == 0,
{
}

// ── Retry ───────────────────────────────────────────────────────────────────

/// Whether a failed call is tried again: after `attempts` attempts it is
/// while fewer than `max_attempts` were made and the error is retryable.
pub fn should_retry_call(attempts: u32, max_attempts: u32, retryable: bool) -> (r: bool)
    ensures
        r == (attempts < max_attempts && retryable),
{
    attempts < max_attempts && retryable
}

/// Token estimate of a text as a 32-bit count (saturated by truncation, as a
/// cast does).
pub fn estimate_tokens(text: &str) -> (r: u32)
    ensures
        r == (crate::context_window::text_tokens(text@) as u32),
{
    TokenEstimator::estimate_text(text) as u32
}

// ── Correlation and policy audit ────────────────────────────────────────────

/// Correlation data attached to metrics.
#[derive(Debug, Clone, PartialEq, Eq)]
pub struct CorrelationContext {
    pub correlation_id: Option<String>,
    pub session_id: Option<String>,
}

impl Default for CorrelationContext {
    fn default() -> (r: Self)
        ensures
            r.correlation_id is None,
            r.session_id is None,
    {
        CorrelationContext { correlation_id: None, session_id: None }
    }
}

/// Kinds of policy decisions.
#[derive(Debug, Clone, Copy, PartialEq, Eq, Structural)]
pub enum PolicyEventType {
    ContextPolicyApplied,
    ContextPolicyOverride,
    ToolAccessDenied,
    ToolAccessGranted,
    RateLimitTriggered,
    TimeoutTriggered,
    RetryPolicyActivated,
    HealthCheckFailed,
    CustomPolicy,
}

/// `chrono::Utc::now().to_rfc3339()`: the current UTC time in RFC 3339 form.
/// It is whatever the clock reads; nothing is stated of it.
#[verifier::external_body]
fn utc_now_rfc3339() -> (r: String) {
    chrono::Utc::now().to_rfc3339()
}

/// Audit event of a policy decision.
#[derive(Debug, Clone)]
pub struct PolicyAuditEvent {
    /// When the decision was taken (RFC 3339).
    pub timestamp: String,
    pub correlation_id: Option<String>,
    pub session_id: Option<String>,
    pub event_type: PolicyEventType,
    /// Policy name.
    pub policy_name: String,
    /// `allow`, `deny` or `override`.
    pub decision: String,
    /// Why.
    pub reason: String,
    /// Affected resource (tool name, agent id, ...).
    pub resource: Option<String>,
    /// Caller context (user id, tenant, ...).
    pub caller: Option<StringMap>,
    /// Additional metadata.
    pub metadata: Option<Vec<(String, serde_json::Value)>>,
}

impl PolicyAuditEvent {
    /// An event stamped with the current time, without resource, caller or
    /// metadata.
    pub fn new(correlation_id: Option<String>, session_id: Option<String>, event_type: PolicyEventType, policy_name: &str, decision: &str, reason: &str) -> (r: Self)
        ensures
            r.correlation_id == correlation_id,
            r.session_id == session_id,
            r.event_type == event_type,
            r.policy_name@ == policy_name@,
            r.decision@ == decision@,
            r.reason@ == reason@,
            r.resource is None,
            r.caller is None,
            r.metadata is None,
    {
        PolicyAuditEvent {
            timestamp: utc_now_rfc3339(),
            correlation_id,
            session_id,
            event_type,
            policy_name: policy_name.to_owned(),
            decision: decision.to_owned(),
            reason: reason.to_owned(),
            resource: None,
            caller: None,
            metadata: None,
        }
    }

    /// Set the affected resource.
    pub fn with_resource(self, resource: &str) -> (r: Self)
        ensures
            r.resource matches Some(x) && x@ == resource@,
            r.timestamp == self.timestamp,
            r.event_type == self.event_type,
            r.policy_name == self.policy_name,
            r.decision == self.decision,
            r.reason == self.reason,
            r.caller == self.caller,
            r.metadata == self.metadata,
    {
        PolicyAuditEvent { resource: Some(resource.to_owned()), ..self }
    }

    /// Set the caller context.
    pub fn with_caller(self, caller: StringMap) -> (r: Self)
        ensures
            r.caller == Some(caller),
            r.timestamp == self.timestamp,
            r.event_type == self.event_type,
            r.policy_name == self.policy_name,
            r.decision == self.decision,
            r.reason == self.reason,
            r.resource == self.resource,
            r.metadata == self.metadata,
    {
        PolicyAuditEvent { caller: Some(caller), ..self }
    }

    /// Set the metadata.
    pub fn with_metadata(self, metadata: Vec<(String, serde_json::Value)>) -> (r: Self)
        ensures
            r.metadata == Some(metadata),
            r.timestamp == self.timestamp,
            r.event_type == self.event_type,
            r.policy_name == self.policy_name,
            r.decision == self.decision,
            r.reason == self.reason,
            r.resource == self.resource,
            r.caller == self.caller,
    {
        PolicyAuditEvent { metadata: Some(metadata), ..self }
    }
}

/// Receiver of policy audit events, implemented by hosts.
pub trait PolicyAuditSink {
    fn record_event(&self, event: PolicyAuditEvent);
}

/// Sink that discards every event.
pub struct NoOpAuditSink;

impl PolicyAuditSink for NoOpAuditSink {
    fn record_event(&self, event: PolicyAuditEvent) {
    }
}

} // verus!
