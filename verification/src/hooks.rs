//! Host integration hooks: caller identity, correlation metadata, access
//! policy decisions and telemetry around framework operations.
use vstd::prelude::*;

use crate::observability::{CallerContext, TelemetryEvent};
use crate::string_map::StringMap;

verus! {

fn clone_opt(s: &Option<String>) -> (r: Option<String>)
    ensures
        r == *s,
{
    match s {
        Some(x) => Some(x.clone()),
        None => None,
    }
}

/// Operation being processed by the hook middleware.
#[derive(Debug, Clone, Copy, PartialEq, Eq, Structural)]
pub enum HookOperation {
    AgentRun,
    ToolCall,
    ModelRequest,
    SessionRead,
    SessionWrite,
    Custom,
}

/// Access policy target.
#[derive(Debug)]
pub enum PolicyTarget {
    Model { provider: String, model: String },
    Tool { tool_name: String },
}

impl Clone for PolicyTarget {
    fn clone(&self) -> (r: Self)
        ensures
            r == *self,
    {
        match self {
            PolicyTarget::Model { provider, model } => PolicyTarget::Model {
                provider: provider.clone(),
                model: model.clone(),
            },
            PolicyTarget::Tool { tool_name } => PolicyTarget::Tool { tool_name: tool_name.clone() },
        }
    }
}

/// Input sent to policy hooks.
#[derive(Debug, Clone)]
pub struct PolicyDecisionInput {
    pub caller: CallerContext,
    pub session_id: Option<String>,
    pub correlation_id: Option<String>,
    pub target: PolicyTarget,
    pub metadata: StringMap,
}

/// Result returned by policy hooks.
#[derive(Debug, Clone, Copy, PartialEq, Eq, Structural)]
pub enum PolicyDecision {
    Allow,
    Deny,
    Audit,
}

/// Hook middleware error.
#[derive(Debug, Clone, PartialEq, Eq)]
pub struct HookError {
    pub hook_name: String,
    pub message: String,
}

impl HookError {
    /// An error raised by the hook `hook_name`.
    pub fn new(hook_name: &str, message: &str) -> (r: Self)
        ensures
            r.hook_name@ == hook_name@,
            r.message@ == message@,
    {
        HookError { hook_name: hook_name.to_owned(), message: message.to_owned() }
    }

    /// `"{hook_name}: {message}"`.
    pub fn to_string(&self) -> (r: String)
        ensures
            r@ == self.hook_name@ + ": "@ + self.message@,
    {
        let mut r = self.hook_name.clone();
        r.append(": ");
        r.append(self.message.as_str());
        r
    }
}

/// Request context passed through the middleware.
#[derive(Debug, Clone)]
pub struct HookContext {
    pub caller: CallerContext,
    pub operation: HookOperation,
    pub session_id: Option<String>,
    pub correlation_id: Option<String>,
    pub metadata: StringMap,
}

impl HookContext {
    /// A context for `operation`, carrying the caller's correlation id and no
    /// session or metadata.
    pub fn new(caller: CallerContext, operation: HookOperation) -> (r: Self)
        ensures
            r.caller == caller,
            r.operation == operation,
            r.session_id is None,
            r.correlation_id == caller.correlation_id,
            r.metadata.wf(),
            r.metadata.len_spec() == 0,
    {
        HookContext {
            correlation_id: clone_opt(&caller.correlation_id),
            caller,
            operation,
            session_id: None,
            metadata: StringMap::new(),
        }
    }

    /// Attach a session identifier.
    pub fn with_session_id(self, session_id: &str) -> (r: Self)
        ensures
            r.session_id matches Some(s) && s@ == session_id@,
            r.caller == self.caller,
            r.operation == self.operation,
            r.correlation_id == self.correlation_id,
            r.metadata == self.metadata,
    {
        HookContext { session_id: Some(session_id.to_owned()), ..self }
    }

    /// Set the correlation id, on the context and on its caller.
    pub fn with_correlation_id(self, correlation_id: &str) -> (r: Self)
        ensures
            r.correlation_id matches Some(c) && c@ == correlation_id@,
            r.caller.correlation_id == r.correlation_id,
            r.caller.user_id == self.caller.user_id,
            r.caller.tenant_id == self.caller.tenant_id,
            r.caller.source == self.caller.source,
            r.caller.metadata == self.caller.metadata,
            r.operation == self.operation,
            r.session_id == self.session_id,
            r.metadata == self.metadata,
    {
        let id = correlation_id.to_owned();
        let caller = CallerContext {
            correlation_id: Some(id.clone()),
            user_id: self.caller.user_id,
            tenant_id: self.caller.tenant_id,
            source: self.caller.source,
            metadata: self.caller.metadata,
        };
        HookContext {
            caller,
            operation: self.operation,
            session_id: self.session_id,
            correlation_id: Some(id),
            metadata: self.metadata,
        }
    }

    /// Add a metadata entry, replacing any value under the same key.
    pub fn with_metadata(self, key: &str, value: &str) -> (r: Self)
        requires
            self.metadata.wf(),
        ensures
            r.metadata.wf(),
            forall|k: Seq<char>| #[trigger] r.metadata.get_spec(k) == if k == key@ {
                Some(value@)
            } else {
                self.metadata.get_spec(k)
            },
            r.caller == self.caller,
            r.operation == self.operation,
            r.session_id == self.session_id,
            r.correlation_id == self.correlation_id,
    {
        let mut metadata = self.metadata;
        metadata.insert(key, value);
        HookContext { metadata, ..self }
    }

    /// Policy input for `target`, copying the caller, ids and metadata.
    pub fn policy_input(&self, target: PolicyTarget) -> (r: PolicyDecisionInput)
        ensures
            r.caller.correlation_id == self.caller.correlation_id,
            r.caller.user_id == self.caller.user_id,
            r.caller.tenant_id == self.caller.tenant_id,
            r.caller.source == self.caller.source,
            r.caller.metadata is Some <==> self.caller.metadata is Some,
            self.caller.metadata is Some ==> r.caller.metadata.unwrap().entries_spec()
                == self.caller.metadata.unwrap().entries_spec(),
            r.session_id == self.session_id,
            r.correlation_id == self.correlation_id,
            r.target == target,
            r.metadata.entries_spec() == self.metadata.entries_spec(),
    {
        PolicyDecisionInput {
            caller: self.caller.clone(),
            session_id: clone_opt(&self.session_id),
            correlation_id: clone_opt(&self.correlation_id),
            target,
            metadata: self.metadata.clone(),
        }
    }
}

/// Hook for caller identity and permission checks, implemented by hosts.
pub trait AuthHook {
    fn name(&self) -> &'static str;

    fn authorize(&self, context: &HookContext) -> Result<(), HookError>;
}

/// Hook for correlation and request metadata changes, implemented by hosts.
pub trait CorrelationHook {
    fn name(&self) -> &'static str;

    fn apply(&self, context: &mut HookContext) -> Result<(), HookError>;
}

/// Hook for model or tool policy decisions, implemented by hosts.
pub trait PolicyDecisionHook {
    fn name(&self) -> &'static str;

    fn decide(&self, input: &PolicyDecisionInput) -> Result<PolicyDecision, HookError>;
}

/// Hook for structured telemetry and audit emission, implemented by hosts.
pub trait TelemetryHook {
    fn name(&self) -> &'static str;

    fn emit(&self, context: &HookContext, event: &TelemetryEvent) -> Result<(), HookError>;
}

/// Whether `ds` holds `d`.
pub open spec fn has_decision(ds: Seq<PolicyDecision>, d: PolicyDecision) -> bool {
    exists|i: int| 0 <= i < ds.len() && ds[i] == d
}

/// The combined verdict of several policy decisions: any deny denies, else any
/// audit audits, else allow (also when there is no decision at all).
pub open spec fn combined_decision(ds: Seq<PolicyDecision>) -> PolicyDecision {
    if has_decision(ds, PolicyDecision::Deny) {
        PolicyDecision::Deny
    } else if has_decision(ds, PolicyDecision::Audit) {
        PolicyDecision::Audit
    } else {
        PolicyDecision::Allow
    }
}

/// Combine the decisions of the policy hooks, in the order they answered.
pub fn combine_policy_decisions(decisions: &[PolicyDecision]) -> (r: PolicyDecision)
    ensures
        r == combined_decision(decisions@),
{
    let mut saw_audit = false;
    let mut i: usize = 0;
    while i < decisions.len()
        invariant
            i <= decisions@.len(),
            !has_decision(decisions@.take(i as int), PolicyDecision::Deny),
            saw_audit == has_decision(decisions@.take(i as int), PolicyDecision::Audit),
        decreases decisions@.len() - i,
    {
        let ghost prefix = decisions@.take(i as int);
        let ghost next = decisions@.take(i + 1);
        assert(forall|j: int| 0 <= j < i ==> next[j] == prefix[j]);
        match decisions[i] {
            PolicyDecision::Deny => {
                assert(next[i as int] == PolicyDecision::Deny);
                assert(decisions@[i as int] == PolicyDecision::Deny);
                return PolicyDecision::Deny;
            },
            PolicyDecision::Audit => {
                assert(next[i as int] == PolicyDecision::Audit);
                saw_audit = true;
            },
            PolicyDecision::Allow => {},
        }
        proof {
            if has_decision(next, PolicyDecision::Deny) {
                let j = choose|j: int| 0 <= j < next.len() && next[j] == PolicyDecision::Deny;
                if j < i {
                    assert(prefix[j] == PolicyDecision::Deny);
                }
            }
            if has_decision(next, PolicyDecision::Audit) && decisions@[i as int] != PolicyDecision::Audit {
                let j = choose|j: int| 0 <= j < next.len() && next[j] == PolicyDecision::Audit;
                assert(prefix[j] == PolicyDecision::Audit);
            }
            if has_decision(prefix, PolicyDecision::Audit) {
                let j = choose|j: int| 0 <= j < prefix.len() && prefix[j] == PolicyDecision::Audit;
                assert(next[j] == PolicyDecision::Audit);
            }
        }
        i = i + 1;
    }
    proof {
        assert(decisions@.take(i as int) =~= decisions@);
    }
    if saw_audit {
        PolicyDecision::Audit
    } else {
        PolicyDecision::Allow
    }
}


/// The stricter of two verdicts: deny over audit over allow.
pub open spec fn stricter(a: PolicyDecision, b: PolicyDecision) -> PolicyDecision {
    if a == PolicyDecision::Deny || b == PolicyDecision::Deny {
        PolicyDecision::Deny
    } else if a == PolicyDecision::Audit || b == PolicyDecision::Audit {
        PolicyDecision::Audit
    } else {
        PolicyDecision::Allow
    }
}

proof fn lemma_has_decision_concat(a: Seq<PolicyDecision>, b: Seq<PolicyDecision>, d: PolicyDecision)
    ensures
        has_decision(a + b, d) <==> (has_decision(a, d) || has_decision(b, d)),
{
    let ab = a + b;
    if has_decision(ab, d) {
        let j = choose|j: int| 0 <= j < ab.len() && ab[j] == d;
        if j >= a.len() {
            assert(b[j - a.len()] == d);
        }
    }
    if has_decision(a, d) {
        let j = choose|j: int| 0 <= j < a.len() && a[j] == d;
        assert(ab[j] == d);
    }
    if has_decision(b, d) {
        let j = choose|j: int| 0 <= j < b.len() && b[j] == d;
        assert(ab[a.len() + j] == d);
    }
}

/// Policy verdicts compose: the verdict of the decisions of two groups of hooks
/// is the stricter of the two groups' verdicts. Hence the verdict does not
/// depend on the order in which the hooks answered, and one deny decides it.
pub proof fn law_policy_verdicts_compose(a: Seq<PolicyDecision>, b: Seq<PolicyDecision>)
    ensures
        combined_decision(a + b) == stricter(combined_decision(a), combined_decision(b)),
        combined_decision(a + b) == combined_decision(b + a),
        has_decision(a, PolicyDecision::Deny) ==> combined_decision(a + b) == PolicyDecision::Deny,
{
    lemma_has_decision_concat(a, b, PolicyDecision::Deny);
    lemma_has_decision_concat(a, b, PolicyDecision::Audit);
    lemma_has_decision_concat(b, a, PolicyDecision::Deny);
    lemma_has_decision_concat(b, a, PolicyDecision::Audit);
}

} // verus!
