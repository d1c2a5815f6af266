//! Units of work for the multi-agent orchestrator, their results, the retry
//! policy and the error classification applied to failures.
use vstd::prelude::*;

use crate::json::{json_is_null, json_null};
use crate::text::{contains, contains_spec, lowercase, to_lowercase};

verus! {

/// Classification of a task failure.
#[derive(Debug, Clone, Copy, PartialEq, Eq, Structural)]
pub enum ErrorKind {
    Transient,
    Permanent,
    BudgetExhausted,
    DeadlineExceeded,
    Cancelled,
}

/// When a failed attempt is retried.
#[derive(Debug, Clone, Copy, PartialEq, Eq, Structural)]
pub enum RetryCondition {
    Never,
    Always,
    OnTransient,
}

/// Per-task retry policy.
#[derive(Debug, Clone, Copy, PartialEq, Eq)]
pub struct TaskRetryPolicy {
    pub max_retries: u8,
    pub condition: RetryCondition,
    pub backoff_ms: u64,
}

impl Default for TaskRetryPolicy {
    fn default() -> (r: Self)
        ensures
            r.max_retries == 0,
            r.condition == RetryCondition::OnTransient,
            r.backoff_ms == 0,
    {
        TaskRetryPolicy { max_retries: 0, condition: RetryCondition::OnTransient, backoff_ms: 0 }
    }
}

/// Whether a failure of kind `kind` after `attempt` attempts is retried.
pub open spec fn should_retry_spec(policy: TaskRetryPolicy, attempt: u8, kind: ErrorKind) -> bool {
    attempt <= policy.max_retries && match policy.condition {
        RetryCondition::Never => false,
        RetryCondition::Always => true,
        RetryCondition::OnTransient => kind == ErrorKind::Transient,
    }
}

/// No failure is retried past `max_retries` attempts or under `Never`; within
/// the retries, `Always` retries every failure and `OnTransient` exactly the
/// transient ones.
pub proof fn law_retry_decision(policy: TaskRetryPolicy, attempt: u8, kind: ErrorKind)
    ensures
        attempt > policy.max_retries ==> !should_retry_spec(policy, attempt, kind),
        policy.condition == RetryCondition::Never ==> !should_retry_spec(policy, attempt, kind),
        attempt <= policy.max_retries && policy.condition == RetryCondition::Always ==> should_retry_spec(
            policy,
            attempt,
            kind,
        ),
        attempt <= policy.max_retries && policy.condition == RetryCondition::OnTransient ==> (should_retry_spec(
            policy,
            attempt,
            kind,
        ) <==> kind == ErrorKind::Transient),
{
}

impl TaskRetryPolicy {
    /// Whether a failure of kind `kind` after `attempt` attempts is retried: while
    /// `attempt <= max_retries` and the condition admits the kind.
    pub fn should_retry(&self, attempt: u8, kind: ErrorKind) -> (r: bool)
        ensures
            r == should_retry_spec(*self, attempt, kind),
    {
        attempt <= self.max_retries && match self.condition {
            RetryCondition::Never => false,
            RetryCondition::Always => true,
            RetryCondition::OnTransient => kind == ErrorKind::Transient,
        }
    }
}

/// Markers of a transient failure, looked for in the lower-cased error text.
pub open spec fn transient_markers() -> Seq<Seq<char>> {
    seq![
        "timeout"@,
        "rate limit"@,
        "503"@,
        "502"@,
        "429"@,
        "connection"@,
        "network"@,
        "temporarily"@,
    ]
}

/// Transient when the lower-cased text names a timeout, rate limit, 502/503/429,
/// connection, network or temporary failure; permanent otherwise.
pub open spec fn classify_spec(error: Seq<char>) -> ErrorKind {
    if exists|i: int| 0 <= i < transient_markers().len() && contains_spec(lowercase(error), #[trigger] transient_markers()[i]) {
        ErrorKind::Transient
    } else {
        ErrorKind::Permanent
    }
}

/// An error is transient exactly when its lower-case form names a timeout, a
/// rate limit, a 502, 503 or 429 status, a connection or network failure, or
/// a temporary condition; every other error is permanent.
pub proof fn law_classify_transient_markers(error: Seq<char>)
    ensures
        classify_spec(error) == ErrorKind::Transient || classify_spec(error) == ErrorKind::Permanent,
        classify_spec(error) == ErrorKind::Transient <==> ({
            let l = lowercase(error);
            ||| contains_spec(l, "timeout"@)
            ||| contains_spec(l, "rate limit"@)
            ||| contains_spec(l, "503"@)
            ||| contains_spec(l, "502"@)
            ||| contains_spec(l, "429"@)
            ||| contains_spec(l, "connection"@)
            ||| contains_spec(l, "network"@)
            ||| contains_spec(l, "temporarily"@)
        }),
{
    let m = transient_markers();
    let l = lowercase(error);
    assert(m.len() == 8);
    assert(m[0] == "timeout"@);
    assert(m[1] == "rate limit"@);
    assert(m[2] == "503"@);
    assert(m[3] == "502"@);
    assert(m[4] == "429"@);
    assert(m[5] == "connection"@);
    assert(m[6] == "network"@);
    assert(m[7] == "temporarily"@);
    if contains_spec(l, "timeout"@) {
        assert(contains_spec(l, m[0]));
    }
    if contains_spec(l, "rate limit"@) {
        assert(contains_spec(l, m[1]));
    }
    if contains_spec(l, "503"@) {
        assert(contains_spec(l, m[2]));
    }
    if contains_spec(l, "502"@) {
        assert(contains_spec(l, m[3]));
    }
    if contains_spec(l, "429"@) {
        assert(contains_spec(l, m[4]));
    }
    if contains_spec(l, "connection"@) {
        assert(contains_spec(l, m[5]));
    }
    if contains_spec(l, "network"@) {
        assert(contains_spec(l, m[6]));
    }
    if contains_spec(l, "temporarily"@) {
        assert(contains_spec(l, m[7]));
    }
}

/// Classify an agent error message as transient or permanent.
pub fn classify_agent_error(error: &str) -> (r: ErrorKind)
    ensures
        r == classify_spec(error@),
{
    let lower = to_lowercase(error);
    let l = lower.as_str();
    let found = contains(l, "timeout") || contains(l, "rate limit") || contains(l, "503") || contains(l, "502")
        || contains(l, "429") || contains(l, "connection") || contains(l, "network") || contains(l, "temporarily");
    proof {
        let m = transient_markers();
        assert(m[0] == "timeout"@);
        assert(m[1] == "rate limit"@);
        assert(m[2] == "503"@);
        assert(m[3] == "502"@);
        assert(m[4] == "429"@);
        assert(m[5] == "connection"@);
        assert(m[6] == "network"@);
        assert(m[7] == "temporarily"@);
    }
    if found {
        ErrorKind::Transient
    } else {
        ErrorKind::Permanent
    }
}

/// Whether `s` is a UUID in the lower-case hyphenated form: 36 characters,
/// hyphens at 8, 13, 18 and 23, lower-case hex digits elsewhere.
pub open spec fn is_hyphenated_uuid(s: Seq<char>) -> bool {
    &&& s.len() == 36
    &&& forall|i: int| 0 <= i < 36 ==> if i == 8 || i == 13 || i == 18 || i == 23 {
        #[trigger] s[i] == '-'
    } else {
        ('0' <= s[i] && s[i] <= '9') || ('a' <= s[i] && s[i] <= 'f')
    }
}

/// `uuid::Uuid::new_v4().to_string()`: a fresh random identifier, written by
/// the crate's `Display` in the lower-case hyphenated form. Its digits are
/// random; only the form is stated.
#[verifier::external_body]
pub(crate) fn new_uuid() -> (r: String)
    ensures
        is_hyphenated_uuid(r@),
{
    uuid::Uuid::new_v4().to_string()
}

/// A unit of work for one agent.
#[derive(Debug, Clone)]
pub struct AgentTask {
    pub task_id: String,
    pub agent_id: Option<String>,
    pub input: String,
    pub session_id: Option<String>,
    pub max_steps: Option<usize>,
    pub timeout_ms: Option<u64>,
    pub budget_steps: Option<usize>,
    /// Unix time in milliseconds at or after which the task is not started.
    pub deadline_unix_ms: Option<i64>,
    /// Retry policy of the task; the default policy when none is set.
    pub retry_policy: Option<TaskRetryPolicy>,
}

impl AgentTask {
    /// A task with a fresh random identifier and no routing or limits.
    pub fn new(input: &str) -> (r: Self)
        ensures
            is_hyphenated_uuid(r.task_id@),
            r.input@ == input@,
            r.agent_id is None,
            r.session_id is None,
            r.max_steps is None,
            r.timeout_ms is None,
            r.budget_steps is None,
            r.deadline_unix_ms is None,
            r.retry_policy is None,
    {
        AgentTask {
            task_id: new_uuid(),
            agent_id: None,
            input: input.to_owned(),
            session_id: None,
            max_steps: None,
            timeout_ms: None,
            budget_steps: None,
            deadline_unix_ms: None,
            retry_policy: None,
        }
    }

    /// Route the task to an agent.
    pub fn for_agent(self, agent_id: &str) -> (r: Self)
        ensures
            r.agent_id matches Some(a) && a@ == agent_id@,
            r.task_id == self.task_id,
            r.input == self.input,
            r.session_id == self.session_id,
            r.max_steps == self.max_steps,
            r.timeout_ms == self.timeout_ms,
            r.budget_steps == self.budget_steps,
            r.deadline_unix_ms == self.deadline_unix_ms,
            r.retry_policy == self.retry_policy,
    {
        AgentTask { agent_id: Some(agent_id.to_owned()), ..self }
    }

    /// Pin the task to a session.
    pub fn with_session(self, session_id: &str) -> (r: Self)
        ensures
            r.session_id matches Some(s) && s@ == session_id@,
            r.task_id == self.task_id,
            r.input == self.input,
            r.agent_id == self.agent_id,
            r.max_steps == self.max_steps,
            r.timeout_ms == self.timeout_ms,
            r.budget_steps == self.budget_steps,
            r.deadline_unix_ms == self.deadline_unix_ms,
            r.retry_policy == self.retry_policy,
    {
        AgentTask { session_id: Some(session_id.to_owned()), ..self }
    }

    /// Set a step limit.
    pub fn with_max_steps(self, max_steps: usize) -> (r: Self)
        ensures
            r == (AgentTask { max_steps: Some(max_steps), ..self }),
    {
        AgentTask { max_steps: Some(max_steps), ..self }
    }

    /// Set a timeout.
    pub fn with_timeout_ms(self, timeout_ms: u64) -> (r: Self)
        ensures
            r == (AgentTask { timeout_ms: Some(timeout_ms), ..self }),
    {
        AgentTask { timeout_ms: Some(timeout_ms), ..self }
    }

    /// Set a step budget.
    pub fn with_budget_steps(self, budget_steps: usize) -> (r: Self)
        ensures
            r == (AgentTask { budget_steps: Some(budget_steps), ..self }),
    {
        AgentTask { budget_steps: Some(budget_steps), ..self }
    }

    /// Set a deadline, in Unix milliseconds.
    pub fn with_deadline_unix_ms(self, deadline_unix_ms: i64) -> (r: Self)
        ensures
            r == (AgentTask { deadline_unix_ms: Some(deadline_unix_ms), ..self }),
    {
        AgentTask { deadline_unix_ms: Some(deadline_unix_ms), ..self }
    }

    /// Set a retry policy.
    pub fn with_retry_policy(self, policy: TaskRetryPolicy) -> (r: Self)
        ensures
            r == (AgentTask { retry_policy: Some(policy), ..self }),
    {
        AgentTask { retry_policy: Some(policy), ..self }
    }
}

/// Outcome of one task.
#[derive(Debug, Clone)]
pub struct TaskResult {
    pub task_id: String,
    pub agent_id: String,
    pub output: serde_json::Value,
    pub success: bool,
    pub error: Option<String>,
    pub steps_used: usize,
    pub session_id: String,
}

impl TaskResult {
    /// A successful result.
    pub fn success(task_id: String, agent_id: String, output: serde_json::Value, steps_used: usize, session_id: String) -> (r: Self)
        ensures
            r == (TaskResult { task_id, agent_id, output, success: true, error: None, steps_used, session_id }),
    {
        TaskResult { task_id, agent_id, output, success: true, error: None, steps_used, session_id }
    }

    /// A failed result with a null output, no steps and an empty session.
    pub fn failure(task_id: String, agent_id: String, error: String) -> (r: Self)
        ensures
            r.task_id == task_id,
            r.agent_id == agent_id,
            json_is_null(r.output),
            !r.success,
            r.error == Some(error),
            r.steps_used == 0,
            r.session_id@.len() == 0,
    {
        TaskResult {
            task_id,
            agent_id,
            output: json_null(),
            success: false,
            error: Some(error),
            steps_used: 0,
            session_id: String::new(),
        }
    }
}

/// Total steps of a sequence of results.
pub open spec fn total_steps_spec(rs: Seq<TaskResult>) -> nat
    decreases rs.len(),
{
    if rs.len() == 0 {
        0
    } else {
        total_steps_spec(rs.drop_last()) + rs.last().steps_used as nat
    }
}

/// Index of the first failed result, if any.
pub open spec fn first_failure(rs: Seq<TaskResult>) -> Option<int> {
    if exists|i: int| 0 <= i < rs.len() && !rs[i].success {
        Some(choose|i: int| 0 <= i < rs.len() && !rs[i].success && forall|j: int| 0 <= j < i ==> rs[j].success)
    } else {
        None
    }
}

/// Index of the last successful result, if any.
pub open spec fn last_success(rs: Seq<TaskResult>) -> Option<int>
    decreases rs.len(),
{
    if rs.len() == 0 {
        None
    } else if rs.last().success {
        Some(rs.len() - 1)
    } else {
        last_success(rs.drop_last())
    }
}

/// `r` combines `results`: the results in order, their steps summed, success
/// when every result succeeded, the output of the last successful result (null
/// when none succeeded), and the error of the first failed result.
pub open spec fn combines(r: PipelineResult, results: Seq<TaskResult>) -> bool {
    &&& r.task_results@ == results
    &&& r.total_steps == total_steps_spec(results)
    &&& r.success == (forall|i: int| 0 <= i < results.len() ==> results[i].success)
    &&& match last_success(results) {
        Some(k) => r.final_output == results[k].output,
        None => json_is_null(r.final_output),
    }
    &&& r.error == match first_failure(results) {
        Some(i) => results[i].error,
        None => None,
    }
}

/// Combined outcome of a sequential pipeline.
#[derive(Debug, Clone)]
pub struct PipelineResult {
    pub task_results: Vec<TaskResult>,
    pub final_output: serde_json::Value,
    pub total_steps: usize,
    pub success: bool,
    pub error: Option<String>,
}

impl PipelineResult {
    /// Combine results in pipeline order: the steps are summed, success requires
    /// every task to succeed, the final output is the output of the last
    /// successful result (null when no result succeeded), and the error is that
    /// of the first failed task.
    pub fn from_results(results: Vec<TaskResult>) -> (r: Self)
        requires
            total_steps_spec(results@) <= usize::MAX,
        ensures
            combines(r, results@),
    {
        let mut total: usize = 0;
        let mut success = true;
        let mut error: Option<String> = None;
        let mut i: usize = 0;
        while i < results.len()
            invariant
                i <= results@.len(),
                total == total_steps_spec(results@.take(i as int)),
                total_steps_spec(results@) <= usize::MAX,
                success == (forall|j: int| 0 <= j < i ==> results@[j].success),
                success ==> error is None,
                !success ==> exists|k: int|
                    0 <= k < i && !results@[k].success && (forall|j: int| 0 <= j < k ==> results@[j].success)
                        && error == results@[k].error,
            decreases results@.len() - i,
        {
            proof {
                assert(results@.take(i + 1).drop_last() =~= results@.take(i as int));
                lemma_total_steps_prefix(results@, i + 1);
            }
            let r = &results[i];
            total = total + r.steps_used;
            if success && !r.success {
                success = false;
                error = match &r.error {
                    Some(e) => Some(e.clone()),
                    None => None,
                };
            }
            i = i + 1;
        }
        proof {
            assert(results@.take(i as int) =~= results@);
            if !success {
                let k = choose|k: int|
                    0 <= k < i && !results@[k].success && (forall|j: int| 0 <= j < k ==> results@[j].success)
                        && error == results@[k].error;
                let c = first_failure(results@).unwrap();
                assert(c == k) by {
                    if c < k {
                        assert(results@[c].success);
                    } else if c > k {
                        assert(results@[k].success);
                    }
                }
            }
        }
        let mut k: usize = results.len();
        let mut found = false;
        proof {
            assert(results@.take(k as int) =~= results@);
        }
        while k > 0 && !found
            invariant
                k <= results@.len(),
                found ==> k < results@.len() && results@[k as int].success
                    && last_success(results@) == Some(k as int),
                !found ==> last_success(results@) == last_success(results@.take(k as int)),
            decreases k,
        {
            proof {
                assert(results@.take(k as int).drop_last() =~= results@.take(k - 1));
            }
            if results[k - 1].success {
                found = true;
            }
            k = k - 1;
        }
        let final_output = if found {
            results[k].output.clone()
        } else {
            json_null()
        };
        PipelineResult { task_results: results, final_output, total_steps: total, success, error }
    }
}

proof fn lemma_total_steps_prefix(rs: Seq<TaskResult>, i: int)
    requires
        0 <= i <= rs.len(),
    ensures
        total_steps_spec(rs.take(i)) <= total_steps_spec(rs),
    decreases rs.len(),
{
    if i < rs.len() {
        lemma_total_steps_prefix(rs.drop_last(), i);
        assert(rs.drop_last().take(i) =~= rs.take(i));
    } else {
        assert(rs.take(i) =~= rs);
    }
}

} // verus!
