//! Decisions of the multi-agent orchestrator: the step limit of a task, when
//! an attempt is retried, the texts of budget refusals, guardrail failures,
//! and the sequential pipeline that chains each task's output into the next
//! task's input and stops at the first failure. The host runs the agents.
use vstd::prelude::*;

use crate::decimal::{decimal, push_decimal};
use crate::json::{json_is_null, json_text, to_text};
use crate::text::{contains_spec, lowercase};
use crate::multi_agent::guardrails::GuardrailRejection;
use crate::multi_agent::registry::AgentProfile;
use crate::multi_agent::task::{
    classify_agent_error, classify_spec, combines, law_classify_transient_markers, should_retry_spec, total_steps_spec, AgentTask, ErrorKind, PipelineResult,
    RetryCondition, TaskResult, TaskRetryPolicy,
};

verus! {

/// Step limit used when neither the task nor the profile sets one.
pub const DEFAULT_TASK_STEPS: usize = 8;

/// The step limit of a task: its own limit, else the profile's, else the
/// default; capped by the task's step budget when it has one.
pub open spec fn step_limit_spec(task: AgentTask, profile: AgentProfile) -> usize {
    let max = if task.max_steps is Some {
        task.max_steps.unwrap()
    } else if profile.max_steps is Some {
        profile.max_steps.unwrap()
    } else {
        DEFAULT_TASK_STEPS
    };
    match task.budget_steps {
        Some(b) => if b < max {
            b
        } else {
            max
        },
        None => max,
    }
}

/// The step limit never exceeds the task's step budget; without a budget it is
/// the task's own limit when set, else the profile's, else eight.
pub proof fn law_step_limit_respects_budget(task: AgentTask, profile: AgentProfile)
    ensures
        task.budget_steps matches Some(b) ==> step_limit_spec(task, profile) <= b,
        task.budget_steps is None ==> step_limit_spec(task, profile) == match task.max_steps {
            Some(m) => m,
            None => match profile.max_steps {
                Some(p) => p,
                None => 8usize,
            },
        },
        step_limit_spec(task, profile) == task.budget_steps.unwrap_or(usize::MAX) || step_limit_spec(task, profile)
            == match task.max_steps {
            Some(m) => m,
            None => match profile.max_steps {
                Some(p) => p,
                None => 8usize,
            },
        },
{
}

/// The step limit an agent runs a task with.
pub fn effective_step_limit(task: &AgentTask, profile: &AgentProfile) -> (r: usize)
    ensures
        r == step_limit_spec(*task, *profile),
{
    let max = match task.max_steps {
        Some(m) => m,
        None => match profile.max_steps {
            Some(m) => m,
            None => DEFAULT_TASK_STEPS,
        },
    };
    match task.budget_steps {
        Some(b) => if b < max {
            b
        } else {
            max
        },
        None => max,
    }
}

/// Whether an attempt that timed out is retried: while `attempt` is within the
/// policy's retries and the policy retries at all.
pub fn retry_after_timeout(policy: &TaskRetryPolicy, attempt: u8) -> (r: bool)
    ensures
        r == (attempt <= policy.max_retries && policy.condition != RetryCondition::Never),
{
    attempt <= policy.max_retries && !(policy.condition == RetryCondition::Never)
}

/// `Task timed out after {timeout_ms} ms`.
pub fn timeout_message(timeout_ms: u64) -> (r: String)
    ensures
        r@ == "Task timed out after "@ + decimal(timeout_ms as nat) + " ms"@,
{
    let mut r = "Task timed out after ".to_owned();
    push_decimal(&mut r, timeout_ms);
    r.append(" ms");
    r
}

/// How one attempt at a task ended.
#[derive(Debug, Clone)]
pub enum AttemptOutcome {
    /// The agent did not answer within the task's timeout.
    TimedOut { timeout_ms: u64 },
    /// The agent failed with this error text.
    Failed(String),
    /// The agent answered with this output after `steps_used` steps in the
    /// session `session_id`.
    Completed { output: serde_json::Value, steps_used: usize, session_id: String },
}

/// What follows an attempt at a task.
#[derive(Debug, Clone, PartialEq, Eq)]
pub enum AttemptStep {
    /// Wait `backoff_ms` milliseconds (none when 0) and attempt again.
    Retry { backoff_ms: u64 },
    /// The task fails with this error and kind.
    Fail { error: String, kind: ErrorKind },
    /// The answer stands, subject to the post-run guardrails.
    Accept,
}

/// The step that follows attempt number `attempt` (counted from 1): a timeout
/// is retried while `attempt` is within the retries and the policy retries at
/// all, else the task fails as transient with `Task timed out after {ms} ms`;
/// a failure is classified and retried as the policy says for its kind, else
/// the task fails with the error text and its kind; an answer is accepted.
pub fn after_attempt(policy: &TaskRetryPolicy, attempt: u8, outcome: AttemptOutcome) -> (r: AttemptStep)
    ensures
        match outcome {
            AttemptOutcome::TimedOut { timeout_ms } => if attempt <= policy.max_retries && policy.condition
                != RetryCondition::Never {
                r == (AttemptStep::Retry { backoff_ms: policy.backoff_ms })
            } else {
                r matches AttemptStep::Fail { error, kind } && kind == ErrorKind::Transient && error@
                    == "Task timed out after "@ + decimal(timeout_ms as nat) + " ms"@
            },
            AttemptOutcome::Failed(e) => if should_retry_spec(*policy, attempt, classify_spec(e@)) {
                r == (AttemptStep::Retry { backoff_ms: policy.backoff_ms })
            } else {
                r == (AttemptStep::Fail { error: e, kind: classify_spec(e@) })
            },
            AttemptOutcome::Completed { .. } => r == AttemptStep::Accept,
        },
        r is Retry ==> attempt <= policy.max_retries,
{
    match outcome {
        AttemptOutcome::TimedOut { timeout_ms } => {
            if retry_after_timeout(policy, attempt) {
                AttemptStep::Retry { backoff_ms: policy.backoff_ms }
            } else {
                AttemptStep::Fail { error: timeout_message(timeout_ms), kind: ErrorKind::Transient }
            }
        },
        AttemptOutcome::Failed(e) => {
            let kind = classify_agent_error(e.as_str());
            if policy.should_retry(attempt, kind) {
                AttemptStep::Retry { backoff_ms: policy.backoff_ms }
            } else {
                AttemptStep::Fail { error: e, kind }
            }
        },
        AttemptOutcome::Completed { .. } => AttemptStep::Accept,
    }
}

/// `Orchestrator task budget exhausted (dispatched {count})`.
pub fn task_budget_exhausted_message(dispatched: usize) -> (r: String)
    ensures
        r@ == "Orchestrator task budget exhausted (dispatched "@ + decimal(dispatched as nat) + ")"@,
{
    let mut r = "Orchestrator task budget exhausted (dispatched ".to_owned();
    push_decimal(&mut r, dispatched as u64);
    r.append(")");
    r
}

/// `Orchestrator step budget exhausted ({consumed} / {max} steps consumed)`.
pub fn step_budget_exhausted_message(consumed: usize, max_total_steps: usize) -> (r: String)
    ensures
        r@ == "Orchestrator step budget exhausted ("@ + decimal(consumed as nat) + " / "@ + decimal(
            max_total_steps as nat,
        ) + " steps consumed)"@,
{
    let mut r = "Orchestrator step budget exhausted (".to_owned();
    push_decimal(&mut r, consumed as u64);
    r.append(" / ");
    push_decimal(&mut r, max_total_steps as u64);
    r.append(" steps consumed)");
    r
}

/// The failed result of a task a guardrail rejected: the rejection's message
/// is the error.
pub fn guardrail_failure_result(task: &AgentTask, agent_id: &str, rejection: GuardrailRejection) -> (r: TaskResult)
    ensures
        r.task_id == task.task_id,
        r.agent_id@ == agent_id@,
        !r.success,
        r.error == Some(rejection.message),
        r.steps_used == 0,
        json_is_null(r.output),
        r.session_id@.len() == 0,
{
    TaskResult::failure(task.task_id.clone(), agent_id.to_owned(), rejection.message)
}

// ── Running one task ────────────────────────────────────────────────────────

/// The retry policy a task runs under: its own, else the default.
pub open spec fn task_policy_spec(task: AgentTask) -> TaskRetryPolicy {
    match task.retry_policy {
        Some(p) => p,
        None => TaskRetryPolicy { max_retries: 0, condition: RetryCondition::OnTransient, backoff_ms: 0 },
    }
}

/// A task with the orchestrator's default retry policy filled in when it has
/// none: no retries, under `condition`, without backoff.
pub fn with_default_retry(task: AgentTask, condition: RetryCondition) -> (r: AgentTask)
    ensures
        r == (if task.retry_policy is Some {
            task
        } else {
            AgentTask { retry_policy: Some(TaskRetryPolicy { max_retries: 0, condition, backoff_ms: 0 }), ..task }
        }),
{
    match task.retry_policy {
        Some(_) => task,
        None => AgentTask { retry_policy: Some(TaskRetryPolicy { max_retries: 0, condition, backoff_ms: 0 }), ..task },
    }
}

/// Where the run of a task stands, and the event it waits for.
#[derive(Debug, Clone, Copy, PartialEq, Eq, Structural)]
pub enum TaskPhase {
    /// Waits for the checks before the task starts (`Started`).
    Starting,
    /// Waits for the checks before an attempt (`BeforeAttempt`).
    Ready,
    /// An attempt runs (`Attempt`).
    Running,
    /// The answer waits for the checks after the run (`After`).
    Answered,
    /// The task is over; every event is ignored.
    Finished,
}

/// What the host observed, handed to `task_step`.
#[derive(Debug)]
pub enum TaskEvent {
    /// The checks before the task starts: the clock, the cancellation flag and
    /// the pre-run guardrails.
    Started { now_unix_ms: i64, cancelled: bool, pre: Result<(), GuardrailRejection> },
    /// The checks before an attempt: the cancellation flag and the guardrails
    /// run before each attempt.
    BeforeAttempt { cancelled: bool, mid: Result<(), GuardrailRejection> },
    /// How the attempt ended.
    Attempt(AttemptOutcome),
    /// The post-run guardrails on the answer.
    After { post: Result<(), GuardrailRejection> },
}

/// What the host does next.
#[derive(Debug, Clone)]
pub enum TaskAction {
    /// Run the checks before an attempt and report `BeforeAttempt`.
    CheckBeforeAttempt,
    /// Run the agent once with this step limit and report `Attempt`.
    RunAgent { max_steps: usize },
    /// Wait `backoff_ms` milliseconds (none when 0), then run the checks before
    /// the next attempt and report `BeforeAttempt`.
    Wait { backoff_ms: u64 },
    /// Run the post-run guardrails on the run's answer and report `After`.
    CheckAfter,
    /// The task is over with this result; a failure carries its kind.
    Finish { result: TaskResult, kind: Option<ErrorKind> },
    /// The event does not belong to the phase; nothing changes.
    Ignore,
}

/// The run of one task on one agent.
#[derive(Debug, Clone)]
pub struct TaskRun {
    pub task: AgentTask,
    /// The agent that runs the task.
    pub agent_id: String,
    /// The task's retry policy.
    pub policy: TaskRetryPolicy,
    /// The step limit of every attempt.
    pub step_limit: usize,
    /// Attempts started so far.
    pub attempts: u8,
    pub phase: TaskPhase,
    /// The successful result while it waits for the post-run guardrails.
    pub answer: Option<TaskResult>,
}

impl TaskRun {
    /// A run of `task` on the agent of `profile`, nothing checked yet.
    pub fn new(task: AgentTask, profile: &AgentProfile) -> (r: Self)
        ensures
            r.task == task,
            r.agent_id == profile.id,
            r.policy == task_policy_spec(task),
            r.step_limit == step_limit_spec(task, *profile),
            r.attempts == 0,
            r.phase == TaskPhase::Starting,
            r.answer is None,
    {
        let step_limit = effective_step_limit(&task, profile);
        let policy = match task.retry_policy {
            Some(p) => p,
            None => TaskRetryPolicy::default(),
        };
        TaskRun { task, agent_id: profile.id.clone(), policy, step_limit, attempts: 0, phase: TaskPhase::Starting, answer: None }
    }
}

/// One more attempt, saturating at the largest `u8`.
pub open spec fn next_attempt(a: u8) -> u8 {
    if a < 255 {
        (a + 1) as u8
    } else {
        255
    }
}

/// The run ends with a failed result for the task: `error` as its message and
/// `kind` as its kind.
pub open spec fn task_failed(run: TaskRun, next: TaskRun, action: TaskAction, error: Seq<char>, kind: ErrorKind) -> bool {
    &&& next == (TaskRun { phase: TaskPhase::Finished, answer: None, ..run })
    &&& action matches TaskAction::Finish { result, kind: k } && {
        &&& k == Some(kind)
        &&& result.task_id@ == run.task.task_id@
        &&& result.agent_id@ == run.agent_id@
        &&& !result.success
        &&& result.error matches Some(e) && e@ == error
        &&& result.steps_used == 0
        &&& json_is_null(result.output)
        &&& result.session_id@.len() == 0
    }
}

/// Whether an attempt that ended with `outcome` is retried.
pub open spec fn attempt_retried(policy: TaskRetryPolicy, attempt: u8, outcome: AttemptOutcome) -> bool {
    match outcome {
        AttemptOutcome::TimedOut { .. } => attempt <= policy.max_retries && policy.condition != RetryCondition::Never,
        AttemptOutcome::Failed(e) => should_retry_spec(policy, attempt, classify_spec(e@)),
        AttemptOutcome::Completed { .. } => false,
    }
}

/// Under a policy that retries transient failures, a failed attempt within the
/// retries is retried exactly when its error text, lower-cased, names a
/// timeout, a rate limit, a 502, 503 or 429 status, a connection or network
/// failure, or a temporary condition; otherwise the task fails as permanent.
pub proof fn law_transient_failures_are_retried(policy: TaskRetryPolicy, attempt: u8, error: String)
    requires
        policy.condition == RetryCondition::OnTransient,
        attempt <= policy.max_retries,
    ensures
        attempt_retried(policy, attempt, AttemptOutcome::Failed(error)) <==> ({
            let l = lowercase(error@);
            ||| contains_spec(l, "timeout"@)
            ||| contains_spec(l, "rate limit"@)
            ||| contains_spec(l, "503"@)
            ||| contains_spec(l, "502"@)
            ||| contains_spec(l, "429"@)
            ||| contains_spec(l, "connection"@)
            ||| contains_spec(l, "network"@)
            ||| contains_spec(l, "temporarily"@)
        }),
        !attempt_retried(policy, attempt, AttemptOutcome::Failed(error)) ==> attempt_error(AttemptOutcome::Failed(error))
            == (error@, ErrorKind::Permanent),
{
    law_classify_transient_markers(error@);
}

/// The error text and kind of a failed attempt that is not retried.
pub open spec fn attempt_error(outcome: AttemptOutcome) -> (Seq<char>, ErrorKind) {
    match outcome {
        AttemptOutcome::TimedOut { timeout_ms } => (
            "Task timed out after "@ + decimal(timeout_ms as nat) + " ms"@,
            ErrorKind::Transient,
        ),
        AttemptOutcome::Failed(e) => (e@, classify_spec(e@)),
        AttemptOutcome::Completed { .. } => (Seq::empty(), ErrorKind::Permanent),
    }
}

/// How `task_step` moves a run on an event: `next` is the run after it and
/// `action` what the host does next.
///
/// - `Started` (while starting): a rejection by the pre-run guardrails fails
///   the task with the rejection's message and kind; else a deadline at or
///   before `now_unix_ms` fails it as `DeadlineExceeded`, else cancellation
///   fails it as `Cancelled`; else the checks before the first attempt follow.
/// - `BeforeAttempt` (while ready): a rejection fails the task; else
///   cancellation fails it as `Cancelled`; else the attempt count goes up and
///   the agent runs with the run's step limit.
/// - `Attempt` (while running): an answer becomes the successful result, held
///   for the post-run checks; a failure or timeout is retried (after a wait of
///   the policy's backoff) or fails the task as `after_attempt` says.
/// - `After` (while answered): a rejection fails the task with the rejection's
///   message and kind; else the answer is the result.
/// - Any other event leaves the run as it is.
pub open spec fn task_step_relation(run: TaskRun, event: TaskEvent, next: TaskRun, action: TaskAction) -> bool {
    let ignored = next == run && action == TaskAction::Ignore;
    match event {
        TaskEvent::Started { now_unix_ms, cancelled, pre } => if run.phase != TaskPhase::Starting {
            ignored
        } else {
            match pre {
                Err(rej) => task_failed(run, next, action, rej.message@, rej.error_kind),
                Ok(_) => if run.task.deadline_unix_ms matches Some(d) && d <= now_unix_ms {
                    task_failed(run, next, action, "Task deadline exceeded before execution"@, ErrorKind::DeadlineExceeded)
                } else if cancelled {
                    task_failed(run, next, action, "Task cancelled before execution"@, ErrorKind::Cancelled)
                } else {
                    next == (TaskRun { phase: TaskPhase::Ready, ..run }) && action == TaskAction::CheckBeforeAttempt
                },
            }
        },
        TaskEvent::BeforeAttempt { cancelled, mid } => if run.phase != TaskPhase::Ready {
            ignored
        } else {
            match mid {
                Err(rej) => task_failed(run, next, action, rej.message@, rej.error_kind),
                Ok(_) => if cancelled {
                    task_failed(run, next, action, "Task cancelled during execution"@, ErrorKind::Cancelled)
                } else {
                    next == (TaskRun { phase: TaskPhase::Running, attempts: next_attempt(run.attempts), ..run })
                        && action == (TaskAction::RunAgent { max_steps: run.step_limit })
                },
            }
        },
        TaskEvent::Attempt(outcome) => if run.phase != TaskPhase::Running {
            ignored
        } else {
            match outcome {
                AttemptOutcome::Completed { output, steps_used, session_id } => {
                    &&& action == TaskAction::CheckAfter
                    &&& next.phase == TaskPhase::Answered
                    &&& next == (TaskRun { phase: TaskPhase::Answered, answer: next.answer, ..run })
                    &&& next.answer matches Some(a) && {
                        &&& a.task_id@ == run.task.task_id@
                        &&& a.agent_id@ == run.agent_id@
                        &&& a.output == output
                        &&& a.success
                        &&& a.error is None
                        &&& a.steps_used == steps_used
                        &&& a.session_id == session_id
                    }
                },
                _ => if attempt_retried(run.policy, run.attempts, outcome) {
                    next == (TaskRun { phase: TaskPhase::Ready, ..run })
                        && action == (TaskAction::Wait { backoff_ms: run.policy.backoff_ms })
                } else {
                    task_failed(run, next, action, attempt_error(outcome).0, attempt_error(outcome).1)
                },
            }
        },
        TaskEvent::After { post } => if run.phase != TaskPhase::Answered || run.answer is None {
            ignored
        } else {
            match post {
                Err(rej) => task_failed(run, next, action, rej.message@, rej.error_kind),
                Ok(_) => next == (TaskRun { phase: TaskPhase::Finished, answer: None, ..run })
                    && action == (TaskAction::Finish { result: run.answer.unwrap(), kind: None }),
            }
        },
    }
}

/// End the run with a failed result.
fn fail_run(run: TaskRun, error: String, kind: ErrorKind) -> (r: (TaskRun, TaskAction))
    ensures
        task_failed(run, r.0, r.1, error@, kind),
{
    let result = TaskResult::failure(run.task.task_id.clone(), run.agent_id.clone(), error);
    (TaskRun { phase: TaskPhase::Finished, answer: None, ..run }, TaskAction::Finish { result, kind: Some(kind) })
}

/// Move the run of a task on an event the host observed, and say what the
/// host does next (see `task_step_relation`).
pub fn task_step(run: TaskRun, event: TaskEvent) -> (r: (TaskRun, TaskAction))
    ensures
        task_step_relation(run, event, r.0, r.1),
{
    match event {
        TaskEvent::Started { now_unix_ms, cancelled, pre } => {
            if run.phase != TaskPhase::Starting {
                return (run, TaskAction::Ignore);
            }
            match pre {
                Err(rej) => {
                    let kind = rej.error_kind;
                    fail_run(run, rej.message, kind)
                },
                Ok(_) => {
                    let expired = match run.task.deadline_unix_ms {
                        Some(d) => d <= now_unix_ms,
                        None => false,
                    };
                    if expired {
                        fail_run(run, "Task deadline exceeded before execution".to_owned(), ErrorKind::DeadlineExceeded)
                    } else if cancelled {
                        fail_run(run, "Task cancelled before execution".to_owned(), ErrorKind::Cancelled)
                    } else {
                        (TaskRun { phase: TaskPhase::Ready, ..run }, TaskAction::CheckBeforeAttempt)
                    }
                },
            }
        },
        TaskEvent::BeforeAttempt { cancelled, mid } => {
            if run.phase != TaskPhase::Ready {
                return (run, TaskAction::Ignore);
            }
            match mid {
                Err(rej) => {
                    let kind = rej.error_kind;
                    fail_run(run, rej.message, kind)
                },
                Ok(_) => {
                    if cancelled {
                        fail_run(run, "Task cancelled during execution".to_owned(), ErrorKind::Cancelled)
                    } else {
                        let attempts = if run.attempts < 255 {
                            run.attempts + 1
                        } else {
                            255
                        };
                        let max_steps = run.step_limit;
                        (TaskRun { phase: TaskPhase::Running, attempts, ..run }, TaskAction::RunAgent { max_steps })
                    }
                },
            }
        },
        TaskEvent::Attempt(outcome) => {
            if run.phase != TaskPhase::Running {
                return (run, TaskAction::Ignore);
            }
            match outcome {
                AttemptOutcome::Completed { output, steps_used, session_id } => {
                    let answer = TaskResult::success(
                        run.task.task_id.clone(),
                        run.agent_id.clone(),
                        output,
                        steps_used,
                        session_id,
                    );
                    (TaskRun { phase: TaskPhase::Answered, answer: Some(answer), ..run }, TaskAction::CheckAfter)
                },
                _ => {
                    let ghost o = outcome;
                    match after_attempt(&run.policy, run.attempts, outcome) {
                        AttemptStep::Retry { backoff_ms } => {
                            (TaskRun { phase: TaskPhase::Ready, ..run }, TaskAction::Wait { backoff_ms })
                        },
                        AttemptStep::Fail { error, kind } => fail_run(run, error, kind),
                        AttemptStep::Accept => {
                            proof {
                                assert(o is Completed);
                            }
                            (run, TaskAction::Ignore)
                        },
                    }
                },
            }
        },
        TaskEvent::After { post } => {
            if run.phase != TaskPhase::Answered || run.answer.is_none() {
                return (run, TaskAction::Ignore);
            }
            match post {
                Err(rej) => {
                    let kind = rej.error_kind;
                    fail_run(run, rej.message, kind)
                },
                Ok(_) => {
                    let mut run = run;
                    let answer = run.answer.take();
                    match answer {
                        Some(result) => (
                            TaskRun { phase: TaskPhase::Finished, answer: None, ..run },
                            TaskAction::Finish { result, kind: None },
                        ),
                        None => (run, TaskAction::Ignore),
                    }
                },
            }
        },
    }
}

/// Number of times the agent is run in a sequence of actions.
pub open spec fn agent_runs(actions: Seq<TaskAction>) -> nat
    decreases actions.len(),
{
    if actions.len() == 0 {
        0
    } else {
        agent_runs(actions.drop_last()) + if actions.last() is RunAgent {
            1nat
        } else {
            0nat
        }
    }
}

/// A trace of `task_step`: from `runs[i]` the event `events[i]` gives the run
/// `runs[i + 1]` and the action `actions[i]`.
pub open spec fn is_task_trace(runs: Seq<TaskRun>, events: Seq<TaskEvent>, actions: Seq<TaskAction>) -> bool {
    &&& runs.len() == events.len() + 1
    &&& actions.len() == events.len()
    &&& forall|i: int| 0 <= i < events.len() ==> #[trigger] task_step_relation(runs[i], events[i], runs[i + 1], actions[i])
}

/// What holds after the first `k` steps of a trace that starts fresh.
proof fn lemma_trace_prefix(runs: Seq<TaskRun>, events: Seq<TaskEvent>, actions: Seq<TaskAction>, k: int)
    requires
        is_task_trace(runs, events, actions),
        runs[0].attempts == 0,
        runs[0].phase == TaskPhase::Starting,
        runs[0].policy.max_retries < 255,
        0 <= k <= events.len(),
    ensures
        runs[k].policy == runs[0].policy,
        runs[k].step_limit == runs[0].step_limit,
        agent_runs(actions.take(k)) == runs[k].attempts,
        runs[k].attempts <= runs[0].policy.max_retries + 1,
        runs[k].phase == TaskPhase::Ready ==> runs[k].attempts <= runs[0].policy.max_retries,
        runs[k].phase == TaskPhase::Starting ==> runs[k].attempts == 0,
    decreases k,
{
    if k == 0 {
        assert(actions.take(0) =~= Seq::<TaskAction>::empty());
    } else {
        let j = k - 1;
        lemma_trace_prefix(runs, events, actions, j);
        assert(task_step_relation(runs[j], events[j], runs[j + 1], actions[j]));
        assert(actions.take(k).drop_last() =~= actions.take(j));
        assert(actions.take(k).last() == actions[j]);
        match events[j] {
            TaskEvent::Attempt(outcome) => {
                if runs[j].phase == TaskPhase::Running && !(outcome is Completed) && attempt_retried(runs[j].policy, runs[j].attempts, outcome) {
                    assert(runs[j].attempts <= runs[j].policy.max_retries);
                }
            },
            _ => {},
        }
    }
}

/// A task's agent runs at most `max_retries + 1` times, each time with the
/// run's step limit: over any trace of `task_step` that starts from a fresh run
/// (as `TaskRun::new` makes it), counting every `RunAgent` action. The bound
/// needs `max_retries` below 255, where the attempt count saturates.
pub proof fn law_task_runs_agent_within_retries(runs: Seq<TaskRun>, events: Seq<TaskEvent>, actions: Seq<TaskAction>)
    requires
        is_task_trace(runs, events, actions),
        runs[0].attempts == 0,
        runs[0].phase == TaskPhase::Starting,
        runs[0].policy.max_retries < 255,
    ensures
        agent_runs(actions) <= runs[0].policy.max_retries + 1,
        forall|i: int| 0 <= i < actions.len() && (#[trigger] actions[i]) is RunAgent
            ==> actions[i] == (TaskAction::RunAgent { max_steps: runs[0].step_limit }),
{
    lemma_trace_prefix(runs, events, actions, events.len() as int);
    assert(actions.take(events.len() as int) =~= actions);
    assert forall|i: int| 0 <= i < actions.len() && (#[trigger] actions[i]) is RunAgent
        implies actions[i] == (TaskAction::RunAgent { max_steps: runs[0].step_limit }) by {
        lemma_trace_prefix(runs, events, actions, i);
        assert(task_step_relation(runs[i], events[i], runs[i + 1], actions[i]));
    }
}

/// After a `Finish` the run is finished and stays so.
proof fn lemma_finished_stays(runs: Seq<TaskRun>, events: Seq<TaskEvent>, actions: Seq<TaskAction>, i: int, j: int)
    requires
        is_task_trace(runs, events, actions),
        0 <= i < j <= events.len(),
        actions[i] is Finish,
    ensures
        runs[j].phase == TaskPhase::Finished,
    decreases j - i,
{
    assert(task_step_relation(runs[i], events[i], runs[i + 1], actions[i]));
    if j > i + 1 {
        let m = j - 1;
        lemma_finished_stays(runs, events, actions, i, m);
        assert(task_step_relation(runs[m], events[m], runs[m + 1], actions[m]));
    }
}

/// Once a task is finished (a rejection by a guardrail, a deadline that has
/// passed, cancellation, a failed attempt or the accepted answer), the agent
/// is never run again: no `RunAgent` follows a `Finish` in a trace of `task_step`.
pub proof fn law_no_agent_run_after_finish(runs: Seq<TaskRun>, events: Seq<TaskEvent>, actions: Seq<TaskAction>, i: int, j: int)
    requires
        is_task_trace(runs, events, actions),
        0 <= i < j < actions.len(),
        actions[i] is Finish,
    ensures
        !(actions[j] is RunAgent),
{
    lemma_finished_stays(runs, events, actions, i, j);
    assert(task_step_relation(runs[j], events[j], runs[j + 1], actions[j]));
}

// ── Sequential pipeline ─────────────────────────────────────────────────────

/// The input of a pipeline task that follows another: the previous output,
/// then the task's own input.
pub open spec fn chained_input(previous: Seq<char>, input: Seq<char>) -> Seq<char> {
    "Previous step output:\n"@ + previous + "\n\n---\nCurrent task:\n"@ + input
}

/// The input of a pipeline task that follows one whose output was `previous`.
pub fn pipeline_task_input(previous: &str, input: &str) -> (r: String)
    ensures
        r@ == chained_input(previous@, input@),
{
    let mut r = "Previous step output:\n".to_owned();
    r.append(previous);
    r.append("\n\n---\nCurrent task:\n");
    r.append(input);
    r
}

/// Whether only the last of `rs` may have failed.
pub open spec fn failures_only_last(rs: Seq<TaskResult>) -> bool {
    forall|i: int| 0 <= i < rs.len() - 1 ==> (#[trigger] rs[i]).success
}

/// A sequential pipeline in progress: the tasks still to run, in order, the
/// results so far, and the output to chain into the next task.
pub struct PipelineRun {
    pending: Vec<AgentTask>,
    results: Vec<TaskResult>,
    previous_output: Option<String>,
    stopped: bool,
}

impl PipelineRun {
    /// Tasks still to run, in order.
    pub closed spec fn pending_spec(&self) -> Seq<AgentTask> {
        self.pending@
    }

    /// Results so far, in order.
    pub closed spec fn results_spec(&self) -> Seq<TaskResult> {
        self.results@
    }

    /// The output chained into the next task.
    pub closed spec fn previous_spec(&self) -> Option<Seq<char>> {
        match self.previous_output {
            Some(p) => Some(p@),
            None => None,
        }
    }

    /// Whether a task failed, which ends the pipeline.
    pub closed spec fn stopped_spec(&self) -> bool {
        self.stopped
    }

    /// The pipeline has stopped exactly when its last result failed, and no
    /// earlier result failed.
    pub open spec fn wf(&self) -> bool {
        &&& failures_only_last(self.results_spec())
        &&& self.stopped_spec() <==> (self.results_spec().len() > 0 && !self.results_spec().last().success)
    }

    /// A pipeline over `tasks`, nothing run yet.
    pub fn new(tasks: Vec<AgentTask>) -> (r: Self)
        ensures
            r.wf(),
            r.pending_spec() == tasks@,
            r.results_spec().len() == 0,
            r.previous_spec() is None,
            !r.stopped_spec(),
    {
        PipelineRun { pending: tasks, results: Vec::new(), previous_output: None, stopped: false }
    }

    /// The next task to run, its input preceded by the previous output; none
    /// once a task failed or every task ran.
    pub fn next_task(&mut self) -> (r: Option<AgentTask>)
        requires
            old(self).wf(),
        ensures
            final(self).wf(),
            next_task_relation(*old(self), *final(self), r),
    {
        if self.stopped || self.pending.len() == 0 {
            return None;
        }
        let task = self.pending.remove(0);
        proof {
            assert(self.pending@ =~= old(self).pending@.drop_first());
        }
        let previous = self.previous_output.take();
        match previous {
            Some(p) => {
                let input = pipeline_task_input(p.as_str(), task.input.as_str());
                Some(AgentTask { input, ..task })
            },
            None => Some(task),
        }
    }

    /// Record the result of the task just run: a failure ends the pipeline; a
    /// success chains its output (as JSON text) into the next task.
    pub fn record(&mut self, result: TaskResult)
        requires
            old(self).wf(),
            !old(self).stopped_spec(),
        ensures
            final(self).wf(),
            record_relation(*old(self), *final(self), result),
    {
        let success = result.success;
        let output = to_text(&result.output);
        self.results.push(result);
        if success {
            self.previous_output = Some(output);
        } else {
            self.previous_output = None;
            self.stopped = true;
        }
        proof {
            let rs = self.results@;
            assert forall|i: int| 0 <= i < rs.len() - 1 implies (#[trigger] rs[i]).success by {
                assert(rs[i] == old(self).results@[i]);
                assert(!old(self).stopped);
                if i < old(self).results@.len() - 1 {
                } else {
                    assert(i == old(self).results@.len() - 1);
                }
            }
        }
    }

    /// The combined result of the tasks run (see `PipelineResult::from_results`).
    pub fn finish(self) -> (r: PipelineResult)
        requires
            total_steps_spec(self.results_spec()) <= usize::MAX,
        ensures
            combines(r, self.results_spec()),
    {
        PipelineResult::from_results(self.results)
    }
}

/// `t` is the task `first` with its input replaced by `input`.
pub open spec fn dispatched_as(t: AgentTask, first: AgentTask, input: Seq<char>) -> bool {
    &&& t.task_id == first.task_id
    &&& t.agent_id == first.agent_id
    &&& t.session_id == first.session_id
    &&& t.max_steps == first.max_steps
    &&& t.timeout_ms == first.timeout_ms
    &&& t.budget_steps == first.budget_steps
    &&& t.deadline_unix_ms == first.deadline_unix_ms
    &&& t.retry_policy == first.retry_policy
    &&& t.input@ == input
}

/// What `next_task` does: nothing once a task failed or every task ran; else
/// it hands out the first pending task, its input preceded by the previous
/// output when there is one, and forgets that output.
pub open spec fn next_task_relation(before: PipelineRun, after: PipelineRun, r: Option<AgentTask>) -> bool {
    &&& after.results_spec() == before.results_spec()
    &&& after.stopped_spec() == before.stopped_spec()
    &&& if before.stopped_spec() || before.pending_spec().len() == 0 {
        &&& r is None
        &&& after.pending_spec() == before.pending_spec()
        &&& after.previous_spec() == before.previous_spec()
    } else {
        &&& r matches Some(t) && dispatched_as(t, before.pending_spec()[0], match before.previous_spec() {
            Some(p) => chained_input(p, before.pending_spec()[0].input@),
            None => before.pending_spec()[0].input@,
        })
        &&& after.pending_spec() == before.pending_spec().drop_first()
        &&& after.previous_spec() is None
    }
}

/// What `record` does: the result is appended; a failure stops the pipeline,
/// a success keeps its output (as JSON text) for the next task.
pub open spec fn record_relation(before: PipelineRun, after: PipelineRun, result: TaskResult) -> bool {
    &&& after.results_spec() == before.results_spec().push(result)
    &&& after.pending_spec() == before.pending_spec()
    &&& after.stopped_spec() == !result.success
    &&& after.previous_spec() == if result.success {
        Some(json_text(result.output))
    } else {
        None::<Seq<char>>
    }
}

/// The input the pipeline hands the task at `i`: the task's own input for the
/// first, else the previous result's output (as JSON text) before it.
pub open spec fn pipeline_input(tasks: Seq<AgentTask>, results: Seq<TaskResult>, i: int) -> Seq<char> {
    if i == 0 {
        tasks[0].input@
    } else {
        chained_input(json_text(results[i - 1].output), tasks[i].input@)
    }
}

/// A whole pipeline run: from `states[0]`, a fresh run over `tasks`, each
/// `next_task` hands out `dispatched[i]` (leaving `mids[i]`), recording
/// `results[i]` gives `states[i + 1]`, and at the end `next_task` hands out nothing.
pub open spec fn is_pipeline_run(
    tasks: Seq<AgentTask>,
    states: Seq<PipelineRun>,
    mids: Seq<PipelineRun>,
    dispatched: Seq<AgentTask>,
    results: Seq<TaskResult>,
) -> bool {
    &&& states.len() == results.len() + 1
    &&& mids.len() == results.len()
    &&& dispatched.len() == results.len()
    &&& states[0].wf()
    &&& states[0].pending_spec() == tasks
    &&& states[0].results_spec().len() == 0
    &&& states[0].previous_spec() is None
    &&& !states[0].stopped_spec()
    &&& forall|i: int| 0 <= i < results.len() ==> next_task_relation(states[i], mids[i], Some(#[trigger] dispatched[i]))
    &&& forall|i: int| 0 <= i < results.len() ==> record_relation(#[trigger] mids[i], states[i + 1], results[i])
    &&& ({
        let last = states[results.len() as int];
        last.stopped_spec() || last.pending_spec().len() == 0
    })
}

proof fn lemma_pipeline_prefix(
    tasks: Seq<AgentTask>,
    states: Seq<PipelineRun>,
    mids: Seq<PipelineRun>,
    dispatched: Seq<AgentTask>,
    results: Seq<TaskResult>,
    k: int,
)
    requires
        is_pipeline_run(tasks, states, mids, dispatched, results),
        0 <= k <= results.len(),
    ensures
        k <= tasks.len(),
        states[k].results_spec() == results.take(k),
        states[k].pending_spec() == tasks.skip(k),
        states[k].stopped_spec() == (k > 0 && !results[k - 1].success),
        states[k].previous_spec() == if k > 0 && results[k - 1].success {
            Some(json_text(results[k - 1].output))
        } else {
            None::<Seq<char>>
        },
        forall|i: int| 0 <= i < k - 1 ==> (#[trigger] results[i]).success,
    decreases k,
{
    if k == 0 {
        assert(results.take(0) =~= Seq::<TaskResult>::empty());
        assert(tasks.skip(0) =~= tasks);
    } else {
        let j = k - 1;
        lemma_pipeline_prefix(tasks, states, mids, dispatched, results, j);
        let before = states[j];
        let mid = mids[j];
        let after = states[j + 1];
        assert(next_task_relation(before, mid, Some(dispatched[j])));
        assert(record_relation(mid, after, results[j]));
        lemma_pipeline_step(tasks, results, j, before, mid, after, dispatched[j]);
    }
}

/// The task handed out at `i` is the task at `i` with its pipeline input.
proof fn lemma_pipeline_dispatch(
    tasks: Seq<AgentTask>,
    states: Seq<PipelineRun>,
    mids: Seq<PipelineRun>,
    dispatched: Seq<AgentTask>,
    results: Seq<TaskResult>,
    i: int,
)
    requires
        is_pipeline_run(tasks, states, mids, dispatched, results),
        0 <= i < results.len(),
    ensures
        dispatched_as(dispatched[i], tasks[i], pipeline_input(tasks, results, i)),
{
    lemma_pipeline_prefix(tasks, states, mids, dispatched, results, i);
    let before = states[i];
    let mid = mids[i];
    let after = states[i + 1];
    assert(next_task_relation(before, mid, Some(dispatched[i])));
    assert(record_relation(mid, after, results[i]));
    lemma_pipeline_step(tasks, results, i, before, mid, after, dispatched[i]);
}

/// One dispatch and record of a pipeline run.
proof fn lemma_pipeline_step(
    tasks: Seq<AgentTask>,
    results: Seq<TaskResult>,
    j: int,
    before: PipelineRun,
    mid: PipelineRun,
    after: PipelineRun,
    t: AgentTask,
)
    requires
        0 <= j < results.len(),
        j <= tasks.len(),
        before.results_spec() == results.take(j),
        before.pending_spec() == tasks.skip(j),
        before.stopped_spec() == (j > 0 && !results[j - 1].success),
        before.previous_spec() == if j > 0 && results[j - 1].success {
            Some(json_text(results[j - 1].output))
        } else {
            None::<Seq<char>>
        },
        next_task_relation(before, mid, Some(t)),
        record_relation(mid, after, results[j]),
    ensures
        j < tasks.len(),
        j > 0 ==> results[j - 1].success,
        dispatched_as(t, tasks[j], pipeline_input(tasks, results, j)),
        after.results_spec() == results.take(j + 1),
        after.pending_spec() == tasks.skip(j + 1),
        after.stopped_spec() == !results[j].success,
        after.previous_spec() == if results[j].success {
            Some(json_text(results[j].output))
        } else {
            None::<Seq<char>>
        },
{
    assert(!(before.stopped_spec() || before.pending_spec().len() == 0));
    assert(tasks.skip(j)[0] == tasks[j]);
    assert(tasks.skip(j).drop_first() =~= tasks.skip(j + 1));
    assert(results.take(j).push(results[j]) =~= results.take(j + 1));
}

/// A sequential pipeline over `tasks` dispatches the tasks in order and only up
/// to the first failure: every result but the last succeeded, and the run
/// stopped early only because the last one failed. Each task after the first
/// receives the previous output before its own input, and the combined result
/// is made of exactly the results of the tasks run.
pub proof fn law_pipeline_run(
    tasks: Seq<AgentTask>,
    states: Seq<PipelineRun>,
    mids: Seq<PipelineRun>,
    dispatched: Seq<AgentTask>,
    results: Seq<TaskResult>,
)
    requires
        is_pipeline_run(tasks, states, mids, dispatched, results),
    ensures
        results.len() <= tasks.len(),
        forall|i: int| 0 <= i < results.len() - 1 ==> (#[trigger] results[i]).success,
        results.len() < tasks.len() ==> results.len() > 0 && !results.last().success,
        forall|i: int| 0 <= i < results.len() ==> dispatched_as(#[trigger] dispatched[i], tasks[i], pipeline_input(tasks, results, i)),
        states[results.len() as int].results_spec() == results,
{
    let k = results.len() as int;
    lemma_pipeline_prefix(tasks, states, mids, dispatched, results, k);
    assert(results.take(k) =~= results);
    assert forall|i: int| 0 <= i < results.len() implies dispatched_as(
        #[trigger] dispatched[i],
        tasks[i],
        pipeline_input(tasks, results, i),
    ) by {
        lemma_pipeline_dispatch(tasks, states, mids, dispatched, results, i);
    }
}

/// A pipeline never runs a task after a failed one: once a result failed,
/// every later result would follow a failure, which the run does not allow;
/// so in a well-formed run every result but the last succeeded.
pub proof fn law_pipeline_stops_at_first_failure(run: PipelineRun)
    requires
        run.wf(),
    ensures
        forall|i: int| 0 <= i < run.results_spec().len() - 1 ==> (#[trigger] run.results_spec()[i]).success,
        run.stopped_spec() ==> !run.results_spec().last().success,
{
}

} // verus!
