//! Guardrails: policy checks before a task starts, before each attempt and
//! after a result is produced. Built-ins check timeouts, step budgets, a
//! rolling dispatch rate and cancellation.
use std::collections::VecDeque;
use vstd::prelude::*;

use crate::clock::unix_time_ms;

use crate::decimal::{decimal, push_decimal};
use crate::multi_agent::registry::AgentProfile;
use crate::multi_agent::task::{AgentTask, ErrorKind, TaskResult};

verus! {

/// Execution phase where a guardrail is evaluated.
#[derive(Debug, Clone, Copy, PartialEq, Eq, Structural)]
pub enum GuardrailStage {
    PreCheck,
    MidCheck,
    PostCheck,
}

/// Stable name of a stage.
pub open spec fn stage_name(s: GuardrailStage) -> Seq<char> {
    match s {
        GuardrailStage::PreCheck => "pre_check"@,
        GuardrailStage::MidCheck => "mid_check"@,
        GuardrailStage::PostCheck => "post_check"@,
    }
}

impl GuardrailStage {
    /// Stable string form for telemetry and metadata.
    pub fn as_str(self) -> (r: &'static str)
        ensures
            r@ == stage_name(self),
    {
        match self {
            GuardrailStage::PreCheck => "pre_check",
            GuardrailStage::MidCheck => "mid_check",
            GuardrailStage::PostCheck => "post_check",
        }
    }
}

/// Why a guardrail rejected a task.
#[derive(Debug, Clone, PartialEq, Eq)]
pub struct GuardrailRejection {
    pub guardrail_name: String,
    pub stage: GuardrailStage,
    pub error_kind: ErrorKind,
    pub message: String,
}

/// Whether `r` carries exactly these fields.
pub open spec fn rejection_is(r: GuardrailRejection, name: Seq<char>, stage: GuardrailStage, kind: ErrorKind, message: Seq<char>) -> bool {
    r.guardrail_name@ == name && r.stage == stage && r.error_kind == kind && r.message@ == message
}

impl GuardrailRejection {
    /// A rejection with these fields.
    pub fn new(guardrail_name: &str, stage: GuardrailStage, error_kind: ErrorKind, message: &str) -> (r: Self)
        ensures
            rejection_is(r, guardrail_name@, stage, error_kind, message@),
    {
        GuardrailRejection {
            guardrail_name: guardrail_name.to_owned(),
            stage,
            error_kind,
            message: message.to_owned(),
        }
    }
}

/// Point-in-time view of the orchestrator budget.
#[derive(Debug, Clone, Copy, PartialEq, Eq)]
pub struct BudgetSnapshot {
    pub max_concurrent_tasks: Option<usize>,
    pub max_total_steps: Option<usize>,
    pub max_total_tasks: Option<usize>,
    pub consumed_steps: usize,
    pub dispatched_tasks: usize,
}

/// Information available to guardrails.
#[derive(Debug, Clone, PartialEq, Eq)]
pub struct GuardrailContext {
    pub budget_snapshot: BudgetSnapshot,
    pub cancelled: bool,
    pub now_unix_ms: i64,
    pub attempt: u8,
    pub execution_mode: String,
}

/// Whether the orchestrator step budget is exhausted.
pub open spec fn step_exhausted(b: BudgetSnapshot) -> bool {
    b.max_total_steps matches Some(max) && b.consumed_steps >= max
}

/// Whether the orchestrator task budget is exhausted.
pub open spec fn task_exhausted(b: BudgetSnapshot) -> bool {
    b.max_total_tasks matches Some(max) && b.dispatched_tasks >= max
}

impl GuardrailContext {
    /// A context stamped with the current clock.
    pub fn new(budget_snapshot: BudgetSnapshot, cancelled: bool, attempt: u8, execution_mode: &str) -> (r: Self)
        ensures
            r.budget_snapshot == budget_snapshot,
            r.cancelled == cancelled,
            r.attempt == attempt,
            r.execution_mode@ == execution_mode@,
    {
        GuardrailContext {
            budget_snapshot,
            cancelled,
            now_unix_ms: unix_time_ms() as i64,
            attempt,
            execution_mode: execution_mode.to_owned(),
        }
    }

    /// Whether consumed steps reached the step ceiling.
    pub fn step_budget_exhausted(&self) -> (r: bool)
        ensures
            r == step_exhausted(self.budget_snapshot),
    {
        match self.budget_snapshot.max_total_steps {
            Some(max) => self.budget_snapshot.consumed_steps >= max,
            None => false,
        }
    }

    /// Whether dispatched tasks reached the task ceiling.
    pub fn task_budget_exhausted(&self) -> (r: bool)
        ensures
            r == task_exhausted(self.budget_snapshot),
    {
        match self.budget_snapshot.max_total_tasks {
            Some(max) => self.budget_snapshot.dispatched_tasks >= max,
            None => false,
        }
    }
}

/// Policy hook around task execution, implemented by built-ins and hosts.
pub trait TaskGuardrail {
    /// Stable name of the guardrail.
    fn name(&self) -> &'static str;

    /// Run before any task work starts; unless a guardrail says otherwise, it
    /// lets the task through.
    fn pre_check(&self, task: &AgentTask, profile: &AgentProfile, context: &GuardrailContext) -> (r: Result<(), GuardrailRejection>)
        default_ensures
            r is Ok,
    {
        Ok(())
    }

    /// Run before each attempt; unless a guardrail says otherwise, it lets the
    /// attempt through.
    fn mid_check(&self, task: &AgentTask, profile: &AgentProfile, context: &GuardrailContext) -> (r: Result<(), GuardrailRejection>)
        default_ensures
            r is Ok,
    {
        Ok(())
    }

    /// Run after a result is produced; unless a guardrail says otherwise, it
    /// accepts the result.
    fn post_check(&self, task: &AgentTask, profile: &AgentProfile, result: &TaskResult, context: &GuardrailContext) -> (r: Result<(), GuardrailRejection>)
        default_ensures
            r is Ok,
    {
        Ok(())
    }
}

// ── Timeout ─────────────────────────────────────────────────────────────────

/// Checks each task's timeout before it starts.
#[derive(Debug, Clone, Copy, PartialEq, Eq)]
pub struct TimeoutGuardrail {
    pub max_timeout_ms: u64,
    pub require_explicit_timeout: bool,
}

impl TimeoutGuardrail {
    /// A guardrail allowing timeouts up to `max_timeout_ms`.
    pub fn new(max_timeout_ms: u64) -> (r: Self)
        ensures
            r == (TimeoutGuardrail { max_timeout_ms, require_explicit_timeout: false }),
    {
        TimeoutGuardrail { max_timeout_ms, require_explicit_timeout: false }
    }

    /// Also reject tasks without a timeout.
    pub fn require_timeout(self) -> (r: Self)
        ensures
            r == (TimeoutGuardrail { require_explicit_timeout: true, ..self }),
    {
        TimeoutGuardrail { require_explicit_timeout: true, ..self }
    }
}

/// Outcome of the timeout pre-check.
pub open spec fn timeout_pre_check_ok(g: TimeoutGuardrail, task: AgentTask, r: Result<(), GuardrailRejection>) -> bool {
    if g.require_explicit_timeout && task.timeout_ms is None {
        r matches Err(e) && rejection_is(e, "timeout"@, GuardrailStage::PreCheck, ErrorKind::Permanent,
            "Task must define timeout_ms to satisfy timeout guardrail"@)
    } else if task.timeout_ms is Some && task.timeout_ms.unwrap() > g.max_timeout_ms {
        r matches Err(e) && rejection_is(e, "timeout"@, GuardrailStage::PreCheck, ErrorKind::Permanent,
            "Task timeout "@ + decimal(task.timeout_ms.unwrap() as nat) + " ms exceeds allowed maximum "@ + decimal(g.max_timeout_ms as nat)
                + " ms"@)
    } else {
        r is Ok
    }
}

impl TaskGuardrail for TimeoutGuardrail {
    fn name(&self) -> (r: &'static str)
        ensures
            r@ == "timeout"@,
    {
        "timeout"
    }

    /// Reject a missing timeout when one is required, and a timeout above the maximum.
    fn pre_check(&self, task: &AgentTask, profile: &AgentProfile, context: &GuardrailContext) -> (r: Result<(), GuardrailRejection>)
        ensures
            timeout_pre_check_ok(*self, *task, r),
    {
        if self.require_explicit_timeout && task.timeout_ms.is_none() {
            return Err(
                GuardrailRejection::new(
                    "timeout",
                    GuardrailStage::PreCheck,
                    ErrorKind::Permanent,
                    "Task must define timeout_ms to satisfy timeout guardrail",
                ),
            );
        }
        if let Some(timeout_ms) = task.timeout_ms {
            if timeout_ms > self.max_timeout_ms {
                let mut message = "Task timeout ".to_owned();
                push_decimal(&mut message, timeout_ms);
                message.append(" ms exceeds allowed maximum ");
                push_decimal(&mut message, self.max_timeout_ms);
                message.append(" ms");
                return Err(
                    GuardrailRejection::new("timeout", GuardrailStage::PreCheck, ErrorKind::Permanent, message.as_str()),
                );
            }
        }
        Ok(())
    }
}

// ── Budget ──────────────────────────────────────────────────────────────────

/// Enforces per-task step ceilings and the orchestrator budget.
#[derive(Debug, Clone, Copy, PartialEq, Eq)]
pub struct BudgetGuardrail {
    pub max_task_steps: Option<usize>,
    pub require_explicit_budget: bool,
    pub reject_when_orchestrator_exhausted: bool,
}

impl Default for BudgetGuardrail {
    fn default() -> (r: Self)
        ensures
            r == (BudgetGuardrail {
                max_task_steps: None,
                require_explicit_budget: false,
                reject_when_orchestrator_exhausted: false,
            }),
    {
        BudgetGuardrail { max_task_steps: None, require_explicit_budget: false, reject_when_orchestrator_exhausted: false }
    }
}

/// Steps a task asks for: its budget, else its step limit, else the profile's.
pub open spec fn requested_steps_spec(task: AgentTask, profile: AgentProfile) -> Option<usize> {
    if task.budget_steps is Some {
        task.budget_steps
    } else if task.max_steps is Some {
        task.max_steps
    } else {
        profile.max_steps
    }
}

/// Outcome of the budget pre-check.
pub open spec fn budget_pre_check_ok(g: BudgetGuardrail, task: AgentTask, profile: AgentProfile, ctx: GuardrailContext, r: Result<(), GuardrailRejection>) -> bool {
    if g.reject_when_orchestrator_exhausted && (step_exhausted(ctx.budget_snapshot) || task_exhausted(ctx.budget_snapshot)) {
        r matches Err(e) && rejection_is(e, "budget"@, GuardrailStage::PreCheck, ErrorKind::BudgetExhausted,
            "Orchestrator budget exhausted before task start"@)
    } else if g.require_explicit_budget && task.budget_steps is None {
        r matches Err(e) && rejection_is(e, "budget"@, GuardrailStage::PreCheck, ErrorKind::Permanent,
            "Task must define budget_steps to satisfy budget guardrail"@)
    } else if g.max_task_steps is Some && requested_steps_spec(task, profile) is Some
        && requested_steps_spec(task, profile).unwrap() > g.max_task_steps.unwrap() {
        r matches Err(e) && rejection_is(e, "budget"@, GuardrailStage::PreCheck, ErrorKind::BudgetExhausted,
            "Task requests "@ + decimal(requested_steps_spec(task, profile).unwrap() as nat)
                + " steps but budget guardrail allows at most "@ + decimal(g.max_task_steps.unwrap() as nat))
    } else {
        r is Ok
    }
}

/// Outcome of the budget post-check.
pub open spec fn budget_post_check_ok(g: BudgetGuardrail, result: TaskResult, ctx: GuardrailContext, r: Result<(), GuardrailRejection>) -> bool {
    if g.max_task_steps is Some && result.success && result.steps_used > g.max_task_steps.unwrap() {
        r matches Err(e) && rejection_is(e, "budget"@, GuardrailStage::PostCheck, ErrorKind::BudgetExhausted,
            "Task consumed "@ + decimal(result.steps_used as nat) + " steps which exceeds the guardrail limit "@
                + decimal(g.max_task_steps.unwrap() as nat))
    } else if g.reject_when_orchestrator_exhausted && ctx.budget_snapshot.max_total_steps is Some
        && (if ctx.budget_snapshot.consumed_steps + result.steps_used > usize::MAX {
        usize::MAX as int
    } else {
        ctx.budget_snapshot.consumed_steps + result.steps_used
    }) > ctx.budget_snapshot.max_total_steps.unwrap() {
        r matches Err(e) && rejection_is(e, "budget"@, GuardrailStage::PostCheck, ErrorKind::BudgetExhausted,
            "Task result would exceed the orchestrator step budget"@)
    } else {
        r is Ok
    }
}

impl BudgetGuardrail {
    /// A guardrail with no step ceiling that rejects tasks once the orchestrator
    /// budget is exhausted.
    pub fn new() -> (r: Self)
        ensures
            r == (BudgetGuardrail {
                max_task_steps: None,
                require_explicit_budget: false,
                reject_when_orchestrator_exhausted: true,
            }),
    {
        BudgetGuardrail { max_task_steps: None, require_explicit_budget: false, reject_when_orchestrator_exhausted: true }
    }

    /// Cap the steps any task may request.
    pub fn with_max_task_steps(self, max_task_steps: usize) -> (r: Self)
        ensures
            r == (BudgetGuardrail { max_task_steps: Some(max_task_steps), ..self }),
    {
        BudgetGuardrail { max_task_steps: Some(max_task_steps), ..self }
    }

    /// Require every task to define a step budget.
    pub fn require_explicit_budget(self) -> (r: Self)
        ensures
            r == (BudgetGuardrail { require_explicit_budget: true, ..self }),
    {
        BudgetGuardrail { require_explicit_budget: true, ..self }
    }

    /// Do not reject tasks when the orchestrator budget is exhausted.
    pub fn allow_exhausted_orchestrator(self) -> (r: Self)
        ensures
            r == (BudgetGuardrail { reject_when_orchestrator_exhausted: false, ..self }),
    {
        BudgetGuardrail { reject_when_orchestrator_exhausted: false, ..self }
    }

    fn requested_steps(&self, task: &AgentTask, profile: &AgentProfile) -> (r: Option<usize>)
        ensures
            r == requested_steps_spec(*task, *profile),
    {
        if task.budget_steps.is_some() {
            task.budget_steps
        } else if task.max_steps.is_some() {
            task.max_steps
        } else {
            profile.max_steps
        }
    }
}

fn steps_message(prefix: &str, first: usize, middle: &str, second: usize) -> (r: String)
    ensures
        r@ == prefix@ + decimal(first as nat) + middle@ + decimal(second as nat),
{
    let mut message = prefix.to_owned();
    push_decimal(&mut message, first as u64);
    message.append(middle);
    push_decimal(&mut message, second as u64);
    message
}

impl TaskGuardrail for BudgetGuardrail {
    fn name(&self) -> (r: &'static str)
        ensures
            r@ == "budget"@,
    {
        "budget"
    }

    /// Reject when the orchestrator budget is exhausted, when a required budget
    /// is missing, or when the task asks for more steps than the ceiling.
    fn pre_check(&self, task: &AgentTask, profile: &AgentProfile, context: &GuardrailContext) -> (r: Result<(), GuardrailRejection>)
        ensures
            budget_pre_check_ok(*self, *task, *profile, *context, r),
    {
        if self.reject_when_orchestrator_exhausted && (context.step_budget_exhausted() || context.task_budget_exhausted()) {
            return Err(
                GuardrailRejection::new(
                    "budget",
                    GuardrailStage::PreCheck,
                    ErrorKind::BudgetExhausted,
                    "Orchestrator budget exhausted before task start",
                ),
            );
        }
        if self.require_explicit_budget && task.budget_steps.is_none() {
            return Err(
                GuardrailRejection::new(
                    "budget",
                    GuardrailStage::PreCheck,
                    ErrorKind::Permanent,
                    "Task must define budget_steps to satisfy budget guardrail",
                ),
            );
        }
        if let Some(limit) = self.max_task_steps {
            if let Some(requested) = self.requested_steps(task, profile) {
                if requested > limit {
                    let message = steps_message(
                        "Task requests ",
                        requested,
                        " steps but budget guardrail allows at most ",
                        limit,
                    );
                    return Err(
                        GuardrailRejection::new(
                            "budget",
                            GuardrailStage::PreCheck,
                            ErrorKind::BudgetExhausted,
                            message.as_str(),
                        ),
                    );
                }
            }
        }
        Ok(())
    }

    /// Reject a successful result above the step ceiling, and a result that would
    /// take the orchestrator past its step budget.
    fn post_check(&self, task: &AgentTask, profile: &AgentProfile, result: &TaskResult, context: &GuardrailContext) -> (r: Result<(), GuardrailRejection>)
        ensures
            budget_post_check_ok(*self, *result, *context, r),
    {
        if let Some(limit) = self.max_task_steps {
            if result.success && result.steps_used > limit {
                let message = steps_message(
                    "Task consumed ",
                    result.steps_used,
                    " steps which exceeds the guardrail limit ",
                    limit,
                );
                return Err(
                    GuardrailRejection::new(
                        "budget",
                        GuardrailStage::PostCheck,
                        ErrorKind::BudgetExhausted,
                        message.as_str(),
                    ),
                );
            }
        }
        if self.reject_when_orchestrator_exhausted {
            if let Some(max_steps) = context.budget_snapshot.max_total_steps {
                if context.budget_snapshot.consumed_steps.saturating_add(result.steps_used) > max_steps {
                    return Err(
                        GuardrailRejection::new(
                            "budget",
                            GuardrailStage::PostCheck,
                            ErrorKind::BudgetExhausted,
                            "Task result would exceed the orchestrator step budget",
                        ),
                    );
                }
            }
        }
        Ok(())
    }
}

// ── Rate limit ──────────────────────────────────────────────────────────────

/// Start of the rolling window ending at `now_ms`.
pub open spec fn window_cutoff(now_ms: i64, window_ms: u64) -> int {
    let w = window_ms as i64;
    let c = now_ms - w;
    if c < i64::MIN {
        i64::MIN as int
    } else if c > i64::MAX {
        i64::MAX as int
    } else {
        c
    }
}

/// `entries` without its leading timestamps at or before `cutoff`.
pub open spec fn trim_spec(entries: Seq<i64>, cutoff: int) -> Seq<i64>
    decreases entries.len(),
{
    if entries.len() > 0 && entries[0] <= cutoff {
        trim_spec(entries.drop_first(), cutoff)
    } else {
        entries
    }
}

/// Rejects task starts beyond `max_tasks` within a rolling window of `window_ms`.
#[derive(Debug, Clone)]
pub struct RateLimitGuardrail {
    pub max_tasks: usize,
    pub window_ms: u64,
    seen_at_ms: VecDeque<i64>,
}

impl RateLimitGuardrail {
    /// Start times of the admitted tasks still tracked, oldest first.
    pub closed spec fn seen_spec(&self) -> Seq<i64> {
        self.seen_at_ms@
    }

    /// Most task starts admitted per window.
    pub closed spec fn max_tasks_spec(&self) -> usize {
        self.max_tasks
    }

    /// Length of the window in milliseconds.
    pub closed spec fn window_spec(&self) -> u64 {
        self.window_ms
    }

    /// A rate limiter with no task seen yet.
    pub fn new(max_tasks: usize, window_ms: u64) -> (r: Self)
        ensures
            r.max_tasks_spec() == max_tasks,
            r.window_spec() == window_ms,
            r.seen_spec() == Seq::<i64>::empty(),
    {
        RateLimitGuardrail { max_tasks, window_ms, seen_at_ms: VecDeque::new() }
    }

    /// Drop the leading timestamps that fall out of the window ending at `now_ms`.
    pub fn trim_expired(entries: &mut VecDeque<i64>, now_ms: i64, window_ms: u64)
        ensures
            final(entries)@ == trim_spec(old(entries)@, window_cutoff(now_ms, window_ms)),
    {
        let w = window_ms as i64;
        let cutoff: i64 = if w >= 0 {
            if now_ms < i64::MIN + w {
                i64::MIN
            } else {
                now_ms - w
            }
        } else if now_ms > i64::MAX + w {
            i64::MAX
        } else {
            now_ms - w
        };
        let ghost c = window_cutoff(now_ms, window_ms);
        while entries.len() > 0 && entries[0] <= cutoff
            invariant
                cutoff == c,
                trim_spec(old(entries)@, c) == trim_spec(entries@, c),
            decreases entries@.len(),
        {
            let ghost before = entries@;
            entries.pop_front();
            proof {
                assert(entries@ =~= before.drop_first());
            }
        }
    }

    /// Admit a task starting at `context.now_unix_ms`: expired starts are dropped;
    /// when `max_tasks` starts remain in the window the task is rejected, else its
    /// start is recorded.
    pub fn check(&mut self, context: &GuardrailContext) -> (r: Result<(), GuardrailRejection>)
        ensures
            final(self).max_tasks_spec() == old(self).max_tasks_spec(),
            final(self).window_spec() == old(self).window_spec(),
            ({
                let kept = trim_spec(old(self).seen_spec(), window_cutoff(context.now_unix_ms, old(self).window_spec()));
                if kept.len() >= old(self).max_tasks_spec() {
                    &&& final(self).seen_spec() == kept
                    &&& r matches Err(e) && rejection_is(e, "rate_limit"@, GuardrailStage::PreCheck,
                        ErrorKind::Transient, "Rate limit exceeded: at most "@ + decimal(old(self).max_tasks_spec() as nat)
                            + " tasks per "@ + decimal(old(self).window_spec() as nat) + " ms"@)
                } else {
                    &&& final(self).seen_spec() == kept.push(context.now_unix_ms)
                    &&& r is Ok
                }
            }),
    {
        Self::trim_expired(&mut self.seen_at_ms, context.now_unix_ms, self.window_ms);
        if self.seen_at_ms.len() >= self.max_tasks {
            let mut message = "Rate limit exceeded: at most ".to_owned();
            push_decimal(&mut message, self.max_tasks as u64);
            message.append(" tasks per ");
            push_decimal(&mut message, self.window_ms);
            message.append(" ms");
            return Err(
                GuardrailRejection::new("rate_limit", GuardrailStage::PreCheck, ErrorKind::Transient, message.as_str()),
            );
        }
        self.seen_at_ms.push_back(context.now_unix_ms);
        Ok(())
    }
}

proof fn lemma_trim_shrinks(entries: Seq<i64>, cutoff: int)
    ensures
        trim_spec(entries, cutoff).len() <= entries.len(),
    decreases entries.len(),
{
    if entries.len() > 0 && entries[0] <= cutoff {
        lemma_trim_shrinks(entries.drop_first(), cutoff);
    }
}

/// The rate limiter never holds more than `max_tasks` task starts in its
/// window: from a state within the limit, a check (as `check` states it)
/// leaves a state within the limit, whether it admits the task (recording
/// its start last) or refuses it.
pub proof fn law_rate_limit_stays_within_limit(before: RateLimitGuardrail, after: RateLimitGuardrail, now_ms: i64, admitted: bool)
    requires
        before.seen_spec().len() <= before.max_tasks_spec(),
        after.max_tasks_spec() == before.max_tasks_spec(),
        ({
            let kept = trim_spec(before.seen_spec(), window_cutoff(now_ms, before.window_spec()));
            if kept.len() >= before.max_tasks_spec() {
                after.seen_spec() == kept && !admitted
            } else {
                after.seen_spec() == kept.push(now_ms) && admitted
            }
        }),
    ensures
        after.seen_spec().len() <= after.max_tasks_spec(),
        admitted ==> after.seen_spec().last() == now_ms,
{
    lemma_trim_shrinks(before.seen_spec(), window_cutoff(now_ms, before.window_spec()));
}

// ── Cancellation ────────────────────────────────────────────────────────────

/// Blocks work once the orchestrator has been cancelled.
#[derive(Debug, Clone, Copy, Default, PartialEq, Eq)]
pub struct CancellationGuardrail;

impl CancellationGuardrail {
    /// The cancellation guardrail.
    pub fn new() -> (r: Self) {
        CancellationGuardrail
    }
}

impl TaskGuardrail for CancellationGuardrail {
    fn name(&self) -> (r: &'static str)
        ensures
            r@ == "cancellation"@,
    {
        "cancellation"
    }

    /// Reject a task of a cancelled orchestrator before it starts.
    fn pre_check(&self, task: &AgentTask, profile: &AgentProfile, context: &GuardrailContext) -> (r: Result<(), GuardrailRejection>)
        ensures
            context.cancelled ==> (r matches Err(e) && rejection_is(e, "cancellation"@, GuardrailStage::PreCheck,
                ErrorKind::Cancelled, "Task cancelled before execution"@)),
            !context.cancelled ==> r is Ok,
    {
        if context.cancelled {
            return Err(
                GuardrailRejection::new(
                    "cancellation",
                    GuardrailStage::PreCheck,
                    ErrorKind::Cancelled,
                    "Task cancelled before execution",
                ),
            );
        }
        Ok(())
    }

    /// Reject an attempt of a cancelled orchestrator.
    fn mid_check(&self, task: &AgentTask, profile: &AgentProfile, context: &GuardrailContext) -> (r: Result<(), GuardrailRejection>)
        ensures
            context.cancelled ==> (r matches Err(e) && rejection_is(e, "cancellation"@, GuardrailStage::MidCheck,
                ErrorKind::Cancelled, "Task cancelled during execution"@)),
            !context.cancelled ==> r is Ok,
    {
        if context.cancelled {
            return Err(
                GuardrailRejection::new(
                    "cancellation",
                    GuardrailStage::MidCheck,
                    ErrorKind::Cancelled,
                    "Task cancelled during execution",
                ),
            );
        }
        Ok(())
    }
}

} // verus!
