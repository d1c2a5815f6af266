use antikythera_core::multi_agent::guardrails::{GuardrailRejection, GuardrailStage};
use antikythera_core::multi_agent::orchestration::{
    after_attempt, effective_step_limit, guardrail_failure_result, pipeline_task_input, retry_after_timeout,
    step_budget_exhausted_message, task_budget_exhausted_message, task_step, timeout_message, with_default_retry,
    AttemptOutcome, AttemptStep, PipelineRun, TaskAction, TaskEvent, TaskPhase, TaskRun,
};
use antikythera_core::multi_agent::registry::AgentProfile;
use antikythera_core::multi_agent::task::{AgentTask, ErrorKind, PipelineResult, RetryCondition, TaskResult, TaskRetryPolicy};
use serde_json::Value;

fn profile(max_steps: Option<usize>) -> AgentProfile {
    AgentProfile {
        id: "a1".to_string(),
        name: "Agent".to_string(),
        role: "general".to_string(),
        system_prompt: None,
        max_steps,
    }
}

#[test]
fn step_limit_prefers_task_then_profile_then_default() {
    assert_eq!(effective_step_limit(&AgentTask::new("t").with_max_steps(3), &profile(Some(5))), 3);
    assert_eq!(effective_step_limit(&AgentTask::new("t"), &profile(Some(5))), 5);
    assert_eq!(effective_step_limit(&AgentTask::new("t"), &profile(None)), 8);
    assert_eq!(effective_step_limit(&AgentTask::new("t").with_budget_steps(2), &profile(Some(5))), 2);
    assert_eq!(effective_step_limit(&AgentTask::new("t").with_budget_steps(9), &profile(Some(5))), 5);
}

#[test]
fn timeout_retry_follows_policy() {
    let policy = TaskRetryPolicy { max_retries: 1, condition: RetryCondition::Always, backoff_ms: 0 };
    assert!(retry_after_timeout(&policy, 1));
    assert!(!retry_after_timeout(&policy, 2));
    let never = TaskRetryPolicy { max_retries: 5, condition: RetryCondition::Never, backoff_ms: 0 };
    assert!(!retry_after_timeout(&never, 1));
}

#[test]
fn orchestrator_messages() {
    assert_eq!(timeout_message(1500), "Task timed out after 1500 ms");
    assert_eq!(task_budget_exhausted_message(4), "Orchestrator task budget exhausted (dispatched 4)");
    assert_eq!(
        step_budget_exhausted_message(10, 8),
        "Orchestrator step budget exhausted (10 / 8 steps consumed)"
    );
}

#[test]
fn guardrail_failure_carries_message() {
    let task = AgentTask::new("work");
    let rejection = GuardrailRejection::new("budget", GuardrailStage::PreCheck, ErrorKind::BudgetExhausted, "too many");
    let result = guardrail_failure_result(&task, "a1", rejection);
    assert!(!result.success);
    assert_eq!(result.error.as_deref(), Some("too many"));
    assert_eq!(result.task_id, task.task_id);
}

#[test]
fn pipeline_chains_outputs_and_stops_at_failure() {
    let tasks = vec![AgentTask::new("first"), AgentTask::new("second"), AgentTask::new("third")];
    let mut run = PipelineRun::new(tasks);
    let t1 = run.next_task().expect("first task");
    assert_eq!(t1.input, "first");
    run.record(TaskResult::success(t1.task_id, "a1".to_string(), Value::from("out1"), 2, "s".to_string()));
    let t2 = run.next_task().expect("second task");
    assert_eq!(t2.input, pipeline_task_input("\"out1\"", "second"));
    assert_eq!(t2.input, "Previous step output:\n\"out1\"\n\n---\nCurrent task:\nsecond");
    run.record(TaskResult::failure(t2.task_id, "a1".to_string(), "boom".to_string()));
    assert!(run.next_task().is_none(), "pipeline stops after a failure");
    let result = run.finish();
    assert_eq!(result.task_results.len(), 2);
    assert!(!result.success);
    assert_eq!(result.error.as_deref(), Some("boom"));
    assert_eq!(result.total_steps, 2);
}

#[test]
fn empty_pipeline_has_null_output() {
    let mut run = PipelineRun::new(vec![]);
    assert!(run.next_task().is_none());
    let result = run.finish();
    assert!(result.success);
    assert!(result.final_output.is_null());
}

#[test]
fn attempts_are_retried_as_the_policy_says() {
    let policy = TaskRetryPolicy { max_retries: 1, condition: RetryCondition::OnTransient, backoff_ms: 25 };
    assert_eq!(
        after_attempt(&policy, 1, AttemptOutcome::Failed("Connection reset".to_string())),
        AttemptStep::Retry { backoff_ms: 25 }
    );
    assert_eq!(
        after_attempt(&policy, 2, AttemptOutcome::Failed("connection reset".to_string())),
        AttemptStep::Fail { error: "connection reset".to_string(), kind: ErrorKind::Transient }
    );
    assert_eq!(
        after_attempt(&policy, 1, AttemptOutcome::Failed("bad request".to_string())),
        AttemptStep::Fail { error: "bad request".to_string(), kind: ErrorKind::Permanent }
    );
    assert_eq!(
        after_attempt(&policy, 1, AttemptOutcome::TimedOut { timeout_ms: 500 }),
        AttemptStep::Retry { backoff_ms: 25 }
    );
    assert_eq!(
        after_attempt(&policy, 2, AttemptOutcome::TimedOut { timeout_ms: 500 }),
        AttemptStep::Fail { error: "Task timed out after 500 ms".to_string(), kind: ErrorKind::Transient }
    );
    assert_eq!(
        after_attempt(
            &policy,
            9,
            AttemptOutcome::Completed { output: Value::Null, steps_used: 1, session_id: "s".to_string() }
        ),
        AttemptStep::Accept
    );

    let never = TaskRetryPolicy { max_retries: 3, condition: RetryCondition::Never, backoff_ms: 0 };
    assert_eq!(
        after_attempt(&never, 1, AttemptOutcome::TimedOut { timeout_ms: 10 }),
        AttemptStep::Fail { error: "Task timed out after 10 ms".to_string(), kind: ErrorKind::Transient }
    );
    let always = TaskRetryPolicy { max_retries: 1, condition: RetryCondition::Always, backoff_ms: 0 };
    assert_eq!(
        after_attempt(&always, 1, AttemptOutcome::Failed("bad request".to_string())),
        AttemptStep::Retry { backoff_ms: 0 }
    );
}

fn rejection(message: &str, kind: ErrorKind) -> GuardrailRejection {
    GuardrailRejection {
        guardrail_name: "g".to_string(),
        stage: GuardrailStage::PreCheck,
        error_kind: kind,
        message: message.to_string(),
    }
}

fn started(now: i64, cancelled: bool) -> TaskEvent {
    TaskEvent::Started { now_unix_ms: now, cancelled, pre: Ok(()) }
}

fn finished(action: TaskAction) -> (TaskResult, Option<ErrorKind>) {
    match action {
        TaskAction::Finish { result, kind } => (result, kind),
        other => panic!("expected a finished task, got {:?}", other),
    }
}

#[test]
fn task_past_its_deadline_never_runs() {
    let task = AgentTask::new("late").with_deadline_unix_ms(1_000);
    let run = TaskRun::new(task, &profile(None));
    let (run, action) = task_step(run, started(1_000, false));
    let (result, kind) = finished(action);
    assert!(!result.success);
    assert_eq!(result.error.as_deref(), Some("Task deadline exceeded before execution"));
    assert_eq!(kind, Some(ErrorKind::DeadlineExceeded));
    assert_eq!(run.phase, TaskPhase::Finished);
    let (run, action) = task_step(run, TaskEvent::BeforeAttempt { cancelled: false, mid: Ok(()) });
    assert!(matches!(action, TaskAction::Ignore));
    assert_eq!(run.attempts, 0);
}

#[test]
fn task_before_its_deadline_starts() {
    let task = AgentTask::new("early").with_deadline_unix_ms(1_000);
    let run = TaskRun::new(task, &profile(Some(4)));
    let (run, action) = task_step(run, started(999, false));
    assert!(matches!(action, TaskAction::CheckBeforeAttempt));
    let (run, action) = task_step(run, TaskEvent::BeforeAttempt { cancelled: false, mid: Ok(()) });
    assert!(matches!(action, TaskAction::RunAgent { max_steps: 4 }));
    assert_eq!(run.attempts, 1);
}

#[test]
fn cancelled_task_fails_before_and_during_execution() {
    let run = TaskRun::new(AgentTask::new("t"), &profile(None));
    let (_, action) = task_step(run, started(0, true));
    let (result, kind) = finished(action);
    assert_eq!(result.error.as_deref(), Some("Task cancelled before execution"));
    assert_eq!(kind, Some(ErrorKind::Cancelled));

    let run = TaskRun::new(AgentTask::new("t"), &profile(None));
    let (run, _) = task_step(run, started(0, false));
    let (_, action) = task_step(run, TaskEvent::BeforeAttempt { cancelled: true, mid: Ok(()) });
    let (result, kind) = finished(action);
    assert_eq!(result.error.as_deref(), Some("Task cancelled during execution"));
    assert_eq!(kind, Some(ErrorKind::Cancelled));
}

#[test]
fn guardrail_rejection_before_start_wins_over_deadline() {
    let task = AgentTask::new("t").with_deadline_unix_ms(0);
    let run = TaskRun::new(task, &profile(None));
    let event = TaskEvent::Started { now_unix_ms: 5, cancelled: true, pre: Err(rejection("no", ErrorKind::BudgetExhausted)) };
    let (_, action) = task_step(run, event);
    let (result, kind) = finished(action);
    assert_eq!(result.error.as_deref(), Some("no"));
    assert_eq!(kind, Some(ErrorKind::BudgetExhausted));
}

#[test]
fn task_retries_as_its_own_policy_says_then_fails() {
    let policy = TaskRetryPolicy { max_retries: 2, condition: RetryCondition::Always, backoff_ms: 7 };
    let task = AgentTask::new("t").with_retry_policy(policy);
    let mut run = TaskRun::new(task, &profile(None));
    let (next, _) = task_step(run, started(0, false));
    run = next;
    let mut agent_runs = 0;
    loop {
        let (next, action) = task_step(run, TaskEvent::BeforeAttempt { cancelled: false, mid: Ok(()) });
        assert!(matches!(action, TaskAction::RunAgent { .. }));
        agent_runs += 1;
        let (next, action) = task_step(next, TaskEvent::Attempt(AttemptOutcome::Failed("bad request".to_string())));
        run = next;
        match action {
            TaskAction::Wait { backoff_ms } => assert_eq!(backoff_ms, 7),
            TaskAction::Finish { result, kind } => {
                assert_eq!(result.error.as_deref(), Some("bad request"));
                assert_eq!(kind, Some(ErrorKind::Permanent));
                break;
            }
            other => panic!("unexpected {:?}", other),
        }
    }
    assert_eq!(agent_runs, 3);
}

#[test]
fn answer_is_held_for_post_checks() {
    let run = TaskRun::new(AgentTask::new("t"), &profile(None));
    let (run, _) = task_step(run, started(0, false));
    let (run, _) = task_step(run, TaskEvent::BeforeAttempt { cancelled: false, mid: Ok(()) });
    let outcome = AttemptOutcome::Completed { output: Value::from("ok"), steps_used: 3, session_id: "s1".to_string() };
    let (run, action) = task_step(run, TaskEvent::Attempt(outcome));
    assert!(matches!(action, TaskAction::CheckAfter));
    let answer = run.answer.clone().expect("answer held");
    assert!(answer.success);
    assert_eq!(answer.steps_used, 3);
    assert_eq!(answer.output, Value::from("ok"));

    let accepted = run.clone();
    let (_, action) = task_step(accepted, TaskEvent::After { post: Ok(()) });
    let (result, kind) = finished(action);
    assert!(result.success);
    assert_eq!(result.session_id, "s1");
    assert_eq!(kind, None);

    let (_, action) = task_step(run, TaskEvent::After { post: Err(rejection("too long", ErrorKind::Permanent)) });
    let (result, kind) = finished(action);
    assert!(!result.success);
    assert_eq!(result.error.as_deref(), Some("too long"));
    assert!(result.output.is_null());
    assert_eq!(kind, Some(ErrorKind::Permanent));
}

#[test]
fn default_retry_fills_only_a_missing_policy() {
    let filled = with_default_retry(AgentTask::new("t"), RetryCondition::Always);
    assert_eq!(
        filled.retry_policy,
        Some(TaskRetryPolicy { max_retries: 0, condition: RetryCondition::Always, backoff_ms: 0 })
    );
    let own = TaskRetryPolicy { max_retries: 3, condition: RetryCondition::Never, backoff_ms: 1 };
    let kept = with_default_retry(AgentTask::new("t").with_retry_policy(own), RetryCondition::Always);
    assert_eq!(kept.retry_policy, Some(own));
}

#[test]
fn pipeline_final_output_is_last_successful_output() {
    let ok = TaskResult::success("t1".to_string(), "a".to_string(), Value::from("first"), 1, "s".to_string());
    let failed = TaskResult::failure("t2".to_string(), "a".to_string(), "boom".to_string());
    let result = PipelineResult::from_results(vec![ok, failed]);
    assert_eq!(result.final_output, Value::from("first"));
    assert!(!result.success);
    let only_failed = PipelineResult::from_results(vec![TaskResult::failure("t".to_string(), "a".to_string(), "x".to_string())]);
    assert!(only_failed.final_output.is_null());
}

#[test]
fn new_task_ids_are_hyphenated_uuids() {
    let id = AgentTask::new("t").task_id;
    assert_eq!(id.len(), 36);
    for (i, c) in id.chars().enumerate() {
        if i == 8 || i == 13 || i == 18 || i == 23 {
            assert_eq!(c, '-');
        } else {
            assert!(c.is_ascii_digit() || ('a'..='f').contains(&c));
        }
    }
}
