use antikythera_core::context_policy::{apply_history_policy, HistoryPolicy, TruncationPlan};
use antikythera_core::domain::{ChatMessage, MessageRole};

fn make_message(role: MessageRole, content: &str) -> ChatMessage {
    ChatMessage::new(role, content)
}

fn balanced_head(max: usize, head_ratio: f32) -> usize {
    (max as f32 * head_ratio) as usize
}

#[test]
fn context_manager_preserves_system_messages() {
    let messages = vec![
        make_message(MessageRole::System, "You are helpful"),
        make_message(MessageRole::User, "Hello"),
        make_message(MessageRole::Assistant, "Hi there"),
    ];
    let result = apply_history_policy(&messages, &HistoryPolicy::default());
    assert!(result.iter().any(|m| m.role == MessageRole::System));
    assert_eq!(result.len(), 3);
}

#[test]
fn context_manager_respects_max_history_messages() {
    let policy = HistoryPolicy { max_history_messages: 5, ..HistoryPolicy::default() };
    let mut messages = (0..15).map(|i| make_message(MessageRole::User, &format!("msg {}", i))).collect::<Vec<_>>();
    messages.insert(0, make_message(MessageRole::System, "sys"));
    let result = apply_history_policy(&messages, &policy);
    assert!(result.iter().filter(|m| m.role == MessageRole::User).count() <= 5);
}

#[test]
fn context_manager_keep_newest_discards_oldest() {
    let policy = HistoryPolicy { max_history_messages: 3, plan: TruncationPlan::KeepNewest, ..HistoryPolicy::default() };
    let messages: Vec<ChatMessage> = (0..5).map(|i| make_message(MessageRole::User, &format!("msg {}", i))).collect();
    let result = apply_history_policy(&messages, &policy);
    assert_eq!(result.len(), 3);
    assert_eq!(result[0].content(), "msg 2");
    assert_eq!(result[2].content(), "msg 4");
}

#[test]
fn context_manager_keep_balanced_retains_head_and_tail() {
    let policy = HistoryPolicy {
        max_history_messages: 6,
        plan: TruncationPlan::KeepBalanced { head_count: balanced_head(6, 0.5) },
        ..HistoryPolicy::default()
    };
    let messages = (0..20).map(|i| make_message(MessageRole::User, &format!("msg {}", i))).collect::<Vec<_>>();
    let result = apply_history_policy(&messages, &policy);
    assert_eq!(result.len(), 6);
    assert_eq!(result[0].content(), "msg 0");
    assert_eq!(result[2].content(), "msg 2");
    assert_eq!(result[3].content(), "msg 17");
    assert_eq!(result[5].content(), "msg 19");
}

#[test]
fn context_manager_respects_token_budget() {
    let policy = HistoryPolicy { max_history_messages: 100, token_budget: Some(100), ..HistoryPolicy::default() };
    let messages = (0..50).map(|_| make_message(MessageRole::User, &"x".repeat(20))).collect::<Vec<_>>();
    let result = apply_history_policy(&messages, &policy);
    let tokens = (result.iter().map(|m| m.content().len()).sum::<usize>() + 3) / 4;
    assert!(tokens <= 100);
    assert_eq!(result.len(), 20);
}

#[test]
fn every_system_message_is_retained() {
    let messages = vec![
        make_message(MessageRole::System, "first"),
        make_message(MessageRole::System, "second"),
        make_message(MessageRole::User, "q"),
    ];
    let result = apply_history_policy(&messages, &HistoryPolicy::default());
    assert_eq!(result.len(), 3);
    assert_eq!(result[0].content(), "first");
    assert_eq!(result[1].content(), "second");
    assert_eq!(result[2].content(), "q");
}

#[test]
fn token_budget_never_drops_system_messages() {
    let policy = HistoryPolicy { token_budget: Some(1), ..HistoryPolicy::default() };
    let messages = vec![
        make_message(MessageRole::System, &"s".repeat(40)),
        make_message(MessageRole::System, &"t".repeat(40)),
        make_message(MessageRole::User, &"u".repeat(40)),
    ];
    let result = apply_history_policy(&messages, &policy);
    assert_eq!(result.len(), 2);
    assert!(result.iter().all(|m| m.role == MessageRole::System));
}

#[test]
fn context_policy_default_has_sensible_values() {
    let policy = HistoryPolicy::default();
    assert_eq!(policy.max_history_messages, 50);
    assert_eq!(policy.plan, TruncationPlan::KeepNewest);
    assert_eq!(policy.min_system_messages, 1);
    assert_eq!(policy.token_budget, None);
}
