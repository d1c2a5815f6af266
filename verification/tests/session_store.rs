use antikythera_core::domain::{ChatMessage, MessageRole};
use antikythera_core::session_store::SessionStore;

fn msg(text: &str) -> ChatMessage {
    ChatMessage::new(MessageRole::User, text)
}

#[test]
fn get_or_create_then_get_returns_history() {
    let mut store = SessionStore::new(4);
    store.get_or_create("a").push(msg("hello"));
    let history = store.get("a").expect("session exists");
    assert_eq!(history.len(), 1);
    assert_eq!(history[0].content(), "hello");
    assert!(store.get("b").is_none());
}

#[test]
fn least_recently_used_session_is_evicted() {
    let mut store = SessionStore::new(2);
    store.push_messages("a", vec![msg("1")]);
    store.push_messages("b", vec![msg("2")]);
    store.get_or_create("a");
    store.push_messages("c", vec![msg("3")]);
    assert_eq!(store.len(), 2);
    assert!(store.get("b").is_none(), "b was least recently used");
    assert!(store.get("a").is_some());
    assert!(store.get("c").is_some());
}

#[test]
fn get_mut_touches_only_existing_sessions() {
    let mut store = SessionStore::new(1);
    assert!(store.get_mut("missing").is_none());
    assert_eq!(store.len(), 0);
    store.push_messages("a", vec![msg("x"), msg("y")]);
    store.get_mut("a").expect("exists").push(msg("z"));
    assert_eq!(store.get("a").map(|h| h.len()), Some(3));
}

#[test]
fn zero_capacity_keeps_one_session() {
    let mut store = SessionStore::new(0);
    store.push_messages("a", vec![msg("1")]);
    store.push_messages("b", vec![msg("2")]);
    assert_eq!(store.len(), 1);
    assert!(store.get("a").is_none());
    assert_eq!(store.get("b").map(|h| h.len()), Some(1));
}
