use chat_bridge::message::{ConversationMessage, Role};
use chat_bridge::store::ConversationStore;

fn message(role: Role, text: &str) -> ConversationMessage {
    ConversationMessage::new(role, text.to_string())
}

#[test]
fn new_store_is_empty() {
    let store = ConversationStore::new(10);
    assert_eq!(store.len(), 0);
    assert!(store.is_empty());
    assert_eq!(store.max_history(), 10);
    assert_eq!(store.snapshot(), vec![]);
}

#[test]
fn message_keeps_role_and_text() {
    let m = message(Role::User, "hi");
    assert_eq!(m.role(), Role::User);
    assert_eq!(m.text(), "hi");
    let copy = m.clone();
    assert_eq!(copy, m);
    assert_eq!(copy.role(), Role::User);
    assert_eq!(copy.text(), "hi");
    assert_ne!(m, message(Role::Assistant, "hi"));
}

#[test]
fn five_appends_into_three_slots() {
    let mut store = ConversationStore::new(3);
    for text in ["M1", "M2", "M3", "M4", "M5"] {
        store.append(Role::Assistant, text.to_string());
    }
    assert_eq!(
        store.snapshot(),
        vec![
            message(Role::Assistant, "M3"),
            message(Role::Assistant, "M4"),
            message(Role::Assistant, "M5"),
        ]
    );
    assert_eq!(store.len(), 3);
}

#[test]
fn appends_below_the_bound_are_all_kept_in_order() {
    let mut store = ConversationStore::new(10);
    store.append(Role::User, "one".to_string());
    store.append(Role::Assistant, "two".to_string());
    store.append(Role::User, "three".to_string());
    assert_eq!(
        store.snapshot(),
        vec![
            message(Role::User, "one"),
            message(Role::Assistant, "two"),
            message(Role::User, "three"),
        ]
    );
    assert!(!store.is_empty());
}

#[test]
fn store_holds_the_most_recent_after_every_append() {
    for max in 0..6usize {
        let mut store = ConversationStore::new(max);
        let mut given: Vec<ConversationMessage> = Vec::new();
        for i in 0..12 {
            let role = if i % 2 == 0 { Role::User } else { Role::Assistant };
            let text = format!("turn {}", i);
            store.append(role, text.clone());
            given.push(message(role, &text));
            let kept = given.len().min(max);
            assert!(store.len() <= max);
            assert_eq!(store.len(), kept);
            assert_eq!(store.snapshot(), given[given.len() - kept..].to_vec());
        }
    }
}

#[test]
fn store_of_no_capacity_stays_empty() {
    let mut store = ConversationStore::new(0);
    store.append(Role::User, "lost".to_string());
    assert_eq!(store.len(), 0);
    assert!(store.is_empty());
    assert_eq!(store.snapshot(), vec![]);
}

#[test]
fn store_of_one_keeps_the_newest() {
    let mut store = ConversationStore::new(1);
    store.append(Role::User, "old".to_string());
    store.append(Role::Assistant, "new".to_string());
    assert_eq!(store.snapshot(), vec![message(Role::Assistant, "new")]);
}

#[test]
fn two_snapshots_are_equal() {
    let mut store = ConversationStore::new(4);
    store.append(Role::User, "a".to_string());
    store.append(Role::Assistant, "b".to_string());
    let first = store.snapshot();
    let second = store.snapshot();
    assert_eq!(first, second);
    assert_eq!(store.len(), 2);
}

#[test]
fn snapshot_is_a_copy() {
    let mut store = ConversationStore::new(2);
    store.append(Role::User, "a".to_string());
    let before = store.snapshot();
    store.append(Role::User, "b".to_string());
    store.append(Role::User, "c".to_string());
    assert_eq!(before, vec![message(Role::User, "a")]);
    assert_eq!(
        store.snapshot(),
        vec![message(Role::User, "b"), message(Role::User, "c")]
    );
}
