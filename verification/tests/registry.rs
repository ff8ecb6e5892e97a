use session_sync::{Chat, ChatMessage, ChatRole, ChatState, Registry};

#[test]
fn a_new_registry_is_empty() {
    let registry = Registry::new();
    assert_eq!(registry.len(), 0);
    assert!(!registry.contains(0));
    assert!(registry.find(0).is_none());
}

#[test]
fn a_created_session_starts_empty_and_ready() {
    let mut registry = Registry::new();
    assert!(!registry.contains(7));
    let chat = registry.create(7);
    assert_eq!(chat.uuid(), 7);
    assert_eq!(chat.name(), "");
    assert_eq!(chat.branch_name(), None);
    assert!(chat.messages().is_empty());
    assert_eq!(chat.state(), ChatState::Ready);
    assert!(registry.contains(7));
    assert_eq!(registry.len(), 1);
}

#[test]
fn sessions_are_found_by_their_own_id() {
    let mut registry = Registry::new();
    registry.create(1);
    registry.create(u128::MAX);
    assert_eq!(registry.len(), 2);
    assert_eq!(registry.find(1).unwrap().uuid(), 1);
    assert_eq!(registry.find(u128::MAX).unwrap().uuid(), u128::MAX);
    assert!(registry.find(2).is_none());
}

#[test]
fn rename_sets_the_display_name_of_one_session() {
    let mut registry = Registry::new();
    registry.create(1);
    registry.create(2);
    assert!(registry.rename(1, "first".to_string()));
    assert_eq!(registry.find(1).unwrap().name(), "first");
    assert_eq!(registry.find(2).unwrap().name(), "");
    assert_eq!(registry.len(), 2);
}

#[test]
fn rename_of_an_unknown_session_reports_it_and_changes_nothing() {
    let mut registry = Registry::new();
    registry.create(1);
    assert!(!registry.rename(9, "ghost".to_string()));
    assert!(!registry.contains(9));
    assert_eq!(registry.find(1).unwrap().name(), "");
    assert_eq!(registry.len(), 1);
}

#[test]
fn insert_files_a_prepared_session() {
    let mut chat = Chat::new(5);
    chat.set_name("prepared".to_string());
    chat.set_branch_name("feature/x".to_string());
    chat.add_message(ChatMessage::new(ChatRole::User, "hello".to_string()));
    chat.transition(ChatState::Running);

    let mut registry = Registry::new();
    registry.insert(chat);

    let found = registry.find(5).unwrap();
    assert_eq!(found.uuid(), 5);
    assert_eq!(found.name(), "prepared");
    assert_eq!(found.branch_name(), Some("feature/x"));
    assert_eq!(found.state(), ChatState::Running);
    assert_eq!(found.messages().len(), 1);
    assert_eq!(found.messages()[0].role(), ChatRole::User);
    assert_eq!(found.messages()[0].content(), "hello");
}

#[test]
fn chat_setters_change_one_field_each() {
    let mut chat = Chat::new(3);
    chat.set_name("a".to_string());
    assert_eq!(chat.name(), "a");
    assert_eq!(chat.branch_name(), None);
    chat.set_branch_name("b".to_string());
    assert_eq!(chat.name(), "a");
    assert_eq!(chat.branch_name(), Some("b"));
    chat.transition(ChatState::Running);
    assert_eq!(chat.state(), ChatState::Running);
    chat.transition(ChatState::Ready);
    assert_eq!(chat.state(), ChatState::Ready);
    assert_eq!(chat.uuid(), 3);
    assert!(chat.messages().is_empty());
}

#[test]
fn add_message_appends_at_the_end() {
    let mut chat = Chat::new(3);
    chat.add_message(ChatMessage::new(ChatRole::User, "one".to_string()));
    chat.add_message(ChatMessage::new_system("two".to_string()));
    chat.add_message(ChatMessage::new(ChatRole::Assistant, "three".to_string()));
    let texts: Vec<&str> = chat.messages().iter().map(|m| m.content()).collect();
    assert_eq!(texts, vec!["one", "two", "three"]);
    let roles: Vec<ChatRole> = chat.messages().iter().map(|m| m.role()).collect();
    assert_eq!(roles, vec![ChatRole::User, ChatRole::System, ChatRole::Assistant]);
}

#[test]
fn a_system_message_has_the_system_role() {
    let message = ChatMessage::new_system("indexing".to_string());
    assert_eq!(message.role(), ChatRole::System);
    assert_eq!(message.content(), "indexing");
    assert_eq!(message, ChatMessage::new(ChatRole::System, "indexing".to_string()));
    assert_eq!(message.clone(), message);
}
