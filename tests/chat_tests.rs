use secse24_group08::dates::SendDate;
use secse24_group08::group_chat::{GroupChat, GroupChatMessage};
use secse24_group08::models::{Group, User};
use secse24_group08::store::Store;
use secse24_group08::user_chat::{UserChat, UserChatMessage};

fn john() -> User {
    User { id: 1, first_name: "John".to_string(), last_name: "Doe".to_string() }
}

fn jane() -> User {
    User { id: 2, first_name: "Jane".to_string(), last_name: "Doe".to_string() }
}

fn default_group() -> Group {
    Group { id: 1, name: "Group".to_string() }
}

fn some_date() -> SendDate {
    SendDate { year: 2024, month: 5, day: 24, hour: 15, minute: 30, second: 0 }
}

fn setup_chat() -> UserChat {
    let mut chat = UserChat::default();
    chat.set_properties(john(), jane());
    chat
}

fn setup_group_chat() -> GroupChat {
    let mut group_chat = GroupChat::default();
    group_chat.set_properties(john(), default_group());
    group_chat
}

#[test]
fn test_default_user_chat() {
    let chat = UserChat::default();
    assert_eq!(chat.get_current_user().id, -1);
    assert_eq!(chat.get_other_user().id, -1);
    assert!(chat.get_messages().is_empty());
    assert!(chat.get_input_value().is_empty());
}

#[test]
fn user_chat_tests_test_update_input_changed() {
    let mut store = Store::new();
    let mut chat = UserChat::default();
    chat.update(&mut store, UserChatMessage::InputChanged("New input".to_string()));
    assert_eq!(chat.get_input_value(), "New input");
}

#[test]
fn user_chat_tests_test_set_properties() {
    let chat = setup_chat();
    assert_eq!(chat.get_current_user(), &john());
    assert_eq!(chat.get_other_user(), &jane());
}

#[test]
fn test_send_user_message() {
    let mut store = Store::new();
    let mut chat = setup_chat();
    assert!(chat.get_messages().is_empty());
    chat.update(&mut store, UserChatMessage::InputChanged("Hello".to_string()));
    chat.update(&mut store, UserChatMessage::SendMessage);
    assert_eq!(chat.get_messages().is_empty(), false);
    assert_eq!(chat.get_input_value(), "");
    store.delete_user_message(1, 2);
    assert!(store.find_all_messages_between_users(1, 2).is_empty());
}

#[test]
fn test_send_user_message_sql_injection() {
    let mut store = Store::new();
    let mut chat = setup_chat();
    let payload = "'; DROP TABLE messages; --";
    chat.update(&mut store, UserChatMessage::InputChanged(payload.to_string()));
    chat.update(&mut store, UserChatMessage::SendMessage);
    assert_eq!(chat.get_messages().is_empty(), false);
    assert_eq!(chat.get_messages()[0].message, payload);
    store.delete_user_message(1, 2);
}

#[test]
fn user_chat_tests_test_handle_tick() {
    let mut store = Store::new();
    let mut chat = setup_chat();
    assert!(chat.get_messages().is_empty());
    store.create_user_message(1, 2, "Hello, User 2!", some_date());
    store.create_user_message(2, 1, "Hello, User 1!", some_date());
    store.create_user_message(2, 3, "Not for John", some_date());
    chat.update(&mut store, UserChatMessage::Tick);
    assert_eq!(chat.get_messages().len(), 2);
    assert_eq!(chat.get_messages()[1].message, "Hello, User 1!");
    store.delete_user_message(1, 2);
    chat.update(&mut store, UserChatMessage::Tick);
    assert_eq!(chat.get_messages().len(), 1);
}

#[test]
fn sending_empty_input_does_nothing() {
    let mut store = Store::new();
    let mut chat = setup_chat();
    chat.update(&mut store, UserChatMessage::SendMessage);
    assert!(chat.get_messages().is_empty());
    assert!(store.find_all_messages_between_users(1, 2).is_empty());
}

#[test]
fn test_default_group_chat() {
    let group_chat = GroupChat::default();
    assert_eq!(group_chat.get_current_user().id, -1);
    assert_eq!(group_chat.get_current_group().id, -1);
    assert!(group_chat.get_users_of_group().is_empty());
    assert!(group_chat.get_messages().is_empty());
    assert!(group_chat.get_input_value().is_empty());
}

#[test]
fn group_chat_tests_test_set_properties() {
    let mut group_chat = GroupChat::default();
    group_chat.set_properties(john(), default_group());
    assert_eq!(group_chat.get_current_user(), &john());
    assert_eq!(group_chat.get_current_group(), &default_group());
}

#[test]
fn test_send_group_message_empty() {
    let mut store = Store::new();
    let mut group_chat = GroupChat::default();
    group_chat.update(&mut store, GroupChatMessage::SendMessage);
    assert!(group_chat.get_messages().is_empty());
}

#[test]
fn test_send_group_message_success() {
    let mut store = Store::new();
    let mut group_chat = setup_group_chat();
    assert!(group_chat.get_messages().is_empty());
    group_chat.update(&mut store, GroupChatMessage::InputChanged("Hello, world!".to_string()));
    group_chat.update(&mut store, GroupChatMessage::SendMessage);
    assert!(!group_chat.get_messages().is_empty());
    store.delete_group_messages(1);
    assert!(store.find_all_messages_of_group(1).is_empty());
}

#[test]
fn group_chat_tests_test_update_input_changed() {
    let mut store = Store::new();
    let mut group_chat = GroupChat::default();
    group_chat.update(&mut store, GroupChatMessage::InputChanged("Hello, world!".to_string()));
    assert_eq!(group_chat.get_input_value(), "Hello, world!");
}

#[test]
fn group_chat_tests_test_handle_tick() {
    let mut store = Store::new();
    let author = store.create_user("John", "Doe", "john@mail.de", "Aa1!Aa1!").unwrap();
    let mut group_chat = GroupChat::default();
    group_chat.set_properties(author.clone(), default_group());
    let old_message_count = group_chat.get_messages().len();
    store.create_group_message(author.id, 1, "Hello, world!", some_date());
    group_chat.update(&mut store, GroupChatMessage::Tick);
    assert!(group_chat.get_messages().len() > old_message_count);
    assert_eq!(group_chat.get_users_of_group(), &vec![author]);
    store.delete_group_messages(1);
}

#[test]
fn test_send_group_message_special_chars() {
    let mut store = Store::new();
    let mut group_chat = setup_group_chat();
    group_chat.update(&mut store, GroupChatMessage::InputChanged("Hello, @world!".to_string()));
    group_chat.update(&mut store, GroupChatMessage::SendMessage);
    assert!(!group_chat.get_messages().is_empty());
    assert_eq!(group_chat.get_messages()[0].message, "Hello, @world!");
    store.delete_group_messages(1);
}

#[test]
fn test_handle_tick_failure() {
    let mut store = Store::new();
    let mut group_chat = setup_group_chat();
    group_chat.set_properties(john(), Group { id: -1, name: "Invalid Group".to_string() });
    group_chat.update(&mut store, GroupChatMessage::Tick);
    assert!(group_chat.get_messages().is_empty());
}
