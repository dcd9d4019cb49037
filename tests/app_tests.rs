use secse24_group08::application::{App, Message, Page};
use secse24_group08::group_chat::GroupChatMessage;
use secse24_group08::group_tab::GroupTabMessage;
use secse24_group08::home::{HomeMessage, TabId};
use secse24_group08::login::LoginMessage;
use secse24_group08::models::{Group, User};
use secse24_group08::register::RegisterMessage;
use secse24_group08::setting_tab::{AppTheme, SettingsTabMessage};
use secse24_group08::store::Store;
use secse24_group08::user_chat::UserChatMessage;
use secse24_group08::user_tab::UserTabMessage;

fn setup_app() -> App {
    App::new()
}

fn test_create_user(id: i32, first_name: &str, last_name: &str) -> User {
    User { id, first_name: first_name.to_string(), last_name: last_name.to_string() }
}

#[test]
fn app_tests_test_initial_state() {
    let app = setup_app();
    assert_eq!(app.get_current_page(), Page::Login);
    assert!(app.get_current_user().is_none());
}

#[test]
fn test_switch_page() {
    let mut store = Store::new();
    let mut app = setup_app();
    app.update(&mut store, Message::SwitchPage(Page::Register));
    assert_eq!(app.get_current_page(), Page::Register);
    app.update(&mut store, Message::SwitchPage(Page::Home));
    assert_eq!(app.get_current_page(), Page::Home);
}

#[test]
fn test_handle_login_message_navigate_to_register() {
    let mut store = Store::new();
    let mut app = setup_app();
    app.update(&mut store, Message::LoginMessage(LoginMessage::NavigateToRegister));
    assert_eq!(app.get_current_page(), Page::Register);
}

#[test]
fn test_handle_login_message_submit_login() {
    let mut store = Store::new();
    let mut app = setup_app();
    app.set_current_user(test_create_user(1, "John", "Doe"));
    app.update(&mut store, Message::LoginMessage(LoginMessage::SubmitLogin));
    assert_eq!(app.get_current_page(), Page::Home);
    assert!(app.get_current_user().is_some());
}

#[test]
fn test_handle_register_message_navigate_to_login() {
    let mut store = Store::new();
    let mut app = setup_app();
    app.update(&mut store, Message::RegisterMessage(RegisterMessage::NavigateToLogin));
    assert_eq!(app.get_current_page(), Page::Login);
}

#[test]
fn test_handle_home_message_navigate_to_login() {
    let mut store = Store::new();
    let mut app = setup_app();
    app.update(&mut store, Message::HomeMessage(HomeMessage::NavigateToLogin));
    assert_eq!(app.get_current_page(), Page::Login);
    assert!(app.get_current_user().is_none());
}

#[test]
fn test_handle_home_message_tab_selected_settings() {
    let mut store = Store::new();
    let mut app = setup_app();
    app.set_current_user(test_create_user(1, "John", "Doe"));
    app.update(&mut store, Message::HomeMessage(HomeMessage::TabSelected(TabId::Settings)));
    assert_eq!(app.get_home().active_tab(), TabId::Settings);
}

#[test]
fn test_handle_home_message_tab_selected_user() {
    let mut store = Store::new();
    let mut app = setup_app();
    let current_user = test_create_user(1, "John", "Doe");
    let other_user = test_create_user(2, "Jane", "Doe");
    app.set_current_user(current_user.clone());
    app.update(&mut store, Message::HomeMessage(HomeMessage::UserTab(UserTabMessage::SendFriendRequestToSelectedUser)));
    app.update(&mut store, Message::HomeMessage(HomeMessage::UserTab(UserTabMessage::ChatWithUser(other_user))));
    assert_eq!(app.get_current_page(), Page::UserChat);
    app.set_current_user(current_user);
}

#[test]
fn test_handle_home_message_tab_selected_group() {
    let mut store = Store::new();
    let mut app = setup_app();
    let current_user = test_create_user(1, "John", "Doe");
    let group = Group { id: 1, name: "Group 1".to_string() };
    app.set_current_user(current_user);
    app.update(&mut store, Message::HomeMessage(HomeMessage::GroupTab(GroupTabMessage::ChatWithGroup(group))));
    assert_eq!(app.get_current_page(), Page::GroupChat);
    app.update(&mut store, Message::HomeMessage(HomeMessage::GroupTab(GroupTabMessage::CreateGroup)));
}

#[test]
fn test_handle_user_chat_message_back() {
    let mut store = Store::new();
    let mut app = setup_app();
    app.set_current_user(test_create_user(1, "John", "Doe"));
    app.update(&mut store, Message::SwitchPage(Page::UserChat));
    app.update(&mut store, Message::UserChatMessage(UserChatMessage::Back));
    assert_eq!(app.get_current_page(), Page::Home);
}

#[test]
fn test_handle_group_chat_message_back() {
    let mut store = Store::new();
    let mut app = setup_app();
    app.set_current_user(test_create_user(1, "John", "Doe"));
    app.update(&mut store, Message::SwitchPage(Page::GroupChat));
    app.update(&mut store, Message::GroupChatMessage(GroupChatMessage::Back));
    assert_eq!(app.get_current_page(), Page::Home);
}

#[test]
fn test_handle_settings_tab_message_delete_account_positive() {
    let mut store = Store::new();
    let mut app = setup_app();
    app.update(&mut store, Message::SwitchPage(Page::Home));
    let user = store.create_user("John", "Doe", "app@email.de", "password").unwrap();
    app.set_current_user(user);
    app.update(&mut store, Message::HomeMessage(HomeMessage::TabSelected(TabId::Settings)));
    app.update(&mut store, Message::HomeMessage(HomeMessage::SettingsTab(SettingsTabMessage::DeleteAccount)));
    app.update(&mut store, Message::HomeMessage(HomeMessage::SettingsTab(SettingsTabMessage::DeleteAccount)));
    assert_eq!(app.get_current_page(), Page::Login);
    assert!(app.get_current_user().is_none());
}

#[test]
fn test_handle_settings_tab_message_delete_account_negative() {
    let mut store = Store::new();
    let mut app = setup_app();
    app.update(&mut store, Message::SwitchPage(Page::Home));
    app.set_current_user(test_create_user(1, "John", "Doe"));
    app.update(&mut store, Message::HomeMessage(HomeMessage::TabSelected(TabId::Settings)));
    app.update(&mut store, Message::HomeMessage(HomeMessage::SettingsTab(SettingsTabMessage::DeleteAccount)));
    assert_eq!(app.get_current_page(), Page::Home);
    assert!(app.get_current_user().is_some());
}

#[test]
fn test_handle_settings_tab_message_change_theme() {
    let mut store = Store::new();
    let mut app = setup_app();
    app.set_current_user(test_create_user(1, "John", "Doe"));
    app.update(&mut store, Message::SwitchPage(Page::Home));
    app.update(&mut store, Message::HomeMessage(HomeMessage::TabSelected(TabId::Settings)));
    app.update(&mut store, Message::HomeMessage(HomeMessage::SettingsTab(SettingsTabMessage::ChangeTheme(AppTheme::Dracula))));
    assert_eq!(app.get_app_theme(), AppTheme::Dracula);
    assert_eq!(app.get_app_theme(), app.get_home().clone().get_settings_tab().get_app_theme());
}

#[test]
fn test_subscription_home_page() {
    let mut store = Store::new();
    let mut app = setup_app();
    app.update(&mut store, Message::SwitchPage(Page::Home));
    assert_eq!(app.subscription_interval(), Some(10));
}

#[test]
fn test_subscription_user_chat_page() {
    let mut store = Store::new();
    let mut app = setup_app();
    app.update(&mut store, Message::SwitchPage(Page::UserChat));
    assert_eq!(app.subscription_interval(), Some(5));
}

#[test]
fn test_subscription_group_chat_page() {
    let mut store = Store::new();
    let mut app = setup_app();
    app.update(&mut store, Message::SwitchPage(Page::GroupChat));
    assert_eq!(app.subscription_interval(), Some(5));
}

#[test]
fn test_subscription_login_page() {
    let app = setup_app();
    assert_eq!(app.subscription_interval(), None);
}

#[test]
fn test_subscription_register_page() {
    let mut store = Store::new();
    let mut app = setup_app();
    app.update(&mut store, Message::SwitchPage(Page::Register));
    assert_eq!(app.subscription_interval(), None);
}

#[test]
fn sign_in_through_the_store() {
    let mut store = Store::new();
    store.create_user("John", "Doe", "john@mail.de", "Aa1!Aa1!").unwrap();
    let mut app = setup_app();
    app.update(&mut store, Message::LoginMessage(LoginMessage::EmailChanged("john@mail.de".to_string())));
    app.update(&mut store, Message::LoginMessage(LoginMessage::PasswordChanged("Aa1!Aa1!".to_string())));
    app.update(&mut store, Message::LoginMessage(LoginMessage::SubmitLogin));
    assert_eq!(app.get_current_page(), Page::Home);
    assert_eq!(app.get_current_user().map(|u| u.id), Some(1));
    assert_eq!(app.title(), "SecSE24 Group08");
}
