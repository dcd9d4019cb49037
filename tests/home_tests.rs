use secse24_group08::group_tab::GroupTabMessage;
use secse24_group08::home::{Home, HomeMessage, TabId};
use secse24_group08::models::User;
use secse24_group08::setting_tab::SettingsTabMessage;
use secse24_group08::store::Store;
use secse24_group08::user_tab::UserTabMessage;

fn setup_home_with_user() -> Home {
    let mut home = Home::default();
    let current_user = User { id: 1, first_name: "Alice".to_string(), last_name: "Doe".to_string() };
    home.set_current_user(current_user);
    home
}

#[test]
fn test_home_default() {
    let home = Home::default();
    assert!(home.get_current_user().is_none());
    assert_eq!(home.get_active_tab(), TabId::User);
}

#[test]
fn test_load_data() {
    let mut store = Store::new();
    let mut home = setup_home_with_user();
    home.update(&mut store, HomeMessage::Tick);
    home.update(&mut store, HomeMessage::TabSelected(TabId::Group));
    home.update(&mut store, HomeMessage::Tick);
}

#[test]
fn test_update_tab_selected() {
    let mut store = Store::new();
    let mut home = setup_home_with_user();
    assert_eq!(home.get_active_tab(), TabId::User);
    home.update(&mut store, HomeMessage::TabSelected(TabId::Group));
    assert_eq!(home.get_active_tab(), TabId::Group);
    home.update(&mut store, HomeMessage::TabSelected(TabId::Settings));
    assert_eq!(home.get_active_tab(), TabId::Settings);
    home.update(&mut store, HomeMessage::TabSelected(TabId::User));
    assert_eq!(home.get_active_tab(), TabId::User);
}

#[test]
fn test_update_user_tab_message() {
    let mut store = Store::new();
    let mut home = Home::default();
    let user_tab_message = UserTabMessage::SendFriendRequestToSelectedUser;
    home.update(&mut store, HomeMessage::UserTab(user_tab_message.clone()));
}

#[test]
fn test_update_group_tab_message() {
    let mut store = Store::new();
    let mut home = Home::default();
    let group_tab_message = GroupTabMessage::CreateGroup;
    home.update(&mut store, HomeMessage::GroupTab(group_tab_message.clone()));
}

#[test]
fn test_update_settings_tab_message() {
    let mut store = Store::new();
    let mut home = Home::default();
    let settings_tab_message = SettingsTabMessage::UpdateEmail;
    home.update(&mut store, HomeMessage::SettingsTab(settings_tab_message.clone()));
}

#[test]
fn tick_fills_the_friends_tab_without_the_viewer() {
    let mut store = Store::new();
    let alice = store.create_user("Alice", "Doe", "alice@mail.de", "Aa1!Aa1!").unwrap();
    let bob = store.create_user("Bob", "Doe", "bob@mail.de", "Aa1!Aa1!").unwrap();
    let mut home = Home::default();
    home.set_current_user(alice.clone());
    home.update(&mut store, HomeMessage::Tick);
    assert_eq!(home.get_user_tab().get_all_users_not_friends(), &vec![bob.clone()]);
    assert!(home.get_user_tab().get_friends().is_empty());
}
