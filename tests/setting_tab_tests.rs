use secse24_group08::models::User;
use secse24_group08::setting_tab::{AppTheme, SettingTab, SettingsTabMessage};
use secse24_group08::store::Store;

fn create_default_setting_tab() -> SettingTab {
    SettingTab::default()
}

fn create_test_user() -> User {
    User { id: 1, first_name: "John".to_string(), last_name: "Doe".to_string() }
}

fn set_up_user_in_tab(setting_tab: &mut SettingTab, user: User) {
    setting_tab.set_current_user(user);
}

/// A store whose first account is John Doe, test1@email.de.
fn seeded_store() -> Store {
    let mut store = Store::new();
    let user = store.create_user("John", "Doe", "test1@email.de", "n)+L8ZVWw$qKXDQo").unwrap();
    assert_eq!(user.id, 1);
    store
}

#[test]
fn test_default_setting_tab() {
    let setting_tab = create_default_setting_tab();
    assert_eq!(setting_tab.get_current_user(), None);
    assert_eq!(setting_tab.get_error(), "");
    assert_eq!(setting_tab.get_info(), "");
    assert_eq!(setting_tab.get_app_theme(), AppTheme::Moonfly);
    assert_eq!(setting_tab.get_new_email_value(), "");
    assert_eq!(setting_tab.get_new_password_value(), "");
    assert_eq!(setting_tab.get_current_password_value(), "");
    assert!(!setting_tab.get_delete_button_pressed());
    assert!(!setting_tab.get_account_deleted());
}

#[test]
fn setting_tab_tests_test_set_current_user() {
    let mut setting_tab = create_default_setting_tab();
    let user = create_test_user();
    set_up_user_in_tab(&mut setting_tab, user);
    let result = setting_tab.get_current_user();
    assert!(result.is_some());
    assert_eq!(result.unwrap().id, 1);
}

#[test]
fn test_set_app_theme() {
    let mut setting_tab = create_default_setting_tab();
    setting_tab.set_app_theme(AppTheme::Dracula);
    assert_eq!(setting_tab.get_app_theme(), AppTheme::Dracula);
}

#[test]
fn test_update_password_success() {
    let mut store = seeded_store();
    let mut setting_tab = create_default_setting_tab();
    set_up_user_in_tab(&mut setting_tab, create_test_user());
    setting_tab.update(&mut store, SettingsTabMessage::NewPasswordInputChanged("wta3xr{F)o{uDh$w".to_string()));
    setting_tab.update(&mut store, SettingsTabMessage::CurrentPasswordInputChanged("n)+L8ZVWw$qKXDQo".to_string()));
    setting_tab.update(&mut store, SettingsTabMessage::UpdatePassword);
    assert_eq!(setting_tab.get_error(), "");
    assert_eq!(setting_tab.get_info(), "Password updated successfully");
}

#[test]
fn test_update_password_failure_weak() {
    let mut store = seeded_store();
    let mut setting_tab = create_default_setting_tab();
    set_up_user_in_tab(&mut setting_tab, create_test_user());
    setting_tab.update(&mut store, SettingsTabMessage::NewPasswordInputChanged("weak".to_string()));
    setting_tab.update(&mut store, SettingsTabMessage::CurrentPasswordInputChanged("n)+L8ZVWw$qKXDQo".to_string()));
    setting_tab.update(&mut store, SettingsTabMessage::UpdatePassword);
    assert_eq!(setting_tab.get_error(), "Password must be at least 8 characters long and contain at least one uppercase letter, one lowercase letter, one digit, and one special character");
}

#[test]
fn test_update_password_failure_wrong() {
    let mut store = seeded_store();
    let mut setting_tab = create_default_setting_tab();
    set_up_user_in_tab(&mut setting_tab, create_test_user());
    setting_tab.update(&mut store, SettingsTabMessage::NewPasswordInputChanged("wta3xr{F)o{uDh$w".to_string()));
    setting_tab.update(&mut store, SettingsTabMessage::CurrentPasswordInputChanged("wrong password".to_string()));
    setting_tab.update(&mut store, SettingsTabMessage::UpdatePassword);
    assert_eq!(setting_tab.get_error(), "Old password does not match.");
}

#[test]
fn test_update_email_success() {
    let mut store = seeded_store();
    let mut setting_tab = create_default_setting_tab();
    set_up_user_in_tab(&mut setting_tab, create_test_user());
    setting_tab.update(&mut store, SettingsTabMessage::EmailInputChanged("newuser@example.com".to_string()));
    setting_tab.update(&mut store, SettingsTabMessage::UpdateEmail);
    assert_eq!(setting_tab.get_error(), "");
    assert_eq!(setting_tab.get_info(), "Email updated successfully");
    setting_tab.update(&mut store, SettingsTabMessage::EmailInputChanged("test1@email.de".to_string()));
    setting_tab.update(&mut store, SettingsTabMessage::UpdateEmail);
    assert_eq!(setting_tab.get_error(), "");
}

#[test]
fn test_update_email_failure() {
    let mut store = seeded_store();
    let mut setting_tab = create_default_setting_tab();
    set_up_user_in_tab(&mut setting_tab, create_test_user());
    setting_tab.update(&mut store, SettingsTabMessage::EmailInputChanged("invalid-email".to_string()));
    setting_tab.update(&mut store, SettingsTabMessage::UpdateEmail);
    assert_eq!(setting_tab.get_error(), "Invalid email format");
}

#[test]
fn test_delete_account() {
    let mut store = Store::new();
    let user_result = store.create_user("John", "Doe", "test3@email.de", "password");
    assert!(user_result.is_ok());
    let user = user_result.unwrap();
    let mut setting_tab = create_default_setting_tab();
    set_up_user_in_tab(&mut setting_tab, user.clone());
    setting_tab.update(&mut store, SettingsTabMessage::DeleteAccount);
    assert!(setting_tab.get_delete_button_pressed());
    assert!(!setting_tab.get_account_deleted());
    setting_tab.update(&mut store, SettingsTabMessage::DeleteAccount);
    assert!(setting_tab.get_account_deleted());
    assert!(store.find_user_by_email("test3@email.de").is_err());
}

#[test]
fn update_email_to_address_in_use() {
    let mut store = seeded_store();
    store.create_user("Jane", "Doe", "jane@email.de", "n)+L8ZVWw$qKXDQo").unwrap();
    let mut setting_tab = create_default_setting_tab();
    set_up_user_in_tab(&mut setting_tab, create_test_user());
    setting_tab.update(&mut store, SettingsTabMessage::EmailInputChanged("jane@email.de".to_string()));
    setting_tab.update(&mut store, SettingsTabMessage::UpdateEmail);
    assert_eq!(setting_tab.get_error(), "Error updating email: Email address already in use");
    setting_tab.update(&mut store, SettingsTabMessage::EmailInputChanged("".to_string()));
    setting_tab.update(&mut store, SettingsTabMessage::UpdateEmail);
    assert_eq!(setting_tab.get_error(), "Email and password fields cannot be empty");
}
