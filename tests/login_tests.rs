use secse24_group08::login::{Login, LoginMessage};
use secse24_group08::store::Store;

fn default_login_assertions(login: &Login) {
    assert_eq!(login.get_email(), "");
    assert_eq!(login.get_password(), "");
    assert_eq!(login.get_error(), "");
    assert_eq!(login.get_found_user().id, -1);
    assert_eq!(login.get_found_user().first_name, "");
    assert_eq!(login.get_found_user().last_name, "");
}

fn assert_error_message(login: &Login, expected_message: &str) {
    assert_eq!(login.get_error(), expected_message);
}

/// A store whose first account is test1@email.de.
fn seeded_store() -> Store {
    let mut store = Store::new();
    let user = store.create_user("John", "Doe", "test1@email.de", "n)+L8ZVWw$qKXDQo").unwrap();
    assert_eq!(user.id, 1);
    store
}

fn setup_login_with_email_and_password(store: &Store, email: &str, password: &str) -> Login {
    let mut login = Login::default();
    login.update(store, LoginMessage::EmailChanged(email.to_string()));
    login.update(store, LoginMessage::PasswordChanged(password.to_string()));
    login
}

#[test]
fn test_default_login() {
    let login = Login::default();
    default_login_assertions(&login);
}

#[test]
fn test_email_changed() {
    let store = Store::new();
    let mut login = Login::default();
    login.update(&store, LoginMessage::EmailChanged("test@example.com".to_string()));
    assert_eq!(login.get_email(), "test@example.com");
}

#[test]
fn test_password_changed() {
    let store = Store::new();
    let mut login = Login::default();
    login.update(&store, LoginMessage::PasswordChanged("password".to_string()));
    assert_eq!(login.get_password(), "password");
}

#[test]
fn test_handle_login_empty_fields() {
    let store = Store::new();
    let mut login = Login::default();
    login.update(&store, LoginMessage::SubmitLogin);
    assert_error_message(&login, "Please fill in both email and password fields.");
}

#[test]
fn test_handle_login_invalid_email() {
    let store = seeded_store();
    let mut login = setup_login_with_email_and_password(&store, "test", "password");
    login.update(&store, LoginMessage::SubmitLogin);
    assert_error_message(&login, "Login failed. Either the email or password was incorrect.");
}

#[test]
fn test_handle_login_invalid_password() {
    let store = seeded_store();
    let mut login = setup_login_with_email_and_password(&store, "test1@email.de", "password");
    login.update(&store, LoginMessage::SubmitLogin);
    assert_error_message(&login, "Login failed. Either the email or password was incorrect.");
}

#[test]
fn test_handle_login_success() {
    let store = seeded_store();
    let mut login = setup_login_with_email_and_password(&store, "test1@email.de", "n)+L8ZVWw$qKXDQo");
    login.update(&store, LoginMessage::SubmitLogin);
    assert_eq!(login.get_found_user().id, 1);
    assert_eq!(login.get_error(), "");
}

#[test]
fn login_lowercases_the_address() {
    let store = seeded_store();
    let mut login = setup_login_with_email_and_password(&store, "Test1@Email.DE", "n)+L8ZVWw$qKXDQo");
    login.update(&store, LoginMessage::SubmitLogin);
    assert_eq!(login.get_found_user().id, 1);
}

#[test]
fn test_handle_login_sql_injection() {
    let store = seeded_store();
    let mut login = setup_login_with_email_and_password(&store, "test1@email.de' OR '1'='1", "anything' OR '1'='1");
    login.update(&store, LoginMessage::SubmitLogin);
    assert_eq!(login.get_found_user().id, -1);
    assert_error_message(&login, "Login failed. Either the email or password was incorrect.");
}

#[test]
fn test_handle_login_sql_injection_2() {
    let store = seeded_store();
    let mut login = setup_login_with_email_and_password(&store, "test1@email.de'; DROP TABLE users; --", "password");
    login.update(&store, LoginMessage::SubmitLogin);
    assert_eq!(login.get_found_user().id, -1);
    assert_error_message(&login, "Login failed. Either the email or password was incorrect.");
}

#[test]
fn test_handle_login_empty_inputs() {
    let store = Store::new();
    let mut login = Login::default();
    login.update(&store, LoginMessage::SubmitLogin);
    assert_error_message(&login, "Please fill in both email and password fields.");
    login.update(&store, LoginMessage::EmailChanged("test".to_string()));
    login.update(&store, LoginMessage::SubmitLogin);
    assert_error_message(&login, "Please fill in both email and password fields.");
    login.update(&store, LoginMessage::EmailChanged("".to_string()));
    login.update(&store, LoginMessage::PasswordChanged("password".to_string()));
    login.update(&store, LoginMessage::SubmitLogin);
    assert_error_message(&login, "Please fill in both email and password fields.");
}
