use secse24_group08::register::{Register, RegisterMessage};
use secse24_group08::store::Store;

fn setup_register() -> Register {
    Register::default()
}

fn submit_register(store: &mut Store, email: &str, password: &str, first_name: &str, last_name: &str) -> Register {
    let mut register = setup_register();
    register.update(store, RegisterMessage::EmailChanged(email.to_string()));
    register.update(store, RegisterMessage::PasswordChanged(password.to_string()));
    register.update(store, RegisterMessage::FirstNameChanged(first_name.to_string()));
    register.update(store, RegisterMessage::LastNameChanged(last_name.to_string()));
    register.update(store, RegisterMessage::SubmitRegister);
    register
}

#[test]
fn register_tests_test_initial_state() {
    let register = setup_register();
    assert_eq!(register.get_email(), "");
    assert_eq!(register.get_password(), "");
    assert_eq!(register.get_first_name(), "");
    assert_eq!(register.get_last_name(), "");
    assert_eq!(register.get_error(), "");
    assert_eq!(register.get_info(), "");
}

#[test]
fn test_email_change() {
    let mut store = Store::new();
    let email = "test@example.com";
    let mut register = setup_register();
    register.update(&mut store, RegisterMessage::EmailChanged(email.to_string()));
    assert_eq!(register.get_email(), email);
}

#[test]
fn test_password_change() {
    let mut store = Store::new();
    let password = "StrongP@ssw0rd";
    let mut register = setup_register();
    register.update(&mut store, RegisterMessage::PasswordChanged(password.to_string()));
    assert_eq!(register.get_password(), password);
}

#[test]
fn test_first_name_change() {
    let mut store = Store::new();
    let name = "John";
    let mut register = setup_register();
    register.update(&mut store, RegisterMessage::FirstNameChanged(name.to_string()));
    assert_eq!(register.get_first_name(), name);
}

#[test]
fn test_last_name_change() {
    let mut store = Store::new();
    let name = "Doe";
    let mut register = setup_register();
    register.update(&mut store, RegisterMessage::LastNameChanged(name.to_string()));
    assert_eq!(register.get_last_name(), name);
}

#[test]
fn test_submit_register_empty_fields() {
    let mut store = Store::new();
    let mut register = setup_register();
    register.update(&mut store, RegisterMessage::SubmitRegister);
    assert_eq!(register.get_error(), "Please fill in all fields");
}

#[test]
fn test_submit_register_invalid_email() {
    let mut store = Store::new();
    let register = submit_register(&mut store, "invalid_email", "StrongP@ssw0rd", "John", "Doe");
    assert_eq!(register.get_error(), "Invalid email format");
}

#[test]
fn test_submit_register_weak_password() {
    let mut store = Store::new();
    let register = submit_register(&mut store, "register_test@example.com", "weak", "John", "Doe");
    assert_eq!(register.get_error(), "Password must be at least 8 characters long and contain at least one uppercase letter, one lowercase letter, one digit, and one special character");
}

#[test]
fn test_submit_register_success() {
    let mut store = Store::new();
    let register = submit_register(&mut store, "register1_test@example.com", "StrongP@ssw0rd", "John", "Doe");
    assert_eq!(register.get_error(), "");
    assert_eq!(register.get_info(), "Account has been registered");
    let user = store.find_user_by_email("register1_test@example.com");
    assert!(user.is_ok());
    assert!(store.delete_user(user.unwrap().id).is_ok());
}

#[test]
fn test_submit_register_failure() {
    let mut store = Store::new();
    let register = submit_register(&mut store, "register2_test@example.com", "StrongP@ssw0rd", "John", "Doe");
    assert_eq!(register.get_error(), "");
    assert_eq!(register.get_info(), "Account has been registered");
    let register = submit_register(&mut store, "register2_test@example.com", "StrongP@ssw0rd", "John", "Doe");
    assert_eq!(register.get_error(), "Email address already in use");
    assert_eq!(register.get_info(), "");
}
