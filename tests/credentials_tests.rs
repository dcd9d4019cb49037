use secse24_group08::credentials::{is_strong_password, is_valid_email};
use secse24_group08::models::User;

#[test]
fn test_is_strong_password() {
    assert!(is_strong_password("Aa1!Aa1!"));
    assert!(is_strong_password("P@ssw0rd123"));
}

#[test]
fn test_is_weak_password() {
    assert!(!is_strong_password("password"));
    assert!(!is_strong_password("Password"));
    assert!(!is_strong_password("Passw0rd"));
    assert!(!is_strong_password("Pass!ord"));
    assert!(!is_strong_password("Pa1!"));
}

#[test]
fn test_valid_emails() {
    assert!(is_valid_email("test@example.com"));
    assert!(is_valid_email("user.name+tag+sorting@example.com"));
    assert!(is_valid_email("x@example.com"));
}

#[test]
fn test_invalid_emails() {
    assert!(!is_valid_email("plainaddress"));
    assert!(!is_valid_email("@missing-local-part.com"));
    assert!(!is_valid_email("missing-at-sign.com"));
    assert!(!is_valid_email("missing.domain@.com"));
}

#[test]
fn strong_password_counts_bytes_not_characters() {
    // Seven characters, but the two-byte letter makes eight bytes.
    assert!(is_strong_password("Aa1!Aaé"));
    assert!(!is_strong_password("Aa1!Aa"));
}

#[test]
fn strong_password_edge_of_length() {
    assert!(!is_strong_password("Aa1!Aa1"));
    assert!(is_strong_password("Aa1!Aa1x"));
    assert!(!is_strong_password(""));
}

#[test]
fn display_user_test() {
    let user = User {
        id: 1,
        first_name: "John".to_string(),
        last_name: "Doe".to_string(),
    };
    assert_eq!(user.to_display_string(), "John, Doe");
}
