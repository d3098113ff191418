use zero2prod::password::{current_password_outcome, password_changed_message, same_text};
use zero2prod::{check_new_password, AuthError, ChangePasswordError};

#[test]
fn new_passwords_that_differ_are_rejected() {
    let r = check_new_password("a-long-password-1", "a-long-password-2");
    assert_eq!(r, Err(ChangePasswordError::Mismatch));
    assert_eq!(
        ChangePasswordError::Mismatch.message(),
        "You entered two different new passwords - the field values must match."
    );
}

#[test]
fn a_new_password_of_11_graphemes_is_too_short() {
    let p = "a".repeat(11);
    assert_eq!(check_new_password(&p, &p), Err(ChangePasswordError::TooShort));
}

#[test]
fn a_new_password_of_12_graphemes_is_accepted() {
    let p = "a".repeat(12);
    assert_eq!(check_new_password(&p, &p), Ok(()));
}

#[test]
fn a_new_password_of_128_graphemes_is_accepted() {
    let p = "ж".repeat(128);
    assert_eq!(check_new_password(&p, &p), Ok(()));
}

#[test]
fn a_new_password_of_129_graphemes_is_too_long() {
    let p = "a".repeat(129);
    assert_eq!(check_new_password(&p, &p), Err(ChangePasswordError::TooLong));
}

#[test]
fn password_length_counts_graphemes_not_characters() {
    let p = "e\u{301}".repeat(11);
    assert_eq!(check_new_password(&p, &p), Err(ChangePasswordError::TooShort));
}

#[test]
fn a_wrong_current_password_is_reported_to_the_user() {
    let r = current_password_outcome(Err(AuthError::InvalidCredentials("x".to_string())));
    assert!(matches!(r, Err(Ok(ChangePasswordError::WrongCurrentPassword))));
    assert_eq!(
        ChangePasswordError::WrongCurrentPassword.message(),
        "The current password is incorrect."
    );
    let r = current_password_outcome(Err(AuthError::UnexpectedError("db".to_string())));
    assert!(matches!(r, Err(Err(AuthError::UnexpectedError(_)))));
    assert!(current_password_outcome(Ok(())).is_ok());
    assert_eq!(password_changed_message(), "Your password has been changed.");
}

#[test]
fn texts_compare_by_characters() {
    assert!(same_text("abc", "abc"));
    assert!(!same_text("abc", "abd"));
    assert!(!same_text("abc", "ab"));
}
