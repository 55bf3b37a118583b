use v2board_application::operator_access::{
    accepted_password, normalized_email, password_reset_outcome, OperatorAccessError,
    OperatorPasswordResetOutcome,
};
use v2board_application::RepositoryError;

#[test]
fn validation_fails_before_hashing_or_persistence() {
    assert!(matches!(normalized_email(" "), Err(OperatorAccessError::EmptyEmail)));
    assert_eq!(normalized_email("admin@example.test").unwrap(), "admin@example.test");
    assert!(matches!(accepted_password(Some("short")), Err(OperatorAccessError::PasswordTooShort)));
}

#[test]
fn passwords_need_eight_characters_and_emails_are_trimmed() {
    assert_eq!(accepted_password(Some("long-enough")).unwrap(), "long-enough");
    assert_eq!(accepted_password(Some("ééééééé")).is_err(), true);
    assert_eq!(accepted_password(Some("éééééééé")).unwrap(), "éééééééé");
    assert!(matches!(accepted_password(None), Err(OperatorAccessError::PasswordTooShort)));
    assert_eq!(normalized_email(" admin@example.test ").unwrap(), "admin@example.test");
}

#[test]
fn a_reset_reports_the_cleanup_failure_with_the_update() {
    assert_eq!(
        password_reset_outcome(
            Some(7),
            Some(RepositoryError::new("revoke operator sessions", "offline"))
        ),
        OperatorPasswordResetOutcome::Updated {
            user_id: 7,
            session_cleanup_error: Some(RepositoryError::new("revoke operator sessions", "offline")),
        }
    );
    assert_eq!(password_reset_outcome(None, None), OperatorPasswordResetOutcome::AccountNotFound);
}
