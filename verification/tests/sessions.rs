use v2board_application::auth::{
    AuthCode, AuthError, MfaRecord, SessionMetadata, StoredSession,
};
use v2board_application::auth_flow::{
    accepted_step, enabled_mfa_record, login_totp_challenge, mfa_status, password_saved,
    pending_mfa_record, plausible_step_up_token, step_up_bound, viewed_invite_code,
    visible_sessions, write_applied,
};

fn stored(id: &str, login_at: i64, expires_at: Option<i64>, ip: Option<&str>) -> StoredSession {
    StoredSession {
        session_id: id.to_string(),
        metadata: SessionMetadata {
            ip: ip.map(str::to_string),
            login_at,
            user_agent: None,
            expires_at,
            password_authenticated: true,
        },
    }
}

fn record(enabled_at: Option<i64>) -> MfaRecord {
    MfaRecord {
        secret_nonce: vec![1],
        secret_ciphertext: vec![2],
        secret_tag: vec![3],
        enabled_at,
        last_step: 0,
    }
}

fn is_business(error: &AuthError, expected: AuthCode) -> bool {
    matches!(error, AuthError::Business { code, detail: None } if *code == expected)
}

#[test]
fn sessions_list_latest_first_and_hide_expired_ones() {
    let sessions = visible_sessions(
        vec![
            stored("b", 10, None, Some("10.0.0.1")),
            stored("old", 50, Some(99), None),
            stored("a", 10, Some(200), None),
            stored("c", 30, None, None),
        ],
        Some("a"),
        100,
    );
    let ids = sessions.iter().map(|s| s.session_id.as_str()).collect::<Vec<_>>();
    assert_eq!(ids, vec!["c", "a", "b"]);
    assert!(sessions[1].current);
    assert!(!sessions[0].current && !sessions[2].current);
    assert_eq!(sessions[2].ip, "10.0.0.1");
    assert_eq!(sessions[0].ip, "");
    assert_eq!(sessions[0].ua, "");
}

#[test]
fn a_session_expiring_now_is_hidden() {
    assert!(visible_sessions(vec![stored("x", 1, Some(5), None)], None, 5).is_empty());
    assert_eq!(visible_sessions(vec![stored("x", 1, Some(6), None)], None, 5).len(), 1);
}

#[test]
fn second_factor_status_and_records() {
    let status = mfa_status(Some(record(Some(42))));
    assert!(status.totp_enabled);
    assert_eq!(status.totp_enabled_at, Some(42));
    assert!(!status.totp_required);
    assert!(!mfa_status(Some(record(None))).totp_enabled);
    assert!(!mfa_status(None).totp_enabled);

    assert!(is_business(&pending_mfa_record(None).unwrap_err(), AuthCode::MfaSetupMissing));
    assert!(is_business(
        &pending_mfa_record(Some(record(Some(1)))).unwrap_err(),
        AuthCode::MfaAlreadyEnabled
    ));
    assert_eq!(pending_mfa_record(Some(record(None))).unwrap(), record(None));

    assert!(is_business(&enabled_mfa_record(None).unwrap_err(), AuthCode::MfaNotEnabled));
    assert!(is_business(&enabled_mfa_record(Some(record(None))).unwrap_err(), AuthCode::MfaNotEnabled));
    assert_eq!(enabled_mfa_record(Some(record(Some(3)))).unwrap(), record(Some(3)));

    assert_eq!(accepted_step(Some(7)).unwrap(), 7);
    assert!(is_business(&accepted_step(None).unwrap_err(), AuthCode::MfaCodeInvalid));
}

#[test]
fn login_second_factor_challenge() {
    assert!(login_totp_challenge(None, None).unwrap().is_none());
    assert!(login_totp_challenge(Some(record(None)), None).unwrap().is_none());
    assert!(is_business(
        &login_totp_challenge(Some(record(Some(1))), None).unwrap_err(),
        AuthCode::MfaCodeRequired
    ));
    let (found, code) = login_totp_challenge(Some(record(Some(1))), Some("123456")).unwrap().unwrap();
    assert_eq!(found, record(Some(1)));
    assert_eq!(code, "123456");
}

#[test]
fn conditional_writes_and_saved_passwords() {
    assert!(write_applied(true, AuthCode::PasswordResetFailed).is_ok());
    assert!(is_business(
        &write_applied(false, AuthCode::PasswordResetFailed).unwrap_err(),
        AuthCode::PasswordResetFailed
    ));
    assert!(password_saved(true).is_ok());
    match password_saved(false).unwrap_err() {
        AuthError::Business { code, detail } => {
            assert_eq!(code, AuthCode::InvalidParameter);
            assert_eq!(detail.as_deref(), Some("Save failed"));
        }
        other => panic!("unexpected {other:?}"),
    }
}

#[test]
fn invitation_page_views() {
    assert_eq!(viewed_invite_code(None).unwrap(), None);
    assert_eq!(viewed_invite_code(Some("   ")).unwrap(), None);
    assert_eq!(viewed_invite_code(Some(" abc ")).unwrap(), Some("abc".to_string()));
    let long = "x".repeat(256);
    assert!(matches!(
        viewed_invite_code(Some(&long)),
        Err(AuthError::Validation { field: "invite_code", message: "Invalid invitation code" })
    ));
    let limit = "x".repeat(255);
    assert_eq!(viewed_invite_code(Some(&limit)).unwrap(), Some(limit.clone()));
}

#[test]
fn step_up_tokens_bind_user_and_session() {
    assert!(!plausible_step_up_token(""));
    assert!(plausible_step_up_token(&"t".repeat(256)));
    assert!(!plausible_step_up_token(&"t".repeat(257)));
    assert!(step_up_bound(Some((7, "s1".to_string())), 7, "s1"));
    assert!(!step_up_bound(Some((7, "s1".to_string())), 8, "s1"));
    assert!(!step_up_bound(Some((7, "s1".to_string())), 7, "s2"));
    assert!(!step_up_bound(None, 7, "s1"));
}
