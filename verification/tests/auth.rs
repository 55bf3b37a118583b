use v2board_application::auth::{
    checked_trial_transfer_bytes, normalize_email, session_ttl_seconds, truncate_utf8,
    validate_change_password, validate_email, validate_forget, validate_password,
    validate_registration_auxiliary_inputs, AuthError, AuthPolicy, AuthService, RegisterInput,
    TrialDuration, MAX_EMAIL_CODE_BYTES, MAX_INVITE_CODE_BYTES, MAX_RECAPTCHA_DATA_BYTES,
};

fn policy() -> AuthPolicy {
    AuthPolicy {
        app_name: "V2Board".to_string(),
        app_url: Some("https://example.test".to_string()),
        password_limit_enable: true,
        password_limit_count: 5,
        password_limit_expire_minutes: 5,
        password_limit_ttl_seconds: 300,
        register_limit_by_ip_enable: true,
        register_limit_count: 3,
        register_limit_expire_minutes: 1,
        register_limit_ttl_seconds: 60,
        stop_register: false,
        invite_force: false,
        invite_never_expire: false,
        email_verify: false,
        email_whitelist_enable: false,
        email_whitelist_suffix: Vec::new(),
        email_gmail_limit_enable: false,
        recaptcha_enable: false,
        trial_plan_id: 0,
        trial_duration: TrialDuration::Seconds(3_600),
        auth_session_ttl_seconds: 2_592_000,
        privileged_auth_session_ttl_seconds: 43_200,
        auth_session_max_per_user: 10,
        privileged_step_up_max_attempts: 5,
        privileged_step_up_attempt_window_seconds: 300,
        privileged_step_up_ttl_seconds: 300,
    }
}

#[test]
fn validation_preserves_field_precedence_and_character_counting() {
    assert!(validate_email("user@example.test").is_ok());
    assert!(matches!(
        validate_email("   "),
        Err(AuthError::Validation { field: "email", message: "Email can not be empty" })
    ));
    assert!(matches!(
        validate_email("bad"),
        Err(AuthError::Validation { field: "email", message: "Email format is incorrect" })
    ));
    assert_eq!(normalize_email(" User@Example.TEST "), "user@example.test");

    assert!(validate_password("password").is_ok());
    assert!(matches!(
        validate_password("七个中文密码"),
        Err(AuthError::Validation {
            field: "password",
            message: "Password must be greater than 8 digits"
        })
    ));

    assert!(validate_forget("user@example.test", "password", "123456").is_ok());
    assert!(matches!(
        validate_forget("", "short", ""),
        Err(AuthError::Validation { field: "email", message: "Email can not be empty" })
    ));
    assert!(matches!(
        validate_forget("user@example.test", "password", ""),
        Err(AuthError::Validation {
            field: "email_code",
            message: "Email verification code cannot be empty"
        })
    ));
    assert!(matches!(
        validate_change_password("", "short"),
        Err(AuthError::Validation {
            field: "old_password",
            message: "Old password cannot be empty"
        })
    ));
    assert!(matches!(
        validate_change_password("old-password", ""),
        Err(AuthError::Validation {
            field: "new_password",
            message: "New password cannot be empty"
        })
    ));
}

#[test]
fn registration_auxiliary_inputs_are_bounded_before_expensive_work() {
    let valid = RegisterInput {
        email: "user@example.test".to_string(),
        password: "password".to_string(),
        invite_code: Some("a".repeat(MAX_INVITE_CODE_BYTES)),
        email_code: Some("1".repeat(MAX_EMAIL_CODE_BYTES)),
        recaptcha_data: Some("r".repeat(MAX_RECAPTCHA_DATA_BYTES)),
    };
    assert!(validate_registration_auxiliary_inputs(&valid).is_ok());

    let mut oversized = valid.clone();
    oversized.invite_code = Some("a".repeat(MAX_INVITE_CODE_BYTES + 1));
    assert!(matches!(
        validate_registration_auxiliary_inputs(&oversized),
        Err(AuthError::Validation { field: "invite_code", .. })
    ));
    oversized = valid.clone();
    oversized.email_code = Some("1".repeat(MAX_EMAIL_CODE_BYTES + 1));
    assert!(matches!(
        validate_registration_auxiliary_inputs(&oversized),
        Err(AuthError::Validation { field: "email_code", .. })
    ));
    oversized = valid;
    oversized.recaptcha_data = Some("r".repeat(MAX_RECAPTCHA_DATA_BYTES + 1));
    assert!(matches!(
        validate_registration_auxiliary_inputs(&oversized),
        Err(AuthError::Validation { field: "recaptcha_data", .. })
    ));
}

#[test]
fn trial_math_session_policy_and_redirects_remain_application_owned() {
    assert_eq!(checked_trial_transfer_bytes(2).unwrap(), 2_147_483_648);
    assert!(checked_trial_transfer_bytes(-1).is_err());
    assert!(checked_trial_transfer_bytes(i64::MAX).is_err());
    assert_eq!(session_ttl_seconds(30, 12, 0, 0), 30);
    assert_eq!(session_ttl_seconds(30, 12, 1, 0), 12);
    assert_eq!(session_ttl_seconds(30, 12, 0, 1), 12);
    assert_eq!(truncate_utf8("ab中文".to_string(), 6), "ab中");

    let service = AuthService::new((), (), (), policy());
    assert_eq!(
        service.login_redirect_url("token", None),
        "https://example.test/login?verify=token&redirect=dashboard"
    );
    assert_eq!(
        service.login_redirect_url("token", Some("orders")),
        "https://example.test/login?verify=token&redirect=orders"
    );
}
