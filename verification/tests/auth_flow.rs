use v2board_application::auth::{
    AuthAccount, AuthCode, AuthError, AuthPolicy, InsertAuthAccountOutcome, InviteCodeRecord,
    SessionMetadata, TrialDuration,
};
use v2board_application::auth_flow::{
    allocated_token, email_code_reserved, email_purpose, email_send_allowed, invite_binding,
    inserted_user, login_event_fits_exec, login_step, registration_open, registration_slot,
    registration_slot_window, session_account, step_up_account, step_up_limits,
    step_up_password, step_up_reservation, step_up_session, LoginAccountFacts, LoginAction,
    LoginEvent, LoginStage, LoginState,
};

fn policy(limiter: bool) -> AuthPolicy {
    AuthPolicy {
        app_name: "V2Board".to_string(),
        app_url: Some("https://example.test".to_string()),
        password_limit_enable: limiter,
        password_limit_count: 5,
        password_limit_expire_minutes: 5,
        password_limit_ttl_seconds: 300,
        register_limit_by_ip_enable: true,
        register_limit_count: 3,
        register_limit_expire_minutes: 1,
        register_limit_ttl_seconds: 60,
        stop_register: false,
        invite_force: false,
        invite_never_expire: false,
        email_verify: false,
        email_whitelist_enable: false,
        email_whitelist_suffix: Vec::new(),
        email_gmail_limit_enable: false,
        recaptcha_enable: false,
        trial_plan_id: 0,
        trial_duration: TrialDuration::Seconds(3_600),
        auth_session_ttl_seconds: 2_592_000,
        privileged_auth_session_ttl_seconds: 43_200,
        auth_session_max_per_user: 10,
        privileged_step_up_max_attempts: 5,
        privileged_step_up_attempt_window_seconds: 300,
        privileged_step_up_ttl_seconds: 300,
    }
}

fn facts(is_admin: i16, banned: bool) -> LoginAccountFacts {
    LoginAccountFacts { id: 7, session_epoch: 3, banned, is_admin, is_staff: 0 }
}

fn business(action: &LoginAction) -> Option<(AuthCode, Option<String>)> {
    match action {
        LoginAction::Fail(AuthError::Business { code, detail }) => Some((*code, detail.clone())),
        _ => None,
    }
}

/// Feeds the events in order and returns the actions the login asked for.
fn drive(policy: &AuthPolicy, events: Vec<LoginEvent>) -> Vec<LoginAction> {
    let mut state = LoginState::start();
    let mut actions = Vec::new();
    for event in events {
        assert!(login_event_fits_exec(state.stage, &event), "{event:?} at {:?}", state.stage);
        let (next, action) = login_step(policy, state, event);
        state = next;
        actions.push(action);
    }
    actions
}

#[test]
fn login_reserves_checks_releases_then_issues_the_session() {
    let actions = drive(
        &policy(true),
        vec![
            LoginEvent::Begin,
            LoginEvent::Reserved(true),
            LoginEvent::AccountLoaded(Some(facts(0, false))),
            LoginEvent::PasswordChecked(true),
            LoginEvent::Released,
            LoginEvent::RehashChecked(false),
        ],
    );
    assert!(matches!(
        actions[0],
        LoginAction::Reserve { account_limit: 5, ip_limit: 50, ttl_seconds: 300 }
    ));
    assert!(matches!(actions[1], LoginAction::FindAccount));
    assert!(matches!(actions[2], LoginAction::VerifyPassword));
    assert!(matches!(actions[3], LoginAction::Release));
    assert!(matches!(actions[4], LoginAction::CheckRehash { user_id: 7 }));
    assert!(matches!(actions[5], LoginAction::IssueSession { user_id: 7, session_epoch: 3 }));
}

#[test]
fn missing_account_runs_dummy_verification_and_keeps_the_reservation() {
    let actions = drive(
        &policy(true),
        vec![
            LoginEvent::Begin,
            LoginEvent::Reserved(true),
            LoginEvent::AccountLoaded(None),
            LoginEvent::DummyVerified,
        ],
    );
    assert!(matches!(actions[2], LoginAction::VerifyDummyPassword));
    assert_eq!(business(&actions[3]), Some((AuthCode::InvalidCredentials, None)));
}

#[test]
fn a_refused_reservation_is_the_rate_limit_answer() {
    let actions = drive(&policy(true), vec![LoginEvent::Begin, LoginEvent::Reserved(false)]);
    assert_eq!(
        business(&actions[1]),
        Some((
            AuthCode::PasswordAttemptsRateLimited,
            Some("There are too many password errors, please try again after 5 minutes.".into())
        ))
    );
}

#[test]
fn a_wrong_password_keeps_the_reservation() {
    let actions = drive(
        &policy(true),
        vec![
            LoginEvent::Begin,
            LoginEvent::Reserved(true),
            LoginEvent::AccountLoaded(Some(facts(0, false))),
            LoginEvent::PasswordChecked(false),
        ],
    );
    assert_eq!(business(&actions[3]), Some((AuthCode::InvalidCredentials, None)));
}

#[test]
fn operators_verify_a_second_factor() {
    let wrong_code = drive(
        &policy(true),
        vec![
            LoginEvent::Begin,
            LoginEvent::Reserved(true),
            LoginEvent::AccountLoaded(Some(facts(1, false))),
            LoginEvent::PasswordChecked(true),
            LoginEvent::TotpChecked(Err(AuthError::Business {
                code: AuthCode::MfaCodeInvalid,
                detail: None,
            })),
        ],
    );
    assert!(matches!(wrong_code[3], LoginAction::VerifyTotp { user_id: 7 }));
    assert_eq!(business(&wrong_code[4]), Some((AuthCode::MfaCodeInvalid, None)));

    let missing_code = drive(
        &policy(true),
        vec![
            LoginEvent::Begin,
            LoginEvent::Reserved(true),
            LoginEvent::AccountLoaded(Some(facts(1, false))),
            LoginEvent::PasswordChecked(true),
            LoginEvent::TotpChecked(Err(AuthError::Business {
                code: AuthCode::MfaCodeRequired,
                detail: None,
            })),
            LoginEvent::Released,
        ],
    );
    assert!(matches!(missing_code[4], LoginAction::Release));
    assert_eq!(business(&missing_code[5]), Some((AuthCode::MfaCodeRequired, None)));
}

#[test]
fn banned_accounts_are_refused_after_the_release() {
    let actions = drive(
        &policy(true),
        vec![
            LoginEvent::Begin,
            LoginEvent::Reserved(true),
            LoginEvent::AccountLoaded(Some(facts(0, true))),
            LoginEvent::PasswordChecked(true),
            LoginEvent::Released,
        ],
    );
    assert!(matches!(actions[3], LoginAction::Release));
    assert_eq!(business(&actions[4]), Some((AuthCode::AccountSuspended, None)));
}

#[test]
fn without_the_limiter_an_outdated_hash_is_upgraded_first() {
    let actions = drive(
        &policy(false),
        vec![
            LoginEvent::Begin,
            LoginEvent::AccountLoaded(Some(facts(0, false))),
            LoginEvent::PasswordChecked(true),
            LoginEvent::RehashChecked(true),
            LoginEvent::Rehashed,
        ],
    );
    assert!(matches!(actions[0], LoginAction::FindAccount));
    assert!(matches!(actions[2], LoginAction::CheckRehash { user_id: 7 }));
    assert!(matches!(actions[3], LoginAction::Rehash { user_id: 7 }));
    assert!(matches!(actions[4], LoginAction::IssueSession { user_id: 7, session_epoch: 3 }));
}

#[test]
fn a_failed_lookup_releases_before_it_is_reported() {
    let actions = drive(
        &policy(true),
        vec![
            LoginEvent::Begin,
            LoginEvent::Reserved(true),
            LoginEvent::PortFailed(AuthError::Internal("down".into())),
            LoginEvent::Released,
        ],
    );
    assert!(matches!(actions[2], LoginAction::Release));
    assert!(matches!(&actions[3], LoginAction::Fail(AuthError::Internal(message)) if message == "down"));
    assert!(!login_event_fits_exec(LoginStage::Started, &LoginEvent::Released));
}

fn account(banned: bool) -> AuthAccount {
    AuthAccount {
        id: 7,
        email: "user@example.test".into(),
        password_hash: "hash".into(),
        password_algo: None,
        password_salt: None,
        session_epoch: 3,
        banned,
        is_admin: 1,
        is_staff: 0,
        admin_permissions: Vec::new(),
    }
}

#[test]
fn step_up_checks_in_order() {
    assert_eq!(step_up_limits(&policy(true)), (5, 25));
    assert!(step_up_reservation(true).is_ok());
    assert!(matches!(
        step_up_reservation(false),
        Err(AuthError::Business { code: AuthCode::PasswordAttemptsRateLimited, detail: Some(d) })
            if d == "Too many password verification attempts; try again later"
    ));
    assert!(matches!(step_up_account(None), Err(AuthError::Unauthorized)));
    assert!(matches!(step_up_account(Some(account(true))), Err(AuthError::Unauthorized)));
    assert_eq!(step_up_account(Some(account(false))).unwrap().id, 7);
    assert!(matches!(
        step_up_password(false),
        Err(AuthError::Business { code: AuthCode::InvalidCredentials, detail: None })
    ));
    let metadata = |expires_at| SessionMetadata {
        ip: None,
        login_at: 0,
        user_agent: None,
        expires_at,
        password_authenticated: true,
    };
    assert!(step_up_session(Some(metadata(Some(101))), 100).is_ok());
    assert!(step_up_session(Some(metadata(None)), 100).is_ok());
    assert!(matches!(step_up_session(Some(metadata(Some(100))), 100), Err(AuthError::Unauthorized)));
    assert!(matches!(step_up_session(None, 100), Err(AuthError::Unauthorized)));
}

#[test]
fn the_first_accepted_token_is_kept_among_three() {
    let tokens = |n: usize| (0..n).map(|i| format!("t{i}")).collect::<Vec<_>>();
    assert_eq!(allocated_token(tokens(3), &vec![false, true, true], "none").unwrap(), "t1");
    assert!(matches!(
        allocated_token(tokens(4), &vec![false, false, false, true], "none"),
        Err(AuthError::Internal(message)) if message == "none"
    ));
    assert!(matches!(allocated_token(Vec::new(), &Vec::new(), "none"), Err(AuthError::Internal(_))));
}

#[test]
fn registration_gates() {
    assert!(registration_open(false).is_ok());
    assert!(matches!(
        registration_open(true),
        Err(AuthError::Business { code: AuthCode::RegistrationClosed, .. })
    ));
    let invite = InviteCodeRecord { id: 1, user_id: 42 };
    assert_eq!(invite_binding(Some(invite), true, false, false).unwrap(), Some(42));
    assert_eq!(invite_binding(Some(invite), false, true, false).unwrap(), Some(42));
    assert!(invite_binding(Some(invite), false, false, false).is_err());
    assert_eq!(invite_binding(None, false, false, false).unwrap(), None);
    assert!(invite_binding(None, false, false, true).is_err());
    assert_eq!(inserted_user(InsertAuthAccountOutcome::Inserted(5)).unwrap(), 5);
    assert!(matches!(
        inserted_user(InsertAuthAccountOutcome::EmailAlreadyRegistered),
        Err(AuthError::Business { code: AuthCode::EmailAlreadyRegistered, .. })
    ));
    assert!(matches!(
        registration_slot(false, 1),
        Err(AuthError::Business { code: AuthCode::RegisterIpRateLimited, detail: Some(d) })
            if d == "Register frequently, please try again after 1 minute"
    ));
    assert_eq!(registration_slot_window(100, 60), (100, 160));
    assert_eq!(registration_slot_window(100, 0), (100, 101));
    assert_eq!(registration_slot_window(i64::MAX - 1, u64::MAX), (i64::MAX - 1, i64::MAX));
}

#[test]
fn session_account_gate() {
    assert!(matches!(
        session_account(None, None),
        Err(AuthError::Business { code: AuthCode::UserNotRegistered, .. })
    ));
    assert!(matches!(
        session_account(Some(account(true)), Some(3)),
        Err(AuthError::Business { code: AuthCode::AccountSuspended, .. })
    ));
    assert!(matches!(session_account(Some(account(false)), Some(4)), Err(AuthError::Unauthorized)));
    assert_eq!(session_account(Some(account(false)), Some(3)).unwrap().id, 7);
    assert_eq!(session_account(Some(account(false)), None).unwrap().id, 7);
}

#[test]
fn verification_mail_gates() {
    assert!(email_send_allowed(true).is_ok());
    assert!(email_send_allowed(false).is_err());
    assert!(matches!(
        email_purpose(Some(false), true),
        Err(AuthError::Business { code: AuthCode::EmailAlreadyRegistered, detail: Some(d) })
            if d == "This email is registered"
    ));
    assert!(matches!(
        email_purpose(Some(true), false),
        Err(AuthError::Business { code: AuthCode::EmailNotRegistered, detail: None })
    ));
    assert!(email_purpose(None, true).is_ok());
    assert!(email_purpose(Some(true), true).is_ok());
    assert!(email_code_reserved(true).is_ok());
    assert!(email_code_reserved(false).is_err());
}
