use v2board_application::auth::{
    AuthAccount, AuthCode, AuthError, AuthPolicy, SessionMetadata, TrialDuration,
};
use v2board_application::step_up::{
    step_up_event_fits_exec, step_up_step, StepUpAction, StepUpEvent, StepUpStage, StepUpState,
};

fn policy() -> AuthPolicy {
    AuthPolicy {
        app_name: "V2Board".to_string(),
        app_url: None,
        password_limit_enable: true,
        password_limit_count: 5,
        password_limit_expire_minutes: 5,
        password_limit_ttl_seconds: 300,
        register_limit_by_ip_enable: false,
        register_limit_count: 3,
        register_limit_expire_minutes: 1,
        register_limit_ttl_seconds: 60,
        stop_register: false,
        invite_force: false,
        invite_never_expire: false,
        email_verify: false,
        email_whitelist_enable: false,
        email_whitelist_suffix: Vec::new(),
        email_gmail_limit_enable: false,
        recaptcha_enable: false,
        trial_plan_id: 0,
        trial_duration: TrialDuration::Seconds(3_600),
        auth_session_ttl_seconds: 2_592_000,
        privileged_auth_session_ttl_seconds: 43_200,
        auth_session_max_per_user: 10,
        privileged_step_up_max_attempts: i64::MAX / 2,
        privileged_step_up_attempt_window_seconds: 300,
        privileged_step_up_ttl_seconds: 300,
    }
}

fn account(banned: bool) -> AuthAccount {
    AuthAccount {
        id: 7,
        email: "admin@example.test".to_string(),
        password_hash: "hash".to_string(),
        password_algo: Some("bcrypt".to_string()),
        password_salt: None,
        session_epoch: 1,
        banned,
        is_admin: 1,
        is_staff: 0,
        admin_permissions: Vec::new(),
    }
}

fn live(expires_at: Option<i64>) -> Option<SessionMetadata> {
    Some(SessionMetadata {
        ip: None,
        login_at: 1,
        user_agent: None,
        expires_at,
        password_authenticated: true,
    })
}

fn drive(events: Vec<StepUpEvent>) -> Vec<StepUpAction> {
    let policy = policy();
    let mut state = StepUpState::start();
    let mut actions = Vec::new();
    for event in events {
        assert!(step_up_event_fits_exec(state.stage, &event), "{event:?} at {:?}", state.stage);
        let (next, action) = step_up_step(&policy, state, event);
        state = next;
        actions.push(action);
    }
    actions
}

fn until_storing() -> Vec<StepUpEvent> {
    vec![
        StepUpEvent::Begin,
        StepUpEvent::Reserved(true),
        StepUpEvent::AccountLoaded(Some(account(false))),
        StepUpEvent::PasswordChecked(true),
        StepUpEvent::SessionLoaded { metadata: live(Some(500)), now: 100 },
        StepUpEvent::Cleared,
    ]
}

#[test]
fn a_step_up_reserves_verifies_clears_then_stores_a_token() {
    let mut events = until_storing();
    events.push(StepUpEvent::TokenStored { token: "t1".into(), stored: true });
    let actions = drive(events);
    assert!(matches!(
        actions[0],
        StepUpAction::Reserve { user_limit, ip_limit: i64::MAX, window_seconds: 300 }
            if user_limit == i64::MAX / 2
    ));
    assert!(matches!(actions[1], StepUpAction::FindAccount));
    assert!(matches!(
        &actions[2],
        StepUpAction::VerifyPassword { algo: Some(a), salt: None, hash } if a == "bcrypt" && hash == "hash"
    ));
    assert!(matches!(actions[3], StepUpAction::LoadSession));
    assert!(matches!(actions[4], StepUpAction::ClearAttempts));
    assert!(matches!(actions[5], StepUpAction::StoreToken));
    assert!(matches!(&actions[6], StepUpAction::Done { token } if token == "t1"));
}

#[test]
fn three_unstored_tokens_fail_internally() {
    let mut events = until_storing();
    for name in ["a", "b", "c"] {
        events.push(StepUpEvent::TokenStored { token: name.into(), stored: false });
    }
    let actions = drive(events);
    assert!(matches!(actions[6], StepUpAction::StoreToken));
    assert!(matches!(actions[7], StepUpAction::StoreToken));
    assert!(matches!(
        &actions[8],
        StepUpAction::Fail(AuthError::Internal(m)) if m == "could not allocate a step-up token"
    ));
}

#[test]
fn refusals_end_the_step_up_with_their_answers() {
    let refused = drive(vec![StepUpEvent::Begin, StepUpEvent::Reserved(false)]);
    assert!(matches!(
        &refused[1],
        StepUpAction::Fail(AuthError::Business { code: AuthCode::PasswordAttemptsRateLimited, detail: Some(d) })
            if d == "Too many password verification attempts; try again later"
    ));
    let banned = drive(vec![
        StepUpEvent::Begin,
        StepUpEvent::Reserved(true),
        StepUpEvent::AccountLoaded(Some(account(true))),
    ]);
    assert!(matches!(banned[2], StepUpAction::Fail(AuthError::Unauthorized)));
    let wrong = drive(vec![
        StepUpEvent::Begin,
        StepUpEvent::Reserved(true),
        StepUpEvent::AccountLoaded(Some(account(false))),
        StepUpEvent::PasswordChecked(false),
    ]);
    assert!(matches!(
        wrong[3],
        StepUpAction::Fail(AuthError::Business { code: AuthCode::InvalidCredentials, detail: None })
    ));
    let expired = drive(vec![
        StepUpEvent::Begin,
        StepUpEvent::Reserved(true),
        StepUpEvent::AccountLoaded(Some(account(false))),
        StepUpEvent::PasswordChecked(true),
        StepUpEvent::SessionLoaded { metadata: live(Some(100)), now: 100 },
    ]);
    assert!(matches!(expired[4], StepUpAction::Fail(AuthError::Unauthorized)));
}

#[test]
fn a_failed_call_is_reported_as_it_is() {
    let actions = drive(vec![
        StepUpEvent::Begin,
        StepUpEvent::PortFailed(AuthError::Internal("down".into())),
    ]);
    assert!(matches!(&actions[1], StepUpAction::Fail(AuthError::Internal(m)) if m == "down"));
    assert!(!step_up_event_fits_exec(StepUpStage::Clearing, &StepUpEvent::PortFailed(AuthError::Unauthorized)));
}
