//! Login and registration driven through the library's decision steps
//! against recording in-memory ports, the way the application shell drives
//! them.
use v2board_application::auth::{
    new_session_metadata, normalize_email, session_ttl_seconds,
    validate_email, validate_password, validate_registration_auxiliary_inputs, AuthAccount,
    AuthCode, AuthData, AuthError, AuthPolicy, InsertAuthAccountOutcome, InviteCodeRecord,
    LimitedEmailCodeResult, NewAuthAccount, RegisterInput, SessionIdentity, TrialDuration,
    TrialPlanRecord,
};
use v2board_application::auth_flow::{
    allocated_token, login_event_fits_exec, login_step, session_account, LoginAccountFacts,
    LoginAction, LoginEvent, LoginState, TOKEN_ATTEMPTS,
};
use v2board_application::registration::{
    registration_event_fits_exec, registration_step, RegistrationAction, RegistrationEvent,
    RegistrationState,
};

#[derive(Default)]
struct Ports {
    events: Vec<&'static str>,
    account_by_email: Option<AuthAccount>,
    account_by_id: Option<AuthAccount>,
    invite: Option<InviteCodeRecord>,
    trial: Option<TrialPlanRecord>,
    insert_outcome: Option<InsertAuthAccountOutcome>,
    inserted_account: Option<NewAuthAccount>,
    password_needs_rehash: bool,
}

impl Ports {
    fn ready() -> Self {
        Ports::default()
    }

    fn event(&mut self, name: &'static str) {
        self.events.push(name);
    }

    fn compact_id(&mut self) -> String {
        self.event("compact_id");
        "compact".to_string()
    }
}

const NOW: i64 = 1_000;

fn account(id: i64) -> AuthAccount {
    AuthAccount {
        id,
        email: "user@example.test".to_string(),
        password_hash: "stored-hash".to_string(),
        password_algo: None,
        password_salt: None,
        session_epoch: 0,
        banned: false,
        is_admin: 0,
        is_staff: 0,
        admin_permissions: Vec::new(),
    }
}

fn policy() -> AuthPolicy {
    AuthPolicy {
        app_name: "V2Board".to_string(),
        app_url: Some("https://example.test".to_string()),
        password_limit_enable: true,
        password_limit_count: 5,
        password_limit_expire_minutes: 5,
        password_limit_ttl_seconds: 300,
        register_limit_by_ip_enable: true,
        register_limit_count: 3,
        register_limit_expire_minutes: 1,
        register_limit_ttl_seconds: 60,
        stop_register: false,
        invite_force: false,
        invite_never_expire: false,
        email_verify: false,
        email_whitelist_enable: false,
        email_whitelist_suffix: Vec::new(),
        email_gmail_limit_enable: false,
        recaptcha_enable: false,
        trial_plan_id: 0,
        trial_duration: TrialDuration::Seconds(3_600),
        auth_session_ttl_seconds: 2_592_000,
        privileged_auth_session_ttl_seconds: 43_200,
        auth_session_max_per_user: 10,
        privileged_step_up_max_attempts: 5,
        privileged_step_up_attempt_window_seconds: 300,
        privileged_step_up_ttl_seconds: 300,
    }
}

fn issue_session(
    ports: &mut Ports,
    policy: &AuthPolicy,
    user_id: i64,
    expected_epoch: Option<i64>,
    client_ip: Option<String>,
    user_agent: Option<String>,
    password_authenticated: bool,
) -> Result<AuthData, AuthError> {
    ports.event("find_by_id");
    let found = if ports.account_by_id.as_ref().is_some_and(|a| a.id == user_id) {
        ports.account_by_id.clone()
    } else {
        None
    };
    let account = session_account(found, expected_epoch)?;
    let session_id = ports.compact_id();
    let ttl = session_ttl_seconds(
        policy.auth_session_ttl_seconds,
        policy.privileged_auth_session_ttl_seconds,
        account.is_admin,
        account.is_staff,
    );
    let _metadata = new_session_metadata(client_ip, user_agent, NOW, ttl, password_authenticated);
    let _identity =
        SessionIdentity { user_id: account.id, session_id, session_epoch: account.session_epoch };
    let mut candidates = Vec::new();
    let mut accepted = Vec::new();
    for _ in 0..TOKEN_ATTEMPTS {
        ports.event("opaque_token");
        candidates.push("opaque-session".to_string());
        ports.event("add_session");
        accepted.push(true);
        break;
    }
    let bearer = allocated_token(candidates, &accepted, "could not allocate a unique session token")?;
    Ok(AuthData { is_admin: account.is_admin != 0, auth_data: bearer })
}

fn login(
    ports: &mut Ports,
    policy: &AuthPolicy,
    email: &str,
    password: &str,
    client_ip: Option<String>,
    user_agent: Option<String>,
) -> Result<AuthData, AuthError> {
    validate_email(email)?;
    validate_password(password)?;
    let _email = normalize_email(email);
    let mut state = LoginState::start();
    let mut event = LoginEvent::Begin;
    loop {
        assert!(login_event_fits_exec(state.stage, &event));
        let (next, action) = login_step(policy, state, event);
        state = next;
        event = match action {
            LoginAction::Reserve { .. } => {
                ports.event("reserve_login");
                LoginEvent::Reserved(true)
            }
            LoginAction::FindAccount => {
                ports.event("find_by_email");
                let found = ports.account_by_email.as_ref().map(|a| LoginAccountFacts {
                    id: a.id,
                    session_epoch: a.session_epoch,
                    banned: a.banned,
                    is_admin: a.is_admin,
                    is_staff: a.is_staff,
                });
                LoginEvent::AccountLoaded(found)
            }
            LoginAction::VerifyDummyPassword => {
                ports.event("verify_dummy_password");
                LoginEvent::DummyVerified
            }
            LoginAction::VerifyPassword => {
                ports.event("verify_password");
                LoginEvent::PasswordChecked(true)
            }
            LoginAction::VerifyTotp { .. } => LoginEvent::TotpChecked(Ok(())),
            LoginAction::Release => {
                ports.event("release_login");
                LoginEvent::Released
            }
            LoginAction::CheckRehash { .. } => {
                ports.event("password_needs_rehash");
                LoginEvent::RehashChecked(ports.password_needs_rehash)
            }
            LoginAction::Rehash { .. } => {
                ports.event("rehash_password");
                LoginEvent::Rehashed
            }
            LoginAction::IssueSession { user_id, session_epoch } => {
                return issue_session(
                    ports,
                    policy,
                    user_id,
                    Some(session_epoch),
                    client_ip,
                    user_agent,
                    true,
                );
            }
            LoginAction::Fail(error) => return Err(error),
        };
    }
}

fn register(
    ports: &mut Ports,
    policy: &AuthPolicy,
    input: RegisterInput,
    client_ip: Option<String>,
    user_agent: Option<String>,
) -> Result<AuthData, AuthError> {
    validate_email(&input.email)?;
    validate_password(&input.password)?;
    validate_registration_auxiliary_inputs(&input)?;
    let email = input.email.trim().to_string();
    let mut state = RegistrationState::start();
    let mut event = RegistrationEvent::Begin;
    loop {
        assert!(registration_event_fits_exec(state.stage, &event));
        let (next, action) =
            registration_step(policy, &input, &email, client_ip.as_deref(), state, event);
        state = next;
        event = match action {
            RegistrationAction::ReserveSlot => {
                let _token = ports.compact_id();
                ports.event("reserve_registration");
                RegistrationEvent::SlotReserved(true)
            }
            RegistrationAction::VerifyRecaptcha { .. } => {
                ports.event("verify_recaptcha");
                RegistrationEvent::RecaptchaChecked(Ok(true))
            }
            RegistrationAction::ConsumeEmailCode { email, code } => {
                assert_eq!(email, "new@example.test");
                assert_eq!(code, "123456");
                ports.event("consume_email_code");
                RegistrationEvent::EmailCodeChecked(LimitedEmailCodeResult::Consumed)
            }
            RegistrationAction::HashPassword => {
                ports.event("hash_password");
                RegistrationEvent::Hashed("new-hash".to_string())
            }
            RegistrationAction::Mint => {
                ports.event("uuid");
                let token = ports.compact_id();
                RegistrationEvent::Minted { uuid: "uuid".to_string(), token, now: NOW }
            }
            RegistrationAction::OpenTransaction => {
                ports.event("begin_registration");
                RegistrationEvent::Opened
            }
            RegistrationAction::LockInvite { .. } => {
                ports.event("lock_invite");
                RegistrationEvent::InviteLocked(ports.invite)
            }
            RegistrationAction::ConsumeInvite { .. } => {
                ports.event("consume_invite");
                RegistrationEvent::InviteConsumed(true)
            }
            RegistrationAction::LockTrialPlan { .. } => {
                ports.event("lock_trial");
                RegistrationEvent::TrialPlanLocked(ports.trial)
            }
            RegistrationAction::Insert(account) => {
                ports.event("insert_account");
                ports.inserted_account = Some(account);
                RegistrationEvent::Inserted(
                    ports.insert_outcome.unwrap_or(InsertAuthAccountOutcome::Inserted(7)),
                )
            }
            RegistrationAction::Commit => {
                ports.event("commit");
                RegistrationEvent::Committed
            }
            RegistrationAction::ReleaseSlot => {
                ports.event("release_registration");
                RegistrationEvent::SlotReleased
            }
            RegistrationAction::IssueSession { user_id } => {
                return issue_session(ports, policy, user_id, Some(0), client_ip, user_agent, true);
            }
            RegistrationAction::Fail(error) => return Err(error),
        };
    }
}

#[test]
fn login_policy_orders_limiter_credentials_and_session_ports() {
    let mut ports = Ports::ready();
    ports.account_by_email = Some(account(7));
    ports.account_by_id = Some(account(7));
    let result = login(
        &mut ports,
        &policy(),
        " User@Example.Test ",
        "correct-password",
        Some("203.0.113.8".to_string()),
        Some("browser".to_string()),
    )
    .unwrap();

    assert_eq!(result, AuthData { is_admin: false, auth_data: "opaque-session".to_string() });
    assert_eq!(
        ports.events,
        [
            "reserve_login",
            "find_by_email",
            "verify_password",
            "release_login",
            "password_needs_rehash",
            "find_by_id",
            "compact_id",
            "opaque_token",
            "add_session"
        ]
    );
}

#[test]
fn missing_account_runs_dummy_verification_without_touching_session_ports() {
    let mut ports = Ports::ready();
    let error =
        login(&mut ports, &policy(), "missing@example.test", "correct-password", None, None)
            .unwrap_err();

    assert!(error.is_code(AuthCode::InvalidCredentials));
    assert_eq!(ports.events, ["reserve_login", "find_by_email", "verify_dummy_password"]);
}

#[test]
fn registration_owns_policy_order_and_transactional_account_shape() {
    let mut ports = Ports::ready();
    ports.invite = Some(InviteCodeRecord { id: 11, user_id: 3 });
    ports.trial = Some(TrialPlanRecord {
        id: 9,
        group_id: 4,
        transfer_gib: 2,
        device_limit: Some(3),
        speed_limit: Some(10),
    });
    ports.account_by_id = Some(account(7));
    let mut registration_policy = policy();
    registration_policy.invite_force = true;
    registration_policy.email_verify = true;
    registration_policy.recaptcha_enable = true;
    registration_policy.trial_plan_id = 9;
    registration_policy.trial_duration = TrialDuration::Seconds(7_200);

    let result = register(
        &mut ports,
        &registration_policy,
        RegisterInput {
            email: " New@Example.Test ".to_string(),
            password: "correct-password".to_string(),
            invite_code: Some("invite".to_string()),
            email_code: Some("123456".to_string()),
            recaptcha_data: Some("captcha".to_string()),
        },
        Some("203.0.113.9".to_string()),
        Some("browser".to_string()),
    )
    .unwrap();

    assert_eq!(result.auth_data, "opaque-session");
    let inserted = ports.inserted_account.as_ref().unwrap();
    assert_eq!(inserted.invite_user_id, Some(3));
    assert_eq!(inserted.email, "New@Example.Test");
    assert_eq!(inserted.transfer_enable, 2 * 1_073_741_824);
    assert_eq!(inserted.group_id, Some(4));
    assert_eq!(inserted.plan_id, Some(9));
    assert_eq!(inserted.expired_at, Some(8_200));
    assert_eq!(
        ports.events,
        [
            "compact_id",
            "reserve_registration",
            "verify_recaptcha",
            "consume_email_code",
            "hash_password",
            "uuid",
            "compact_id",
            "begin_registration",
            "lock_invite",
            "consume_invite",
            "lock_trial",
            "insert_account",
            "commit",
            "find_by_id",
            "compact_id",
            "opaque_token",
            "add_session"
        ]
    );
}

#[test]
fn rejected_registration_releases_rate_reservation_and_never_commits() {
    let mut ports = Ports::ready();
    ports.insert_outcome = Some(InsertAuthAccountOutcome::EmailAlreadyRegistered);
    let error = register(
        &mut ports,
        &policy(),
        RegisterInput {
            email: "user@example.test".to_string(),
            password: "correct-password".to_string(),
            invite_code: None,
            email_code: None,
            recaptcha_data: None,
        },
        Some("203.0.113.10".to_string()),
        None,
    )
    .unwrap_err();

    assert!(error.is_code(AuthCode::EmailAlreadyRegistered));
    assert!(ports.events.contains(&"release_registration"));
    assert!(!ports.events.contains(&"commit"));
    assert!(!ports.events.contains(&"add_session"));
}

#[test]
fn invalid_registration_never_reaches_an_outbound_port() {
    let mut ports = Ports::ready();
    let error = register(
        &mut ports,
        &policy(),
        RegisterInput {
            email: "not-an-email".to_string(),
            password: "correct-password".to_string(),
            invite_code: None,
            email_code: None,
            recaptcha_data: None,
        },
        Some("203.0.113.11".to_string()),
        None,
    )
    .unwrap_err();

    assert!(matches!(error, AuthError::Validation { field: "email", .. }));
    assert!(ports.events.is_empty());
}

#[test]
fn a_closed_registration_releases_its_slot_before_answering() {
    let mut ports = Ports::ready();
    let mut closed = policy();
    closed.stop_register = true;
    let error = register(
        &mut ports,
        &closed,
        RegisterInput {
            email: "user@example.test".to_string(),
            password: "correct-password".to_string(),
            invite_code: None,
            email_code: None,
            recaptcha_data: None,
        },
        Some("203.0.113.12".to_string()),
        None,
    )
    .unwrap_err();
    assert!(error.is_code(AuthCode::RegistrationClosed));
    assert_eq!(ports.events, ["compact_id", "reserve_registration", "release_registration"]);
}
