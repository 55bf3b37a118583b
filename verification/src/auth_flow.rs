//! The order of checks of a password login and of a privileged step-up,
//! the single decisions a registration is made of, second factors, and the
//! session list.
//!
//! A login alternates outbound calls and decisions; [`login_step`] is the
//! decision half: from the state reached and the answer of the last call it
//! gives the next state and the next call. Attempt reservations are released
//! on every way out except a wrong password, a wrong second factor and an
//! unknown account, which keep counting against the limit.
use vstd::prelude::*;

use crate::auth::{AuthAccount, AuthCode, AuthError, AuthPolicy, InsertAuthAccountOutcome,
    InviteCodeRecord, MfaRecord, MfaStatus, SessionMetadata, StoredSession, UserSession,
    MAX_INVITE_CODE_BYTES, session_expired};
use crate::text::{append_str_to, byte_len, byte_len_exceeds, chars_of, lemma_lex_irreflexive,
    lemma_lex_transitive, lex_lt, lex_lt_exec, signed_decimal, signed_decimal_text, str_eq,
    to_owned, trim, trim_str};

verus! {

/// What a login needs to know of the account an e-mail names.
#[derive(Clone, Copy, Debug, Eq, PartialEq, Structural)]
pub struct LoginAccountFacts {
    pub id: i64,
    pub session_epoch: i64,
    pub banned: bool,
    pub is_admin: i16,
    pub is_staff: i16,
}

#[derive(Clone, Copy, Debug, Eq, PartialEq, Structural)]
pub enum LoginStage {
    Started,
    Reserving,
    FindingAccount,
    VerifyingDummy,
    VerifyingPassword,
    VerifyingTotp,
    Releasing,
    CheckingRehash,
    Rehashing,
    Issuing,
    Finished,
}

/// How far a login got, whether it holds an attempt reservation, the
/// account once found, and the failure to report once the reservation is
/// released.
#[derive(Debug)]
pub struct LoginState {
    pub stage: LoginStage,
    pub reserved: bool,
    pub account: Option<LoginAccountFacts>,
    pub pending: Option<AuthError>,
}

/// The answer of the call the last action asked for.
#[derive(Debug)]
pub enum LoginEvent {
    Begin,
    Reserved(bool),
    AccountLoaded(Option<LoginAccountFacts>),
    DummyVerified,
    PasswordChecked(bool),
    TotpChecked(Result<(), AuthError>),
    Released,
    RehashChecked(bool),
    Rehashed,
    PortFailed(AuthError),
}

/// The next outbound call, or the end of the login.
#[derive(Debug)]
pub enum LoginAction {
    Reserve { account_limit: i64, ip_limit: i64, ttl_seconds: u64 },
    FindAccount,
    VerifyDummyPassword,
    VerifyPassword,
    VerifyTotp { user_id: i64 },
    Release,
    /// Ask whether the stored hash is due for an upgrade.
    CheckRehash { user_id: i64 },
    Rehash { user_id: i64 },
    IssueSession { user_id: i64, session_epoch: i64 },
    Fail(AuthError),
}

impl LoginState {
    /// The state of a login whose input passed validation.
    pub fn start() -> (s: Self)
        ensures
            s.stage == LoginStage::Started,
            !s.reserved,
            s.account is None,
            s.pending is None,
            s.wf(),
    {
        LoginState { stage: LoginStage::Started, reserved: false, account: None, pending: None }
    }

    /// The account is known wherever the login goes on with it.
    pub open spec fn wf(&self) -> bool {
        &&& (self.stage == LoginStage::VerifyingPassword || self.stage == LoginStage::VerifyingTotp
            || self.stage == LoginStage::CheckingRehash || self.stage == LoginStage::Rehashing
            || self.stage == LoginStage::Issuing)
            ==> self.account is Some
        &&& (self.stage == LoginStage::Releasing && self.pending is None) ==> self.account is Some
    }
}

/// Which answers each stage waits for.
pub open spec fn login_event_fits(stage: LoginStage, event: LoginEvent) -> bool {
    match event {
        LoginEvent::Begin => stage == LoginStage::Started,
        LoginEvent::Reserved(_) => stage == LoginStage::Reserving,
        LoginEvent::AccountLoaded(_) => stage == LoginStage::FindingAccount,
        LoginEvent::DummyVerified => stage == LoginStage::VerifyingDummy,
        LoginEvent::PasswordChecked(_) => stage == LoginStage::VerifyingPassword,
        LoginEvent::TotpChecked(_) => stage == LoginStage::VerifyingTotp,
        LoginEvent::Released => stage == LoginStage::Releasing,
        LoginEvent::RehashChecked(_) => stage == LoginStage::CheckingRehash,
        LoginEvent::Rehashed => stage == LoginStage::Rehashing,
        LoginEvent::PortFailed(_) => stage == LoginStage::Reserving || stage
            == LoginStage::FindingAccount || stage == LoginStage::VerifyingDummy || stage
            == LoginStage::VerifyingPassword || stage == LoginStage::Rehashing || stage
            == LoginStage::Issuing,
    }
}

/// Whether `event` is an answer that `stage` waits for.
pub fn login_event_fits_exec(stage: LoginStage, event: &LoginEvent) -> (r: bool)
    ensures
        r == login_event_fits(stage, *event),
{
    match event {
        LoginEvent::Begin => stage == LoginStage::Started,
        LoginEvent::Reserved(_) => stage == LoginStage::Reserving,
        LoginEvent::AccountLoaded(_) => stage == LoginStage::FindingAccount,
        LoginEvent::DummyVerified => stage == LoginStage::VerifyingDummy,
        LoginEvent::PasswordChecked(_) => stage == LoginStage::VerifyingPassword,
        LoginEvent::TotpChecked(_) => stage == LoginStage::VerifyingTotp,
        LoginEvent::Released => stage == LoginStage::Releasing,
        LoginEvent::RehashChecked(_) => stage == LoginStage::CheckingRehash,
        LoginEvent::Rehashed => stage == LoginStage::Rehashing,
        LoginEvent::PortFailed(_) => stage == LoginStage::Reserving || stage
            == LoginStage::FindingAccount || stage == LoginStage::VerifyingDummy || stage
            == LoginStage::VerifyingPassword || stage == LoginStage::Rehashing || stage
            == LoginStage::Issuing,
    }
}

/// The per-account attempt limit (at least one) and the per-address limit,
/// ten times as many, saturating; none when the limiter is off.
pub open spec fn login_limits(policy: AuthPolicy) -> Option<(int, int)> {
    if policy.password_limit_enable {
        let account = if policy.password_limit_count >= 1 {
            policy.password_limit_count as int
        } else {
            1
        };
        Some((account, clamp_i64(account * 10)))
    } else {
        None
    }
}

/// The answer to a login over the attempt limit.
pub open spec fn login_rate_limited(policy: AuthPolicy, e: AuthError) -> bool {
    e.is_business_detail(
        AuthCode::PasswordAttemptsRateLimited,
        "There are too many password errors, please try again after "@ + signed_decimal(
            policy.password_limit_expire_minutes as int,
        ) + " minutes."@,
    )
}

/// Whether the account must present a second factor.
pub open spec fn is_operator(a: LoginAccountFacts) -> bool {
    a.is_admin != 0 || a.is_staff != 0
}

/// Where a login that released (or never held) its reservation goes: a
/// banned account is refused; otherwise the stored hash is checked for an
/// upgrade before the session is issued.
pub open spec fn after_release(a: LoginAccountFacts, next: LoginState, action: LoginAction) -> bool {
    if a.banned {
        next.stage == LoginStage::Finished && (action matches LoginAction::Fail(e) && e.is_business(
            AuthCode::AccountSuspended,
        ))
    } else {
        next.stage == LoginStage::CheckingRehash && action == (LoginAction::CheckRehash {
            user_id: a.id,
        })
    }
}

/// A way out through the release of a held reservation: with `failure`
/// reported afterwards, or going on after the release when there is none.
pub open spec fn release_then(
    state: LoginState,
    failure: Option<AuthError>,
    next: LoginState,
    action: LoginAction,
) -> bool {
    if state.reserved {
        next.stage == LoginStage::Releasing && action is Release && next.pending == failure
            && next.account == state.account
    } else {
        match failure {
            Some(e) => next.stage == LoginStage::Finished && action == LoginAction::Fail(e),
            None => after_release(state.account->0, next, action),
        }
    }
}

fn continue_after_release(account: LoginAccountFacts, reserved: bool) -> (r: (LoginState, LoginAction))
    ensures
        after_release(account, r.0, r.1),
        r.0.wf(),
        r.0.account == Some(account),
        r.0.reserved == reserved,
{
    if account.banned {
        (
            LoginState {
                stage: LoginStage::Finished,
                reserved,
                account: Some(account),
                pending: None,
            },
            LoginAction::Fail(AuthError::business(AuthCode::AccountSuspended)),
        )
    } else {
        (
            LoginState {
                stage: LoginStage::CheckingRehash,
                reserved,
                account: Some(account),
                pending: None,
            },
            LoginAction::CheckRehash { user_id: account.id },
        )
    }
}

fn release_or(state: LoginState, failure: Option<AuthError>) -> (r: (LoginState, LoginAction))
    requires
        failure is None ==> state.account is Some,
    ensures
        release_then(state, failure, r.0, r.1),
        r.0.wf(),
{
    if state.reserved {
        (
            LoginState {
                stage: LoginStage::Releasing,
                reserved: true,
                account: state.account,
                pending: failure,
            },
            LoginAction::Release,
        )
    } else {
        match failure {
            Some(e) => (
                LoginState {
                    stage: LoginStage::Finished,
                    reserved: false,
                    account: state.account,
                    pending: None,
                },
                LoginAction::Fail(e),
            ),
            None => {
                let account = match state.account {
                    Some(a) => a,
                    None => {
                        assert(false);
                        return (state, LoginAction::FindAccount);
                    },
                };
                continue_after_release(account, false)
            },
        }
    }
}

fn finished(state: &LoginState, e: AuthError) -> (r: (LoginState, LoginAction))
    ensures
        r.0.stage == LoginStage::Finished,
        r.1 == LoginAction::Fail(e),
        r.0.wf(),
{
    (
        LoginState {
            stage: LoginStage::Finished,
            reserved: state.reserved,
            account: state.account,
            pending: None,
        },
        LoginAction::Fail(e),
    )
}

/// `a * k` held at the bounds of `i64`.
pub open spec fn clamp_i64(v: int) -> int {
    if v > i64::MAX {
        i64::MAX as int
    } else if v < i64::MIN {
        i64::MIN as int
    } else {
        v
    }
}

/// `i64::saturating_mul` by a small factor.
fn saturating_scale(a: i64, k: i64) -> (r: i64)
    requires
        0 <= k <= 16,
    ensures
        r == clamp_i64(a * k),
{
    assert(-0x10_0000_0000_0000_0000 <= a * k <= 0x10_0000_0000_0000_0000) by (nonlinear_arith)
        requires
            0 <= k <= 16,
            i64::MIN <= a <= i64::MAX,
    ;
    let p: i128 = a as i128 * k as i128;
    if p > i64::MAX as i128 {
        i64::MAX
    } else if p < i64::MIN as i128 {
        i64::MIN
    } else {
        p as i64
    }
}

/// The error of a login over the attempt limit.
pub fn login_rate_limited_error(policy: &AuthPolicy) -> (e: AuthError)
    ensures
        login_rate_limited(*policy, e),
{
    let mut detail = to_owned("There are too many password errors, please try again after ");
    let minutes = signed_decimal_text(policy.password_limit_expire_minutes);
    append_str_to(&mut detail, minutes.as_str());
    append_str_to(&mut detail, " minutes.");
    AuthError::Business { code: AuthCode::PasswordAttemptsRateLimited, detail: Some(detail) }
}

/// One decision of a password login.
///
/// - At the start a login reserves an attempt when the limiter is on
///   ([`login_limits`]) and otherwise looks the account up; a refused
///   reservation ends it with the rate-limit answer.
/// - An unknown account still costs a password verification (against a
///   dummy hash) and is answered `InvalidCredentials`; so is a wrong
///   password. Neither releases the reservation.
/// - Operators then verify their second factor; a wrong code
///   (`MfaCodeInvalid`) keeps the reservation, any other failure releases
///   it before it is reported.
/// - After the release a banned account is answered `AccountSuspended`; an
///   outdated hash is upgraded; then the session is issued.
/// - A failed call before the password check releases the reservation
///   before the failure is reported; one after it is reported as it is.
#[verifier::rlimit(40)]
pub fn login_step(policy: &AuthPolicy, state: LoginState, event: LoginEvent) -> (r: (
    LoginState,
    LoginAction,
))
    requires
        state.wf(),
        login_event_fits(state.stage, event),
    ensures
        r.0.wf(),
        match event {
            LoginEvent::Begin => match login_limits(*policy) {
                Some((a, i)) => r.0.stage == LoginStage::Reserving && !r.0.reserved && r.1 == (
                LoginAction::Reserve {
                    account_limit: a as i64,
                    ip_limit: i as i64,
                    ttl_seconds: policy.password_limit_ttl_seconds,
                }),
                None => r.0.stage == LoginStage::FindingAccount && !r.0.reserved && r.1
                    is FindAccount,
            },
            LoginEvent::Reserved(true) => r.0.stage == LoginStage::FindingAccount && r.0.reserved
                && r.1 is FindAccount,
            LoginEvent::Reserved(false) => r.0.stage == LoginStage::Finished && (r.1 matches LoginAction::Fail(
                e,
            ) && login_rate_limited(*policy, e)),
            LoginEvent::AccountLoaded(None) => r.0.stage == LoginStage::VerifyingDummy
                && r.0.reserved == state.reserved && r.1 is VerifyDummyPassword,
            LoginEvent::AccountLoaded(Some(a)) => r.0.stage == LoginStage::VerifyingPassword
                && r.0.reserved == state.reserved && r.0.account == Some(a) && r.1 is VerifyPassword,
            LoginEvent::DummyVerified => r.0.stage == LoginStage::Finished && (r.1 matches LoginAction::Fail(
                e,
            ) && e.is_business(AuthCode::InvalidCredentials)),
            LoginEvent::PasswordChecked(false) => r.0.stage == LoginStage::Finished && (r.1 matches LoginAction::Fail(
                e,
            ) && e.is_business(AuthCode::InvalidCredentials)),
            LoginEvent::PasswordChecked(true) => if is_operator(state.account->0) {
                r.0.stage == LoginStage::VerifyingTotp && r.0.reserved == state.reserved
                    && r.0.account == state.account && r.1 == (LoginAction::VerifyTotp {
                    user_id: state.account->0.id,
                })
            } else {
                release_then(state, None, r.0, r.1)
            },
            LoginEvent::TotpChecked(Ok(())) => release_then(state, None, r.0, r.1),
            LoginEvent::TotpChecked(Err(e)) => if e.has_code(AuthCode::MfaCodeInvalid) {
                r.0.stage == LoginStage::Finished && r.1 == LoginAction::Fail(e)
            } else {
                release_then(state, Some(e), r.0, r.1)
            },
            LoginEvent::Released => match state.pending {
                Some(e) => r.0.stage == LoginStage::Finished && r.1 == LoginAction::Fail(e),
                None => after_release(state.account->0, r.0, r.1),
            },
            LoginEvent::RehashChecked(true) => r.0.stage == LoginStage::Rehashing && r.1 == (
            LoginAction::Rehash { user_id: state.account->0.id }),
            LoginEvent::RehashChecked(false) | LoginEvent::Rehashed => r.0.stage
                == LoginStage::Issuing && r.1 == (LoginAction::IssueSession {
                user_id: state.account->0.id,
                session_epoch: state.account->0.session_epoch,
            }),
            LoginEvent::PortFailed(e) => if state.stage == LoginStage::FindingAccount
                || state.stage == LoginStage::VerifyingDummy || state.stage
                == LoginStage::VerifyingPassword {
                release_then(state, Some(e), r.0, r.1)
            } else {
                r.0.stage == LoginStage::Finished && r.1 == LoginAction::Fail(e)
            },
        },
{
    match event {
        LoginEvent::Begin => {
            if policy.password_limit_enable {
                let account_limit: i64 = if policy.password_limit_count >= 1 {
                    policy.password_limit_count
                } else {
                    1
                };
                let ip_limit: i64 = saturating_scale(account_limit, 10);
                (
                    LoginState {
                        stage: LoginStage::Reserving,
                        reserved: false,
                        account: None,
                        pending: None,
                    },
                    LoginAction::Reserve {
                        account_limit,
                        ip_limit,
                        ttl_seconds: policy.password_limit_ttl_seconds,
                    },
                )
            } else {
                (
                    LoginState {
                        stage: LoginStage::FindingAccount,
                        reserved: false,
                        account: None,
                        pending: None,
                    },
                    LoginAction::FindAccount,
                )
            }
        },
        LoginEvent::Reserved(reserved) => {
            if reserved {
                (
                    LoginState {
                        stage: LoginStage::FindingAccount,
                        reserved: true,
                        account: None,
                        pending: None,
                    },
                    LoginAction::FindAccount,
                )
            } else {
                let e = login_rate_limited_error(policy);
                finished(&state, e)
            }
        },
        LoginEvent::AccountLoaded(account) => match account {
            None => (
                LoginState {
                    stage: LoginStage::VerifyingDummy,
                    reserved: state.reserved,
                    account: None,
                    pending: None,
                },
                LoginAction::VerifyDummyPassword,
            ),
            Some(a) => (
                LoginState {
                    stage: LoginStage::VerifyingPassword,
                    reserved: state.reserved,
                    account: Some(a),
                    pending: None,
                },
                LoginAction::VerifyPassword,
            ),
        },
        LoginEvent::DummyVerified => finished(
            &state,
            AuthError::business(AuthCode::InvalidCredentials),
        ),
        LoginEvent::PasswordChecked(matches) => {
            if !matches {
                return finished(&state, AuthError::business(AuthCode::InvalidCredentials));
            }
            let a = match state.account {
                Some(a) => a,
                None => {
                    assert(false);
                    return finished(&state, AuthError::business(AuthCode::InvalidCredentials));
                },
            };
            if a.is_admin != 0 || a.is_staff != 0 {
                (
                    LoginState {
                        stage: LoginStage::VerifyingTotp,
                        reserved: state.reserved,
                        account: Some(a),
                        pending: None,
                    },
                    LoginAction::VerifyTotp { user_id: a.id },
                )
            } else {
                release_or(state, None)
            }
        },
        LoginEvent::TotpChecked(result) => match result {
            Ok(()) => release_or(state, None),
            Err(e) => {
                if e.is_code(AuthCode::MfaCodeInvalid) {
                    finished(&state, e)
                } else {
                    release_or(state, Some(e))
                }
            },
        },
        LoginEvent::Released => {
            let reserved = state.reserved;
            match state.pending {
                Some(e) => (
                    LoginState {
                        stage: LoginStage::Finished,
                        reserved,
                        account: state.account,
                        pending: None,
                    },
                    LoginAction::Fail(e),
                ),
                None => {
                    let a = match state.account {
                        Some(a) => a,
                        None => {
                            assert(false);
                            return (
                                LoginState {
                                    stage: LoginStage::Finished,
                                    reserved,
                                    account: None,
                                    pending: None,
                                },
                                LoginAction::FindAccount,
                            );
                        },
                    };
                    continue_after_release(a, reserved)
                },
            }
        },
        LoginEvent::RehashChecked(needed) => {
            let a = match state.account {
                Some(a) => a,
                None => {
                    assert(false);
                    return (state, LoginAction::FindAccount);
                },
            };
            if needed {
                (
                    LoginState {
                        stage: LoginStage::Rehashing,
                        reserved: state.reserved,
                        account: Some(a),
                        pending: None,
                    },
                    LoginAction::Rehash { user_id: a.id },
                )
            } else {
                (
                    LoginState {
                        stage: LoginStage::Issuing,
                        reserved: state.reserved,
                        account: Some(a),
                        pending: None,
                    },
                    LoginAction::IssueSession { user_id: a.id, session_epoch: a.session_epoch },
                )
            }
        },
        LoginEvent::Rehashed => {
            let a = match state.account {
                Some(a) => a,
                None => {
                    assert(false);
                    return (state, LoginAction::FindAccount);
                },
            };
            (
                LoginState {
                    stage: LoginStage::Issuing,
                    reserved: state.reserved,
                    account: Some(a),
                    pending: None,
                },
                LoginAction::IssueSession { user_id: a.id, session_epoch: a.session_epoch },
            )
        },
        LoginEvent::PortFailed(e) => {
            if state.stage == LoginStage::FindingAccount || state.stage
                == LoginStage::VerifyingDummy || state.stage == LoginStage::VerifyingPassword {
                if state.reserved {
                    (
                        LoginState {
                            stage: LoginStage::Releasing,
                            reserved: true,
                            account: state.account,
                            pending: Some(e),
                        },
                        LoginAction::Release,
                    )
                } else {
                    finished(&state, e)
                }
            } else {
                finished(&state, e)
            }
        },
    }
}

/// The per-user step-up attempt limit and the per-address limit, five
/// times as many, saturating.
pub fn step_up_limits(policy: &AuthPolicy) -> (r: (i64, i64))
    ensures
        r.0 == policy.privileged_step_up_max_attempts,
        r.1 == clamp_i64(policy.privileged_step_up_max_attempts * 5),
{
    let user_limit = policy.privileged_step_up_max_attempts;
    (user_limit, saturating_scale(user_limit, 5))
}

/// A step-up over the attempt limit is refused.
pub fn step_up_reservation(reserved: bool) -> (r: Result<(), AuthError>)
    ensures
        reserved ==> r is Ok,
        !reserved ==> (r matches Err(e) && e.is_business_detail(
            AuthCode::PasswordAttemptsRateLimited,
            "Too many password verification attempts; try again later"@,
        )),
{
    if reserved {
        Ok(())
    } else {
        Err(
            AuthError::business_detail(
                AuthCode::PasswordAttemptsRateLimited,
                "Too many password verification attempts; try again later",
            ),
        )
    }
}

/// The account a step-up re-authenticates: a missing or banned one is
/// `Unauthorized`.
pub fn step_up_account(account: Option<AuthAccount>) -> (r: Result<AuthAccount, AuthError>)
    ensures
        match account {
            Some(a) => if a.banned {
                r matches Err(AuthError::Unauthorized)
            } else {
                r matches Ok(b) && b == a
            },
            None => r matches Err(AuthError::Unauthorized),
        },
{
    match account {
        Some(a) => if a.banned {
            Err(AuthError::Unauthorized)
        } else {
            Ok(a)
        },
        None => Err(AuthError::Unauthorized),
    }
}

/// A wrong password is `InvalidCredentials`.
pub fn step_up_password(matches: bool) -> (r: Result<(), AuthError>)
    ensures
        matches ==> r is Ok,
        !matches ==> (r matches Err(e) && e.is_business(AuthCode::InvalidCredentials)),
{
    if matches {
        Ok(())
    } else {
        Err(AuthError::business(AuthCode::InvalidCredentials))
    }
}

/// The session a step-up is bound to must still exist and not have
/// expired at `now`; otherwise the step-up is `Unauthorized`.
pub fn step_up_session(metadata: Option<SessionMetadata>, now: i64) -> (r: Result<(), AuthError>)
    ensures
        (metadata matches Some(m) && !session_expired(m.expires_at, now)) ==> r is Ok,
        !(metadata matches Some(m) && !session_expired(m.expires_at, now)) ==> r matches Err(
            AuthError::Unauthorized,
        ),
{
    match metadata {
        Some(m) => match m.expires_at {
            Some(t) => if t <= now {
                Err(AuthError::Unauthorized)
            } else {
                Ok(())
            },
            None => Ok(()),
        },
        None => Err(AuthError::Unauthorized),
    }
}

/// How many token candidates a session or step-up allocation tries.
pub const TOKEN_ATTEMPTS: usize = 3;

/// The token an allocation kept: the first candidate the cache accepted
/// among at most [`TOKEN_ATTEMPTS`]; when none was, an internal failure
/// with `message`.
#[verifier::loop_isolation(false)]
pub fn allocated_token(
    candidates: Vec<String>,
    accepted: &Vec<bool>,
    message: &str,
) -> (r: Result<String, AuthError>)
    requires
        candidates@.len() == accepted@.len(),
    ensures
        (exists|i: int| 0 <= i < accepted@.len() && i < TOKEN_ATTEMPTS && #[trigger] accepted@[i])
            ==> (r matches Ok(t) && exists|i: int|
            0 <= i < accepted@.len() && i < TOKEN_ATTEMPTS && #[trigger] accepted@[i]
                && t == candidates@[i] && forall|j: int| 0 <= j < i ==> !accepted@[j]),
        !(exists|i: int| 0 <= i < accepted@.len() && i < TOKEN_ATTEMPTS && #[trigger] accepted@[i])
            ==> (r matches Err(AuthError::Internal(m)) && m@ == message@),
{
    let mut candidates = candidates;
    let n = accepted.len();
    let mut i: usize = 0;
    let ghost all = candidates@;
    while i < n && i < TOKEN_ATTEMPTS
        invariant
            n == accepted@.len(),
            all.len() == n,
            candidates@.len() == n - i,
            i <= n,
            forall|j: int| 0 <= j < candidates@.len() ==> candidates@[j] == all[j + i],
            forall|j: int| 0 <= j < i ==> !accepted@[j],
        decreases n - i,
    {
        let candidate = candidates.remove(0);
        if accepted[i] {
            assert(candidate == all[i as int]);
            assert(accepted@[i as int]);
            return Ok(candidate);
        }
        i = i + 1;
    }
    Err(AuthError::Internal(to_owned(message)))
}

/// A registration is refused while registration is stopped.
pub fn registration_open(stop_register: bool) -> (r: Result<(), AuthError>)
    ensures
        !stop_register ==> r is Ok,
        stop_register ==> (r matches Err(e) && e.is_business(AuthCode::RegistrationClosed)),
{
    if stop_register {
        Err(AuthError::business(AuthCode::RegistrationClosed))
    } else {
        Ok(())
    }
}

/// Whether a found invite code is used up by the registration (unless
/// invite codes never expire).
pub fn invite_needs_consumption(invite_never_expire: bool) -> (r: bool)
    ensures
        r == !invite_never_expire,
{
    !invite_never_expire
}

/// The inviter of a registration, once its invite code was looked up
/// (`found`) and, where it had to be, consumed (`consumed`): an unknown code
/// is refused when invitations are forced and ignored otherwise; a code
/// that had to be consumed and could not be is refused.
pub fn invite_binding(
    found: Option<InviteCodeRecord>,
    consumed: bool,
    invite_never_expire: bool,
    invite_force: bool,
) -> (r: Result<Option<i64>, AuthError>)
    ensures
        match found {
            Some(invite) => if !invite_never_expire && !consumed {
                r matches Err(e) && e.is_business(AuthCode::InvalidInviteCode)
            } else {
                r matches Ok(Some(u)) && u == invite.user_id
            },
            None => if invite_force {
                r matches Err(e) && e.is_business(AuthCode::InvalidInviteCode)
            } else {
                r matches Ok(None)
            },
        },
{
    match found {
        Some(invite) => {
            if !invite_never_expire && !consumed {
                Err(AuthError::business(AuthCode::InvalidInviteCode))
            } else {
                Ok(Some(invite.user_id))
            }
        },
        None => {
            if invite_force {
                Err(AuthError::business(AuthCode::InvalidInviteCode))
            } else {
                Ok(None)
            }
        },
    }
}

/// The new user's id, or `EmailAlreadyRegistered` when the address was
/// taken meanwhile.
pub fn inserted_user(outcome: InsertAuthAccountOutcome) -> (r: Result<i64, AuthError>)
    ensures
        match outcome {
            InsertAuthAccountOutcome::Inserted(id) => r matches Ok(u) && u == id,
            InsertAuthAccountOutcome::EmailAlreadyRegistered => r matches Err(e) && e.is_business(
                AuthCode::EmailAlreadyRegistered,
            ),
        },
{
    match outcome {
        InsertAuthAccountOutcome::Inserted(id) => Ok(id),
        InsertAuthAccountOutcome::EmailAlreadyRegistered => Err(
            AuthError::business(AuthCode::EmailAlreadyRegistered),
        ),
    }
}

/// Whether a registration from `client_ip` takes a per-address slot.
pub fn registration_slot_needed(client_ip: Option<&str>, register_limit_by_ip_enable: bool) -> (r:
    bool)
    ensures
        r == (client_ip is Some && register_limit_by_ip_enable),
{
    client_ip.is_some() && register_limit_by_ip_enable
}

/// The window of a registration slot taken at `now`: the configured
/// lifetime (at least a second, at most `i64::MAX`), ending saturated.
pub fn registration_slot_window(now: i64, ttl_seconds: u64) -> (r: (i64, i64))
    ensures
        r.0 == now,
        r.1 == clamp_i64(
            now + (if ttl_seconds > i64::MAX {
                i64::MAX as int
            } else if ttl_seconds < 1 {
                1
            } else {
                ttl_seconds as int
            }),
        ),
{
    let ttl: i64 = if ttl_seconds > i64::MAX as u64 {
        i64::MAX
    } else if ttl_seconds < 1 {
        1
    } else {
        ttl_seconds as i64
    };
    let end: i64 = if now > 0 && ttl > i64::MAX - now {
        i64::MAX
    } else {
        now + ttl
    };
    (now, end)
}

/// A registration over the per-address limit is refused.
pub fn registration_slot(reserved: bool, register_limit_expire_minutes: i64) -> (r: Result<
    (),
    AuthError,
>)
    ensures
        reserved ==> r is Ok,
        !reserved ==> (r matches Err(e) && e.is_business_detail(
            AuthCode::RegisterIpRateLimited,
            "Register frequently, please try again after "@ + signed_decimal(
                register_limit_expire_minutes as int,
            ) + " minute"@,
        )),
{
    if reserved {
        Ok(())
    } else {
        let mut detail = to_owned("Register frequently, please try again after ");
        let minutes = signed_decimal_text(register_limit_expire_minutes);
        append_str_to(&mut detail, minutes.as_str());
        append_str_to(&mut detail, " minute");
        Err(AuthError::Business { code: AuthCode::RegisterIpRateLimited, detail: Some(detail) })
    }
}

/// The account a new session is issued for: it must exist, be unbanned,
/// and (where one is expected) still be on the expected session epoch.
pub fn session_account(account: Option<AuthAccount>, expected_epoch: Option<i64>) -> (r: Result<
    AuthAccount,
    AuthError,
>)
    ensures
        match account {
            None => r matches Err(e) && e.is_business(AuthCode::UserNotRegistered),
            Some(a) => if a.banned {
                r matches Err(e) && e.is_business(AuthCode::AccountSuspended)
            } else if expected_epoch matches Some(x) && x != a.session_epoch {
                r matches Err(AuthError::Unauthorized)
            } else {
                r matches Ok(b) && b == a
            },
        },
{
    let a = match account {
        Some(a) => a,
        None => return Err(AuthError::business(AuthCode::UserNotRegistered)),
    };
    if a.banned {
        return Err(AuthError::business(AuthCode::AccountSuspended));
    }
    match expected_epoch {
        Some(x) => if x != a.session_epoch {
            return Err(AuthError::Unauthorized);
        },
        None => {},
    }
    Ok(a)
}

/// A verification-mail request over the per-address limit is refused.
pub fn email_send_allowed(allowed: bool) -> (r: Result<(), AuthError>)
    ensures
        allowed ==> r is Ok,
        !allowed ==> (r matches Err(e) && e.is_business_detail(
            AuthCode::EmailSendRateLimited,
            "Too many requests, please try again later."@,
        )),
{
    if allowed {
        Ok(())
    } else {
        Err(
            AuthError::business_detail(
                AuthCode::EmailSendRateLimited,
                "Too many requests, please try again later.",
            ),
        )
    }
}

/// A registration code is refused for a registered address, a reset code
/// for an unknown one; a request that names no purpose is served either
/// way.
pub fn email_purpose(is_forget: Option<bool>, exists: bool) -> (r: Result<(), AuthError>)
    ensures
        (is_forget == Some(false) && exists) ==> (r matches Err(e) && e.is_business_detail(
            AuthCode::EmailAlreadyRegistered,
            "This email is registered"@,
        )),
        (is_forget == Some(true) && !exists) ==> (r matches Err(e) && e.is_business(
            AuthCode::EmailNotRegistered,
        )),
        !(is_forget == Some(false) && exists) && !(is_forget == Some(true) && !exists) ==> r is Ok,
{
    match is_forget {
        Some(false) => if exists {
            return Err(
                AuthError::business_detail(
                    AuthCode::EmailAlreadyRegistered,
                    "This email is registered",
                ),
            );
        },
        Some(true) => if !exists {
            return Err(AuthError::business(AuthCode::EmailNotRegistered));
        },
        None => {},
    }
    Ok(())
}

/// A second code within the resend window is refused.
pub fn email_code_reserved(reserved: bool) -> (r: Result<(), AuthError>)
    ensures
        reserved ==> r is Ok,
        !reserved ==> (r matches Err(e) && e.is_business_detail(
            AuthCode::EmailSendRateLimited,
            "Email verification code has been sent, please request again later"@,
        )),
{
    if reserved {
        Ok(())
    } else {
        Err(
            AuthError::business_detail(
                AuthCode::EmailSendRateLimited,
                "Email verification code has been sent, please request again later",
            ),
        )
    }
}

/// What an operator sees of their second factor: enabled once the stored
/// record carries an enabling time, and never required.
pub fn mfa_status(record: Option<MfaRecord>) -> (r: MfaStatus)
    ensures
        r.totp_enabled_at == (match record {
            Some(m) => m.enabled_at,
            None => None,
        }),
        r.totp_enabled == r.totp_enabled_at is Some,
        !r.totp_required,
{
    let enabled_at = match record {
        Some(m) => m.enabled_at,
        None => None,
    };
    MfaStatus { totp_enabled: enabled_at.is_some(), totp_enabled_at: enabled_at, totp_required: false }
}

/// The record a confirmation works on: it must exist and not be enabled yet.
pub fn pending_mfa_record(record: Option<MfaRecord>) -> (r: Result<MfaRecord, AuthError>)
    ensures
        match record {
            None => r matches Err(e) && e.is_business(AuthCode::MfaSetupMissing),
            Some(m) => if m.enabled_at is Some {
                r matches Err(e) && e.is_business(AuthCode::MfaAlreadyEnabled)
            } else {
                r matches Ok(n) && n == m
            },
        },
{
    match record {
        None => Err(AuthError::business(AuthCode::MfaSetupMissing)),
        Some(m) => if m.enabled_at.is_some() {
            Err(AuthError::business(AuthCode::MfaAlreadyEnabled))
        } else {
            Ok(m)
        },
    }
}

/// The record a removal works on: it must exist and be enabled.
pub fn enabled_mfa_record(record: Option<MfaRecord>) -> (r: Result<MfaRecord, AuthError>)
    ensures
        match record {
            Some(m) if m.enabled_at is Some => r matches Ok(n) && n == m,
            _ => r matches Err(e) && e.is_business(AuthCode::MfaNotEnabled),
        },
{
    match record {
        Some(m) => if m.enabled_at.is_some() {
            Ok(m)
        } else {
            Err(AuthError::business(AuthCode::MfaNotEnabled))
        },
        None => Err(AuthError::business(AuthCode::MfaNotEnabled)),
    }
}

/// A second-factor code either names the time step it was accepted for or
/// is refused.
pub fn accepted_step(step: Option<i64>) -> (r: Result<i64, AuthError>)
    ensures
        match step {
            Some(s) => r matches Ok(t) && t == s,
            None => r matches Err(e) && e.is_business(AuthCode::MfaCodeInvalid),
        },
{
    match step {
        Some(s) => Ok(s),
        None => Err(AuthError::business(AuthCode::MfaCodeInvalid)),
    }
}

/// A conditional write that matched no row is answered with `code`.
pub fn write_applied(applied: bool, code: AuthCode) -> (r: Result<(), AuthError>)
    ensures
        applied ==> r is Ok,
        !applied ==> (r matches Err(e) && e.is_business(code)),
{
    if applied {
        Ok(())
    } else {
        Err(AuthError::business(code))
    }
}

/// A password change that lost its race against another change of the
/// account is answered "Save failed".
pub fn password_saved(saved: bool) -> (r: Result<(), AuthError>)
    ensures
        saved ==> r is Ok,
        !saved ==> (r matches Err(e) && e.is_business_detail(
            AuthCode::InvalidParameter,
            "Save failed"@,
        )),
{
    if saved {
        Ok(())
    } else {
        Err(AuthError::business_detail(AuthCode::InvalidParameter, "Save failed"))
    }
}

/// The second factor a login must check: none unless the account has an
/// enabled one, whose code must then be given.
pub fn login_totp_challenge(record: Option<MfaRecord>, code: Option<&str>) -> (r: Result<
    Option<(MfaRecord, String)>,
    AuthError,
>)
    ensures
        match record {
            Some(m) if m.enabled_at is Some => match code {
                Some(c) => r matches Ok(Some((n, t))) && n == m && t@ == c@,
                None => r matches Err(e) && e.is_business(AuthCode::MfaCodeRequired),
            },
            _ => r matches Ok(None),
        },
{
    match record {
        Some(m) => if m.enabled_at.is_some() {
            match code {
                Some(c) => Ok(Some((m, to_owned(c)))),
                None => Err(AuthError::business(AuthCode::MfaCodeRequired)),
            }
        } else {
            Ok(None)
        },
        None => Ok(None),
    }
}

/// The invitation code whose page view is counted: a blank code counts
/// nothing, and one over 255 bytes is refused.
pub fn viewed_invite_code(code: Option<&str>) -> (r: Result<Option<String>, AuthError>)
    ensures
        match code {
            Some(c) if trim(c@).len() > 0 => if byte_len(trim(c@)) > MAX_INVITE_CODE_BYTES {
                r matches Err(e) && e.is_validation("invite_code"@, "Invalid invitation code"@)
            } else {
                r matches Ok(Some(t)) && t@ == trim(c@)
            },
            _ => r matches Ok(None),
        },
{
    match code {
        Some(c) => {
            let t = trim_str(c);
            if chars_of(t.as_str()).len() == 0 {
                Ok(None)
            } else if byte_len_exceeds(t.as_str(), MAX_INVITE_CODE_BYTES) {
                Err(AuthError::validation("invite_code", "Invalid invitation code"))
            } else {
                Ok(Some(t))
            }
        },
        None => Ok(None),
    }
}

/// A step-up token worth looking up: non-empty and at most 256 bytes.
pub fn plausible_step_up_token(token: &str) -> (r: bool)
    ensures
        r == (token@.len() > 0 && byte_len(token@) <= 256),
{
    chars_of(token).len() > 0 && !byte_len_exceeds(token, 256)
}

/// Whether a step-up token is bound to this user and this session.
pub fn step_up_bound(bound: Option<(i64, String)>, user_id: i64, session_id: &str) -> (r: bool)
    ensures
        r == (bound matches Some((u, s)) && u == user_id && s@ == session_id@),
{
    match bound {
        Some((u, s)) => u == user_id && str_eq(s.as_str(), session_id),
        None => false,
    }
}

/// What the session list shows of a stored session.
pub open spec fn lists_session(u: UserSession, s: StoredSession, current: Option<Seq<char>>) -> bool {
    &&& u.session_id == s.session_id
    &&& u.ip@ == (match s.metadata.ip {
        Some(i) => i@,
        None => Seq::<char>::empty(),
    })
    &&& u.ua@ == (match s.metadata.user_agent {
        Some(a) => a@,
        None => Seq::<char>::empty(),
    })
    &&& u.login_at == s.metadata.login_at
    &&& u.current == (current == Some(s.session_id@))
}

/// `u` shows, in their order, the sessions of `s` that have not expired at
/// `now`.
pub open spec fn session_listing(
    u: Seq<UserSession>,
    s: Seq<StoredSession>,
    now: i64,
    current: Option<Seq<char>>,
) -> bool
    decreases s.len(),
{
    if s.len() == 0 {
        u.len() == 0
    } else if session_expired(s.last().metadata.expires_at, now) {
        session_listing(u, s.drop_last(), now, current)
    } else {
        &&& u.len() > 0
        &&& lists_session(u.last(), s.last(), current)
        &&& session_listing(u.drop_last(), s.drop_last(), now, current)
    }
}

/// The order of the session list: the latest login first, then by session
/// id.
pub open spec fn listed_before(a: UserSession, b: UserSession) -> bool {
    a.login_at > b.login_at || (a.login_at == b.login_at && lex_lt(a.session_id@, b.session_id@))
}

pub open spec fn sessions_ordered(v: Seq<UserSession>) -> bool {
    forall|i: int, j: int| 0 <= i < j < v.len() ==> !listed_before(#[trigger] v[j], #[trigger] v[i])
}

pub open spec fn current_view(current: Option<&str>) -> Option<Seq<char>> {
    match current {
        Some(c) => Some(c@),
        None => None,
    }
}

proof fn lemma_listed_before_order(a: UserSession, b: UserSession, c: UserSession)
    ensures
        !listed_before(a, a),
        listed_before(a, b) && listed_before(b, c) ==> listed_before(a, c),
{
    lemma_lex_irreflexive(a.session_id@);
    if listed_before(a, b) && listed_before(b, c) && a.login_at == b.login_at && b.login_at
        == c.login_at {
        lemma_lex_transitive(a.session_id@, b.session_id@, c.session_id@);
    }
}

fn listed_before_exec(a: &UserSession, b: &UserSession) -> (r: bool)
    ensures
        r == listed_before(*a, *b),
{
    a.login_at > b.login_at || (a.login_at == b.login_at && lex_lt_exec(
        &chars_of(a.session_id.as_str()),
        &chars_of(b.session_id.as_str()),
    ))
}

/// Where `x` goes in an ordered list: after every entry it does not come
/// before.
fn session_slot(v: &Vec<UserSession>, x: &UserSession) -> (p: usize)
    requires
        sessions_ordered(v@),
    ensures
        p <= v@.len(),
        sessions_ordered(v@.insert(p as int, *x)),
{
    let mut p: usize = 0;
    while p < v.len() && !listed_before_exec(x, &v[p])
        invariant
            p <= v@.len(),
            forall|a: int| 0 <= a < p ==> !listed_before(*x, #[trigger] v@[a]),
        decreases v@.len() - p,
    {
        p = p + 1;
    }
    let ghost w = v@.insert(p as int, *x);
    assert forall|i: int, j: int| 0 <= i < j < w.len() implies !listed_before(
        #[trigger] w[j],
        #[trigger] w[i],
    ) by {
        if i < p && j < p {
            assert(w[i] == v@[i] && w[j] == v@[j]);
        } else if i < p && j == p {
            assert(w[i] == v@[i] && w[j] == *x);
        } else if i < p {
            assert(w[i] == v@[i] && w[j] == v@[j - 1]);
        } else if i == p {
            assert(w[i] == *x && w[j] == v@[j - 1]);
            assert(listed_before(*x, v@[p as int]));
            lemma_listed_before_order(v@[j - 1], *x, v@[p as int]);
            lemma_listed_before_order(v@[p as int], v@[p as int], v@[p as int]);
        } else {
            assert(w[i] == v@[i - 1] && w[j] == v@[j - 1]);
        }
    }
    p
}

/// The sessions of a user that have not expired at `now`, latest login
/// first and then by session id, marking the one the request came with.
pub fn visible_sessions(stored: Vec<StoredSession>, current: Option<&str>, now: i64) -> (r: Vec<
    UserSession,
>)
    ensures
        sessions_ordered(r@),
        exists|u: Seq<UserSession>|
            #[trigger] session_listing(u, stored@, now, current_view(current)) && u.to_multiset()
                == r@.to_multiset(),
{
    let ghost cur = current_view(current);
    let mut out: Vec<UserSession> = Vec::new();
    let ghost mut listed: Seq<UserSession> = Seq::empty();
    let mut i: usize = 0;
    assert(stored@.take(0).len() == 0);
    while i < stored.len()
        invariant
            i <= stored@.len(),
            cur == current_view(current),
            session_listing(listed, stored@.take(i as int), now, cur),
            out@.to_multiset() == listed.to_multiset(),
            sessions_ordered(out@),
        decreases stored@.len() - i,
    {
        assert(stored@.take(i as int + 1).drop_last() =~= stored@.take(i as int));
        assert(stored@.take(i as int + 1).last() == stored@[i as int]);
        let s = &stored[i];
        let expired = match s.metadata.expires_at {
            Some(t) => t <= now,
            None => false,
        };
        if !expired {
            let is_current = match current {
                Some(c) => str_eq(c, s.session_id.as_str()),
                None => false,
            };
            let ip = match &s.metadata.ip {
                Some(v) => v.clone(),
                None => String::new(),
            };
            let ua = match &s.metadata.user_agent {
                Some(v) => v.clone(),
                None => String::new(),
            };
            let x = UserSession {
                session_id: s.session_id.clone(),
                ip,
                ua,
                login_at: s.metadata.login_at,
                current: is_current,
            };
            assert(lists_session(x, stored@[i as int], cur));
            let p = session_slot(&out, &x);
            proof {
                vstd::seq_lib::to_multiset_insert(out@, p as int, x);
                vstd::seq_lib::to_multiset_build(listed, x);
                assert(listed.push(x).drop_last() =~= listed);
                listed = listed.push(x);
            }
            out.insert(p, x);
        }
        i = i + 1;
    }
    assert(stored@.take(stored@.len() as int) =~= stored@);
    out
}

} // verus!
