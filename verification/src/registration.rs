//! The order of a registration: the per-address reservation, the
//! reCAPTCHA check, the policy checks, the e-mail code, and the creation of
//! the account with its invitation and trial inside one transaction.
//!
//! Like a login, a registration alternates outbound calls and decisions;
//! [`registration_step`] is the decision half. Once a reservation is held,
//! every failure releases it before the failure is reported.
use vstd::prelude::*;

use crate::auth::{
    check_register_email, email_code_result, normalize_email, recaptcha_result, recaptcha_token,
    register_email_violation, registration_email_code, registration_invite_code, trial_binding,
    AuthCode, AuthError, AuthPolicy, InsertAuthAccountOutcome, InviteCodeRecord,
    LimitedEmailCodeResult, NewAuthAccount, RegisterInput, TrialDuration, TrialPlanBinding,
    TrialPlanRecord, GIB_BYTES, MAX_RECAPTCHA_DATA_BYTES,
};
use crate::auth_flow::{
    inserted_user, invite_binding, invite_needs_consumption, registration_open, registration_slot,
    registration_slot_needed,
};
use crate::text::{all_digits, byte_len, lower_seq, signed_decimal, to_owned, trim};
use crate::RepositoryError;

verus! {

#[derive(Clone, Copy, Debug, Eq, PartialEq, Structural)]
pub enum RegistrationStage {
    Started,
    Reserving,
    VerifyingRecaptcha,
    ConsumingEmailCode,
    Hashing,
    Minting,
    Opening,
    LockingInvite,
    ConsumingInvite,
    LockingTrialPlan,
    Inserting,
    Committing,
    Releasing,
    Finished,
}

/// What the new account is made of before its row exists: the password
/// hash, the minted UUID and token, and the time of creation.
#[derive(Clone, Debug, Eq, PartialEq)]
pub struct AccountDraft {
    pub password_hash: String,
    pub uuid: String,
    pub token: String,
    pub now: i64,
}

/// How far a registration got and what it gathered on the way.
#[derive(Debug)]
pub struct RegistrationState {
    pub stage: RegistrationStage,
    /// Whether a per-address reservation is held.
    pub reserved: bool,
    /// The trimmed invitation code, when one was given.
    pub invite_code: Option<String>,
    /// The invitation row, once locked.
    pub invite: Option<InviteCodeRecord>,
    /// The inviter the account is bound to.
    pub invite_user_id: Option<i64>,
    pub draft: AccountDraft,
    /// The id of the inserted account.
    pub user_id: i64,
    /// The failure to report once the reservation is released.
    pub pending: Option<AuthError>,
}

/// The answer of the call the last action asked for.
#[derive(Debug)]
pub enum RegistrationEvent {
    Begin,
    SlotReserved(bool),
    RecaptchaChecked(Result<bool, RepositoryError>),
    EmailCodeChecked(LimitedEmailCodeResult),
    Hashed(String),
    Minted { uuid: String, token: String, now: i64 },
    Opened,
    InviteLocked(Option<InviteCodeRecord>),
    InviteConsumed(bool),
    TrialPlanLocked(Option<TrialPlanRecord>),
    Inserted(InsertAuthAccountOutcome),
    Committed,
    SlotReleased,
    PortFailed(AuthError),
}

/// The next outbound call, or the end of the registration.
#[derive(Debug)]
pub enum RegistrationAction {
    /// Reserve a registration slot for the client address.
    ReserveSlot,
    VerifyRecaptcha { token: String },
    ConsumeEmailCode { email: String, code: String },
    HashPassword,
    /// Mint the account's UUID and token and read the clock.
    Mint,
    OpenTransaction,
    LockInvite { code: String },
    ConsumeInvite { id: i32, now: i64 },
    LockTrialPlan { plan_id: i32 },
    Insert(NewAuthAccount),
    Commit,
    ReleaseSlot,
    /// The account is committed: issue its first session.
    IssueSession { user_id: i64 },
    Fail(AuthError),
}

impl RegistrationState {
    /// The state of a registration whose input passed validation.
    pub fn start() -> (s: Self)
        ensures
            s.stage == RegistrationStage::Started,
            !s.reserved,
            s.invite_code is None,
            s.invite is None,
            s.invite_user_id is None,
            s.pending is None,
            s.user_id == 0,
            s.draft.password_hash@ == Seq::<char>::empty(),
            s.draft.uuid@ == Seq::<char>::empty(),
            s.draft.token@ == Seq::<char>::empty(),
            s.draft.now == 0,
            s.wf(),
    {
        RegistrationState {
            stage: RegistrationStage::Started,
            reserved: false,
            invite_code: None,
            invite: None,
            invite_user_id: None,
            draft: AccountDraft {
                password_hash: String::new(),
                uuid: String::new(),
                token: String::new(),
                now: 0,
            },
            user_id: 0,
            pending: None,
        }
    }

    /// A consumption waits on a locked invitation, a release carries the
    /// failure it reports, and no reservation is held before one is asked
    /// for.
    pub open spec fn wf(&self) -> bool {
        &&& self.stage == RegistrationStage::ConsumingInvite ==> self.invite is Some
        &&& self.stage == RegistrationStage::Releasing ==> self.pending is Some && self.reserved
        &&& (self.stage == RegistrationStage::Started || self.stage == RegistrationStage::Reserving)
            ==> !self.reserved
    }
}

/// Which answers each stage waits for.
pub open spec fn registration_event_fits(stage: RegistrationStage, event: RegistrationEvent) -> bool {
    match event {
        RegistrationEvent::Begin => stage == RegistrationStage::Started,
        RegistrationEvent::SlotReserved(_) => stage == RegistrationStage::Reserving,
        RegistrationEvent::RecaptchaChecked(_) => stage == RegistrationStage::VerifyingRecaptcha,
        RegistrationEvent::EmailCodeChecked(_) => stage == RegistrationStage::ConsumingEmailCode,
        RegistrationEvent::Hashed(_) => stage == RegistrationStage::Hashing,
        RegistrationEvent::Minted { .. } => stage == RegistrationStage::Minting,
        RegistrationEvent::Opened => stage == RegistrationStage::Opening,
        RegistrationEvent::InviteLocked(_) => stage == RegistrationStage::LockingInvite,
        RegistrationEvent::InviteConsumed(_) => stage == RegistrationStage::ConsumingInvite,
        RegistrationEvent::TrialPlanLocked(_) => stage == RegistrationStage::LockingTrialPlan,
        RegistrationEvent::Inserted(_) => stage == RegistrationStage::Inserting,
        RegistrationEvent::Committed => stage == RegistrationStage::Committing,
        RegistrationEvent::SlotReleased => stage == RegistrationStage::Releasing,
        RegistrationEvent::PortFailed(_) => port_stage(stage),
    }
}

/// The stages whose call can fail as a whole.
pub open spec fn port_stage(stage: RegistrationStage) -> bool {
    stage == RegistrationStage::Reserving || stage == RegistrationStage::ConsumingEmailCode
        || stage == RegistrationStage::Hashing || stage == RegistrationStage::Minting || stage
        == RegistrationStage::Opening || stage == RegistrationStage::LockingInvite || stage
        == RegistrationStage::ConsumingInvite || stage == RegistrationStage::LockingTrialPlan
        || stage == RegistrationStage::Inserting || stage == RegistrationStage::Committing
}

/// Whether `event` is an answer that `stage` waits for.
pub fn registration_event_fits_exec(stage: RegistrationStage, event: &RegistrationEvent) -> (r:
    bool)
    ensures
        r == registration_event_fits(stage, *event),
{
    match event {
        RegistrationEvent::Begin => stage == RegistrationStage::Started,
        RegistrationEvent::SlotReserved(_) => stage == RegistrationStage::Reserving,
        RegistrationEvent::RecaptchaChecked(_) => stage == RegistrationStage::VerifyingRecaptcha,
        RegistrationEvent::EmailCodeChecked(_) => stage == RegistrationStage::ConsumingEmailCode,
        RegistrationEvent::Hashed(_) => stage == RegistrationStage::Hashing,
        RegistrationEvent::Minted { .. } => stage == RegistrationStage::Minting,
        RegistrationEvent::Opened => stage == RegistrationStage::Opening,
        RegistrationEvent::InviteLocked(_) => stage == RegistrationStage::LockingInvite,
        RegistrationEvent::InviteConsumed(_) => stage == RegistrationStage::ConsumingInvite,
        RegistrationEvent::TrialPlanLocked(_) => stage == RegistrationStage::LockingTrialPlan,
        RegistrationEvent::Inserted(_) => stage == RegistrationStage::Inserting,
        RegistrationEvent::Committed => stage == RegistrationStage::Committing,
        RegistrationEvent::SlotReleased => stage == RegistrationStage::Releasing,
        RegistrationEvent::PortFailed(_) => stage == RegistrationStage::Reserving || stage
            == RegistrationStage::ConsumingEmailCode || stage == RegistrationStage::Hashing
            || stage == RegistrationStage::Minting || stage == RegistrationStage::Opening || stage
            == RegistrationStage::LockingInvite || stage == RegistrationStage::ConsumingInvite
            || stage == RegistrationStage::LockingTrialPlan || stage
            == RegistrationStage::Inserting || stage == RegistrationStage::Committing,
    }
}

pub open spec fn opt_view(o: Option<String>) -> Option<Seq<char>> {
    match o {
        Some(s) => Some(s@),
        None => None,
    }
}

/// The invitation code a registration names: trimmed, blank meaning none.
pub open spec fn given_invite_code(input: RegisterInput) -> Option<Seq<char>> {
    match input.invite_code {
        Some(c) => if trim(c@).len() > 0 {
            Some(trim(c@))
        } else {
            None
        },
        None => None,
    }
}

/// A well-formed e-mail code: six digits once trimmed.
pub open spec fn email_code_valid(input: RegisterInput) -> bool {
    match input.email_code {
        Some(c) => trim(c@).len() == 6 && all_digits(trim(c@)),
        None => false,
    }
}

/// The registration fails with an error satisfying `check`: after the
/// release of a held reservation, at once otherwise.
pub open spec fn fails_with(
    reserved: bool,
    next: RegistrationState,
    action: RegistrationAction,
    check: spec_fn(AuthError) -> bool,
) -> bool {
    if reserved {
        &&& next.stage == RegistrationStage::Releasing
        &&& next.reserved
        &&& action is ReleaseSlot
        &&& next.pending matches Some(e) && check(e)
    } else {
        next.stage == RegistrationStage::Finished && (action matches RegistrationAction::Fail(e)
            && check(e))
    }
}

/// The checks that need no call, in their order, once the reCAPTCHA
/// passed: the address policy, closed registration, a forced invitation,
/// and a well-formed e-mail code; then the code is consumed, or the
/// password hashed when codes are off.
pub open spec fn admission(
    policy: AuthPolicy,
    input: RegisterInput,
    email: Seq<char>,
    reserved: bool,
    next: RegistrationState,
    action: RegistrationAction,
) -> bool {
    match register_email_violation(policy, email) {
        Some(code) => fails_with(reserved, next, action, |e: AuthError| e.is_business(code)),
        None => if policy.stop_register {
            fails_with(
                reserved,
                next,
                action,
                |e: AuthError| e.is_business(AuthCode::RegistrationClosed),
            )
        } else if policy.invite_force && given_invite_code(input) is None {
            fails_with(
                reserved,
                next,
                action,
                |e: AuthError|
                    e.is_business_detail(
                        AuthCode::InvalidInviteCode,
                        "You must use the invitation code to register"@,
                    ),
            )
        } else if policy.email_verify && !email_code_valid(input) {
            fails_with(
                reserved,
                next,
                action,
                |e: AuthError| e.is_business(AuthCode::InvalidEmailCode),
            )
        } else {
            &&& next.reserved == reserved
            &&& opt_view(next.invite_code) == given_invite_code(input)
            &&& if policy.email_verify {
                next.stage == RegistrationStage::ConsumingEmailCode && (action
                    matches RegistrationAction::ConsumeEmailCode { email: m, code: c } && m@
                    == lower_seq(trim(email)) && c@ == trim(input.email_code->0@))
            } else {
                next.stage == RegistrationStage::Hashing && action is HashPassword
            }
        },
    }
}

/// The reCAPTCHA step: an oversized token fails; with reCAPTCHA off the
/// admission checks follow; otherwise the trimmed token, which must not be
/// blank, is verified.
pub open spec fn recaptcha_phase(
    policy: AuthPolicy,
    input: RegisterInput,
    email: Seq<char>,
    reserved: bool,
    next: RegistrationState,
    action: RegistrationAction,
) -> bool {
    if input.recaptcha_data matches Some(t) && byte_len(t@) > MAX_RECAPTCHA_DATA_BYTES {
        fails_with(reserved, next, action, |e: AuthError| e.is_business(AuthCode::RecaptchaFailed))
    } else if !policy.recaptcha_enable {
        admission(policy, input, email, reserved, next, action)
    } else {
        match input.recaptcha_data {
            Some(t) if trim(t@).len() > 0 => next.stage == RegistrationStage::VerifyingRecaptcha
                && next.reserved == reserved && (action
                matches RegistrationAction::VerifyRecaptcha { token } && token@ == trim(t@)),
            _ => fails_with(
                reserved,
                next,
                action,
                |e: AuthError| e.is_business(AuthCode::RecaptchaFailed),
            ),
        }
    }
}

/// The reservation and the draft go on unchanged.
pub open spec fn keeps(state: RegistrationState, next: RegistrationState) -> bool {
    next.reserved == state.reserved && next.draft == state.draft
}

/// What a trial plan grants, or none when its traffic, its duration or
/// its expiry leaves the supported range.
pub open spec fn trial_grant(plan: TrialPlanRecord, duration: TrialDuration, now: i64) -> Option<
    TrialPlanBinding,
> {
    if 0 <= plan.transfer_gib && plan.transfer_gib * GIB_BYTES <= i64::MAX && duration is Seconds
        && i64::MIN <= now + duration->0 <= i64::MAX {
        Some(
            TrialPlanBinding {
                transfer_enable: (plan.transfer_gib * GIB_BYTES) as i64,
                device_limit: plan.device_limit,
                group_id: Some(plan.group_id),
                plan_id: Some(plan.id),
                speed_limit: plan.speed_limit,
                expired_at: Some((now + duration->0) as i64),
            },
        )
    } else {
        None
    }
}

/// The account row inserted: the address, the draft, the inviter and the
/// trial.
pub open spec fn inserting(
    email: Seq<char>,
    state: RegistrationState,
    invite_user_id: Option<i64>,
    trial: TrialPlanBinding,
    next: RegistrationState,
    action: RegistrationAction,
) -> bool {
    &&& next.stage == RegistrationStage::Inserting
    &&& keeps(state, next)
    &&& action matches RegistrationAction::Insert(a) && {
        &&& a.invite_user_id == invite_user_id
        &&& a.email@ == email
        &&& a.password_hash == state.draft.password_hash
        &&& a.uuid == state.draft.uuid
        &&& a.token == state.draft.token
        &&& a.transfer_enable == trial.transfer_enable
        &&& a.device_limit == trial.device_limit
        &&& a.group_id == trial.group_id
        &&& a.plan_id == trial.plan_id
        &&& a.speed_limit == trial.speed_limit
        &&& a.expired_at == trial.expired_at
        &&& a.created_at == state.draft.now
    }
}

/// After the invitation: the configured trial plan is locked, or, without
/// one, the account is inserted with no trial.
pub open spec fn trial_phase(
    policy: AuthPolicy,
    email: Seq<char>,
    state: RegistrationState,
    invite_user_id: Option<i64>,
    next: RegistrationState,
    action: RegistrationAction,
) -> bool {
    if policy.trial_plan_id > 0 {
        &&& next.stage == RegistrationStage::LockingTrialPlan
        &&& keeps(state, next)
        &&& next.invite_user_id == invite_user_id
        &&& action == (RegistrationAction::LockTrialPlan { plan_id: policy.trial_plan_id })
    } else {
        inserting(email, state, invite_user_id, TrialPlanBinding::spec_empty(), next, action)
    }
}

impl TrialPlanBinding {
    pub open spec fn spec_empty() -> TrialPlanBinding {
        TrialPlanBinding {
            transfer_enable: 0,
            device_limit: None,
            group_id: None,
            plan_id: None,
            speed_limit: None,
            expired_at: None,
        }
    }
}

fn failing(state: RegistrationState, e: AuthError) -> (r: (RegistrationState, RegistrationAction))
    ensures
        r.0.reserved == state.reserved,
        state.reserved ==> (r.0.stage == RegistrationStage::Releasing && r.0.reserved && r.1
            is ReleaseSlot && r.0.pending == Some(e)),
        !state.reserved ==> (r.0.stage == RegistrationStage::Finished && r.1
            == RegistrationAction::Fail(e)),
        r.0.wf(),
{
    if state.reserved {
        (
            RegistrationState {
                stage: RegistrationStage::Releasing,
                reserved: true,
                pending: Some(e),
                ..state
            },
            RegistrationAction::ReleaseSlot,
        )
    } else {
        (
            RegistrationState { stage: RegistrationStage::Finished, pending: None, ..state },
            RegistrationAction::Fail(e),
        )
    }
}

fn admission_checks(policy: &AuthPolicy, input: &RegisterInput, email: &str, state: RegistrationState) -> (r: (
    RegistrationState,
    RegistrationAction,
))
    ensures
        admission(*policy, *input, email@, state.reserved, r.0, r.1),
        r.0.wf(),
        r.0.reserved == state.reserved,
{
    match check_register_email(policy, email) {
        Err(e) => return failing(state, e),
        Ok(()) => {},
    }
    match registration_open(policy.stop_register) {
        Err(e) => return failing(state, e),
        Ok(()) => {},
    }
    let invite_code = match registration_invite_code(&input.invite_code, policy.invite_force) {
        Ok(c) => c,
        Err(e) => return failing(state, e),
    };
    if policy.email_verify {
        match registration_email_code(&input.email_code) {
            Ok(code) => {
                let normalized = normalize_email(email);
                (
                    RegistrationState {
                        stage: RegistrationStage::ConsumingEmailCode,
                        invite_code,
                        pending: None,
                        ..state
                    },
                    RegistrationAction::ConsumeEmailCode { email: normalized, code },
                )
            },
            Err(e) => failing(state, e),
        }
    } else {
        (
            RegistrationState {
                stage: RegistrationStage::Hashing,
                invite_code,
                pending: None,
                ..state
            },
            RegistrationAction::HashPassword,
        )
    }
}

fn check_recaptcha(policy: &AuthPolicy, input: &RegisterInput, email: &str, state: RegistrationState) -> (r: (
    RegistrationState,
    RegistrationAction,
))
    ensures
        recaptcha_phase(*policy, *input, email@, state.reserved, r.0, r.1),
        r.0.wf(),
        r.0.reserved == state.reserved,
{
    let token = match &input.recaptcha_data {
        Some(t) => Some(t.as_str()),
        None => None,
    };
    match recaptcha_token(token, policy.recaptcha_enable) {
        Err(e) => failing(state, e),
        Ok(None) => admission_checks(policy, input, email, state),
        Ok(Some(t)) => (
            RegistrationState {
                stage: RegistrationStage::VerifyingRecaptcha,
                pending: None,
                ..state
            },
            RegistrationAction::VerifyRecaptcha { token: t },
        ),
    }
}

fn insert_account(email: &str, state: RegistrationState, invite_user_id: Option<i64>, trial: TrialPlanBinding) -> (r: (
    RegistrationState,
    RegistrationAction,
))
    ensures
        inserting(email@, state, invite_user_id, trial, r.0, r.1),
        r.0.wf(),
        r.0.reserved == state.reserved,
{
    let account = NewAuthAccount {
        invite_user_id,
        email: to_owned(email),
        password_hash: state.draft.password_hash.clone(),
        uuid: state.draft.uuid.clone(),
        token: state.draft.token.clone(),
        transfer_enable: trial.transfer_enable,
        device_limit: trial.device_limit,
        group_id: trial.group_id,
        plan_id: trial.plan_id,
        speed_limit: trial.speed_limit,
        expired_at: trial.expired_at,
        created_at: state.draft.now,
    };
    (
        RegistrationState {
            stage: RegistrationStage::Inserting,
            invite_user_id,
            pending: None,
            ..state
        },
        RegistrationAction::Insert(account),
    )
}

fn after_invite(policy: &AuthPolicy, email: &str, state: RegistrationState, invite_user_id: Option<i64>) -> (r: (
    RegistrationState,
    RegistrationAction,
))
    ensures
        trial_phase(*policy, email@, state, invite_user_id, r.0, r.1),
        r.0.wf(),
        r.0.reserved == state.reserved,
{
    if policy.trial_plan_id > 0 {
        (
            RegistrationState {
                stage: RegistrationStage::LockingTrialPlan,
                invite_user_id,
                pending: None,
                ..state
            },
            RegistrationAction::LockTrialPlan { plan_id: policy.trial_plan_id },
        )
    } else {
        insert_account(email, state, invite_user_id, TrialPlanBinding::none())
    }
}

/// One decision of a registration whose input passed validation; `email`
/// is the trimmed address and `client_ip` the address the request came
/// from.
///
/// - A registration from a known address, with the per-address limit on,
///   first reserves a slot; a refused slot ends it.
/// - The reCAPTCHA, when on, is verified first; then the address policy,
///   closed registration, a forced invitation and the e-mail code are
///   checked, and the code is consumed when codes are on.
/// - The password is hashed, the account's identifiers are minted, and a
///   transaction is opened; the invitation is locked (and consumed unless
///   invitations never expire), the trial plan is locked when one is
///   configured, and the account is inserted and committed.
/// - Every failure after the reservation releases it before it is
///   reported; a committed account goes on to its first session.
#[verifier::rlimit(60)]
pub fn registration_step(
    policy: &AuthPolicy,
    input: &RegisterInput,
    email: &str,
    client_ip: Option<&str>,
    state: RegistrationState,
    event: RegistrationEvent,
) -> (r: (RegistrationState, RegistrationAction))
    requires
        state.wf(),
        registration_event_fits(state.stage, event),
    ensures
        r.0.wf(),
        state.reserved && !(event is SlotReleased) ==> !(r.1 is Fail) && r.0.reserved,
        !state.reserved && r.0.reserved ==> event == RegistrationEvent::SlotReserved(true),
        match event {
            RegistrationEvent::Begin => if client_ip is Some && policy.register_limit_by_ip_enable {
                r.0.stage == RegistrationStage::Reserving && !r.0.reserved && r.1 is ReserveSlot
            } else {
                recaptcha_phase(*policy, *input, email@, state.reserved, r.0, r.1)
            },
            RegistrationEvent::SlotReserved(true) => recaptcha_phase(
                *policy,
                *input,
                email@,
                true,
                r.0,
                r.1,
            ),
            RegistrationEvent::SlotReserved(false) => r.0.stage == RegistrationStage::Finished && (
            r.1 matches RegistrationAction::Fail(e) && e.is_business_detail(
                AuthCode::RegisterIpRateLimited,
                "Register frequently, please try again after "@ + signed_decimal(
                    policy.register_limit_expire_minutes as int,
                ) + " minute"@,
            )),
            RegistrationEvent::RecaptchaChecked(v) => if v == Ok::<bool, RepositoryError>(true) {
                admission(*policy, *input, email@, state.reserved, r.0, r.1)
            } else {
                fails_with(
                    state.reserved,
                    r.0,
                    r.1,
                    |e: AuthError| e.is_business(AuthCode::RecaptchaFailed),
                )
            },
            RegistrationEvent::EmailCodeChecked(result) => match result {
                LimitedEmailCodeResult::Consumed => r.0.stage == RegistrationStage::Hashing && r.1
                    is HashPassword && r.0.reserved == state.reserved && r.0.invite_code
                    == state.invite_code,
                LimitedEmailCodeResult::Incorrect => fails_with(
                    state.reserved,
                    r.0,
                    r.1,
                    |e: AuthError| e.is_business(AuthCode::InvalidEmailCode),
                ),
                LimitedEmailCodeResult::Limited => fails_with(
                    state.reserved,
                    r.0,
                    r.1,
                    |e: AuthError| e.is_business(AuthCode::RegisterIpRateLimited),
                ),
            },
            RegistrationEvent::Hashed(hash) => r.0.stage == RegistrationStage::Minting && r.1
                is Mint && r.0.draft.password_hash == hash && r.0.reserved == state.reserved
                && r.0.invite_code == state.invite_code,
            RegistrationEvent::Minted { uuid, token, now } => r.0.stage == RegistrationStage::Opening
                && r.1 is OpenTransaction && r.0.draft == (AccountDraft {
                password_hash: state.draft.password_hash,
                uuid,
                token,
                now,
            }) && r.0.reserved == state.reserved && r.0.invite_code == state.invite_code,
            RegistrationEvent::Opened => match state.invite_code {
                Some(c) => r.0.stage == RegistrationStage::LockingInvite && keeps(state, r.0) && (r.1
                    matches RegistrationAction::LockInvite { code } && code == c),
                None => trial_phase(*policy, email@, state, None, r.0, r.1),
            },
            RegistrationEvent::InviteLocked(found) => match found {
                Some(invite) => if !policy.invite_never_expire {
                    &&& r.0.stage == RegistrationStage::ConsumingInvite
                    &&& keeps(state, r.0)
                    &&& r.0.invite == Some(invite)
                    &&& r.1 == (RegistrationAction::ConsumeInvite { id: invite.id, now: state.draft.now })
                } else {
                    trial_phase(*policy, email@, state, Some(invite.user_id), r.0, r.1)
                },
                None => if policy.invite_force {
                    fails_with(
                        state.reserved,
                        r.0,
                        r.1,
                        |e: AuthError| e.is_business(AuthCode::InvalidInviteCode),
                    )
                } else {
                    trial_phase(*policy, email@, state, None, r.0, r.1)
                },
            },
            RegistrationEvent::InviteConsumed(consumed) => if consumed {
                trial_phase(*policy, email@, state, Some(state.invite->0.user_id), r.0, r.1)
            } else {
                fails_with(
                    state.reserved,
                    r.0,
                    r.1,
                    |e: AuthError| e.is_business(AuthCode::InvalidInviteCode),
                )
            },
            RegistrationEvent::TrialPlanLocked(plan) => match plan {
                None => inserting(
                    email@,
                    state,
                    state.invite_user_id,
                    TrialPlanBinding::spec_empty(),
                    r.0,
                    r.1,
                ),
                Some(p) => match trial_grant(p, policy.trial_duration, state.draft.now) {
                    Some(grant) => inserting(email@, state, state.invite_user_id, grant, r.0, r.1),
                    None => fails_with(
                        state.reserved,
                        r.0,
                        r.1,
                        |e: AuthError| e.has_code(AuthCode::InvalidParameter),
                    ),
                },
            },
            RegistrationEvent::Inserted(outcome) => match outcome {
                InsertAuthAccountOutcome::Inserted(id) => r.0.stage == RegistrationStage::Committing
                    && r.1 is Commit && r.0.user_id == id && r.0.reserved == state.reserved,
                InsertAuthAccountOutcome::EmailAlreadyRegistered => fails_with(
                    state.reserved,
                    r.0,
                    r.1,
                    |e: AuthError| e.is_business(AuthCode::EmailAlreadyRegistered),
                ),
            },
            RegistrationEvent::Committed => r.0.stage == RegistrationStage::Finished && r.1 == (
            RegistrationAction::IssueSession { user_id: state.user_id }),
            RegistrationEvent::SlotReleased => r.0.stage == RegistrationStage::Finished && r.1
                == RegistrationAction::Fail(state.pending->0),
            RegistrationEvent::PortFailed(e) => if state.stage == RegistrationStage::Reserving {
                r.0.stage == RegistrationStage::Finished && r.1 == RegistrationAction::Fail(e)
            } else {
                fails_with(state.reserved, r.0, r.1, |x: AuthError| x == e)
            },
        },
{
    match event {
        RegistrationEvent::Begin => {
            if registration_slot_needed(client_ip, policy.register_limit_by_ip_enable) {
                (
                    RegistrationState {
                        stage: RegistrationStage::Reserving,
                        reserved: false,
                        pending: None,
                        ..state
                    },
                    RegistrationAction::ReserveSlot,
                )
            } else {
                check_recaptcha(policy, input, email, state)
            }
        },
        RegistrationEvent::SlotReserved(reserved) => {
            if reserved {
                check_recaptcha(
                    policy,
                    input,
                    email,
                    RegistrationState { reserved: true, pending: None, ..state },
                )
            } else {
                let e = match registration_slot(false, policy.register_limit_expire_minutes) {
                    Err(e) => e,
                    Ok(()) => {
                        assert(false);
                        AuthError::business(AuthCode::RegisterIpRateLimited)
                    },
                };
                (
                    RegistrationState { stage: RegistrationStage::Finished, pending: None, ..state },
                    RegistrationAction::Fail(e),
                )
            }
        },
        RegistrationEvent::RecaptchaChecked(verified) => match recaptcha_result(verified) {
            Ok(()) => admission_checks(policy, input, email, state),
            Err(e) => failing(state, e),
        },
        RegistrationEvent::EmailCodeChecked(result) => match email_code_result(
            result,
            AuthCode::RegisterIpRateLimited,
        ) {
            Ok(()) => (
                RegistrationState { stage: RegistrationStage::Hashing, pending: None, ..state },
                RegistrationAction::HashPassword,
            ),
            Err(e) => failing(state, e),
        },
        RegistrationEvent::Hashed(hash) => {
            let draft = AccountDraft { password_hash: hash, ..state.draft };
            (
                RegistrationState {
                    stage: RegistrationStage::Minting,
                    draft,
                    pending: None,
                    ..state
                },
                RegistrationAction::Mint,
            )
        },
        RegistrationEvent::Minted { uuid, token, now } => {
            let draft = AccountDraft { uuid, token, now, ..state.draft };
            (
                RegistrationState {
                    stage: RegistrationStage::Opening,
                    draft,
                    pending: None,
                    ..state
                },
                RegistrationAction::OpenTransaction,
            )
        },
        RegistrationEvent::Opened => match state.invite_code {
            Some(code) => {
                let lock = code.clone();
                (
                    RegistrationState {
                        stage: RegistrationStage::LockingInvite,
                        invite_code: Some(code),
                        pending: None,
                        ..state
                    },
                    RegistrationAction::LockInvite { code: lock },
                )
            },
            None => after_invite(policy, email, RegistrationState { invite_code: None, ..state }, None),
        },
        RegistrationEvent::InviteLocked(found) => match found {
            Some(invite) => {
                if invite_needs_consumption(policy.invite_never_expire) {
                    let now = state.draft.now;
                    (
                        RegistrationState {
                            stage: RegistrationStage::ConsumingInvite,
                            invite: Some(invite),
                            pending: None,
                            ..state
                        },
                        RegistrationAction::ConsumeInvite { id: invite.id, now },
                    )
                } else {
                    after_invite(policy, email, state, Some(invite.user_id))
                }
            },
            None => match invite_binding(None, true, policy.invite_never_expire, policy.invite_force) {
                Ok(inviter) => after_invite(policy, email, state, inviter),
                Err(e) => failing(state, e),
            },
        },
        RegistrationEvent::InviteConsumed(consumed) => {
            let invite = match state.invite {
                Some(i) => i,
                None => {
                    assert(false);
                    return failing(state, AuthError::business(AuthCode::InvalidInviteCode));
                },
            };
            match invite_binding(Some(invite), consumed, false, policy.invite_force) {
                Ok(inviter) => after_invite(policy, email, state, inviter),
                Err(e) => failing(state, e),
            }
        },
        RegistrationEvent::TrialPlanLocked(plan) => {
            let now = state.draft.now;
            let invite_user_id = state.invite_user_id;
            match trial_binding(plan, policy.trial_duration, now) {
                Ok(trial) => insert_account(email, state, invite_user_id, trial),
                Err(e) => failing(state, e),
            }
        },
        RegistrationEvent::Inserted(outcome) => match inserted_user(outcome) {
            Ok(id) => (
                RegistrationState {
                    stage: RegistrationStage::Committing,
                    user_id: id,
                    pending: None,
                    ..state
                },
                RegistrationAction::Commit,
            ),
            Err(e) => failing(state, e),
        },
        RegistrationEvent::Committed => {
            let user_id = state.user_id;
            (
                RegistrationState { stage: RegistrationStage::Finished, pending: None, ..state },
                RegistrationAction::IssueSession { user_id },
            )
        },
        RegistrationEvent::SlotReleased => {
            let e = match state.pending {
                Some(e) => e,
                None => {
                    assert(false);
                    AuthError::business(AuthCode::InvalidParameter)
                },
            };
            (
                RegistrationState {
                    stage: RegistrationStage::Finished,
                    reserved: state.reserved,
                    invite_code: state.invite_code,
                    invite: state.invite,
                    invite_user_id: state.invite_user_id,
                    draft: state.draft,
                    user_id: state.user_id,
                    pending: None,
                },
                RegistrationAction::Fail(e),
            )
        },
        RegistrationEvent::PortFailed(e) => {
            if state.stage == RegistrationStage::Reserving {
                (
                    RegistrationState { stage: RegistrationStage::Finished, pending: None, ..state },
                    RegistrationAction::Fail(e),
                )
            } else {
                failing(state, e)
            }
        },
    }
}

} // verus!
