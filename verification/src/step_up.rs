//! The order of a privileged step-up: an operator proves the password again
//! within a live session and receives a short-lived token bound to that
//! session.
//!
//! [`step_up_step`] is the decision half: from the state reached and the
//! answer of the last call it gives the next state and the next call.
use vstd::prelude::*;

use crate::auth::{AuthAccount, AuthCode, AuthError, AuthPolicy, SessionMetadata, session_expired};
use crate::auth_flow::{
    clamp_i64, step_up_account, step_up_limits, step_up_password, step_up_reservation,
    step_up_session, TOKEN_ATTEMPTS,
};
use crate::text::to_owned;

verus! {

#[derive(Clone, Copy, Debug, Eq, PartialEq, Structural)]
pub enum StepUpStage {
    Started,
    Reserving,
    FindingAccount,
    VerifyingPassword,
    CheckingSession,
    Clearing,
    Storing,
    Finished,
}

/// How far a step-up got, and how many tokens it tried to store.
#[derive(Clone, Copy, Debug, Eq, PartialEq, Structural)]
pub struct StepUpState {
    pub stage: StepUpStage,
    pub attempts: usize,
}

/// The answer of the call the last action asked for.
#[derive(Debug)]
pub enum StepUpEvent {
    Begin,
    Reserved(bool),
    AccountLoaded(Option<AuthAccount>),
    PasswordChecked(bool),
    SessionLoaded { metadata: Option<SessionMetadata>, now: i64 },
    Cleared,
    /// A fresh token and whether it was stored.
    TokenStored { token: String, stored: bool },
    PortFailed(AuthError),
}

/// The next outbound call, or the end of the step-up.
#[derive(Debug)]
pub enum StepUpAction {
    Reserve { user_limit: i64, ip_limit: i64, window_seconds: u64 },
    FindAccount,
    VerifyPassword { algo: Option<String>, salt: Option<String>, hash: String },
    LoadSession,
    ClearAttempts,
    /// Mint a token and store it for the session.
    StoreToken,
    Done { token: String },
    Fail(AuthError),
}

impl StepUpState {
    pub fn start() -> (s: Self)
        ensures
            s.stage == StepUpStage::Started,
            s.attempts == 0,
            s.wf(),
    {
        StepUpState { stage: StepUpStage::Started, attempts: 0 }
    }

    /// No more tokens are tried than allowed.
    pub open spec fn wf(&self) -> bool {
        self.attempts <= TOKEN_ATTEMPTS
    }
}

/// Which answers each stage waits for.
pub open spec fn step_up_event_fits(stage: StepUpStage, event: StepUpEvent) -> bool {
    match event {
        StepUpEvent::Begin => stage == StepUpStage::Started,
        StepUpEvent::Reserved(_) => stage == StepUpStage::Reserving,
        StepUpEvent::AccountLoaded(_) => stage == StepUpStage::FindingAccount,
        StepUpEvent::PasswordChecked(_) => stage == StepUpStage::VerifyingPassword,
        StepUpEvent::SessionLoaded { .. } => stage == StepUpStage::CheckingSession,
        StepUpEvent::Cleared => stage == StepUpStage::Clearing,
        StepUpEvent::TokenStored { .. } => stage == StepUpStage::Storing,
        StepUpEvent::PortFailed(_) => stage != StepUpStage::Started && stage
            != StepUpStage::Clearing && stage != StepUpStage::Finished,
    }
}

/// Whether `event` is an answer that `stage` waits for.
pub fn step_up_event_fits_exec(stage: StepUpStage, event: &StepUpEvent) -> (r: bool)
    ensures
        r == step_up_event_fits(stage, *event),
{
    match event {
        StepUpEvent::Begin => stage == StepUpStage::Started,
        StepUpEvent::Reserved(_) => stage == StepUpStage::Reserving,
        StepUpEvent::AccountLoaded(_) => stage == StepUpStage::FindingAccount,
        StepUpEvent::PasswordChecked(_) => stage == StepUpStage::VerifyingPassword,
        StepUpEvent::SessionLoaded { .. } => stage == StepUpStage::CheckingSession,
        StepUpEvent::Cleared => stage == StepUpStage::Clearing,
        StepUpEvent::TokenStored { .. } => stage == StepUpStage::Storing,
        StepUpEvent::PortFailed(_) => stage != StepUpStage::Started && stage
            != StepUpStage::Clearing && stage != StepUpStage::Finished,
    }
}

pub open spec fn finished_with(next: StepUpState, action: StepUpAction, check: spec_fn(AuthError) -> bool) -> bool {
    next.stage == StepUpStage::Finished && (action matches StepUpAction::Fail(e) && check(e))
}

fn finish(state: StepUpState, e: AuthError) -> (r: (StepUpState, StepUpAction))
    requires
        state.wf(),
    ensures
        r.0.stage == StepUpStage::Finished,
        r.0.wf(),
        r.1 == StepUpAction::Fail(e),
{
    (StepUpState { stage: StepUpStage::Finished, ..state }, StepUpAction::Fail(e))
}

/// One decision of a privileged step-up whose password passed validation.
///
/// - An attempt is reserved against the per-user limit and the per-address
///   limit, five times as many; a refused reservation ends the step-up.
/// - The account must exist and not be banned, the password must match,
///   and the session must be live; only then are the attempts cleared.
/// - Up to three fresh tokens are tried; the first one stored is the
///   answer, and when none is, the step-up fails internally.
pub fn step_up_step(policy: &AuthPolicy, state: StepUpState, event: StepUpEvent) -> (r: (
    StepUpState,
    StepUpAction,
))
    requires
        state.wf(),
        step_up_event_fits(state.stage, event),
    ensures
        r.0.wf(),
        match event {
            StepUpEvent::Begin => r.0.stage == StepUpStage::Reserving && r.1 == (
            StepUpAction::Reserve {
                user_limit: policy.privileged_step_up_max_attempts,
                ip_limit: clamp_i64(policy.privileged_step_up_max_attempts * 5) as i64,
                window_seconds: policy.privileged_step_up_attempt_window_seconds,
            }),
            StepUpEvent::Reserved(true) => r.0.stage == StepUpStage::FindingAccount && r.1
                is FindAccount,
            StepUpEvent::Reserved(false) => finished_with(
                r.0,
                r.1,
                |e: AuthError|
                    e.is_business_detail(
                        AuthCode::PasswordAttemptsRateLimited,
                        "Too many password verification attempts; try again later"@,
                    ),
            ),
            StepUpEvent::AccountLoaded(found) => match found {
                Some(a) => if a.banned {
                    finished_with(r.0, r.1, |e: AuthError| e is Unauthorized)
                } else {
                    r.0.stage == StepUpStage::VerifyingPassword && r.1 == (
                    StepUpAction::VerifyPassword {
                        algo: a.password_algo,
                        salt: a.password_salt,
                        hash: a.password_hash,
                    })
                },
                None => finished_with(r.0, r.1, |e: AuthError| e is Unauthorized),
            },
            StepUpEvent::PasswordChecked(true) => r.0.stage == StepUpStage::CheckingSession && r.1
                is LoadSession,
            StepUpEvent::PasswordChecked(false) => finished_with(
                r.0,
                r.1,
                |e: AuthError| e.is_business(AuthCode::InvalidCredentials),
            ),
            StepUpEvent::SessionLoaded { metadata, now } => if metadata matches Some(m)
                && !session_expired(m.expires_at, now) {
                r.0.stage == StepUpStage::Clearing && r.1 is ClearAttempts
            } else {
                finished_with(r.0, r.1, |e: AuthError| e is Unauthorized)
            },
            StepUpEvent::Cleared => r.0.stage == StepUpStage::Storing && r.0.attempts == 0 && r.1
                is StoreToken,
            StepUpEvent::TokenStored { token, stored } => if stored {
                r.0.stage == StepUpStage::Finished && r.1 == (StepUpAction::Done { token })
            } else if state.attempts + 1 < TOKEN_ATTEMPTS {
                r.0.stage == StepUpStage::Storing && r.0.attempts == state.attempts + 1 && r.1
                    is StoreToken
            } else {
                finished_with(
                    r.0,
                    r.1,
                    |e: AuthError|
                        e matches AuthError::Internal(m) && m@
                            == "could not allocate a step-up token"@,
                )
            },
            StepUpEvent::PortFailed(e) => r.0.stage == StepUpStage::Finished && r.1
                == StepUpAction::Fail(e),
        },
{
    match event {
        StepUpEvent::Begin => {
            let (user_limit, ip_limit) = step_up_limits(policy);
            (
                StepUpState { stage: StepUpStage::Reserving, ..state },
                StepUpAction::Reserve {
                    user_limit,
                    ip_limit,
                    window_seconds: policy.privileged_step_up_attempt_window_seconds,
                },
            )
        },
        StepUpEvent::Reserved(reserved) => match step_up_reservation(reserved) {
            Ok(()) => (
                StepUpState { stage: StepUpStage::FindingAccount, ..state },
                StepUpAction::FindAccount,
            ),
            Err(e) => finish(state, e),
        },
        StepUpEvent::AccountLoaded(found) => match step_up_account(found) {
            Ok(a) => (
                StepUpState { stage: StepUpStage::VerifyingPassword, ..state },
                StepUpAction::VerifyPassword {
                    algo: a.password_algo,
                    salt: a.password_salt,
                    hash: a.password_hash,
                },
            ),
            Err(e) => finish(state, e),
        },
        StepUpEvent::PasswordChecked(matches) => match step_up_password(matches) {
            Ok(()) => (
                StepUpState { stage: StepUpStage::CheckingSession, ..state },
                StepUpAction::LoadSession,
            ),
            Err(e) => finish(state, e),
        },
        StepUpEvent::SessionLoaded { metadata, now } => match step_up_session(metadata, now) {
            Ok(()) => (
                StepUpState { stage: StepUpStage::Clearing, ..state },
                StepUpAction::ClearAttempts,
            ),
            Err(e) => finish(state, e),
        },
        StepUpEvent::Cleared => (
            StepUpState { stage: StepUpStage::Storing, attempts: 0 },
            StepUpAction::StoreToken,
        ),
        StepUpEvent::TokenStored { token, stored } => {
            if stored {
                (StepUpState { stage: StepUpStage::Finished, ..state }, StepUpAction::Done { token })
            } else if state.attempts + 1 < TOKEN_ATTEMPTS {
                (
                    StepUpState { stage: StepUpStage::Storing, attempts: state.attempts + 1 },
                    StepUpAction::StoreToken,
                )
            } else {
                finish(state, AuthError::Internal(to_owned("could not allocate a step-up token")))
            }
        },
        StepUpEvent::PortFailed(e) => finish(state, e),
    }
}

} // verus!
