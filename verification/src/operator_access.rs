//! One-shot operator recovery: the email and password rules checked
//! before anything is hashed or stored.
use vstd::prelude::*;

use crate::RepositoryError;
use crate::text::{chars_of, trim, trim_str};

verus! {

#[derive(Clone, Copy, Debug, Eq, PartialEq, Structural)]
pub enum OperatorMfaResetOutcome {
    AccountNotFound,
    NoFactorConfigured,
    Reset,
}

#[derive(Clone, Debug, Eq, PartialEq)]
pub enum OperatorPasswordResetOutcome {
    AccountNotFound,
    Updated { user_id: i64, session_cleanup_error: Option<RepositoryError> },
}

#[derive(Debug)]
pub enum OperatorAccessError {
    EmptyEmail,
    PasswordTooShort,
    Repository(RepositoryError),
}

pub struct OperatorAccessService<R, E> {
    repository: R,
    external: E,
}

impl<R, E> OperatorAccessService<R, E> {
    pub closed spec fn spec_parts(&self) -> (R, E) {
        (self.repository, self.external)
    }

    pub fn new(repository: R, external: E) -> (s: Self)
        ensures
            s.spec_parts() == (repository, external),
    {
        Self { repository, external }
    }

    pub fn repository(&self) -> (r: &R)
        ensures
            *r == self.spec_parts().0,
    {
        &self.repository
    }

    pub fn external(&self) -> (r: &E)
        ensures
            *r == self.spec_parts().1,
    {
        &self.external
    }
}

/// The operator's email without surrounding whitespace; it must not be
/// empty.
pub fn normalized_email(email: &str) -> (r: Result<String, OperatorAccessError>)
    ensures
        trim(email@).len() > 0 ==> (r matches Ok(e) && e@ == trim(email@)),
        trim(email@).len() == 0 ==> r matches Err(OperatorAccessError::EmptyEmail),
{
    let t = trim_str(email);
    if chars_of(t.as_str()).len() == 0 {
        Err(OperatorAccessError::EmptyEmail)
    } else {
        Ok(t)
    }
}

/// A one-shot administrator password has at least eight characters.
pub fn accepted_password(password: Option<&str>) -> (r: Result<&str, OperatorAccessError>)
    ensures
        match password {
            Some(p) if p@.len() >= 8 => r == Ok::<&str, OperatorAccessError>(p),
            _ => r matches Err(OperatorAccessError::PasswordTooShort),
        },
{
    match password {
        Some(p) => if chars_of(p).len() >= 8 {
            Ok(p)
        } else {
            Err(OperatorAccessError::PasswordTooShort)
        },
        None => Err(OperatorAccessError::PasswordTooShort),
    }
}

/// The result of a password replacement: a missing account, or the update
/// with whatever the best-effort session cleanup reported.
pub fn password_reset_outcome(
    user_id: Option<i64>,
    session_cleanup_error: Option<RepositoryError>,
) -> (r: OperatorPasswordResetOutcome)
    ensures
        match user_id {
            Some(id) => r == OperatorPasswordResetOutcome::Updated {
                user_id: id,
                session_cleanup_error,
            },
            None => r == OperatorPasswordResetOutcome::AccountNotFound,
        },
{
    match user_id {
        Some(id) => OperatorPasswordResetOutcome::Updated { user_id: id, session_cleanup_error },
        None => OperatorPasswordResetOutcome::AccountNotFound,
    }
}

} // verus!
