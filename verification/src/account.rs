//! Authenticated account queries and preference changes.
use vstd::prelude::*;

use crate::RepositoryError;

verus! {

#[derive(Clone, Debug, Eq, PartialEq)]
pub struct AccountProfile {
    pub email: String,
    pub transfer_enable: i64,
    pub device_limit: Option<i32>,
    pub last_login_at: Option<i64>,
    pub created_at: i64,
    pub banned: bool,
    pub auto_renewal: bool,
    pub remind_expire: bool,
    pub remind_traffic: bool,
    pub expired_at: Option<i64>,
    pub balance: i32,
    pub commission_balance: i32,
    pub plan_id: Option<i32>,
    pub discount: Option<i32>,
    pub commission_rate: Option<i32>,
    pub telegram_id: Option<i64>,
    pub uuid: String,
    pub avatar_url: String,
}

#[derive(Clone, Copy, Debug, Default, Eq, PartialEq, Structural)]
pub struct PreferenceChanges {
    pub auto_renewal: Option<Option<bool>>,
    pub remind_expire: Option<Option<bool>>,
    pub remind_traffic: Option<Option<bool>>,
}

#[derive(Clone, Copy, Debug, Eq, PartialEq, Structural)]
pub struct AccountStatistics {
    pub pending_order_count: i64,
    pub pending_ticket_count: i64,
    pub invited_user_count: i64,
}

#[derive(Debug)]
pub enum AccountError {
    NotFound,
    TelegramUnbindFailed,
    Repository(RepositoryError),
}

pub struct AccountService<R> {
    repository: R,
}

impl<R> AccountService<R> {
    pub closed spec fn spec_repository(&self) -> R {
        self.repository
    }

    pub fn new(repository: R) -> (s: Self)
        ensures
            s.spec_repository() == repository,
    {
        Self { repository }
    }

    pub fn repository(&self) -> (r: &R)
        ensures
            *r == self.spec_repository(),
    {
        &self.repository
    }
}

/// A profile lookup that found no account.
pub fn profile_result(profile: Option<AccountProfile>) -> (r: Result<AccountProfile, AccountError>)
    ensures
        match profile {
            Some(p) => r == Ok::<AccountProfile, AccountError>(p),
            None => r matches Err(AccountError::NotFound),
        },
{
    match profile {
        Some(p) => Ok(p),
        None => Err(AccountError::NotFound),
    }
}

/// An unbind that cleared nothing failed.
pub fn unbind_result(cleared: bool) -> (r: Result<(), AccountError>)
    ensures
        cleared <==> r is Ok,
        !cleared ==> r matches Err(AccountError::TelegramUnbindFailed),
{
    if cleared {
        Ok(())
    } else {
        Err(AccountError::TelegramUnbindFailed)
    }
}

} // verus!
