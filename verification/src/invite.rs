//! Invite codes and commission transfers: the balance arithmetic of a
//! transfer and the order that records it.
use vstd::prelude::*;

use crate::RepositoryError;

verus! {

#[derive(Clone, Debug, Eq, PartialEq)]
pub struct InviteCode {
    pub id: i32,
    pub code: String,
    pub views: i32,
    pub created_at: i64,
    pub updated_at: i64,
}

#[derive(Clone, Copy, Debug, Eq, PartialEq, Structural)]
pub struct InviteStatistics {
    pub registered_count: i64,
    pub valid_commission: i64,
    pub pending_commission: i64,
    pub commission_rate: i64,
    pub available_commission: i64,
}

#[derive(Clone, Debug, Eq, PartialEq)]
pub struct InviteOverview {
    pub codes: Vec<InviteCode>,
    pub statistics: InviteStatistics,
}

#[derive(Clone, Debug, Eq, PartialEq)]
pub struct CommissionEntry {
    pub id: i64,
    pub trade_no: String,
    pub order_amount: i32,
    pub amount: i32,
    pub created_at: i64,
}

#[derive(Clone, Debug, Eq, PartialEq)]
pub struct CommissionPage {
    pub items: Vec<CommissionEntry>,
    pub total: i64,
}

#[derive(Clone, Copy, Debug, Eq, PartialEq, Structural)]
pub struct CommissionTransferPolicy {
    pub first_purchase_only: bool,
    pub default_commission_rate: i32,
}

#[derive(Clone, Copy, Debug, Eq, PartialEq, Structural)]
pub struct TransferUser {
    pub commission_balance: i32,
    pub balance: i32,
    pub inviter_id: Option<i64>,
}

#[derive(Clone, Copy, Debug, Eq, PartialEq, Structural)]
pub struct TransferInviter {
    pub commission_type: i16,
    pub commission_rate: Option<i32>,
}

#[derive(Clone, Debug, Eq, PartialEq)]
pub struct CommissionTransferOrder {
    pub user_id: i64,
    pub inviter_id: Option<i64>,
    pub trade_no: String,
    pub transferred_amount: i32,
    pub inviter_commission: i32,
    pub created_at: i64,
}

#[derive(Debug)]
pub enum InviteError {
    TransferAmountInvalid,
    UserNotRegistered,
    InsufficientCommissionBalance,
    BalanceOutOfRange,
    CommissionAmountOutOfRange,
    InviteCodeLimitReached,
    Repository(RepositoryError),
}

/// When an inviter earns commission on a transfer.
#[derive(Clone, Copy, Debug, Eq, PartialEq, Structural)]
pub enum CommissionEligibility {
    ConfigurableFirstPurchase,
    Always,
    FirstPurchaseOnly,
}

pub struct InviteService<R, N> {
    repository: R,
    order_numbers: N,
}

impl<R, N> InviteService<R, N> {
    pub closed spec fn spec_parts(&self) -> (R, N) {
        (self.repository, self.order_numbers)
    }

    pub fn new(repository: R, order_numbers: N) -> (s: Self)
        ensures
            s.spec_parts() == (repository, order_numbers),
    {
        Self { repository, order_numbers }
    }

    pub fn repository(&self) -> (r: &R)
        ensures
            *r == self.spec_parts().0,
    {
        &self.repository
    }

    pub fn order_numbers(&self) -> (r: &N)
        ensures
            *r == self.spec_parts().1,
    {
        &self.order_numbers
    }
}

/// The balances after moving `transfer_amount` from commission to the
/// account: the amount must be positive, the commission must cover it, and
/// the new balance must fit an `i32`.
pub fn checked_transfer_balances(commission_balance: i32, balance: i32, transfer_amount: i32) -> (r:
    Result<(i32, i32), InviteError>)
    ensures
        transfer_amount <= 0 ==> r matches Err(InviteError::TransferAmountInvalid),
        transfer_amount > 0 && commission_balance - transfer_amount < 0 ==> r matches Err(
            InviteError::InsufficientCommissionBalance,
        ),
        transfer_amount > 0 && commission_balance - transfer_amount >= 0 && balance
            + transfer_amount > i32::MAX ==> r matches Err(InviteError::BalanceOutOfRange),
        transfer_amount > 0 && commission_balance - transfer_amount >= 0 && balance
            + transfer_amount <= i32::MAX ==> (r matches Ok((c, b)) && c == commission_balance
            - transfer_amount && b == balance + transfer_amount),
{
    if transfer_amount <= 0 {
        return Err(InviteError::TransferAmountInvalid);
    }
    let commission = match commission_balance.checked_sub(transfer_amount) {
        Some(c) => if c >= 0 {
            c
        } else {
            return Err(InviteError::InsufficientCommissionBalance);
        },
        None => {
            return Err(InviteError::InsufficientCommissionBalance);
        },
    };
    let updated = match balance.checked_add(transfer_amount) {
        Some(b) => b,
        None => {
            return Err(InviteError::BalanceOutOfRange);
        },
    };
    Ok((commission, updated))
}

/// An inviter's commission type: 0 follows the site's first-purchase
/// setting, 1 always pays, 2 pays on the first purchase only.
pub fn commission_eligibility(value: i16) -> (r: Option<CommissionEligibility>)
    ensures
        value == 0 ==> r == Some(CommissionEligibility::ConfigurableFirstPurchase),
        value == 1 ==> r == Some(CommissionEligibility::Always),
        value == 2 ==> r == Some(CommissionEligibility::FirstPurchaseOnly),
        !(0 <= value <= 2) ==> r is None,
{
    match value {
        0 => Some(CommissionEligibility::ConfigurableFirstPurchase),
        1 => Some(CommissionEligibility::Always),
        2 => Some(CommissionEligibility::FirstPurchaseOnly),
        _ => None,
    }
}

/// The order that records a transfer.
pub fn transfer_order(
    user_id: i64,
    user: &TransferUser,
    trade_no: String,
    transfer_amount: i32,
    inviter_commission: i32,
    now: i64,
) -> (r: CommissionTransferOrder)
    ensures
        r == (CommissionTransferOrder {
            user_id,
            inviter_id: user.inviter_id,
            trade_no,
            transferred_amount: transfer_amount,
            inviter_commission,
            created_at: now,
        }),
{
    CommissionTransferOrder {
        user_id,
        inviter_id: user.inviter_id,
        trade_no,
        transferred_amount: transfer_amount,
        inviter_commission,
        created_at: now,
    }
}

/// A new invite code is refused once the user's limit is reached.
pub fn invite_code_result(created: bool) -> (r: Result<(), InviteError>)
    ensures
        created ==> r is Ok,
        !created ==> r matches Err(InviteError::InviteCodeLimitReached),
{
    if created {
        Ok(())
    } else {
        Err(InviteError::InviteCodeLimitReached)
    }
}

} // verus!
