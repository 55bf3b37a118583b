//! Administrative order use cases: the closed query vocabulary and the
//! order orchestration policy. Each decision the use case takes between two
//! port calls is a function here, from the port's answer to the next step.
use vstd::prelude::*;

use crate::filter_dsl::{escape_wildcards, push_escaped};
use crate::text::{append_str_to, chars_of, str_eq, to_owned, trim, trim_str};
use crate::RepositoryError;

verus! {

pub type RepositoryResult<T> = Result<T, RepositoryError>;

#[derive(Clone, Debug, Eq, PartialEq)]
pub struct AdminOrder {
    pub id: i64,
    pub invite_user_id: Option<i64>,
    pub user_id: i64,
    pub plan_id: i32,
    pub coupon_id: Option<i32>,
    pub kind: i32,
    pub period: String,
    pub trade_no: String,
    pub callback_no: Option<String>,
    pub total_amount: i32,
    pub handling_amount: Option<i32>,
    pub discount_amount: Option<i32>,
    pub surplus_amount: Option<i32>,
    pub refund_amount: Option<i32>,
    pub balance_amount: Option<i32>,
    pub surplus_order_ids: Option<Vec<i64>>,
    pub status: i16,
    pub commission_status: i16,
    pub commission_balance: i32,
    pub actual_commission_balance: Option<i32>,
    pub payment_id: Option<i32>,
    pub paid_at: Option<i64>,
    pub created_at: i64,
    pub updated_at: i64,
}

#[derive(Clone, Debug, Eq, PartialEq)]
pub struct AdminOrderListItem {
    pub order: AdminOrder,
    pub email: String,
    pub plan_name: Option<String>,
    pub open_reconciliation_count: i64,
}

#[derive(Clone, Debug, Eq, PartialEq)]
pub struct AdminCommissionLog {
    pub id: i64,
    pub invite_user_id: i64,
    pub user_id: i64,
    pub trade_no: String,
    pub order_amount: i32,
    pub get_amount: i32,
    pub created_at: i64,
    pub updated_at: i64,
}

#[derive(Clone, Debug, Eq, PartialEq)]
pub struct AdminOrderReconciliation {
    pub id: i64,
    pub payment_id: i32,
    pub provider: String,
    pub trade_no: String,
    pub trade_no_hash: String,
    pub callback_no: String,
    pub callback_no_hash: String,
    pub reason: String,
    pub order_status: i16,
    pub expected_amount: i64,
    pub settled_amount: Option<i64>,
    pub occurrence_count: i32,
    pub first_seen_at: i64,
    pub last_seen_at: i64,
    pub resolved_at: Option<i64>,
    pub resolution: Option<String>,
}

#[derive(Clone, Debug, Eq, PartialEq)]
pub struct AdminOrderDetail {
    pub order: AdminOrder,
    pub commission_log: Vec<AdminCommissionLog>,
    pub payment_reconciliations: Vec<AdminOrderReconciliation>,
    pub surplus_orders: Option<Vec<AdminOrder>>,
}

#[derive(Clone, Debug, Eq, PartialEq)]
pub struct AdminOrderPage {
    pub items: Vec<AdminOrderListItem>,
    pub total: i64,
}

#[derive(Clone, Copy, Debug, Eq, PartialEq, Structural)]
pub enum OrderFieldKind {
    Integer,
    Text,
    Timestamp,
}

#[derive(Clone, Copy, Debug, Eq, PartialEq, Structural)]
pub enum OrderField {
    Id,
    InviteUserId,
    UserId,
    PlanId,
    CouponId,
    PaymentId,
    Type,
    Period,
    TradeNo,
    CallbackNo,
    TotalAmount,
    HandlingAmount,
    DiscountAmount,
    SurplusAmount,
    RefundAmount,
    BalanceAmount,
    Status,
    CommissionStatus,
    CommissionBalance,
    ActualCommissionBalance,
    PaidAt,
    CreatedAt,
    UpdatedAt,
}

/// The wire name of each order column.
pub open spec fn order_field_name(field: OrderField) -> Seq<char> {
    match field {
        OrderField::Id => "id"@,
        OrderField::InviteUserId => "invite_user_id"@,
        OrderField::UserId => "user_id"@,
        OrderField::PlanId => "plan_id"@,
        OrderField::CouponId => "coupon_id"@,
        OrderField::PaymentId => "payment_id"@,
        OrderField::Type => "type"@,
        OrderField::Period => "period"@,
        OrderField::TradeNo => "trade_no"@,
        OrderField::CallbackNo => "callback_no"@,
        OrderField::TotalAmount => "total_amount"@,
        OrderField::HandlingAmount => "handling_amount"@,
        OrderField::DiscountAmount => "discount_amount"@,
        OrderField::SurplusAmount => "surplus_amount"@,
        OrderField::RefundAmount => "refund_amount"@,
        OrderField::BalanceAmount => "balance_amount"@,
        OrderField::Status => "status"@,
        OrderField::CommissionStatus => "commission_status"@,
        OrderField::CommissionBalance => "commission_balance"@,
        OrderField::ActualCommissionBalance => "actual_commission_balance"@,
        OrderField::PaidAt => "paid_at"@,
        OrderField::CreatedAt => "created_at"@,
        OrderField::UpdatedAt => "updated_at"@,
    }
}

impl OrderField {
    /// The field whose wire name is `name`, if any.
    pub open spec fn spec_from_name(name: Seq<char>) -> Option<OrderField> {
        if name == "id"@ {
            Some(OrderField::Id)
        } else if name == "invite_user_id"@ {
            Some(OrderField::InviteUserId)
        } else if name == "user_id"@ {
            Some(OrderField::UserId)
        } else if name == "plan_id"@ {
            Some(OrderField::PlanId)
        } else if name == "coupon_id"@ {
            Some(OrderField::CouponId)
        } else if name == "payment_id"@ {
            Some(OrderField::PaymentId)
        } else if name == "type"@ {
            Some(OrderField::Type)
        } else if name == "period"@ {
            Some(OrderField::Period)
        } else if name == "trade_no"@ {
            Some(OrderField::TradeNo)
        } else if name == "callback_no"@ {
            Some(OrderField::CallbackNo)
        } else if name == "total_amount"@ {
            Some(OrderField::TotalAmount)
        } else if name == "handling_amount"@ {
            Some(OrderField::HandlingAmount)
        } else if name == "discount_amount"@ {
            Some(OrderField::DiscountAmount)
        } else if name == "surplus_amount"@ {
            Some(OrderField::SurplusAmount)
        } else if name == "refund_amount"@ {
            Some(OrderField::RefundAmount)
        } else if name == "balance_amount"@ {
            Some(OrderField::BalanceAmount)
        } else if name == "status"@ {
            Some(OrderField::Status)
        } else if name == "commission_status"@ {
            Some(OrderField::CommissionStatus)
        } else if name == "commission_balance"@ {
            Some(OrderField::CommissionBalance)
        } else if name == "actual_commission_balance"@ {
            Some(OrderField::ActualCommissionBalance)
        } else if name == "paid_at"@ {
            Some(OrderField::PaidAt)
        } else if name == "created_at"@ {
            Some(OrderField::CreatedAt)
        } else if name == "updated_at"@ {
            Some(OrderField::UpdatedAt)
        } else {
            None
        }
    }

    pub fn from_name(value: &str) -> (r: Option<Self>)
        ensures
            r == Self::spec_from_name(value@),
    {
        if str_eq(value, "id") {
            Some(Self::Id)
        } else if str_eq(value, "invite_user_id") {
            Some(Self::InviteUserId)
        } else if str_eq(value, "user_id") {
            Some(Self::UserId)
        } else if str_eq(value, "plan_id") {
            Some(Self::PlanId)
        } else if str_eq(value, "coupon_id") {
            Some(Self::CouponId)
        } else if str_eq(value, "payment_id") {
            Some(Self::PaymentId)
        } else if str_eq(value, "type") {
            Some(Self::Type)
        } else if str_eq(value, "period") {
            Some(Self::Period)
        } else if str_eq(value, "trade_no") {
            Some(Self::TradeNo)
        } else if str_eq(value, "callback_no") {
            Some(Self::CallbackNo)
        } else if str_eq(value, "total_amount") {
            Some(Self::TotalAmount)
        } else if str_eq(value, "handling_amount") {
            Some(Self::HandlingAmount)
        } else if str_eq(value, "discount_amount") {
            Some(Self::DiscountAmount)
        } else if str_eq(value, "surplus_amount") {
            Some(Self::SurplusAmount)
        } else if str_eq(value, "refund_amount") {
            Some(Self::RefundAmount)
        } else if str_eq(value, "balance_amount") {
            Some(Self::BalanceAmount)
        } else if str_eq(value, "status") {
            Some(Self::Status)
        } else if str_eq(value, "commission_status") {
            Some(Self::CommissionStatus)
        } else if str_eq(value, "commission_balance") {
            Some(Self::CommissionBalance)
        } else if str_eq(value, "actual_commission_balance") {
            Some(Self::ActualCommissionBalance)
        } else if str_eq(value, "paid_at") {
            Some(Self::PaidAt)
        } else if str_eq(value, "created_at") {
            Some(Self::CreatedAt)
        } else if str_eq(value, "updated_at") {
            Some(Self::UpdatedAt)
        } else {
            None
        }
    }

    pub open spec fn spec_kind(self) -> OrderFieldKind {
        match self {
            OrderField::Period | OrderField::TradeNo | OrderField::CallbackNo => {
                OrderFieldKind::Text
            },
            OrderField::PaidAt | OrderField::CreatedAt | OrderField::UpdatedAt => {
                OrderFieldKind::Timestamp
            },
            _ => OrderFieldKind::Integer,
        }
    }

    pub fn kind(self) -> (r: OrderFieldKind)
        ensures
            r == self.spec_kind(),
    {
        match self {
            Self::Period | Self::TradeNo | Self::CallbackNo => OrderFieldKind::Text,
            Self::PaidAt | Self::CreatedAt | Self::UpdatedAt => OrderFieldKind::Timestamp,
            _ => OrderFieldKind::Integer,
        }
    }
}

#[derive(Clone, Copy, Debug, Eq, PartialEq, Structural)]
pub enum Comparison {
    Equal,
    NotEqual,
    Greater,
    GreaterOrEqual,
    Less,
    LessOrEqual,
}

#[derive(Clone, Debug, Eq, PartialEq)]
pub enum OrderPredicate {
    IsNull { field: OrderField, negated: bool },
    CompareInteger { field: OrderField, comparison: Comparison, value: i64 },
    CompareText { field: OrderField, comparison: Comparison, value: String },
    ContainsInteger { field: OrderField, escaped_pattern: String },
    ContainsText { field: OrderField, escaped_pattern: String },
    InInteger { field: OrderField, values: Vec<i64> },
    InText { field: OrderField, values: Vec<String> },
}

#[derive(Clone, Copy, Debug, Eq, PartialEq, Structural)]
pub enum SortDirection {
    Ascending,
    Descending,
}

#[derive(Clone, Copy, Debug, Eq, PartialEq, Structural)]
pub struct OrderSort {
    pub field: OrderField,
    pub direction: SortDirection,
}

impl OrderSort {
    /// Newest orders first.
    pub fn default_sort() -> (r: Self)
        ensures
            r == (OrderSort { field: OrderField::CreatedAt, direction: SortDirection::Descending }),
    {
        Self { field: OrderField::CreatedAt, direction: SortDirection::Descending }
    }
}

impl Default for OrderSort {
    fn default() -> (r: Self)
        ensures
            r == (OrderSort { field: OrderField::CreatedAt, direction: SortDirection::Descending }),
    {
        Self::default_sort()
    }
}

#[derive(Clone, Debug, Eq, PartialEq)]
pub struct AdminOrderQuery {
    pub predicates: Vec<OrderPredicate>,
    pub sort: OrderSort,
    pub commission_only: bool,
    pub limit: i64,
    pub offset: i64,
}

#[derive(Clone, Copy, Debug, Eq, PartialEq, Structural)]
pub enum OrderPatch {
    Status(i16),
    CommissionStatus(i16),
}

#[derive(Clone, Debug, Eq, PartialEq)]
pub struct AssignOrderInput {
    pub email: String,
    pub plan_id: i64,
    pub period: String,
    pub total_amount: Option<i64>,
}

#[derive(Clone, Copy, Debug, Eq, PartialEq, Structural)]
pub struct AssignOrderPolicy {
    pub default_commission_rate: i32,
    pub commission_first_time_enable: bool,
}

#[derive(Clone, Debug, Eq, PartialEq)]
pub struct AssignOrderCommand {
    pub email: String,
    pub plan_id: i32,
    pub period: String,
    pub total_amount: i32,
    pub trade_no: String,
    pub now: i64,
    pub policy: AssignOrderPolicy,
}

#[derive(Clone, Debug, Eq, PartialEq)]
pub struct PendingOrderBinding {
    pub trade_no: String,
    pub payment_id: Option<i32>,
    pub callback_no: Option<String>,
}

#[derive(Clone, Copy, Debug, Eq, PartialEq, Structural)]
pub enum PatchOrderOutcome {
    Updated,
    NotFound,
}

#[derive(Clone, Copy, Debug, Eq, PartialEq, Structural)]
pub enum AssignOrderOutcome {
    Created,
    UserNotRegistered,
    PlanUnavailable,
    UnfinishedOrder,
    UpdateConflict,
    AmountOutOfRange,
}

#[derive(Clone, Debug, Eq, PartialEq)]
pub enum PendingOrderOutcome {
    Pending(PendingOrderBinding),
    NotFound,
    NotPending,
}

#[derive(Clone, Copy, Debug, Eq, PartialEq, Structural)]
pub enum CancelOrderOutcome {
    Cancelled,
    NotPending,
    UpdateFailed,
}

#[derive(Clone, Copy, Debug, Eq, PartialEq, Structural)]
pub enum AdminOrderInputViolation {
    EmptyPeriod,
    PlanIdOutOfRange,
    TotalAmountOutOfRange,
    InvalidStatus,
    InvalidCommissionStatus,
}

#[derive(Clone, Copy, Debug, Eq, PartialEq, Structural)]
pub enum AdminOrderLifecycleFailure {
    NotFound,
    NotPending,
    UpdateFailed,
    Other,
}

/// A failure reported by the order-lifecycle adapter, classified so the use
/// case can tell ordinary business outcomes from adapter faults.
#[derive(Debug, Clone, Eq, PartialEq)]
pub struct AdminOrderLifecycleError {
    failure: AdminOrderLifecycleFailure,
    operation: &'static str,
    message: String,
}

impl AdminOrderLifecycleError {
    pub closed spec fn spec_failure(&self) -> AdminOrderLifecycleFailure {
        self.failure
    }

    pub closed spec fn spec_operation(&self) -> &'static str {
        self.operation
    }

    pub closed spec fn spec_message(&self) -> String {
        self.message
    }

    pub fn new<M: std::fmt::Display>(operation: &'static str, message: M) -> (r: Self)
        ensures
            r.spec_failure() == AdminOrderLifecycleFailure::Other,
            r.spec_operation() == operation,
            vstd::string::to_string_from_display_ensures::<M>(&message, r.spec_message()),
    {
        Self { failure: AdminOrderLifecycleFailure::Other, operation, message: message.to_string() }
    }

    pub fn classified<M: std::fmt::Display>(
        failure: AdminOrderLifecycleFailure,
        operation: &'static str,
        message: M,
    ) -> (r: Self)
        ensures
            r.spec_failure() == failure,
            r.spec_operation() == operation,
            vstd::string::to_string_from_display_ensures::<M>(&message, r.spec_message()),
    {
        Self { failure, operation, message: message.to_string() }
    }

    pub fn failure(&self) -> (r: AdminOrderLifecycleFailure)
        ensures
            r == self.spec_failure(),
    {
        self.failure
    }

    pub fn operation(&self) -> (r: &'static str)
        ensures
            r == self.spec_operation(),
    {
        self.operation
    }

    /// The message the failure was recorded with.
    pub fn message(&self) -> (r: &str)
        ensures
            r@ == self.spec_message()@,
    {
        self.message.as_str()
    }

    /// The failure as text: `"order lifecycle adapter failed during {operation}: {message}"`.
    pub fn rendered(&self) -> (r: String)
        ensures
            r@ == "order lifecycle adapter failed during "@ + self.spec_operation()@ + ": "@ + self.spec_message()@,
    {
        let mut text = to_owned("order lifecycle adapter failed during ");
        append_str_to(&mut text, self.operation);
        append_str_to(&mut text, ": ");
        append_str_to(&mut text, self.message.as_str());
        text
    }
}

#[derive(Debug)]
pub enum AdminOrderError {
    InvalidInput(AdminOrderInputViolation),
    NotFound,
    NotPending,
    UserNotRegistered,
    PlanUnavailable,
    AssignConflict,
    UpdateConflict,
    UpdateFailed,
    Lifecycle(AdminOrderLifecycleError),
    Repository(RepositoryError),
}

/// Generates the externally visible trade number of a new order.
pub trait OrderNumberGenerator {
    /// Whether `trade_no` is a trade number this generator can issue.
    spec fn spec_issues(&self, trade_no: Seq<char>) -> bool;

    /// A fresh trade number; which one is left to the generator.
    fn generate(&self) -> (r: String)
        ensures
            self.spec_issues(r@),
    ;
}

pub struct AdminOrderService<R, L, G> {
    repository: R,
    lifecycle: L,
    generator: G,
    policy: AssignOrderPolicy,
}

impl<R, L, G: OrderNumberGenerator> AdminOrderService<R, L, G> {
    pub closed spec fn spec_policy(&self) -> AssignOrderPolicy {
        self.policy
    }

    pub closed spec fn spec_parts(&self) -> (R, L, G) {
        (self.repository, self.lifecycle, self.generator)
    }

    pub fn new(repository: R, lifecycle: L, generator: G, policy: AssignOrderPolicy) -> (s: Self)
        ensures
            s.spec_policy() == policy,
            s.spec_parts() == (repository, lifecycle, generator),
    {
        Self { repository, lifecycle, generator, policy }
    }

    pub fn repository(&self) -> (r: &R)
        ensures
            *r == self.spec_parts().0,
    {
        &self.repository
    }

    pub fn lifecycle(&self) -> (r: &L)
        ensures
            *r == self.spec_parts().1,
    {
        &self.lifecycle
    }

    pub fn policy(&self) -> (r: AssignOrderPolicy)
        ensures
            r == self.spec_policy(),
    {
        self.policy
    }

    /// Validates an assignment and mints its trade number: the command the
    /// repository receives, or the input violation found first.
    pub fn assign_command(&self, input: AssignOrderInput, now: i64) -> (r: Result<
        AssignOrderCommand,
        AdminOrderError,
    >)
        ensures
            match assign_input_violation(input) {
                Some(v) => r matches Err(AdminOrderError::InvalidInput(w)) && w == v,
                None => r matches Ok(c) && c.email == input.email && c.plan_id == input.plan_id
                    && c.period@ == trim(input.period@) && c.total_amount == (match input.total_amount {
                    Some(a) => a,
                    None => 0,
                }) && c.now == now && c.policy == self.spec_policy()
                    && self.spec_parts().2.spec_issues(c.trade_no@),
            },
    {
        let (plan_id, period, total_amount) = match validate_assign(&input) {
            Ok(parts) => parts,
            Err(violation) => return Err(AdminOrderError::InvalidInput(violation)),
        };
        let trade_no = self.generator.generate();
        Ok(
            AssignOrderCommand {
                email: input.email,
                plan_id,
                period,
                total_amount,
                trade_no,
                now,
                policy: self.policy,
            },
        )
    }
}

/// The first violation of an assignment input, in the order they are
/// checked: blank period, plan id beyond `i32`, amount outside `0..=i32::MAX`.
pub open spec fn assign_input_violation(input: AssignOrderInput) -> Option<AdminOrderInputViolation> {
    let amount: int = match input.total_amount {
        Some(a) => a as int,
        None => 0,
    };
    if trim(input.period@).len() == 0 {
        Some(AdminOrderInputViolation::EmptyPeriod)
    } else if !(i32::MIN <= input.plan_id <= i32::MAX) {
        Some(AdminOrderInputViolation::PlanIdOutOfRange)
    } else if !(0 <= amount <= i32::MAX) {
        Some(AdminOrderInputViolation::TotalAmountOutOfRange)
    } else {
        None
    }
}

/// Checks an assignment input and returns its narrowed plan id, trimmed
/// period and amount (absent means zero).
pub fn validate_assign(input: &AssignOrderInput) -> (r: Result<(i32, String, i32), AdminOrderInputViolation>)
    ensures
        match assign_input_violation(*input) {
            Some(v) => r == Err::<(i32, String, i32), AdminOrderInputViolation>(v),
            None => r matches Ok((p, period, a)) && p == input.plan_id && period@ == trim(
                input.period@,
            ) && a == (match input.total_amount {
                Some(a) => a,
                None => 0,
            }),
        },
{
    let period = trim_str(input.period.as_str());
    if chars_of(period.as_str()).len() == 0 {
        return Err(AdminOrderInputViolation::EmptyPeriod);
    }
    if input.plan_id < i32::MIN as i64 || input.plan_id > i32::MAX as i64 {
        return Err(AdminOrderInputViolation::PlanIdOutOfRange);
    }
    let amount: i64 = match input.total_amount {
        Some(a) => a,
        None => 0,
    };
    if amount < 0 || amount > i32::MAX as i64 {
        return Err(AdminOrderInputViolation::TotalAmountOutOfRange);
    }
    Ok((input.plan_id as i32, period, amount as i32))
}

/// Which order states an administrator may set directly.
pub open spec fn patch_allowed(patch: OrderPatch) -> Option<AdminOrderInputViolation> {
    match patch {
        OrderPatch::Status(s) => if 0 <= s <= 3 {
            None
        } else {
            Some(AdminOrderInputViolation::InvalidStatus)
        },
        OrderPatch::CommissionStatus(s) => if s == 0 || s == 1 || s == 3 {
            None
        } else {
            Some(AdminOrderInputViolation::InvalidCommissionStatus)
        },
    }
}

/// Rejects a status outside `0..=3` or a commission status outside
/// `{0, 1, 3}` before the repository is reached.
pub fn validate_patch(patch: OrderPatch) -> (r: Result<(), AdminOrderError>)
    ensures
        match patch_allowed(patch) {
            Some(v) => r matches Err(AdminOrderError::InvalidInput(w)) && w == v,
            None => r is Ok,
        },
{
    match patch {
        OrderPatch::Status(status) => {
            if !(0 <= status && status <= 3) {
                return Err(AdminOrderError::InvalidInput(AdminOrderInputViolation::InvalidStatus));
            }
        },
        OrderPatch::CommissionStatus(status) => {
            if !(status == 0 || status == 1 || status == 3) {
                return Err(
                    AdminOrderError::InvalidInput(AdminOrderInputViolation::InvalidCommissionStatus),
                );
            }
        },
    }
    Ok(())
}

/// The answer to a patch once the repository has applied it.
pub fn patch_result(outcome: PatchOrderOutcome) -> (r: Result<(), AdminOrderError>)
    ensures
        outcome is Updated <==> r is Ok,
        outcome is NotFound <==> r matches Err(AdminOrderError::NotFound),
{
    match outcome {
        PatchOrderOutcome::Updated => Ok(()),
        PatchOrderOutcome::NotFound => Err(AdminOrderError::NotFound),
    }
}

/// The pending binding a cancellation proceeds with, or why it stops.
pub fn cancel_binding(outcome: PendingOrderOutcome) -> (r: Result<PendingOrderBinding, AdminOrderError>)
    ensures
        match outcome {
            PendingOrderOutcome::Pending(b) => r == Ok::<PendingOrderBinding, AdminOrderError>(b),
            PendingOrderOutcome::NotFound => r matches Err(AdminOrderError::NotFound),
            PendingOrderOutcome::NotPending => r matches Err(AdminOrderError::NotPending),
        },
{
    match outcome {
        PendingOrderOutcome::Pending(binding) => Ok(binding),
        PendingOrderOutcome::NotFound => Err(AdminOrderError::NotFound),
        PendingOrderOutcome::NotPending => Err(AdminOrderError::NotPending),
    }
}

/// After the provider answered: a binding the provider would not cancel
/// stops the use case before the atomic refund.
pub fn provider_cancellation(cancelled: Result<bool, AdminOrderLifecycleError>) -> (r: Result<(), AdminOrderError>)
    ensures
        match cancelled {
            Ok(true) => r is Ok,
            Ok(false) => r matches Err(AdminOrderError::NotPending),
            Err(e) => r == classify(e),
        },
{
    match cancelled {
        Ok(true) => Ok(()),
        Ok(false) => Err(AdminOrderError::NotPending),
        Err(error) => Err(classify_lifecycle_error(error)),
    }
}

/// The answer to a cancellation once the repository has refunded.
pub fn cancel_result(outcome: CancelOrderOutcome) -> (r: Result<(), AdminOrderError>)
    ensures
        outcome is Cancelled <==> r is Ok,
        outcome is NotPending <==> r matches Err(AdminOrderError::NotPending),
        outcome is UpdateFailed <==> r matches Err(AdminOrderError::UpdateFailed),
{
    match outcome {
        CancelOrderOutcome::Cancelled => Ok(()),
        CancelOrderOutcome::NotPending => Err(AdminOrderError::NotPending),
        CancelOrderOutcome::UpdateFailed => Err(AdminOrderError::UpdateFailed),
    }
}

/// The answer to an assignment: the minted trade number when created.
pub fn assign_result(outcome: AssignOrderOutcome, trade_no: String) -> (r: Result<String, AdminOrderError>)
    ensures
        match outcome {
            AssignOrderOutcome::Created => r == Ok::<String, AdminOrderError>(trade_no),
            AssignOrderOutcome::UserNotRegistered => r matches Err(AdminOrderError::UserNotRegistered),
            AssignOrderOutcome::PlanUnavailable => r matches Err(AdminOrderError::PlanUnavailable),
            AssignOrderOutcome::UnfinishedOrder => r matches Err(AdminOrderError::AssignConflict),
            AssignOrderOutcome::UpdateConflict => r matches Err(AdminOrderError::UpdateConflict),
            AssignOrderOutcome::AmountOutOfRange => r matches Err(
                AdminOrderError::InvalidInput(AdminOrderInputViolation::TotalAmountOutOfRange),
            ),
        },
{
    match outcome {
        AssignOrderOutcome::Created => Ok(trade_no),
        AssignOrderOutcome::UserNotRegistered => Err(AdminOrderError::UserNotRegistered),
        AssignOrderOutcome::PlanUnavailable => Err(AdminOrderError::PlanUnavailable),
        AssignOrderOutcome::UnfinishedOrder => Err(AdminOrderError::AssignConflict),
        AssignOrderOutcome::UpdateConflict => Err(AdminOrderError::UpdateConflict),
        AssignOrderOutcome::AmountOutOfRange => Err(
            AdminOrderError::InvalidInput(AdminOrderInputViolation::TotalAmountOutOfRange),
        ),
    }
}

pub open spec fn classify(error: AdminOrderLifecycleError) -> Result<(), AdminOrderError> {
    match error.spec_failure() {
        AdminOrderLifecycleFailure::NotFound => Err(AdminOrderError::NotFound),
        AdminOrderLifecycleFailure::NotPending => Err(AdminOrderError::NotPending),
        AdminOrderLifecycleFailure::UpdateFailed => Err(AdminOrderError::UpdateFailed),
        AdminOrderLifecycleFailure::Other => Err(AdminOrderError::Lifecycle(error)),
    }
}

/// Classified lifecycle failures become the matching business outcome;
/// anything else surfaces as a lifecycle fault.
pub fn classify_lifecycle_error(error: AdminOrderLifecycleError) -> (r: AdminOrderError)
    ensures
        Err::<(), AdminOrderError>(r) == classify(error),
{
    match error.failure() {
        AdminOrderLifecycleFailure::NotFound => AdminOrderError::NotFound,
        AdminOrderLifecycleFailure::NotPending => AdminOrderError::NotPending,
        AdminOrderLifecycleFailure::UpdateFailed => AdminOrderError::UpdateFailed,
        AdminOrderLifecycleFailure::Other => AdminOrderError::Lifecycle(error),
    }
}

/// Escapes literal `%`, `_`, and `\` (without wrapping the pattern).
pub fn escape_like_pattern(value: &str) -> (r: String)
    ensures
        r@ == escape_wildcards(value@),
{
    let v = chars_of(value);
    let mut escaped = String::new();
    push_escaped(&mut escaped, &v);
    escaped
}

} // verus!
