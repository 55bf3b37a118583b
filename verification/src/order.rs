//! User orders and payment settlement: the decisions between the order
//! store and the payment gateway, which are asynchronous ports driven by
//! the application shell.
use vstd::prelude::*;

use crate::keyed_map::KeyedMap;
use crate::plan::{Plan, PlanPricePeriod};
use crate::text::{append_str_to, signed_decimal, signed_decimal_text, to_owned};

verus! {

#[derive(Clone, Copy, Debug, Eq, PartialEq, Structural)]
pub enum OrderFailure {
    UserNotRegistered,
    PendingOrderExists,
    PlanNotFound,
    PlanUnavailable,
    PlanPeriodUnavailable,
    PlanSoldOut,
    PlanChangeDisabled,
    RenewalNotAllowed,
    CouponInvalid,
    CouponUnavailable,
    CouponNotStarted,
    CouponExpired,
    CouponNotApplicable,
    CouponExhausted,
    InsufficientBalance,
    SubscriptionValueOutOfRange,
    HandlingFeeOutOfRange,
    PaymentAmountOutOfRange,
    PaymentMethodUnavailable,
    PaymentConfigInvalid,
    PaymentGatewayUnsupported,
    StripeBindingInvalid,
    OrderNotFound,
    OrderNotPending,
    OrderUpdateFailed,
}

/// A failure reported by an order port, with the operation it was doing
/// and, for a refusal the caller should see, the business failure.
#[derive(Clone, Debug, Eq, PartialEq)]
pub struct OrderPortError {
    operation: &'static str,
    message: String,
    failure: Option<OrderFailure>,
}

impl OrderPortError {
    pub closed spec fn spec_operation(&self) -> &'static str {
        self.operation
    }

    pub closed spec fn spec_message(&self) -> String {
        self.message
    }

    pub closed spec fn spec_failure(&self) -> Option<OrderFailure> {
        self.failure
    }

    /// An infrastructure failure: no business failure.
    pub fn infrastructure<E: std::fmt::Display>(operation: &'static str, error: E) -> (r: Self)
        ensures
            r.spec_operation() == operation,
            r.spec_failure() is None,
            vstd::string::to_string_from_display_ensures::<E>(&error, r.spec_message()),
    {
        Self { operation, message: error.to_string(), failure: None }
    }

    /// A business refusal with its detail.
    pub fn business(operation: &'static str, failure: OrderFailure, detail: &str) -> (r: Self)
        ensures
            r.spec_operation() == operation,
            r.spec_failure() == Some(failure),
            r.spec_message()@ == detail@,
    {
        Self { operation, message: to_owned(detail), failure: Some(failure) }
    }

    pub fn operation(&self) -> (r: &'static str)
        ensures
            r == self.spec_operation(),
    {
        self.operation
    }

    pub fn failure(&self) -> (r: Option<OrderFailure>)
        ensures
            r == self.spec_failure(),
    {
        self.failure
    }

    /// The message the failure was recorded with.
    pub fn message(&self) -> (r: &str)
        ensures
            r@ == self.spec_message()@,
    {
        self.message.as_str()
    }

    /// The failure as text: `"{operation} failed: {message}"`.
    pub fn rendered(&self) -> (r: String)
        ensures
            r@ == self.spec_operation()@ + " failed: "@ + self.spec_message()@,
    {
        let mut text = to_owned(self.operation);
        append_str_to(&mut text, " failed: ");
        append_str_to(&mut text, self.message.as_str());
        text
    }
}

#[derive(Debug)]
pub enum OrderError {
    Business(OrderFailure),
    Port(OrderPortError),
    PaymentNotificationFailed,
}

impl OrderError {
    pub open spec fn spec_failure(&self) -> Option<OrderFailure> {
        match self {
            OrderError::Business(f) => Some(*f),
            OrderError::Port(e) => e.spec_failure(),
            OrderError::PaymentNotificationFailed => None,
        }
    }

    /// The business failure behind an error, if any.
    pub fn failure(&self) -> (r: Option<OrderFailure>)
        ensures
            r == self.spec_failure(),
    {
        match self {
            OrderError::Business(failure) => Some(*failure),
            OrderError::Port(error) => error.failure(),
            OrderError::PaymentNotificationFailed => None,
        }
    }
}
#[derive(Clone, Debug, Eq, PartialEq)]
pub enum SaveOrderInput {
    Plan {
        plan_id: i32,
        period: PlanPricePeriod,
        coupon_code: Option<String>,
    },
    Deposit {
        deposit_amount: i32,
    },
}

#[derive(Clone, Copy, Debug, Eq, PartialEq, Structural)]
pub struct CreateOrderPolicy {
    pub plan_change_enabled: bool,
    pub surplus_enabled: bool,
    pub commission_first_time_enabled: bool,
    pub default_commission_rate: i32,
}

#[derive(Clone, Copy, Debug, Eq, PartialEq, Structural)]
pub struct FulfillmentPolicy {
    pub deposit_bonus: i32,
    pub new_order_event_id: i32,
    pub renewal_order_event_id: i32,
    pub change_order_event_id: i32,
}

#[derive(Clone, Debug, Eq, PartialEq)]
pub struct CreateOrderCommand {
    pub user_id: i64,
    pub input: SaveOrderInput,
    pub trade_no: String,
    pub now: i64,
    pub policy: CreateOrderPolicy,
}

#[derive(Clone, Debug, Eq, PartialEq)]
pub struct PaymentMethod {
    pub id: i32,
    pub provider: String,
    pub enabled: bool,
    pub uuid: String,
    /// The sealed provider configuration; only the payment adapter opens it.
    pub sealed_config: String,
    pub notify_domain: Option<String>,
    pub handling_fee_fixed: Option<i32>,
    pub handling_fee_percent: Option<String>,
}

/// The public view of a payment method: no credentials or callback
/// material.
#[derive(Clone, Debug, Eq, PartialEq)]
pub struct AvailablePaymentMethod {
    pub id: i32,
    pub name: String,
    pub provider: String,
    pub icon: Option<String>,
    pub handling_fee_fixed: Option<i32>,
    pub handling_fee_percent: Option<String>,
}

#[derive(Clone, Debug, Eq, PartialEq)]
pub enum UserPlanLookup {
    UserNotRegistered,
    PlanNotFound,
    Found {
        plan: Plan,
        current_plan_id: Option<i32>,
    },
}

#[derive(Clone, Debug, Eq, PartialEq)]
pub struct PendingOrderCandidate {
    pub id: i64,
    pub trade_no: String,
}

#[derive(Clone, Debug, Eq, PartialEq)]
pub struct PaymentBinding {
    pub payment_id: Option<i32>,
    pub callback_no: Option<String>,
}

#[derive(Clone, Debug, Eq, PartialEq)]
pub struct GatewayOrder {
    pub trade_no: String,
    pub total_amount: i32,
    pub user_id: i64,
    pub user_email: Option<String>,
}

#[derive(Clone, Debug, Eq, PartialEq)]
pub enum CheckoutPreparation {
    Settled,
    Gateway {
        order_id: i64,
        payment: Box<PaymentMethod>,
        order: GatewayOrder,
        previous_binding: PaymentBinding,
        handling_amount: Option<i32>,
    },
}

#[derive(Clone, Copy, Debug, Eq, PartialEq, Structural)]
pub enum CheckoutBindingOutcome {
    Bound,
    PaymentChanged,
    OrderChanged,
}

#[derive(Clone, Debug, Eq, PartialEq)]
pub struct BindCheckoutCommand {
    pub order_id: i64,
    pub payment: PaymentMethod,
    pub previous_binding: PaymentBinding,
    pub handling_amount: Option<i32>,
    pub now: i64,
}

#[derive(Clone, Debug, Eq, PartialEq)]
pub struct StripePreparation {
    pub order_id: i64,
    pub payment: PaymentMethod,
    pub order: GatewayOrder,
    pub previous_binding: PaymentBinding,
    pub reusable_intent: Option<String>,
    pub handling_amount: Option<i32>,
}

#[derive(Clone, Debug, Eq, PartialEq)]
pub struct BindStripeCommand {
    pub order_id: i64,
    pub payment: PaymentMethod,
    pub previous_binding: PaymentBinding,
    pub intent_id: String,
    pub handling_amount: Option<i32>,
    pub now: i64,
}

#[derive(Clone, Debug, Eq, PartialEq)]
pub enum CheckoutOutcome {
    QrCode(String),
    Redirect(String),
    Settled,
}

#[derive(Clone, Debug, Eq, PartialEq)]
pub struct StripePaymentIntent {
    pub public_key: String,
    pub client_secret: String,
    pub amount: i64,
    pub currency: String,
}

#[derive(Clone, Debug, Eq, PartialEq)]
pub struct PreparedStripeIntent {
    pub intent_id: String,
    pub response: StripePaymentIntent,
}

#[derive(Clone, Debug, Eq, PartialEq)]
pub struct CancelCandidate {
    pub status: i16,
    pub balance_amount: Option<i32>,
    pub binding: PaymentBinding,
}

#[derive(Clone, Debug, Eq, PartialEq)]
pub struct CancelOrderCommand {
    pub user_id: i64,
    pub trade_no: String,
    pub candidate: CancelCandidate,
    pub now: i64,
}

#[derive(Clone, Copy, Debug, Eq, PartialEq, Structural)]
pub enum CancelOrderOutcome {
    Cancelled,
    Changed,
}

#[derive(Clone, Debug, PartialEq)]
pub struct PaymentNotifyInput {
    pub params: KeyedMap<String>,
    pub body: Vec<u8>,
    pub headers: KeyedMap<String>,
}

#[derive(Clone, Debug, Eq, PartialEq)]
pub struct VerifiedPaymentNotification {
    pub trade_no: String,
    pub callback_no: String,
    pub custom_response: Option<String>,
    pub authenticated_user_id: Option<i64>,
    pub settled_amount_cents: Option<i64>,
}

#[derive(Clone, Debug, Eq, PartialEq)]
pub enum PaymentVerification {
    Verified(VerifiedPaymentNotification),
    Ignored(String),
}

#[derive(Clone, Debug, Eq, PartialEq)]
pub struct SettlePaymentCommand {
    pub payment: PaymentMethod,
    pub notification: VerifiedPaymentNotification,
    pub now: i64,
}

#[derive(Clone, Debug, Eq, PartialEq)]
pub struct PaidOrderNotice {
    pub trade_no: String,
    pub total_amount: i64,
}

#[derive(Clone, Debug, Eq, PartialEq)]
pub struct LatePaymentNotice {
    pub trade_no: String,
    pub trade_no_hash: String,
    pub callback_no: String,
    pub callback_no_hash: String,
    pub reason: String,
    pub order_status: i16,
    pub expected_amount: i64,
    pub settled_amount: Option<i64>,
}

#[derive(Clone, Debug, Default, Eq, PartialEq)]
pub struct PaymentSettlementNotices {
    pub paid: Option<PaidOrderNotice>,
    pub late: Option<LatePaymentNotice>,
}

#[derive(Clone, Debug, Eq, PartialEq)]
pub struct PaymentNotifyResponse {
    pub body: String,
    pub paid_notice: Option<PaidOrderNotice>,
    pub late_payment_notice: Option<LatePaymentNotice>,
}

#[derive(Clone, Debug, Eq, PartialEq)]
pub struct ManualPaymentCandidate {
    pub status: i16,
    pub binding: PaymentBinding,
}

#[derive(Clone, Copy, Debug, Eq, PartialEq, Structural)]
pub enum ManualPaymentOutcome {
    Settled,
    NotFound,
    Changed,
}

#[derive(Clone, Debug, Eq, PartialEq)]
pub struct PendingOrderSnapshot {
    pub status: i16,
    pub created_at: i64,
    pub total_amount: i32,
    pub binding: PaymentBinding,
}

#[derive(Clone, Debug, Eq, PartialEq)]
pub enum UserOrderPlan {
    Full(Box<Plan>),
    Deposit { id: i32, name: String },
}

#[derive(Debug)]
pub struct UserOrder {
    pub trade_no: String,
    pub callback_no: Option<String>,
    pub plan_id: i32,
    pub coupon_id: Option<i32>,
    pub payment_id: Option<i32>,
    pub kind: i32,
    pub period: String,
    pub total_amount: i32,
    pub handling_amount: Option<i32>,
    pub discount_amount: Option<i32>,
    pub surplus_amount: Option<i32>,
    pub refund_amount: Option<i32>,
    pub balance_amount: Option<i32>,
    pub surplus_order_ids: Option<Vec<i64>>,
    pub status: i16,
    pub commission_status: i16,
    pub commission_balance: i32,
    pub actual_commission_balance: Option<i32>,
    pub invite_user_id: Option<i64>,
    pub paid_at: Option<i64>,
    pub created_at: i64,
    pub updated_at: i64,
    pub plan: Option<UserOrderPlan>,
    pub try_out_plan_id: Option<i32>,
    pub surplus_orders: Option<Vec<UserOrder>>,
    pub bonus: Option<i32>,
    pub get_amount: Option<i32>,
}


/// The time source of the order use cases.
pub trait OrderClock {
    fn now(&self) -> i64;
}

/// Mints order numbers.
pub trait OrderNumberGenerator {
    /// Whether `trade_no` is a trade number this generator can issue.
    spec fn spec_issues(&self, trade_no: Seq<char>) -> bool;

    /// A fresh trade number; which one is left to the generator.
    fn generate(&self) -> (r: String)
        ensures
            self.spec_issues(r@),
    ;
}

/// The operator settings orders are created and fulfilled under.
pub trait OrderPolicy {
    fn create_policy(&self) -> CreateOrderPolicy;

    fn fulfillment_policy(&self, total_amount: i32) -> FulfillmentPolicy;

    fn try_out_plan_id(&self) -> i32;
}

/// Decides whether a payment method changed in a way that matters.
pub trait PaymentSnapshotVerifier {
    fn equivalent(&self, expected: &PaymentMethod, current: &PaymentMethod) -> Result<
        bool,
        OrderPortError,
    >;
}

pub struct OrderService<R, G, C, N, P> {
    repository: R,
    gateway: G,
    clock: C,
    numbers: N,
    policy: P,
}

impl<R, G, C, N, P> OrderService<R, G, C, N, P> {
    pub closed spec fn spec_parts(&self) -> (R, G, C, N, P) {
        (self.repository, self.gateway, self.clock, self.numbers, self.policy)
    }

    pub fn new(repository: R, gateway: G, clock: C, numbers: N, policy: P) -> (s: Self)
        ensures
            s.spec_parts() == (repository, gateway, clock, numbers, policy),
    {
        Self { repository, gateway, clock, numbers, policy }
    }

    pub fn repository(&self) -> (r: &R)
        ensures
            *r == self.spec_parts().0,
    {
        &self.repository
    }

    pub fn gateway(&self) -> (r: &G)
        ensures
            *r == self.spec_parts().1,
    {
        &self.gateway
    }

    pub fn clock(&self) -> (r: &C)
        ensures
            *r == self.spec_parts().2,
    {
        &self.clock
    }

    pub fn numbers(&self) -> (r: &N)
        ensures
            *r == self.spec_parts().3,
    {
        &self.numbers
    }

    pub fn policy(&self) -> (r: &P)
        ensures
            *r == self.spec_parts().4,
    {
        &self.policy
    }
}

/// The capacity a visible plan still has: its limit less what is sold,
/// which must fit an `i32`.
pub fn remaining_capacity(plan_id: i32, capacity: i32, count: i64) -> (r: Result<
    i32,
    OrderPortError,
>)
    ensures
        i32::MIN <= capacity - count <= i32::MAX ==> r == Ok::<i32, OrderPortError>(
            (capacity - count) as i32,
        ),
        !(i32::MIN <= capacity - count <= i32::MAX) ==> (r matches Err(e) && e.spec_operation()
            == "calculate visible plan capacity" && e.spec_failure() is None && e.spec_message()@
            == "plan "@ + signed_decimal(plan_id as int) + " capacity "@ + signed_decimal(
            capacity as int,
        ) + " and usage "@ + signed_decimal(count as int) + " are outside range"@),
{
    let remaining: i128 = capacity as i128 - count as i128;
    if i32::MIN as i128 <= remaining && remaining <= i32::MAX as i128 {
        Ok(remaining as i32)
    } else {
        let mut message = to_owned("plan ");
        append_str_to(&mut message, signed_decimal_text(plan_id as i64).as_str());
        append_str_to(&mut message, " capacity ");
        append_str_to(&mut message, signed_decimal_text(capacity as i64).as_str());
        append_str_to(&mut message, " and usage ");
        append_str_to(&mut message, signed_decimal_text(count).as_str());
        append_str_to(&mut message, " are outside range");
        Err(OrderPortError { operation: "calculate visible plan capacity", message, failure: None })
    }
}

/// Whether a plan may be shown to a user: visible plans always, hidden
/// ones only to their current subscribers when renewal is allowed.
pub open spec fn plan_offered(plan: Plan, current_plan_id: Option<i32>) -> bool {
    plan.show || (plan.renew && current_plan_id == Some(plan.id))
}

/// Who is offered a plan: a visible plan is offered to every user, whatever
/// plan they hold; a hidden plan is offered to a user only when it is
/// renewable and is the user's current plan, so that two users with
/// different current plans are never both offered the same hidden plan.
pub proof fn law_hidden_plans_reach_only_their_subscribers(
    plan: Plan,
    current: Option<i32>,
    other: Option<i32>,
)
    ensures
        plan.show ==> plan_offered(plan, current),
        !plan.show && plan_offered(plan, current) ==> plan.renew && current == Some(plan.id),
        !plan.show && plan_offered(plan, current) && other != current ==> !plan_offered(
            plan,
            other,
        ),
        plan.renew ==> plan_offered(plan, Some(plan.id)),
{
}

/// `catalog_plan`: what a plan lookup answers a user.
pub fn catalog_plan_result(lookup: UserPlanLookup) -> (r: Result<Plan, OrderError>)
    ensures
        match lookup {
            UserPlanLookup::UserNotRegistered => r matches Err(
                OrderError::Business(OrderFailure::UserNotRegistered),
            ),
            UserPlanLookup::PlanNotFound => r matches Err(
                OrderError::Business(OrderFailure::PlanNotFound),
            ),
            UserPlanLookup::Found { plan, current_plan_id } => if plan_offered(
                plan,
                current_plan_id,
            ) {
                r == Ok::<Plan, OrderError>(plan)
            } else {
                r matches Err(OrderError::Business(OrderFailure::PlanNotFound))
            },
        },
{
    match lookup {
        UserPlanLookup::UserNotRegistered => Err(
            OrderError::Business(OrderFailure::UserNotRegistered),
        ),
        UserPlanLookup::PlanNotFound => Err(OrderError::Business(OrderFailure::PlanNotFound)),
        UserPlanLookup::Found { plan, current_plan_id } => {
            let current = match current_plan_id {
                Some(id) => id == plan.id,
                None => false,
            };
            if !plan.show && (!plan.renew || !current) {
                Err(OrderError::Business(OrderFailure::PlanNotFound))
            } else {
                Ok(plan)
            }
        },
    }
}

/// What a refused checkout binding reports; a bound checkout goes on to
/// the gateway.
pub fn checkout_binding_result(outcome: CheckoutBindingOutcome) -> (r: Result<(), OrderError>)
    ensures
        outcome == CheckoutBindingOutcome::Bound ==> r is Ok,
        outcome == CheckoutBindingOutcome::PaymentChanged ==> r matches Err(
            OrderError::Business(OrderFailure::PaymentConfigInvalid),
        ),
        outcome == CheckoutBindingOutcome::OrderChanged ==> r matches Err(
            OrderError::Business(OrderFailure::OrderNotFound),
        ),
{
    match outcome {
        CheckoutBindingOutcome::Bound => Ok(()),
        CheckoutBindingOutcome::PaymentChanged => Err(
            OrderError::Business(OrderFailure::PaymentConfigInvalid),
        ),
        CheckoutBindingOutcome::OrderChanged => Err(
            OrderError::Business(OrderFailure::OrderNotFound),
        ),
    }
}

/// A Stripe intent is prepared afresh only after the binding to another
/// payment method is cancelled.
pub fn stripe_needs_cancel(previous: &PaymentBinding, payment_id: i32) -> (r: bool)
    ensures
        r == (previous.payment_id != Some(payment_id)),
{
    match previous.payment_id {
        Some(id) => id != payment_id,
        None => true,
    }
}

/// What a Stripe binding that did not take reports, once the fresh intent
/// was (or could not be) cancelled.
pub fn stripe_binding_failure(outcome: CheckoutBindingOutcome, cancelled: bool) -> (r: OrderFailure)
    ensures
        !cancelled ==> r == OrderFailure::StripeBindingInvalid,
        cancelled && outcome == CheckoutBindingOutcome::OrderChanged ==> r
            == OrderFailure::OrderNotFound,
        cancelled && outcome != CheckoutBindingOutcome::OrderChanged ==> r
            == OrderFailure::StripeBindingInvalid,
{
    if !cancelled {
        return OrderFailure::StripeBindingInvalid;
    }
    match outcome {
        CheckoutBindingOutcome::OrderChanged => OrderFailure::OrderNotFound,
        _ => OrderFailure::StripeBindingInvalid,
    }
}

/// Only a pending order (status 0) may be cancelled or paid by hand.
pub fn require_pending(status: i16) -> (r: Result<(), OrderError>)
    ensures
        status == 0 <==> r is Ok,
        status != 0 ==> r matches Err(OrderError::Business(OrderFailure::OrderNotPending)),
{
    if status != 0 {
        Err(OrderError::Business(OrderFailure::OrderNotPending))
    } else {
        Ok(())
    }
}

/// A provider-side payment that could not be cancelled leaves the order
/// not pending.
pub fn require_binding_cancelled(cancelled: bool) -> (r: Result<(), OrderError>)
    ensures
        cancelled <==> r is Ok,
        !cancelled ==> r matches Err(OrderError::Business(OrderFailure::OrderNotPending)),
{
    if cancelled {
        Ok(())
    } else {
        Err(OrderError::Business(OrderFailure::OrderNotPending))
    }
}

/// The answer to a user cancellation from the store.
pub fn cancel_result(outcome: CancelOrderOutcome) -> (r: Result<(), OrderError>)
    ensures
        outcome == CancelOrderOutcome::Cancelled ==> r is Ok,
        outcome == CancelOrderOutcome::Changed ==> r matches Err(
            OrderError::Business(OrderFailure::OrderNotPending),
        ),
{
    match outcome {
        CancelOrderOutcome::Cancelled => Ok(()),
        CancelOrderOutcome::Changed => Err(OrderError::Business(OrderFailure::OrderNotPending)),
    }
}

/// The answer to a manual payment from the store.
pub fn manual_payment_result(outcome: ManualPaymentOutcome) -> (r: Result<(), OrderError>)
    ensures
        outcome == ManualPaymentOutcome::Settled ==> r is Ok,
        outcome == ManualPaymentOutcome::NotFound ==> r matches Err(
            OrderError::Business(OrderFailure::OrderNotFound),
        ),
        outcome == ManualPaymentOutcome::Changed ==> r matches Err(
            OrderError::Business(OrderFailure::OrderNotPending),
        ),
{
    match outcome {
        ManualPaymentOutcome::Settled => Ok(()),
        ManualPaymentOutcome::NotFound => Err(OrderError::Business(OrderFailure::OrderNotFound)),
        ManualPaymentOutcome::Changed => Err(OrderError::Business(OrderFailure::OrderNotPending)),
    }
}

/// The body a verified payment notification is answered with: the
/// provider's own response, else `success`.
pub fn notify_response_body(custom_response: &Option<String>) -> (r: String)
    ensures
        match custom_response {
            Some(c) => r@ == c@,
            None => r@ == "success"@,
        },
{
    match custom_response {
        Some(c) => c.clone(),
        None => to_owned("success"),
    }
}

/// A pending order expires two hours after it was created.
pub fn should_expire(status: i16, created_at: i64, now: i64) -> (r: bool)
    ensures
        r == (status == 0 && created_at <= (if now - 7200 < i64::MIN {
            i64::MIN as int
        } else {
            now - 7200
        })),
{
    let limit = if now < i64::MIN + 7_200 {
        i64::MIN
    } else {
        now - 7_200
    };
    status == 0 && created_at <= limit
}

/// A user's order as shown: a plan order needs its plan, and a deposit
/// shows its bonus and what it credits.
pub fn order_view(order: UserOrder, deposit_bonus: i32) -> (r: Result<UserOrder, OrderError>)
    ensures
        order.plan_id != 0 && order.plan is None ==> r matches Err(
            OrderError::Business(OrderFailure::PlanUnavailable),
        ),
        order.plan_id != 0 && order.plan is Some ==> r == Ok::<UserOrder, OrderError>(order),
        order.plan_id == 0 && order.total_amount + deposit_bonus > i32::MAX ==> r matches Err(
            OrderError::Business(OrderFailure::PaymentAmountOutOfRange),
        ),
        order.plan_id == 0 && order.total_amount + deposit_bonus < i32::MIN ==> r matches Err(
            OrderError::Business(OrderFailure::PaymentAmountOutOfRange),
        ),
        order.plan_id == 0 && i32::MIN <= order.total_amount + deposit_bonus <= i32::MAX ==> r
            == Ok::<UserOrder, OrderError>(
            UserOrder {
                bonus: Some(deposit_bonus),
                get_amount: Some((order.total_amount + deposit_bonus) as i32),
                ..order
            },
        ),
{
    let mut order = order;
    if order.plan_id != 0 && order.plan.is_none() {
        return Err(OrderError::Business(OrderFailure::PlanUnavailable));
    }
    if order.plan_id == 0 {
        order.bonus = Some(deposit_bonus);
        order.get_amount = order.total_amount.checked_add(deposit_bonus);
        if order.get_amount.is_none() {
            return Err(OrderError::Business(OrderFailure::PaymentAmountOutOfRange));
        }
    }
    Ok(order)
}

} // verus!
