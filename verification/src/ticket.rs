//! Support tickets: write admission, the creation and withdrawal policies,
//! the answers of the ticket store, and the auto-close batching.
use vstd::prelude::*;

use crate::RepositoryError;
use crate::text::str_eq;

verus! {

pub const TICKET_CREATE_LIMIT: i64 = 10;

pub const TICKET_CREATE_WINDOW_SECONDS: i64 = 3_600;

pub const TICKET_REPLY_LIMIT: i64 = 20;

pub const TICKET_REPLY_WINDOW_SECONDS: i64 = 300;

pub const AUTO_CLOSE_AFTER_SECONDS: i64 = 86_400;

pub const AUTO_CLOSE_BATCH_SIZE: i64 = 1_000;

pub const AUTO_CLOSE_MAX_BATCHES: usize = 20;

pub const WITHDRAWAL_TICKET_SUBJECT: &'static str =
    "[Commission Withdrawal Request] This ticket is opened by the system";

/// A ticket's urgency.
#[derive(Clone, Copy, Debug, Eq, PartialEq, Structural)]
pub enum TicketLevel {
    Low,
    Medium,
    High,
}

/// Whether a ticket is open.
#[derive(Clone, Copy, Debug, Eq, PartialEq, Structural)]
pub enum TicketStatus {
    Open,
    Closed,
}

/// Who spoke last on a ticket.
#[derive(Clone, Copy, Debug, Eq, PartialEq, Structural)]
pub enum TicketReplyStatus {
    AwaitingReply,
    Replied,
}

/// Whether the user's plan lets them open tickets.
#[derive(Clone, Copy, Debug, Eq, PartialEq, Structural)]
pub enum TicketCreationPolicy {
    Open,
    PaidOrderRequired,
    PlanRejected,
    InvalidState,
}

/// Why ticket input was refused.
#[derive(Clone, Copy, Debug, Eq, PartialEq, Structural)]
pub enum TicketInputViolation {
    EmptySubject,
    SubjectTooLong,
    InvalidLevel,
    EmptyMessage,
    MessageTooLong,
    EmptyWithdrawMethod,
    WithdrawMethodTooLong,
    EmptyWithdrawAccount,
    WithdrawMessageTooLong,
}

#[derive(Clone, Debug, Eq, PartialEq)]
pub struct Ticket {
    pub id: i64,
    pub user_id: i64,
    pub subject: String,
    pub level: TicketLevel,
    pub status: TicketStatus,
    pub reply_status: TicketReplyStatus,
    pub last_reply_user_id: Option<i64>,
    pub created_at: i64,
    pub updated_at: i64,
}

#[derive(Clone, Debug, Eq, PartialEq)]
pub struct TicketMessage {
    pub id: i64,
    pub user_id: i64,
    pub ticket_id: i64,
    pub message: String,
    pub is_me: bool,
    pub created_at: i64,
    pub updated_at: i64,
}

#[derive(Clone, Debug, Eq, PartialEq)]
pub struct TicketDetail {
    pub ticket: Ticket,
    pub messages: Vec<TicketMessage>,
}

#[derive(Clone, Debug, Eq, PartialEq)]
pub struct TicketPage {
    pub items: Vec<Ticket>,
    pub total: i64,
}

#[derive(Clone, Copy, Debug, Eq, PartialEq, Structural)]
pub enum OperatorTicketOrder {
    UpdatedAt,
    CreatedAt,
}

#[derive(Clone, Debug, Eq, PartialEq)]
pub struct OperatorTicketListQuery {
    pub limit: i64,
    pub offset: i64,
    pub status: Option<i64>,
    pub reply_statuses: Vec<i64>,
    pub email: Option<String>,
    pub order: OperatorTicketOrder,
}

#[derive(Clone, Debug, Eq, PartialEq)]
pub struct NewTicket {
    pub user_id: i64,
    pub subject: String,
    pub level: TicketLevel,
    pub message: String,
    pub created_at: i64,
    pub require_paid_order: bool,
}

#[derive(Clone, Copy, Debug, Eq, PartialEq, Structural)]
pub enum TicketCreateOutcome {
    Created(i64),
    OpenTicketExists,
    PaidOrderRequired,
    UserNotFound,
}

#[derive(Clone, Debug, Eq, PartialEq)]
pub struct UserTicketReply {
    pub ticket_id: i64,
    pub user_id: i64,
    pub message: String,
    pub replied_at: i64,
}

#[derive(Clone, Copy, Debug, Eq, PartialEq, Structural)]
pub enum UserTicketReplyOutcome {
    Replied,
    NotFound,
    Closed,
    AwaitingOperator,
}

#[derive(Clone, Debug, Eq, PartialEq)]
pub struct OperatorReplyTarget {
    pub ticket_id: i64,
    pub user_id: i64,
    pub subject: String,
    pub recipient_email: String,
}

#[derive(Clone, Debug, Eq, PartialEq)]
pub struct DurableMailDelivery {
    pub batch_key: String,
    pub payload_hash: String,
    pub actor: String,
    pub recipient: String,
    pub message_id: String,
    pub sender: String,
    pub template_name: String,
    pub subject: String,
    pub body: String,
}

#[derive(Clone, Debug, Eq, PartialEq)]
pub struct NotificationReservation {
    pub key: String,
    pub token: String,
}

#[derive(Clone, Debug, Eq, PartialEq)]
pub struct PreparedTicketNotification {
    pub delivery: DurableMailDelivery,
    pub reservation: NotificationReservation,
}

#[derive(Clone, Debug, Eq, PartialEq)]
pub struct OperatorTicketReply {
    pub ticket_id: i64,
    pub expected_user_id: i64,
    pub operator_id: i64,
    pub message: String,
    pub replied_at: i64,
}

#[derive(Clone, Copy, Debug, Eq, PartialEq, Structural)]
pub enum OperatorTicketReplyOutcome {
    Replied,
    NotFound,
    OtherOpenTicketExists,
}

#[derive(Clone, Copy, Debug, Eq, PartialEq, Structural)]
pub enum TicketWriteKind {
    Create,
    Reply,
}

#[derive(Clone, Copy, Debug, Eq, PartialEq, Structural)]
pub struct TicketAdmissionRequest {
    pub user_id: i64,
    pub kind: TicketWriteKind,
    pub limit: i64,
    pub window_seconds: i64,
}

#[derive(Clone, Debug, Eq, PartialEq)]
pub struct TicketPolicy {
    pub creation: TicketCreationPolicy,
    pub withdrawal_closed: bool,
    pub withdrawal_methods: Vec<String>,
    pub withdrawal_minimum_mantissa: i128,
    pub withdrawal_minimum_scale: u32,
    pub withdrawal_minimum_display: String,
}

#[derive(Clone, Debug, Eq, PartialEq)]
pub struct CreateTicketInput {
    pub subject: String,
    pub level: i16,
    pub message: String,
}

#[derive(Clone, Debug, Eq, PartialEq)]
pub struct CreateWithdrawalTicketInput {
    pub method: String,
    pub account: String,
}

#[derive(Clone, Copy, Debug, Eq, PartialEq)]
pub enum OperatorIdentity<'a> {
    Email(&'a str),
    UserId(i64),
}

#[derive(Debug)]
pub enum TicketError {
    Validation { field: &'static str, detail: &'static str },
    NotFound,
    UserNotRegistered,
    UnresolvedTicketExists,
    RequiresPlan { detail: &'static str },
    InvalidState { detail: &'static str },
    WithdrawMethodUnsupported { detail: Option<&'static str> },
    WithdrawBelowMinimum { minimum: String },
    RateLimited,
    Invariant(&'static str),
    Repository(RepositoryError),
}

pub struct TicketService<R, A, N> {
    repository: R,
    admission: A,
    notifications: N,
    policy: TicketPolicy,
}

impl<R, A, N> TicketService<R, A, N> {
    pub closed spec fn spec_parts(&self) -> (R, A, N, TicketPolicy) {
        (self.repository, self.admission, self.notifications, self.policy)
    }

    pub fn new(repository: R, admission: A, notifications: N, policy: TicketPolicy) -> (s: Self)
        ensures
            s.spec_parts() == (repository, admission, notifications, policy),
    {
        Self { repository, admission, notifications, policy }
    }

    pub fn repository(&self) -> (r: &R)
        ensures
            *r == self.spec_parts().0,
    {
        &self.repository
    }

    pub fn admission(&self) -> (r: &A)
        ensures
            *r == self.spec_parts().1,
    {
        &self.admission
    }

    pub fn notifications(&self) -> (r: &N)
        ensures
            *r == self.spec_parts().2,
    {
        &self.notifications
    }

    pub fn policy(&self) -> (r: &TicketPolicy)
        ensures
            *r == self.spec_parts().3,
    {
        &self.policy
    }
}

pub struct TicketMaintenance<R> {
    repository: R,
}

impl<R> TicketMaintenance<R> {
    pub closed spec fn spec_repository(&self) -> R {
        self.repository
    }

    pub fn new(repository: R) -> (s: Self)
        ensures
            s.spec_repository() == repository,
    {
        Self { repository }
    }

    pub fn repository(&self) -> (r: &R)
        ensures
            *r == self.spec_repository(),
    {
        &self.repository
    }
}

/// The field and text a refused ticket input is reported with.
pub open spec fn input_error_text(violation: TicketInputViolation) -> (&'static str, &'static str) {
    match violation {
        TicketInputViolation::EmptySubject => ("subject", "Ticket subject cannot be empty"),
        TicketInputViolation::SubjectTooLong => ("subject", "Ticket subject is too long"),
        TicketInputViolation::InvalidLevel => ("level", "Incorrect ticket level format"),
        TicketInputViolation::EmptyMessage => ("message", "Message cannot be empty"),
        TicketInputViolation::MessageTooLong => ("message", "Message is too long"),
        TicketInputViolation::EmptyWithdrawMethod => (
            "withdraw_method",
            "The withdrawal method cannot be empty",
        ),
        TicketInputViolation::WithdrawMethodTooLong => (
            "withdraw_method",
            "The withdrawal method is too long",
        ),
        TicketInputViolation::EmptyWithdrawAccount => (
            "withdraw_account",
            "The withdrawal account cannot be empty",
        ),
        TicketInputViolation::WithdrawMessageTooLong => ("withdraw_account", "Message is too long"),
    }
}

pub fn ticket_input_error(violation: TicketInputViolation) -> (r: TicketError)
    ensures
        r == (TicketError::Validation {
            field: input_error_text(violation).0,
            detail: input_error_text(violation).1,
        }),
{
    let (field, detail) = match violation {
        TicketInputViolation::EmptySubject => ("subject", "Ticket subject cannot be empty"),
        TicketInputViolation::SubjectTooLong => ("subject", "Ticket subject is too long"),
        TicketInputViolation::InvalidLevel => ("level", "Incorrect ticket level format"),
        TicketInputViolation::EmptyMessage => ("message", "Message cannot be empty"),
        TicketInputViolation::MessageTooLong => ("message", "Message is too long"),
        TicketInputViolation::EmptyWithdrawMethod => (
            "withdraw_method",
            "The withdrawal method cannot be empty",
        ),
        TicketInputViolation::WithdrawMethodTooLong => (
            "withdraw_method",
            "The withdrawal method is too long",
        ),
        TicketInputViolation::EmptyWithdrawAccount => (
            "withdraw_account",
            "The withdrawal account cannot be empty",
        ),
        TicketInputViolation::WithdrawMessageTooLong => ("withdraw_account", "Message is too long"),
    };
    TicketError::Validation { field, detail }
}

/// An operator reply is refused only for its length.
pub fn operator_input_error(violation: TicketInputViolation) -> (r: TicketError)
    ensures
        r == (TicketError::Validation { field: "message", detail: "工单回复内容过长" }),
{
    TicketError::Validation { field: "message", detail: "工单回复内容过长" }
}

/// Whether a new ticket needs a paid order, or is refused by the policy.
pub fn creation_requirement(policy: TicketCreationPolicy) -> (r: Result<bool, TicketError>)
    ensures
        policy == TicketCreationPolicy::Open ==> r == Ok::<bool, TicketError>(false),
        policy == TicketCreationPolicy::PaidOrderRequired ==> r == Ok::<bool, TicketError>(true),
        policy == TicketCreationPolicy::PlanRejected ==> r == Err::<bool, TicketError>(
            TicketError::RequiresPlan { detail: "当前套餐不允许发起工单" },
        ),
        policy == TicketCreationPolicy::InvalidState ==> r == Err::<bool, TicketError>(
            TicketError::InvalidState { detail: "未知的工单状态" },
        ),
{
    match policy {
        TicketCreationPolicy::Open => Ok(false),
        TicketCreationPolicy::PaidOrderRequired => Ok(true),
        TicketCreationPolicy::PlanRejected => Err(
            TicketError::RequiresPlan { detail: "当前套餐不允许发起工单" },
        ),
        TicketCreationPolicy::InvalidState => Err(
            TicketError::InvalidState { detail: "未知的工单状态" },
        ),
    }
}

/// The rate limit a ticket write is admitted under: ten creations an hour,
/// twenty replies in five minutes.
pub fn admission_request(user_id: i64, kind: TicketWriteKind) -> (r: TicketAdmissionRequest)
    ensures
        r.user_id == user_id && r.kind == kind,
        kind == TicketWriteKind::Create ==> r.limit == TICKET_CREATE_LIMIT && r.window_seconds
            == TICKET_CREATE_WINDOW_SECONDS,
        kind == TicketWriteKind::Reply ==> r.limit == TICKET_REPLY_LIMIT && r.window_seconds
            == TICKET_REPLY_WINDOW_SECONDS,
{
    let (limit, window_seconds) = match kind {
        TicketWriteKind::Create => (TICKET_CREATE_LIMIT, TICKET_CREATE_WINDOW_SECONDS),
        TicketWriteKind::Reply => (TICKET_REPLY_LIMIT, TICKET_REPLY_WINDOW_SECONDS),
    };
    TicketAdmissionRequest { user_id, kind, limit, window_seconds }
}

/// A write the admission port refused is rate limited.
pub fn admission_result(admitted: bool) -> (r: Result<(), TicketError>)
    ensures
        admitted <==> r is Ok,
        !admitted ==> r matches Err(TicketError::RateLimited),
{
    if admitted {
        Ok(())
    } else {
        Err(TicketError::RateLimited)
    }
}

/// The answer to a ticket creation from the store.
pub fn created_id(outcome: TicketCreateOutcome) -> (r: Result<i64, TicketError>)
    ensures
        match outcome {
            TicketCreateOutcome::Created(id) => r == Ok::<i64, TicketError>(id),
            TicketCreateOutcome::OpenTicketExists => r matches Err(
                TicketError::UnresolvedTicketExists,
            ),
            TicketCreateOutcome::PaidOrderRequired => r == Err::<i64, TicketError>(
                TicketError::RequiresPlan { detail: "请先购买套餐" },
            ),
            TicketCreateOutcome::UserNotFound => r matches Err(TicketError::UserNotRegistered),
        },
{
    match outcome {
        TicketCreateOutcome::Created(id) => Ok(id),
        TicketCreateOutcome::OpenTicketExists => Err(TicketError::UnresolvedTicketExists),
        TicketCreateOutcome::PaidOrderRequired => Err(
            TicketError::RequiresPlan { detail: "请先购买套餐" },
        ),
        TicketCreateOutcome::UserNotFound => Err(TicketError::UserNotRegistered),
    }
}

/// The answer to a user's reply from the store.
pub fn user_reply_result(outcome: UserTicketReplyOutcome) -> (r: Result<(), TicketError>)
    ensures
        match outcome {
            UserTicketReplyOutcome::Replied => r is Ok,
            UserTicketReplyOutcome::NotFound => r matches Err(TicketError::NotFound),
            UserTicketReplyOutcome::Closed => r == Err::<(), TicketError>(
                TicketError::InvalidState {
                    detail: "The ticket is closed and cannot be replied",
                },
            ),
            UserTicketReplyOutcome::AwaitingOperator => r == Err::<(), TicketError>(
                TicketError::InvalidState {
                    detail: "Please wait for the technical enginneer to reply",
                },
            ),
        },
{
    match outcome {
        UserTicketReplyOutcome::Replied => Ok(()),
        UserTicketReplyOutcome::NotFound => Err(TicketError::NotFound),
        UserTicketReplyOutcome::Closed => Err(
            TicketError::InvalidState { detail: "The ticket is closed and cannot be replied" },
        ),
        UserTicketReplyOutcome::AwaitingOperator => Err(
            TicketError::InvalidState {
                detail: "Please wait for the technical enginneer to reply",
            },
        ),
    }
}

/// A user may close only a ticket the store found.
pub fn close_result(closed: bool) -> (r: Result<(), TicketError>)
    ensures
        closed <==> r is Ok,
        !closed ==> r matches Err(TicketError::NotFound),
{
    if closed {
        Ok(())
    } else {
        Err(TicketError::NotFound)
    }
}

pub open spec fn method_allowed(methods: Seq<String>, method: Seq<char>) -> bool {
    exists|i: int| 0 <= i < methods.len() && (#[trigger] methods[i])@ == method
}

/// A withdrawal needs withdrawals open and a configured method.
pub fn check_withdrawal_method(policy: &TicketPolicy, method: &str) -> (r: Result<(), TicketError>)
    ensures
        policy.withdrawal_closed ==> r == Err::<(), TicketError>(
            TicketError::WithdrawMethodUnsupported { detail: Some("Unsupported withdrawal") },
        ),
        !policy.withdrawal_closed && !method_allowed(policy.withdrawal_methods@, method@) ==> r
            == Err::<(), TicketError>(TicketError::WithdrawMethodUnsupported { detail: None }),
        !policy.withdrawal_closed && method_allowed(policy.withdrawal_methods@, method@) ==> r
            is Ok,
{
    if policy.withdrawal_closed {
        return Err(TicketError::WithdrawMethodUnsupported { detail: Some("Unsupported withdrawal") });
    }
    let mut i: usize = 0;
    while i < policy.withdrawal_methods.len()
        invariant
            i <= policy.withdrawal_methods@.len(),
            !policy.withdrawal_closed,
            forall|k: int| 0 <= k < i ==> (#[trigger] policy.withdrawal_methods@[k])@ != method@,
        decreases policy.withdrawal_methods@.len() - i,
    {
        if str_eq(policy.withdrawal_methods[i].as_str(), method) {
            return Ok(());
        }
        i = i + 1;
    }
    Err(TicketError::WithdrawMethodUnsupported { detail: None })
}

/// A withdrawal ticket never needs a paid order; the store saying so is an
/// invariant failure.
pub fn withdrawal_created_id(outcome: TicketCreateOutcome) -> (r: Result<i64, TicketError>)
    ensures
        outcome == TicketCreateOutcome::PaidOrderRequired ==> r == Err::<i64, TicketError>(
            TicketError::Invariant("withdrawal ticket unexpectedly required a paid order"),
        ),
        outcome != TicketCreateOutcome::PaidOrderRequired ==> match outcome {
            TicketCreateOutcome::Created(id) => r == Ok::<i64, TicketError>(id),
            TicketCreateOutcome::OpenTicketExists => r matches Err(
                TicketError::UnresolvedTicketExists,
            ),
            _ => r matches Err(TicketError::UserNotRegistered),
        },
{
    if outcome == TicketCreateOutcome::PaidOrderRequired {
        return Err(TicketError::Invariant("withdrawal ticket unexpectedly required a paid order"));
    }
    created_id(outcome)
}

/// The answer to an operator reply from the store, and whether the
/// notification reservation must be released.
pub fn operator_reply_result(outcome: OperatorTicketReplyOutcome) -> (r: (
    Result<(), TicketError>,
    bool,
))
    ensures
        outcome == OperatorTicketReplyOutcome::Replied ==> r.0 is Ok && !r.1,
        outcome == OperatorTicketReplyOutcome::NotFound ==> (r.0 matches Err(TicketError::NotFound)
            && r.1),
        outcome == OperatorTicketReplyOutcome::OtherOpenTicketExists ==> (r.0 matches Err(
            TicketError::UnresolvedTicketExists,
        ) && r.1),
{
    match outcome {
        OperatorTicketReplyOutcome::Replied => (Ok(()), false),
        OperatorTicketReplyOutcome::NotFound => (Err(TicketError::NotFound), true),
        OperatorTicketReplyOutcome::OtherOpenTicketExists => (
            Err(TicketError::UnresolvedTicketExists),
            true,
        ),
    }
}

/// Answered tickets close a day after the last reply.
pub fn auto_close_cutoff(now: i64) -> (r: i64)
    ensures
        r == (if now - AUTO_CLOSE_AFTER_SECONDS < i64::MIN {
            i64::MIN as int
        } else {
            now - AUTO_CLOSE_AFTER_SECONDS
        }),
{
    if now < i64::MIN + AUTO_CLOSE_AFTER_SECONDS {
        i64::MIN
    } else {
        now - AUTO_CLOSE_AFTER_SECONDS
    }
}

/// One batch of the auto-close sweep: the running total (saturating) and
/// whether another batch is due. A short batch ends the sweep, and so does
/// the last allowed batch.
pub fn auto_close_step(total: u64, closed: u64, batch: usize) -> (r: (u64, bool))
    ensures
        r.0 == (if total + closed > u64::MAX {
            u64::MAX as int
        } else {
            total + closed
        }),
        r.1 == (closed >= AUTO_CLOSE_BATCH_SIZE && batch + 1 < AUTO_CLOSE_MAX_BATCHES),
{
    let sum = if total > u64::MAX - closed {
        u64::MAX
    } else {
        total + closed
    };
    (sum, closed >= AUTO_CLOSE_BATCH_SIZE as u64 && batch < AUTO_CLOSE_MAX_BATCHES - 1)
}

} // verus!
