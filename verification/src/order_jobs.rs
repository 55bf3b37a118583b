//! Scheduled order work: commission settlement and automatic renewal. The
//! loops that claim rows are bounded here, the settled commission total is
//! checked here, and a renewal decision is turned into its write here.
use vstd::prelude::*;

use crate::maintenance::{batch_was_full, full_batch, saturating};
use crate::order::OrderNumberGenerator;
use crate::plan::PlanPricePeriod;
use crate::text::{signed_decimal, signed_decimal_text};

verus! {

#[derive(Clone, Debug, Eq, PartialEq)]
pub struct CommissionOrder {
    pub id: i64,
    pub invite_user_id: i64,
    pub user_id: i64,
    pub trade_no: String,
    pub total_amount: i32,
    pub commission_balance: i32,
    pub actual_commission_balance: Option<i32>,
}

#[derive(Clone, Debug, Eq, PartialEq)]
pub struct CommissionRun {
    pub now: i64,
    pub auto_check_cutoff: Option<i64>,
    pub auto_check_batch_size: i64,
    pub auto_check_max_batches: usize,
    pub max_payouts: usize,
    pub shares: Vec<i32>,
    pub credit_account_balance: bool,
}

#[derive(Clone, Debug, Eq, PartialEq)]
pub struct JobItemFailure {
    pub id: i64,
    pub reference: String,
    pub detail: String,
}

#[derive(Clone, Debug, Eq, PartialEq)]
pub struct CommissionRunOutcome {
    pub marked_ready: u64,
    pub processed: u64,
    pub failures: Vec<JobItemFailure>,
}

impl Default for CommissionRunOutcome {
    fn default() -> (r: Self)
        ensures
            r.marked_ready == 0,
            r.processed == 0,
            r.failures@.len() == 0,
    {
        CommissionRunOutcome { marked_ready: 0, processed: 0, failures: Vec::new() }
    }
}

/// One inviter of an invitation chain.
#[derive(Clone, Copy, Debug, Eq, PartialEq, Structural)]
pub struct CommissionInviter {
    pub id: i64,
    pub inviter_id: Option<i64>,
}

/// The commission one inviter is paid, in cents.
#[derive(Clone, Copy, Debug, Eq, PartialEq, Structural)]
pub struct CommissionPayout {
    pub inviter_id: i64,
    pub amount: i32,
}

pub struct CommissionService<R> {
    repository: R,
}

impl<R> CommissionService<R> {
    pub fn new(repository: R) -> (s: Self)
        ensures
            s.spec_repository() == repository,
    {
        Self { repository }
    }

    pub closed spec fn spec_repository(&self) -> R {
        self.repository
    }

    pub fn repository(&self) -> (r: &R)
        ensures
            *r == self.spec_repository(),
    {
        &self.repository
    }
}

/// One step of the bounded auto-check loop: the running count of orders
/// marked ready, and whether another batch follows (only after a full one).
pub fn mark_ready_step(marked_total: u64, marked: u64, batch_size: i64) -> (r: (u64, bool))
    ensures
        r.0 == saturating(marked_total as int, marked as int),
        r.1 == (marked >= full_batch(batch_size)),
{
    (marked_total.saturating_add(marked), batch_was_full(marked, batch_size))
}

/// Whether another order may be claimed: fewer than `max_payouts` were
/// processed so far.
pub fn may_claim_more(processed: u64, max_payouts: usize) -> (r: bool)
    ensures
        r == (processed < max_payouts),
{
    if processed > usize::MAX as u64 {
        false
    } else {
        (processed as usize) < max_payouts
    }
}

impl CommissionRunOutcome {
    /// Counts one claimed order, held at `u64::MAX`.
    pub fn record_processed(&mut self)
        ensures
            final(self).processed == saturating(old(self).processed as int, 1),
            final(self).marked_ready == old(self).marked_ready,
            final(self).failures@ == old(self).failures@,
    {
        self.processed = self.processed.saturating_add(1);
    }

    /// Records an order that could not be settled or committed.
    pub fn record_failure(&mut self, id: i64, reference: String, detail: String)
        ensures
            final(self).processed == old(self).processed,
            final(self).marked_ready == old(self).marked_ready,
            final(self).failures@ == old(self).failures@.push(
                JobItemFailure { id, reference, detail },
            ),
    {
        self.failures.push(JobItemFailure { id, reference, detail });
    }
}

/// The commission pool of an order, refused when negative.
pub fn commission_pool(order: &CommissionOrder) -> (r: Option<i32>)
    ensures
        order.commission_balance >= 0 ==> r == Some(order.commission_balance),
        order.commission_balance < 0 ==> r is None,
{
    if order.commission_balance >= 0 {
        Some(order.commission_balance)
    } else {
        None
    }
}

/// The order's recorded commission plus every payout, added in order and
/// refused as soon as a partial sum leaves the `i32` range.
pub open spec fn checked_total(base: int, payouts: Seq<CommissionPayout>) -> Option<int>
    decreases payouts.len(),
{
    if payouts.len() == 0 {
        Some(base)
    } else {
        match checked_total(base, payouts.drop_last()) {
            None => None,
            Some(t) => if i32::MIN <= t + payouts.last().amount <= i32::MAX {
                Some(t + payouts.last().amount)
            } else {
                None
            },
        }
    }
}

/// The actual commission balance after settling `payouts`: the recorded
/// balance (none counts as zero) plus each payout.
pub fn actual_commission_balance(recorded: Option<i32>, payouts: &Vec<CommissionPayout>) -> (r:
    Option<i32>)
    ensures
        r == (match checked_total(
            match recorded {
                Some(v) => v as int,
                None => 0,
            },
            payouts@,
        ) {
            Some(t) => Some(t as i32),
            None => None,
        }),
{
    let base: i32 = match recorded {
        Some(v) => v,
        None => 0,
    };
    let ghost b: int = base as int;
    assert(b == match recorded {
        Some(v) => v as int,
        None => 0,
    });
    let mut total: i32 = base;
    let mut i: usize = 0;
    while i < payouts.len()
        invariant
            i <= payouts@.len(),
            checked_total(b, payouts@.take(i as int)) == Some(total as int),
            b == match recorded {
                Some(v) => v as int,
                None => 0,
            },
        decreases payouts@.len() - i,
    {
        proof {
            assert(payouts@.take(i + 1).drop_last() == payouts@.take(i as int));
        }
        match total.checked_add(payouts[i].amount) {
            Some(t) => {
                total = t;
            },
            None => {
                proof {
                    assert(payouts@.take(i + 1).last() == payouts@[i as int]);
                    assert(checked_total(b, payouts@.take(i + 1)) is None);
                    lemma_checked_total_stays_none(b, payouts@, i as int + 1);
                }
                return None;
            },
        }
        i = i + 1;
    }
    proof {
        assert(payouts@.take(payouts@.len() as int) == payouts@);
    }
    Some(total)
}

/// Once a prefix overflows, every longer prefix does.
proof fn lemma_checked_total_stays_none(base: int, payouts: Seq<CommissionPayout>, k: int)
    requires
        0 <= k <= payouts.len(),
        checked_total(base, payouts.take(k)) is None,
    ensures
        checked_total(base, payouts) is None,
    decreases payouts.len() - k,
{
    if k < payouts.len() {
        assert(payouts.take(k + 1).drop_last() == payouts.take(k));
        lemma_checked_total_stays_none(base, payouts, k + 1);
    } else {
        assert(payouts.take(k) == payouts);
    }
}

#[derive(Clone, Debug, Eq, PartialEq)]
pub struct RenewalSnapshot {
    pub user_id: i64,
    pub balance: i32,
    pub plan_id: i32,
    pub expired_at: i64,
    pub period: Option<PlanPricePeriod>,
    /// `Some(0)` represents the retained NULL/zero free-renewal policy.
    pub price: Option<i32>,
    pub plan_allows_renewal: bool,
}

#[derive(Clone, Debug, Eq, PartialEq)]
pub struct RenewalWrite {
    pub trade_no: String,
    pub debit: i32,
    pub expired_at: i64,
    pub period: PlanPricePeriod,
    pub now: i64,
}

#[derive(Clone, Copy, Debug, Eq, PartialEq, Structural)]
pub struct RenewalRun {
    pub now: i64,
    pub renewal_before: i64,
    pub candidate_page_size: i64,
}

#[derive(Clone, Debug, Eq, PartialEq)]
pub struct RenewalRunOutcome {
    pub examined: u64,
    pub renewed: u64,
    pub disabled: u64,
    pub skipped: u64,
    pub failures: Vec<JobItemFailure>,
}

impl Default for RenewalRunOutcome {
    fn default() -> (r: Self)
        ensures
            r.examined == 0,
            r.renewed == 0,
            r.disabled == 0,
            r.skipped == 0,
            r.failures@.len() == 0,
    {
        RenewalRunOutcome { examined: 0, renewed: 0, disabled: 0, skipped: 0, failures: Vec::new() }
    }
}

/// Adds whole months to a timestamp.
pub trait RenewalCalendar {
    /// `timestamp` moved `months` calendar months later, when that date
    /// can be reached.
    spec fn spec_add_months(&self, timestamp: i64, months: u32) -> Option<i64>;

    fn add_months(&self, timestamp: i64, months: u32) -> (r: Option<i64>)
        ensures
            r == self.spec_add_months(timestamp, months),
    ;
}

/// What became of one renewal candidate.
#[derive(Clone, Copy, Debug, Eq, PartialEq, Structural)]
pub enum RenewalCandidateOutcome {
    Renewed,
    Disabled,
    Skipped,
}

/// The facts a renewal decision weighs.
#[derive(Clone, Copy, Debug, Eq, PartialEq, Structural)]
pub struct RenewalRequest {
    pub now: i64,
    pub current_expiry: i64,
    pub balance: i32,
    pub plan_allows_renewal: bool,
    pub period: PlanPricePeriod,
    pub plan_price: Option<i32>,
}

/// A renewal decision: debit the balance and extend the subscription by
/// `months` from `extension_base`, or turn automatic renewal off.
#[derive(Clone, Copy, Debug, Eq, PartialEq, Structural)]
pub enum RenewalDecision {
    Renew { debit: i32, extension_base: i64, months: u32 },
    Disable,
}

pub struct RenewalService<R, C, N> {
    repository: R,
    calendar: C,
    numbers: N,
}

impl<R, C: RenewalCalendar, N: OrderNumberGenerator> RenewalService<R, C, N> {
    pub fn new(repository: R, calendar: C, numbers: N) -> (s: Self)
        ensures
            s.spec_repository() == repository,
            s.spec_calendar() == calendar,
            s.spec_numbers() == numbers,
    {
        Self { repository, calendar, numbers }
    }

    pub closed spec fn spec_repository(&self) -> R {
        self.repository
    }

    pub closed spec fn spec_calendar(&self) -> C {
        self.calendar
    }

    pub closed spec fn spec_numbers(&self) -> N {
        self.numbers
    }

    pub fn repository(&self) -> (r: &R)
        ensures
            *r == self.spec_repository(),
    {
        &self.repository
    }

    pub fn calendar(&self) -> (r: &C)
        ensures
            *r == self.spec_calendar(),
    {
        &self.calendar
    }

    pub fn numbers(&self) -> (r: &N)
        ensures
            *r == self.spec_numbers(),
    {
        &self.numbers
    }
}

/// The request a renewal is decided on. A subscription that already
/// expired, has no renewal period, or carries a negative balance is not
/// renewed: it has none.
pub fn renewal_request(snapshot: &RenewalSnapshot, now: i64) -> (r: Option<RenewalRequest>)
    ensures
        (snapshot.expired_at <= now || snapshot.period is None || snapshot.balance < 0) ==> r is None,
        !(snapshot.expired_at <= now || snapshot.period is None || snapshot.balance < 0) ==> (r
            matches Some(q) && q == (RenewalRequest {
            now,
            current_expiry: snapshot.expired_at,
            balance: snapshot.balance,
            plan_allows_renewal: snapshot.plan_allows_renewal,
            period: snapshot.period->0,
            plan_price: snapshot.price,
        })),
{
    if snapshot.expired_at <= now {
        return None;
    }
    let period = match snapshot.period {
        Some(p) => p,
        None => return None,
    };
    if snapshot.balance < 0 {
        return None;
    }
    Some(
        RenewalRequest {
            now,
            current_expiry: snapshot.expired_at,
            balance: snapshot.balance,
            plan_allows_renewal: snapshot.plan_allows_renewal,
            period,
            plan_price: snapshot.price,
        },
    )
}

/// The write of a renewal decided as `decision`, given the order number
/// it was issued and the expiry the calendar computed (`None` when the
/// date cannot be reached).
pub open spec fn renewal_write_of(
    decision: RenewalDecision,
    period: PlanPricePeriod,
    now: i64,
    trade_no: String,
    expired_at: Option<i64>,
) -> Option<RenewalWrite> {
    match (decision, expired_at) {
        (RenewalDecision::Renew { debit, .. }, Some(e)) => Some(
            RenewalWrite { trade_no, debit, expired_at: e, period, now },
        ),
        _ => None,
    }
}

/// The write of a renewal once its order number and new expiry are known:
/// see [`renewal_write_of`].
pub fn renewal_write_at(
    decision: RenewalDecision,
    period: PlanPricePeriod,
    now: i64,
    trade_no: String,
    expired_at: Option<i64>,
) -> (r: Option<RenewalWrite>)
    ensures
        r == renewal_write_of(decision, period, now, trade_no, expired_at),
{
    match decision {
        RenewalDecision::Disable => None,
        RenewalDecision::Renew { debit, .. } => match expired_at {
            Some(expired_at) => Some(RenewalWrite { trade_no, debit, expired_at, period, now }),
            None => None,
        },
    }
}

/// The expiry a decision to renew reaches on `calendar`: `months` after its
/// extension base.
pub open spec fn decided_expiry<C: RenewalCalendar>(calendar: C, decision: RenewalDecision) -> Option<i64> {
    match decision {
        RenewalDecision::Renew { extension_base, months, .. } => calendar.spec_add_months(
            extension_base,
            months,
        ),
        RenewalDecision::Disable => None,
    }
}

/// The write of a decided renewal: a fresh order number, the decided
/// debit, and the expiry `months` after the extension base. A decision to
/// disable, or a date the calendar cannot reach, gives no write; only a
/// decision to renew asks for an order number and a date.
pub fn renewal_write(
    decision: RenewalDecision,
    period: PlanPricePeriod,
    now: i64,
    calendar: &impl RenewalCalendar,
    numbers: &impl OrderNumberGenerator,
) -> (r: Option<RenewalWrite>)
    ensures
        decision is Disable ==> r is None,
        r matches Some(w) ==> (decision matches RenewalDecision::Renew { debit, .. } && w.debit
            == debit && w.period == period && w.now == now),
        decision is Renew ==> exists|trade_no: String|
            numbers.spec_issues(trade_no@) && r == #[trigger] renewal_write_of(
                decision,
                period,
                now,
                trade_no,
                decided_expiry(*calendar, decision),
            ),
{
    match decision {
        RenewalDecision::Disable => {
            None
        },
        RenewalDecision::Renew { extension_base, months, .. } => {
            let trade_no = numbers.generate();
            let expired_at = calendar.add_months(extension_base, months);
            renewal_write_at(decision, period, now, trade_no, expired_at)
        },
    }
}

impl RenewalRunOutcome {
    /// Counts one examined candidate under its outcome, held at `u64::MAX`.
    pub fn record(&mut self, outcome: RenewalCandidateOutcome)
        ensures
            final(self).examined == saturating(old(self).examined as int, 1),
            final(self).renewed == if outcome == RenewalCandidateOutcome::Renewed {
                saturating(old(self).renewed as int, 1)
            } else {
                old(self).renewed as int
            },
            final(self).disabled == if outcome == RenewalCandidateOutcome::Disabled {
                saturating(old(self).disabled as int, 1)
            } else {
                old(self).disabled as int
            },
            final(self).skipped == if outcome == RenewalCandidateOutcome::Skipped {
                saturating(old(self).skipped as int, 1)
            } else {
                old(self).skipped as int
            },
            final(self).failures@ == old(self).failures@,
    {
        self.examined = self.examined.saturating_add(1);
        match outcome {
            RenewalCandidateOutcome::Renewed => {
                self.renewed = self.renewed.saturating_add(1);
            },
            RenewalCandidateOutcome::Disabled => {
                self.disabled = self.disabled.saturating_add(1);
            },
            RenewalCandidateOutcome::Skipped => {
                self.skipped = self.skipped.saturating_add(1);
            },
        }
    }

    /// Counts one examined candidate whose processing failed; the failure
    /// is referenced by the user id in decimal.
    pub fn record_failure(&mut self, user_id: i64, detail: String)
        ensures
            final(self).examined == saturating(old(self).examined as int, 1),
            final(self).renewed == old(self).renewed,
            final(self).disabled == old(self).disabled,
            final(self).skipped == old(self).skipped,
            final(self).failures@.len() == old(self).failures@.len() + 1,
            final(self).failures@.drop_last() == old(self).failures@,
            final(self).failures@.last().id == user_id,
            final(self).failures@.last().reference@ == signed_decimal(user_id as int),
            final(self).failures@.last().detail == detail,
    {
        self.examined = self.examined.saturating_add(1);
        let reference = signed_decimal_text(user_id);
        self.failures.push(JobItemFailure { id: user_id, reference, detail });
    }
}

} // verus!
