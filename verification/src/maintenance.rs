//! Scheduled traffic resets and bounded retention: which reset policy a
//! candidate falls under, what a locked batch contributes to the run, and
//! when a batched loop stops.
use vstd::prelude::*;

use crate::subscription::{reset_method_code, TrafficResetMethod};

verus! {

#[derive(Clone, Copy, Debug, Eq, PartialEq, Structural)]
pub struct ScheduledResetCandidate {
    pub id: i64,
    pub expired_at: i64,
    pub reset_traffic_method: Option<i16>,
}

/// A calendar day as the reset rules read it.
#[derive(Clone, Copy, Debug, Eq, PartialEq, Structural)]
pub struct CalendarDay {
    pub month: u32,
    pub day: u32,
    pub days_in_month: u32,
}

#[derive(Clone, Debug, Eq, PartialEq)]
pub struct ScheduledTrafficResetRun {
    pub now_epoch: i64,
    pub now_day: CalendarDay,
    pub reset_key: String,
    pub default_method: i32,
    pub batch_size: i64,
}

#[derive(Clone, Copy, Debug, Eq, PartialEq, Structural)]
pub struct ScheduledTrafficResetOutcome {
    pub examined: u64,
    pub reset: u64,
}

impl Default for ScheduledTrafficResetOutcome {
    fn default() -> (r: Self)
        ensures
            r.examined == 0 && r.reset == 0,
    {
        ScheduledTrafficResetOutcome { examined: 0, reset: 0 }
    }
}

/// Whether a candidate's own method or the site default decided its reset.
#[derive(Clone, Copy, Debug, Eq, PartialEq, Structural)]
pub enum ScheduledTrafficResetPolicy {
    Explicit(TrafficResetMethod),
    LegacyDefault(TrafficResetMethod),
}

/// The facts a reset rule weighs for one candidate.
#[derive(Clone, Copy, Debug, Eq, PartialEq, Structural)]
pub struct TrafficResetFacts {
    pub now: CalendarDay,
    pub expiry: CalendarDay,
    pub now_epoch: i64,
    pub expiry_epoch: i64,
}

/// Converts timestamps to calendar days.
pub trait TrafficResetCalendar {
    /// The calendar day of `timestamp`, when it has one.
    spec fn spec_day_at(&self, timestamp: i64) -> Option<CalendarDay>;

    fn day_at(&self, timestamp: i64) -> (r: Option<CalendarDay>)
        ensures
            r == self.spec_day_at(timestamp),
    ;
}

pub struct ScheduledTrafficResetService<R, C> {
    repository: R,
    calendar: C,
}

impl<R, C: TrafficResetCalendar> ScheduledTrafficResetService<R, C> {
    pub fn new(repository: R, calendar: C) -> (s: Self)
        ensures
            s.spec_repository() == repository,
            s.spec_calendar() == calendar,
    {
        Self { repository, calendar }
    }

    pub closed spec fn spec_repository(&self) -> R {
        self.repository
    }

    pub closed spec fn spec_calendar(&self) -> C {
        self.calendar
    }

    pub fn repository(&self) -> (r: &R)
        ensures
            *r == self.spec_repository(),
    {
        &self.repository
    }

    pub fn calendar(&self) -> (r: &C)
        ensures
            *r == self.spec_calendar(),
    {
        &self.calendar
    }
}

/// The policy of a candidate: its own method code when it has one, else
/// the site default marked as such; an unknown code gives none.
pub open spec fn reset_policy(
    candidate_method: Option<i16>,
    default_method: i32,
) -> Option<ScheduledTrafficResetPolicy> {
    match candidate_method {
        Some(m) => match reset_method_code(m as int) {
            Some(method) => Some(ScheduledTrafficResetPolicy::Explicit(method)),
            None => None,
        },
        None => match reset_method_code(default_method as int) {
            Some(method) => Some(ScheduledTrafficResetPolicy::LegacyDefault(method)),
            None => None,
        },
    }
}

fn method_of_code(code: i32) -> (r: Option<TrafficResetMethod>)
    ensures
        r == reset_method_code(code as int),
{
    if code == 0 {
        Some(TrafficResetMethod::MonthStart)
    } else if code == 1 {
        Some(TrafficResetMethod::ExpiryDay)
    } else if code == 2 {
        Some(TrafficResetMethod::Never)
    } else if code == 3 {
        Some(TrafficResetMethod::YearStart)
    } else if code == 4 {
        Some(TrafficResetMethod::ExpiryAnniversary)
    } else {
        None
    }
}

/// The reset policy of a candidate.
pub fn scheduled_reset_policy(candidate_method: Option<i16>, default_method: i32) -> (r: Option<
    ScheduledTrafficResetPolicy,
>)
    ensures
        r == reset_policy(candidate_method, default_method),
{
    match candidate_method {
        Some(m) => match method_of_code(m as i32) {
            Some(method) => Some(ScheduledTrafficResetPolicy::Explicit(method)),
            None => None,
        },
        None => match method_of_code(default_method) {
            Some(method) => Some(ScheduledTrafficResetPolicy::LegacyDefault(method)),
            None => None,
        },
    }
}

/// A candidate's own reset code decides its policy whatever the site
/// default: code 0 resets on the first of the month, code 2 never, and a
/// candidate without a code falls back to the default, marked as such.
pub proof fn law_candidate_code_overrides_default(default_method: i32)
    ensures
        reset_policy(Some(0i16), default_method) == Some(
            ScheduledTrafficResetPolicy::Explicit(TrafficResetMethod::MonthStart),
        ),
        reset_policy(Some(2i16), default_method) == Some(
            ScheduledTrafficResetPolicy::Explicit(TrafficResetMethod::Never),
        ),
        0 <= default_method <= 4 ==> (reset_policy(None, default_method) matches Some(
            ScheduledTrafficResetPolicy::LegacyDefault(m),
        ) && reset_policy(Some(default_method as i16), 0) == Some(
            ScheduledTrafficResetPolicy::Explicit(m),
        )),
{
}

/// The policy and facts of a candidate whose expiry the calendar placed on
/// `expiry` (`None` when it has no calendar day).
pub open spec fn reset_facts(
    candidate: ScheduledResetCandidate,
    command: ScheduledTrafficResetRun,
    expiry: Option<CalendarDay>,
) -> Option<(ScheduledTrafficResetPolicy, TrafficResetFacts)> {
    match (reset_policy(candidate.reset_traffic_method, command.default_method), expiry) {
        (Some(policy), Some(day)) => Some(
            (
                policy,
                TrafficResetFacts {
                    now: command.now_day,
                    expiry: day,
                    now_epoch: command.now_epoch,
                    expiry_epoch: candidate.expired_at,
                },
            ),
        ),
        _ => None,
    }
}

/// The policy and facts of a candidate once the calendar has placed its
/// expiry: see [`reset_facts`].
pub fn reset_facts_at(
    candidate: &ScheduledResetCandidate,
    command: &ScheduledTrafficResetRun,
    expiry: Option<CalendarDay>,
) -> (r: Option<(ScheduledTrafficResetPolicy, TrafficResetFacts)>)
    ensures
        r == reset_facts(*candidate, *command, expiry),
{
    let policy = match scheduled_reset_policy(
        candidate.reset_traffic_method,
        command.default_method,
    ) {
        Some(p) => p,
        None => return None,
    };
    match expiry {
        Some(day) => Some(
            (
                policy,
                TrafficResetFacts {
                    now: command.now_day,
                    expiry: day,
                    now_epoch: command.now_epoch,
                    expiry_epoch: candidate.expired_at,
                },
            ),
        ),
        None => None,
    }
}

/// The policy and facts on which a candidate's reset is decided. There are
/// none, and the candidate is not reset, when its method code is unknown or
/// its expiry has no calendar day. The calendar is asked only when the
/// method code is known, and then for the day of the candidate's expiry.
pub fn scheduled_reset_facts(
    candidate: &ScheduledResetCandidate,
    command: &ScheduledTrafficResetRun,
    calendar: &impl TrafficResetCalendar,
) -> (r: Option<(ScheduledTrafficResetPolicy, TrafficResetFacts)>)
    ensures
        r == reset_facts(*candidate, *command, calendar.spec_day_at(candidate.expired_at)),
{
    if scheduled_reset_policy(candidate.reset_traffic_method, command.default_method).is_none() {
        return None;
    }
    let expiry = calendar.day_at(candidate.expired_at);
    reset_facts_at(candidate, command, expiry)
}

/// The count at which a batch was full: the batch size, or no count at
/// all for a negative size.
pub open spec fn full_batch(batch_size: i64) -> int {
    if batch_size >= 0 {
        batch_size as int
    } else {
        u64::MAX as int
    }
}

/// Whether a batched loop goes on: only after a full batch.
pub fn batch_was_full(count: u64, batch_size: i64) -> (r: bool)
    ensures
        r == (count >= full_batch(batch_size)),
{
    let full: u64 = if batch_size >= 0 {
        batch_size as u64
    } else {
        u64::MAX
    };
    count >= full
}

/// `a + b`, held at `u64::MAX`.
pub open spec fn saturating(a: int, b: int) -> int {
    if a + b > u64::MAX {
        u64::MAX as int
    } else {
        a + b
    }
}

/// One step of a bounded deletion loop: the running total after a batch
/// removed `deleted` rows, and whether another batch follows.
pub fn retention_step(deleted_total: u64, deleted: u64, batch_size: i64) -> (r: (u64, bool))
    ensures
        r.0 == saturating(deleted_total as int, deleted as int),
        r.1 == (deleted >= full_batch(batch_size)),
{
    (deleted_total.saturating_add(deleted), batch_was_full(deleted, batch_size))
}

/// What the reset run does with a locked batch.
#[derive(Clone, Debug, Eq, PartialEq)]
pub enum ResetBatchStep {
    /// The batch was empty: commit it and stop.
    Finish,
    /// Reset `user_ids` (when there are any), commit, and lock the next
    /// batch after `after_id`.
    Apply { outcome: ScheduledTrafficResetOutcome, user_ids: Vec<i64>, after_id: i64 },
}

/// The ids of the candidates whose reset is due, in batch order.
pub open spec fn due_ids(candidates: Seq<ScheduledResetCandidate>, due: Seq<bool>) -> Seq<i64>
    decreases candidates.len(),
{
    if candidates.len() == 0 || due.len() == 0 {
        seq![]
    } else {
        let rest = due_ids(candidates.drop_last(), due.drop_last());
        if due.last() {
            rest.push(candidates.last().id)
        } else {
            rest
        }
    }
}

/// Plans a locked batch: `due[i]` says whether `candidates[i]` is due. An
/// empty batch ends the run; otherwise every candidate counts as examined,
/// the due ones are reset, and the scan resumes after the last candidate.
pub fn reset_batch_step(
    outcome: ScheduledTrafficResetOutcome,
    candidates: &Vec<ScheduledResetCandidate>,
    due: &Vec<bool>,
) -> (r: ResetBatchStep)
    requires
        due@.len() == candidates@.len(),
    ensures
        candidates@.len() == 0 ==> r is Finish,
        candidates@.len() > 0 ==> (r matches ResetBatchStep::Apply { outcome: next, user_ids, after_id }
            && next.examined == saturating(outcome.examined as int, candidates@.len() as int)
            && next.reset == outcome.reset && user_ids@ == due_ids(candidates@, due@) && after_id
            == candidates@.last().id),
{
    let n = candidates.len();
    if n == 0 {
        return ResetBatchStep::Finish;
    }
    let examined = outcome.examined.saturating_add(n as u64);
    let mut user_ids: Vec<i64> = Vec::new();
    let mut i: usize = 0;
    while i < n
        invariant
            n == candidates@.len(),
            n == due@.len(),
            i <= n,
            user_ids@ == due_ids(candidates@.take(i as int), due@.take(i as int)),
        decreases n - i,
    {
        proof {
            assert(candidates@.take(i + 1).drop_last() == candidates@.take(i as int));
            assert(due@.take(i + 1).drop_last() == due@.take(i as int));
        }
        if due[i] {
            user_ids.push(candidates[i].id);
        }
        i = i + 1;
    }
    proof {
        assert(candidates@.take(n as int) == candidates@);
        assert(due@.take(n as int) == due@);
    }
    ResetBatchStep::Apply {
        outcome: ScheduledTrafficResetOutcome { examined, reset: outcome.reset },
        user_ids,
        after_id: candidates[n - 1].id,
    }
}

/// Adds the rows a reset touched to the run's outcome, held at `u64::MAX`.
pub fn record_reset(outcome: ScheduledTrafficResetOutcome, applied: u64) -> (r:
    ScheduledTrafficResetOutcome)
    ensures
        r.examined == outcome.examined,
        r.reset == saturating(outcome.reset as int, applied as int),
{
    ScheduledTrafficResetOutcome {
        examined: outcome.examined,
        reset: outcome.reset.saturating_add(applied),
    }
}

#[derive(Clone, Copy, Debug, Eq, PartialEq, Structural)]
pub enum RetentionDataset {
    UserTraffic,
    ServerTraffic,
    SystemLog,
}

#[derive(Clone, Copy, Debug, Eq, PartialEq, Structural)]
pub struct RetentionCutoff {
    pub dataset: RetentionDataset,
    pub before: i64,
}

pub struct RetentionService<R> {
    repository: R,
}

impl<R> RetentionService<R> {
    pub fn new(repository: R) -> (s: Self)
        ensures
            s.spec_repository() == repository,
    {
        Self { repository }
    }

    pub closed spec fn spec_repository(&self) -> R {
        self.repository
    }

    pub fn repository(&self) -> (r: &R)
        ensures
            *r == self.spec_repository(),
    {
        &self.repository
    }
}

} // verus!
