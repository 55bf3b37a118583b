//! Subscription plans: their shape, price table, and the answers of the
//! plan store turned into the operator's results.
use vstd::prelude::*;

use crate::RepositoryError;

verus! {

/// The billing periods a plan can be priced for.
#[derive(Clone, Copy, Debug, Eq, PartialEq, Structural)]
pub enum PlanPricePeriod {
    Month,
    Quarter,
    HalfYear,
    Year,
    TwoYear,
    ThreeYear,
    OneTime,
    Reset,
}

/// A plan's price for each period, in cents; an absent price means the
/// period is not sold.
#[derive(Clone, Copy, Debug, Default, Eq, PartialEq, Structural)]
pub struct PlanPrices {
    pub month: Option<i32>,
    pub quarter: Option<i32>,
    pub half_year: Option<i32>,
    pub year: Option<i32>,
    pub two_year: Option<i32>,
    pub three_year: Option<i32>,
    pub one_time: Option<i32>,
    pub reset: Option<i32>,
}

impl PlanPrices {
    pub open spec fn spec_get(self, period: PlanPricePeriod) -> Option<i32> {
        match period {
            PlanPricePeriod::Month => self.month,
            PlanPricePeriod::Quarter => self.quarter,
            PlanPricePeriod::HalfYear => self.half_year,
            PlanPricePeriod::Year => self.year,
            PlanPricePeriod::TwoYear => self.two_year,
            PlanPricePeriod::ThreeYear => self.three_year,
            PlanPricePeriod::OneTime => self.one_time,
            PlanPricePeriod::Reset => self.reset,
        }
    }

    /// The price of a period.
    pub fn get(&self, period: PlanPricePeriod) -> (r: Option<i32>)
        ensures
            r == self.spec_get(period),
    {
        match period {
            PlanPricePeriod::Month => self.month,
            PlanPricePeriod::Quarter => self.quarter,
            PlanPricePeriod::HalfYear => self.half_year,
            PlanPricePeriod::Year => self.year,
            PlanPricePeriod::TwoYear => self.two_year,
            PlanPricePeriod::ThreeYear => self.three_year,
            PlanPricePeriod::OneTime => self.one_time,
            PlanPricePeriod::Reset => self.reset,
        }
    }
}

/// A change to one period's price.
#[derive(Clone, Copy, Debug, Eq, PartialEq, Structural)]
pub enum PlanPriceUpdate {
    Keep,
    Clear,
    Price(i32),
}

/// The price changes of a patch, one per period.
#[derive(Clone, Copy, Debug, Eq, PartialEq, Structural)]
pub struct PlanPriceUpdates {
    pub month: PlanPriceUpdate,
    pub quarter: PlanPriceUpdate,
    pub half_year: PlanPriceUpdate,
    pub year: PlanPriceUpdate,
    pub two_year: PlanPriceUpdate,
    pub three_year: PlanPriceUpdate,
    pub one_time: PlanPriceUpdate,
    pub reset: PlanPriceUpdate,
}

impl PlanPriceUpdates {
    /// No price changes.
    pub fn keep_all() -> (r: Self)
        ensures
            r.month == PlanPriceUpdate::Keep && r.quarter == PlanPriceUpdate::Keep && r.half_year
                == PlanPriceUpdate::Keep && r.year == PlanPriceUpdate::Keep && r.two_year
                == PlanPriceUpdate::Keep && r.three_year == PlanPriceUpdate::Keep && r.one_time
                == PlanPriceUpdate::Keep && r.reset == PlanPriceUpdate::Keep,
    {
        PlanPriceUpdates {
            month: PlanPriceUpdate::Keep,
            quarter: PlanPriceUpdate::Keep,
            half_year: PlanPriceUpdate::Keep,
            year: PlanPriceUpdate::Keep,
            two_year: PlanPriceUpdate::Keep,
            three_year: PlanPriceUpdate::Keep,
            one_time: PlanPriceUpdate::Keep,
            reset: PlanPriceUpdate::Keep,
        }
    }

    pub open spec fn spec_get(self, period: PlanPricePeriod) -> PlanPriceUpdate {
        match period {
            PlanPricePeriod::Month => self.month,
            PlanPricePeriod::Quarter => self.quarter,
            PlanPricePeriod::HalfYear => self.half_year,
            PlanPricePeriod::Year => self.year,
            PlanPricePeriod::TwoYear => self.two_year,
            PlanPricePeriod::ThreeYear => self.three_year,
            PlanPricePeriod::OneTime => self.one_time,
            PlanPricePeriod::Reset => self.reset,
        }
    }

    pub fn get(&self, period: PlanPricePeriod) -> (r: PlanPriceUpdate)
        ensures
            r == self.spec_get(period),
    {
        match period {
            PlanPricePeriod::Month => self.month,
            PlanPricePeriod::Quarter => self.quarter,
            PlanPricePeriod::HalfYear => self.half_year,
            PlanPricePeriod::Year => self.year,
            PlanPricePeriod::TwoYear => self.two_year,
            PlanPricePeriod::ThreeYear => self.three_year,
            PlanPricePeriod::OneTime => self.one_time,
            PlanPricePeriod::Reset => self.reset,
        }
    }

    /// Sets the change of one period, leaving the others.
    pub fn set(&mut self, period: PlanPricePeriod, update: PlanPriceUpdate)
        ensures
            final(self).spec_get(period) == update,
            forall|p: PlanPricePeriod| p != period ==> final(self).spec_get(p) == old(self).spec_get(p),
    {
        match period {
            PlanPricePeriod::Month => self.month = update,
            PlanPricePeriod::Quarter => self.quarter = update,
            PlanPricePeriod::HalfYear => self.half_year = update,
            PlanPricePeriod::Year => self.year = update,
            PlanPricePeriod::TwoYear => self.two_year = update,
            PlanPricePeriod::ThreeYear => self.three_year = update,
            PlanPricePeriod::OneTime => self.one_time = update,
            PlanPricePeriod::Reset => self.reset = update,
        }
    }
}

#[derive(Clone, Debug, Eq, PartialEq)]
pub struct Plan {
    pub id: i32,
    pub group_id: i32,
    pub transfer_enable: i64,
    pub device_limit: Option<i32>,
    pub name: String,
    pub speed_limit: Option<i32>,
    pub show: bool,
    pub sort: Option<i32>,
    pub renew: bool,
    pub content: Option<String>,
    pub prices: PlanPrices,
    pub reset_traffic_method: Option<i16>,
    pub capacity_limit: Option<i32>,
    pub count: i64,
    pub created_at: i64,
    pub updated_at: i64,
}

#[derive(Clone, Debug, Eq, PartialEq)]
pub struct PlanCreateInput {
    pub name: String,
    pub group_id: i64,
    pub transfer_enable: i64,
    pub device_limit: Option<i64>,
    pub speed_limit: Option<i64>,
    pub capacity_limit: Option<i64>,
    pub content: Option<String>,
    pub prices: PlanPrices,
    pub reset_traffic_method: Option<i64>,
}

#[derive(Clone, Debug, Eq, PartialEq)]
pub struct NewPlan {
    pub input: PlanCreateInput,
    pub created_at: i64,
    pub updated_at: i64,
}

#[derive(Clone, Debug, Eq, PartialEq)]
pub struct PlanPatchInput {
    pub name: Option<String>,
    pub group_id: Option<i64>,
    pub transfer_enable: Option<i64>,
    pub device_limit: Option<Option<i64>>,
    pub speed_limit: Option<Option<i64>>,
    pub capacity_limit: Option<Option<i64>>,
    pub content: Option<Option<String>>,
    pub prices: PlanPriceUpdates,
    pub reset_traffic_method: Option<Option<i64>>,
    pub show: Option<bool>,
    pub renew: Option<bool>,
    pub force_update: Option<bool>,
}

#[derive(Clone, Debug, Eq, PartialEq)]
pub struct PlanChanges {
    pub name: Option<String>,
    pub group_id: Option<i64>,
    pub transfer_enable: Option<i64>,
    pub device_limit: Option<Option<i64>>,
    pub speed_limit: Option<Option<i64>>,
    pub capacity_limit: Option<Option<i64>>,
    pub content: Option<Option<String>>,
    pub prices: PlanPriceUpdates,
    pub reset_traffic_method: Option<Option<i64>>,
    pub show: Option<bool>,
    pub renew: Option<bool>,
    pub force_update: bool,
    pub updated_at: i64,
}

#[derive(Clone, Copy, Debug, Eq, PartialEq, Structural)]
pub enum PlanReference {
    Order,
    User,
    GiftCard,
    /// A restrictive relation without a more specific name yet.
    Unknown,
}

#[derive(Clone, Copy, Debug, Eq, PartialEq, Structural)]
pub enum CreatePlanOutcome {
    Created(i32),
    ServerGroupNotFound,
}

#[derive(Clone, Copy, Debug, Eq, PartialEq, Structural)]
pub enum PatchPlanOutcome {
    Updated,
    PlanNotFound,
    ServerGroupNotFound,
    UpdateConflict,
    ForceUpdateLimitExceeded,
}

#[derive(Clone, Copy, Debug, Eq, PartialEq, Structural)]
pub enum DeletePlanOutcome {
    Deleted,
    PlanNotFound,
    InUse(PlanReference),
}

#[derive(Clone, Copy, Debug, Eq, PartialEq, Structural)]
pub enum SortPlansOutcome {
    Sorted,
    PlanSetChanged,
}

#[derive(Debug)]
pub enum PlanError {
    PlanNotFound,
    ServerGroupNotFound,
    UpdateConflict,
    ForceUpdateLimitExceeded,
    PlanInUse(PlanReference),
    Repository(RepositoryError),
}

pub struct PlanService<R> {
    repository: R,
}

impl<R> PlanService<R> {
    pub closed spec fn spec_repository(&self) -> R {
        self.repository
    }

    pub fn new(repository: R) -> (s: Self)
        ensures
            s.spec_repository() == repository,
    {
        Self { repository }
    }

    pub fn repository(&self) -> (r: &R)
        ensures
            *r == self.spec_repository(),
    {
        &self.repository
    }
}

/// The changes a validated patch sends: an absent force flag means no
/// forced update.
pub fn plan_changes(input: PlanPatchInput, now: i64) -> (r: PlanChanges)
    ensures
        r == (PlanChanges {
            name: input.name,
            group_id: input.group_id,
            transfer_enable: input.transfer_enable,
            device_limit: input.device_limit,
            speed_limit: input.speed_limit,
            capacity_limit: input.capacity_limit,
            content: input.content,
            prices: input.prices,
            reset_traffic_method: input.reset_traffic_method,
            show: input.show,
            renew: input.renew,
            force_update: input.force_update == Some(true),
            updated_at: now,
        }),
{
    let force_update = match input.force_update {
        Some(f) => f,
        None => false,
    };
    PlanChanges {
        name: input.name,
        group_id: input.group_id,
        transfer_enable: input.transfer_enable,
        device_limit: input.device_limit,
        speed_limit: input.speed_limit,
        capacity_limit: input.capacity_limit,
        content: input.content,
        prices: input.prices,
        reset_traffic_method: input.reset_traffic_method,
        show: input.show,
        renew: input.renew,
        force_update,
        updated_at: now,
    }
}

/// The answer to a plan creation from the store.
pub fn create_result(outcome: CreatePlanOutcome) -> (r: Result<i32, PlanError>)
    ensures
        match outcome {
            CreatePlanOutcome::Created(id) => r == Ok::<i32, PlanError>(id),
            CreatePlanOutcome::ServerGroupNotFound => r matches Err(PlanError::ServerGroupNotFound),
        },
{
    match outcome {
        CreatePlanOutcome::Created(id) => Ok(id),
        CreatePlanOutcome::ServerGroupNotFound => Err(PlanError::ServerGroupNotFound),
    }
}

/// The answer to a plan patch from the store.
pub fn patch_result(outcome: PatchPlanOutcome) -> (r: Result<(), PlanError>)
    ensures
        match outcome {
            PatchPlanOutcome::Updated => r is Ok,
            PatchPlanOutcome::PlanNotFound => r matches Err(PlanError::PlanNotFound),
            PatchPlanOutcome::ServerGroupNotFound => r matches Err(PlanError::ServerGroupNotFound),
            PatchPlanOutcome::UpdateConflict => r matches Err(PlanError::UpdateConflict),
            PatchPlanOutcome::ForceUpdateLimitExceeded => r matches Err(
                PlanError::ForceUpdateLimitExceeded,
            ),
        },
{
    match outcome {
        PatchPlanOutcome::Updated => Ok(()),
        PatchPlanOutcome::PlanNotFound => Err(PlanError::PlanNotFound),
        PatchPlanOutcome::ServerGroupNotFound => Err(PlanError::ServerGroupNotFound),
        PatchPlanOutcome::UpdateConflict => Err(PlanError::UpdateConflict),
        PatchPlanOutcome::ForceUpdateLimitExceeded => Err(PlanError::ForceUpdateLimitExceeded),
    }
}

/// The answer to a plan deletion from the store.
pub fn delete_result(outcome: DeletePlanOutcome) -> (r: Result<(), PlanError>)
    ensures
        match outcome {
            DeletePlanOutcome::Deleted => r is Ok,
            DeletePlanOutcome::PlanNotFound => r matches Err(PlanError::PlanNotFound),
            DeletePlanOutcome::InUse(reference) => r matches Err(PlanError::PlanInUse(x)) && x
                == reference,
        },
{
    match outcome {
        DeletePlanOutcome::Deleted => Ok(()),
        DeletePlanOutcome::PlanNotFound => Err(PlanError::PlanNotFound),
        DeletePlanOutcome::InUse(reference) => Err(PlanError::PlanInUse(reference)),
    }
}

/// The answer to an exact reordering from the store.
pub fn sort_result(outcome: SortPlansOutcome) -> (r: Result<(), PlanError>)
    ensures
        outcome == SortPlansOutcome::Sorted ==> r is Ok,
        outcome == SortPlansOutcome::PlanSetChanged ==> r matches Err(PlanError::UpdateConflict),
{
    match outcome {
        SortPlansOutcome::Sorted => Ok(()),
        SortPlansOutcome::PlanSetChanged => Err(PlanError::UpdateConflict),
    }
}

/// A stored plan id is an `i32`; any other id names no plan.
pub fn plan_id(id: i64) -> (r: Result<i32, PlanError>)
    ensures
        i32::MIN <= id <= i32::MAX ==> r == Ok::<i32, PlanError>(id as i32),
        !(i32::MIN <= id <= i32::MAX) ==> r matches Err(PlanError::PlanNotFound),
{
    if i32::MIN as i64 <= id && id <= i32::MAX as i64 {
        Ok(id as i32)
    } else {
        Err(PlanError::PlanNotFound)
    }
}

} // verus!
