//! Subscription overview, early renewal and subscription-link access: the
//! reset schedule a plan follows and the checks before a new period.
use vstd::prelude::*;

use crate::RepositoryError;
use crate::plan::PlanPrices;
use crate::text::to_owned;

verus! {

#[derive(Clone, Debug, Eq, PartialEq)]
pub struct SubscriptionAccount {
    pub plan_id: Option<i32>,
    pub token: String,
    pub expired_at: Option<i64>,
    pub upload: i64,
    pub download: i64,
    pub transfer_enable: i64,
    pub device_limit: Option<i32>,
    pub email: String,
    pub uuid: String,
}

#[derive(Clone, Debug, Eq, PartialEq)]
pub struct SubscriptionPlan {
    pub id: i32,
    pub group_id: i32,
    pub transfer_enable: i64,
    pub device_limit: Option<i32>,
    pub name: String,
    pub speed_limit: Option<i32>,
    pub show: bool,
    pub sort: Option<i32>,
    pub renew: bool,
    pub content: Option<String>,
    pub prices: PlanPrices,
    pub reset_traffic_method: Option<i16>,
    pub capacity_limit: Option<i32>,
    pub created_at: i64,
    pub updated_at: i64,
}

#[derive(Clone, Debug, Eq, PartialEq)]
pub struct SubscriptionOverview {
    pub account: SubscriptionAccount,
    pub plan: Option<SubscriptionPlan>,
    pub reset_day: Option<i64>,
}

/// The account a subscription client sees.
#[derive(Clone, Debug, Eq, PartialEq)]
pub struct ClientSubscriptionAccount {
    pub id: i64,
    pub token: String,
    pub uuid: String,
    pub group_id: Option<i32>,
    pub plan_id: Option<i32>,
    pub banned: bool,
    pub upload: i64,
    pub download: i64,
    pub transfer_enable: i64,
    pub expired_at: Option<i64>,
}

/// A node as a subscription client sees it; protocol details stay an
/// opaque canonical string.
#[derive(Clone, Debug, Eq, PartialEq)]
pub struct ClientSubscriptionServer {
    pub id: i32,
    pub parent_id: Option<i32>,
    pub group_ids: Vec<i32>,
    pub route_ids: Option<Vec<i32>>,
    pub name: String,
    pub rate: String,
    pub kind: String,
    pub host: String,
    pub port: String,
    pub cache_key: String,
    pub last_check_at: Option<i64>,
    pub online: i16,
    pub tags: Option<Vec<String>>,
    pub sort: Option<i32>,
    pub extra_json: String,
}

#[derive(Clone, Debug, Eq, PartialEq)]
pub struct ClientSubscriptionContext {
    pub account: ClientSubscriptionAccount,
    pub servers: Vec<ClientSubscriptionServer>,
    pub plan_reset_method: Option<Option<i16>>,
}

#[derive(Clone, Copy, Debug, Eq, PartialEq, Structural)]
pub struct NewPeriodAccount {
    pub plan_id: Option<i32>,
    pub transfer_enable: i64,
    pub upload: i64,
    pub download: i64,
    pub expired_at: Option<i64>,
}

#[derive(Debug)]
pub enum SubscriptionError {
    UserNotRegistered,
    PlanUnavailable,
    RenewalDisabled,
    TrafficRemaining,
    RenewalNotAllowed,
    NotEnoughTime,
    TrafficOutOfRange,
    ResetPeriodInvalid,
    ResetPeriodOutOfRange,
    ExpiryOutOfRange,
    UpdateLost,
    Repository(RepositoryError),
}

/// When a subscription's traffic is reset.
#[derive(Clone, Copy, Debug, Eq, PartialEq, Structural)]
pub enum TrafficResetMethod {
    MonthStart,
    ExpiryDay,
    Never,
    YearStart,
    ExpiryAnniversary,
}

/// Why a new period's expiry could not be computed.
#[derive(Clone, Copy, Debug, Eq, PartialEq, Structural)]
pub enum NewPeriodError {
    NegativeDuration,
    ResetPeriodOutOfRange,
    ExpiryOutOfRange,
}

#[derive(Clone, Copy, Debug, Eq, PartialEq, Structural)]
pub enum SubscriptionTokenMethod {
    Permanent,
    OneTime,
    TimeBased,
}

#[derive(Clone, Debug, Eq, PartialEq)]
pub struct SubscriptionAccessProjection {
    pub alive_ip: i64,
    pub subscribe_url: String,
}

#[derive(Debug)]
pub enum SubscriptionAccessError {
    InvalidToken,
    Repository(RepositoryError),
}

/// Days until the next traffic reset, supplied by the deployment's calendar.
pub trait ResetCalendar {
    fn days_until_reset(&self, method: TrafficResetMethod, expired_at: i64) -> Option<i64>;
}

pub struct SubscriptionService<R, C> {
    repository: R,
    calendar: C,
}

impl<R, C> SubscriptionService<R, C> {
    pub closed spec fn spec_parts(&self) -> (R, C) {
        (self.repository, self.calendar)
    }

    pub fn new(repository: R, calendar: C) -> (s: Self)
        ensures
            s.spec_parts() == (repository, calendar),
    {
        Self { repository, calendar }
    }

    pub fn repository(&self) -> (r: &R)
        ensures
            *r == self.spec_parts().0,
    {
        &self.repository
    }

    pub fn calendar(&self) -> (r: &C)
        ensures
            *r == self.spec_parts().1,
    {
        &self.calendar
    }
}

pub struct SubscriptionAccessService<R, E> {
    repository: R,
    external: E,
}

impl<R, E> SubscriptionAccessService<R, E> {
    pub closed spec fn spec_parts(&self) -> (R, E) {
        (self.repository, self.external)
    }

    pub fn new(repository: R, external: E) -> (s: Self)
        ensures
            s.spec_parts() == (repository, external),
    {
        Self { repository, external }
    }

    pub fn repository(&self) -> (r: &R)
        ensures
            *r == self.spec_parts().0,
    {
        &self.repository
    }

    pub fn external(&self) -> (r: &E)
        ensures
            *r == self.spec_parts().1,
    {
        &self.external
    }
}

/// The reset method a code names: 0 the month start, 1 the expiry day,
/// 2 never, 3 the year start, 4 the expiry anniversary.
pub open spec fn reset_method_code(code: int) -> Option<TrafficResetMethod> {
    if code == 0 {
        Some(TrafficResetMethod::MonthStart)
    } else if code == 1 {
        Some(TrafficResetMethod::ExpiryDay)
    } else if code == 2 {
        Some(TrafficResetMethod::Never)
    } else if code == 3 {
        Some(TrafficResetMethod::YearStart)
    } else if code == 4 {
        Some(TrafficResetMethod::ExpiryAnniversary)
    } else {
        None
    }
}

/// The reset codes name the five methods one to one: 0 resets on the first
/// of the month, 1 on the expiry day, 2 never, 3 on the first of the year,
/// 4 on the expiry anniversary; no other code names a method, no two codes
/// name the same one, and every method has a code.
pub proof fn law_reset_codes_name_distinct_methods(a: int, b: int, method: TrafficResetMethod)
    ensures
        reset_method_code(0) == Some(TrafficResetMethod::MonthStart),
        reset_method_code(1) == Some(TrafficResetMethod::ExpiryDay),
        reset_method_code(2) == Some(TrafficResetMethod::Never),
        reset_method_code(3) == Some(TrafficResetMethod::YearStart),
        reset_method_code(4) == Some(TrafficResetMethod::ExpiryAnniversary),
        reset_method_code(a) is Some <==> 0 <= a <= 4,
        reset_method_code(a) is Some && reset_method_code(a) == reset_method_code(b) ==> a == b,
        exists|c: int| 0 <= c <= 4 && #[trigger] reset_method_code(c) == Some(method),
{
    match method {
        TrafficResetMethod::MonthStart => assert(reset_method_code(0) == Some(method)),
        TrafficResetMethod::ExpiryDay => assert(reset_method_code(1) == Some(method)),
        TrafficResetMethod::Never => assert(reset_method_code(2) == Some(method)),
        TrafficResetMethod::YearStart => assert(reset_method_code(3) == Some(method)),
        TrafficResetMethod::ExpiryAnniversary => assert(reset_method_code(4) == Some(method)),
    }
}

/// A plan's own reset code decides its method whatever the site default:
/// a plan set to code 0 resets on the first of the month under every
/// default, and one set to code 2 is never reset.
pub proof fn law_plan_code_overrides_default(default_method: i32)
    ensures
        reset_method_code(
            match Some(0i16) {
                Some(m) => m as int,
                None => default_method as int,
            },
        ) == Some(TrafficResetMethod::MonthStart),
        reset_method_code(
            match Some(2i16) {
                Some(m) => m as int,
                None => default_method as int,
            },
        ) == Some(TrafficResetMethod::Never),
{
}

/// A plan's own reset method, else the site default.
pub fn resolve_reset_method(plan_reset_method: Option<i16>, default_method: i32) -> (r: Option<
    TrafficResetMethod,
>)
    ensures
        r == reset_method_code(
            match plan_reset_method {
                Some(m) => m as int,
                None => default_method as int,
            },
        ),
{
    let code: i32 = match plan_reset_method {
        Some(m) => m as i32,
        None => default_method,
    };
    if code == 0 {
        Some(TrafficResetMethod::MonthStart)
    } else if code == 1 {
        Some(TrafficResetMethod::ExpiryDay)
    } else if code == 2 {
        Some(TrafficResetMethod::Never)
    } else if code == 3 {
        Some(TrafficResetMethod::YearStart)
    } else if code == 4 {
        Some(TrafficResetMethod::ExpiryAnniversary)
    } else {
        None
    }
}

/// A new-period computation failure as the use case reports it.
pub fn map_new_period_error(error: NewPeriodError) -> (r: SubscriptionError)
    ensures
        error == NewPeriodError::NegativeDuration ==> r is ResetPeriodInvalid,
        error == NewPeriodError::ResetPeriodOutOfRange ==> r is ResetPeriodOutOfRange,
        error == NewPeriodError::ExpiryOutOfRange ==> r is ExpiryOutOfRange,
{
    match error {
        NewPeriodError::NegativeDuration => SubscriptionError::ResetPeriodInvalid,
        NewPeriodError::ResetPeriodOutOfRange => SubscriptionError::ResetPeriodOutOfRange,
        NewPeriodError::ExpiryOutOfRange => SubscriptionError::ExpiryOutOfRange,
    }
}

/// An account with a plan must have that plan to show.
pub fn check_overview_plan(account: &SubscriptionAccount, plan: &Option<SubscriptionPlan>) -> (r:
    Result<(), SubscriptionError>)
    ensures
        (account.plan_id is Some && plan is None) ==> r matches Err(
            SubscriptionError::PlanUnavailable,
        ),
        !(account.plan_id is Some && plan is None) ==> r is Ok,
{
    if account.plan_id.is_some() && plan.is_none() {
        Err(SubscriptionError::PlanUnavailable)
    } else {
        Ok(())
    }
}

/// Whether the overview shows a reset day: only a subscription that has
/// not expired, on a plan, under a known reset method; the method to ask
/// the calendar for.
pub fn overview_reset_method(
    expired_at: Option<i64>,
    plan: &Option<SubscriptionPlan>,
    default_reset_method: i32,
    now: i64,
) -> (r: Option<(TrafficResetMethod, i64)>)
    ensures
        match (expired_at, plan) {
            (Some(e), Some(p)) if e > now => match resolve_reset_method_spec(
                p.reset_traffic_method,
                default_reset_method,
            ) {
                Some(m) => r == Some((m, e)),
                None => r is None,
            },
            _ => r is None,
        },
{
    match (expired_at, plan) {
        (Some(e), Some(p)) => if e > now {
            match resolve_reset_method(p.reset_traffic_method, default_reset_method) {
                Some(m) => Some((m, e)),
                None => None,
            }
        } else {
            None
        },
        _ => None,
    }
}

pub open spec fn resolve_reset_method_spec(plan_reset_method: Option<i16>, default_method: i32) -> Option<
    TrafficResetMethod,
> {
    reset_method_code(
        match plan_reset_method {
            Some(m) => m as int,
            None => default_method as int,
        },
    )
}

/// The checks before an early renewal opens its transaction.
pub fn check_renewal_enabled(allow_new_period: bool) -> (r: Result<(), SubscriptionError>)
    ensures
        allow_new_period <==> r is Ok,
        !allow_new_period ==> r matches Err(SubscriptionError::RenewalDisabled),
{
    if allow_new_period {
        Ok(())
    } else {
        Err(SubscriptionError::RenewalDisabled)
    }
}

/// The checks on a locked account before a new period: its traffic must be
/// used up, and it must have a plan and an expiry still ahead. Gives the
/// plan and the expiry.
pub fn new_period_precheck(account: &NewPeriodAccount, now: i64) -> (r: Result<
    (i32, i64),
    SubscriptionError,
>)
    ensures
        account.upload + account.download > i64::MAX || account.upload + account.download
            < i64::MIN ==> r matches Err(SubscriptionError::TrafficOutOfRange),
        i64::MIN <= account.upload + account.download <= i64::MAX && account.transfer_enable
            > account.upload + account.download ==> r matches Err(
            SubscriptionError::TrafficRemaining,
        ),
        i64::MIN <= account.upload + account.download <= i64::MAX && account.transfer_enable
            <= account.upload + account.download ==> match (account.plan_id, account.expired_at) {
            (Some(p), Some(e)) if e > now => r matches Ok((x, y)) && x == p && y == e,
            _ => r matches Err(SubscriptionError::RenewalNotAllowed),
        },
{
    let used = match account.upload.checked_add(account.download) {
        Some(u) => u,
        None => {
            return Err(SubscriptionError::TrafficOutOfRange);
        },
    };
    if account.transfer_enable > used {
        return Err(SubscriptionError::TrafficRemaining);
    }
    let plan_id = match account.plan_id {
        Some(p) => p,
        None => {
            return Err(SubscriptionError::RenewalNotAllowed);
        },
    };
    match account.expired_at {
        Some(e) => if e > now {
            Ok((plan_id, e))
        } else {
            Err(SubscriptionError::RenewalNotAllowed)
        },
        None => Err(SubscriptionError::RenewalNotAllowed),
    }
}

/// A permanent token is its own subscription token.
pub fn permanent_token(method: SubscriptionTokenMethod, presented: &str) -> (r: Option<String>)
    ensures
        method == SubscriptionTokenMethod::Permanent ==> (r matches Some(t) && t@ == presented@),
        method != SubscriptionTokenMethod::Permanent ==> r is None,
{
    match method {
        SubscriptionTokenMethod::Permanent => Some(to_owned(presented)),
        _ => None,
    }
}

/// A token lookup that found nothing is an invalid token.
pub fn token_or_invalid(token: Option<String>) -> (r: Result<String, SubscriptionAccessError>)
    ensures
        match token {
            Some(t) => r == Ok::<String, SubscriptionAccessError>(t),
            None => r matches Err(SubscriptionAccessError::InvalidToken),
        },
{
    match token {
        Some(t) => Ok(t),
        None => Err(SubscriptionAccessError::InvalidToken),
    }
}

} // verus!
