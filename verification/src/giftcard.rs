//! Gift-card redemption: the code a user types and the plan facts a
//! redemption reads.
use vstd::prelude::*;

use crate::text::{chars_of, trim, trim_str};

verus! {

#[derive(Clone, Copy, Debug, Eq, PartialEq, Structural)]
pub struct GiftCardRedemption {
    pub kind: i16,
    pub value: Option<i32>,
}

#[derive(Clone, Copy, Debug, Eq, PartialEq, Structural)]
pub struct GiftCardPlan {
    pub id: i32,
    pub group_id: i32,
    pub transfer_gib: i64,
    pub device_limit: Option<i32>,
    pub capacity_limit: Option<i32>,
}

#[derive(Clone, Copy, Debug, Default, Eq, PartialEq, Structural)]
pub struct GiftCardPlanCapacity {
    pub used: i64,
    pub has_existing_reservation: bool,
}

/// The redemption failures decided before the card rules run.
#[derive(Debug)]
pub enum GiftCardError {
    CodeRequired,
    UserNotRegistered,
    NotFound,
    Repository(crate::RepositoryError),
}

pub struct GiftCardService<R> {
    repository: R,
}

impl<R> GiftCardService<R> {
    pub closed spec fn spec_repository(&self) -> R {
        self.repository
    }

    pub fn new(repository: R) -> (s: Self)
        ensures
            s.spec_repository() == repository,
    {
        Self { repository }
    }

    pub fn repository(&self) -> (r: &R)
        ensures
            *r == self.spec_repository(),
    {
        &self.repository
    }
}

/// The code to redeem: the typed code without surrounding whitespace, which
/// must not be empty.
pub fn redemption_code(code: &str) -> (r: Result<String, GiftCardError>)
    ensures
        trim(code@).len() > 0 ==> (r matches Ok(c) && c@ == trim(code@)),
        trim(code@).len() == 0 ==> r matches Err(GiftCardError::CodeRequired),
{
    let t = trim_str(code);
    if chars_of(t.as_str()).len() == 0 {
        Err(GiftCardError::CodeRequired)
    } else {
        Ok(t)
    }
}

/// The capacity facts of a plan: none are read for a plan without a limit.
pub fn unlimited_capacity() -> (r: GiftCardPlanCapacity)
    ensures
        r.used == 0 && !r.has_existing_reservation,
{
    GiftCardPlanCapacity { used: 0, has_existing_reservation: false }
}

/// The locked user and card of a redemption: an unknown user is refused
/// first, then an unknown card.
pub fn redemption_subjects<U, G>(user: Option<U>, card: Option<G>) -> (r: Result<
    (U, G),
    GiftCardError,
>)
    ensures
        user is None ==> r matches Err(GiftCardError::UserNotRegistered),
        user is Some && card is None ==> r matches Err(GiftCardError::NotFound),
        user is Some && card is Some ==> (r matches Ok((v, g)) && Some(v) == user && Some(g)
            == card),
{
    let u = match user {
        Some(u) => u,
        None => return Err(GiftCardError::UserNotRegistered),
    };
    match card {
        Some(g) => Ok((u, g)),
        None => Err(GiftCardError::NotFound),
    }
}

/// Whether a plan's capacity facts must be read: only for a plan with a
/// capacity limit.
pub fn capacity_needed(plan: &GiftCardPlan) -> (r: bool)
    ensures
        r == plan.capacity_limit is Some,
{
    plan.capacity_limit.is_some()
}

} // verus!
