//! Coupons and gift cards: listing order, code requests, batch sizes and the
//! discount and reward shapes an operator may create.
use vstd::prelude::*;

use crate::RepositoryError;
use crate::text::{str_eq, to_owned, trim, trim_str};

verus! {

#[derive(Clone, Copy, Debug, Eq, PartialEq, Structural)]
pub enum CodeSort {
    CreatedAtAscending,
    CreatedAtDescending,
}

#[derive(Clone, Copy, Debug, Eq, PartialEq, Structural)]
pub struct PageRequest {
    pub limit: i64,
    pub offset: i64,
    pub sort: CodeSort,
}

#[derive(Clone, Debug, Eq, PartialEq)]
pub struct AdminCoupon {
    pub id: i32,
    pub code: String,
    pub name: String,
    pub kind_code: i16,
    pub value: i32,
    pub visible: bool,
    pub remaining_uses: Option<i32>,
    pub per_user_limit: Option<i32>,
    pub plan_ids: Option<Vec<i64>>,
    pub periods: Option<Vec<String>>,
    pub starts_at: i64,
    pub ends_at: i64,
    pub created_at: i64,
    pub updated_at: i64,
}

#[derive(Clone, Debug, Eq, PartialEq)]
pub struct CouponPage {
    pub items: Vec<AdminCoupon>,
    pub total: i64,
}

#[derive(Clone, Debug, Eq, PartialEq)]
pub struct GiftCard {
    pub id: i32,
    pub code: String,
    pub name: String,
    pub kind_code: i16,
    pub value: Option<i32>,
    pub plan_id: Option<i32>,
    pub remaining_uses: Option<i32>,
    pub redeemed_user_ids: Vec<i64>,
    pub starts_at: i64,
    pub ends_at: i64,
    pub created_at: i64,
    pub updated_at: i64,
}

#[derive(Clone, Debug, Eq, PartialEq)]
pub struct GiftCardPage {
    pub items: Vec<GiftCard>,
    pub total: i64,
}

#[derive(Clone, Debug, Eq, PartialEq)]
pub struct CouponCreateInput {
    pub name: String,
    pub kind_code: i64,
    pub value: i64,
    pub starts_at: i64,
    pub ends_at: i64,
    pub remaining_uses: Option<i64>,
    pub per_user_limit: Option<i64>,
    pub plan_ids: Option<Vec<i64>>,
    pub periods: Option<Vec<String>>,
    pub code: Option<String>,
    pub generate_count: Option<i64>,
}

#[derive(Clone, Debug, Eq, PartialEq)]
pub struct NewCoupon {
    pub input: CouponCreateInput,
    pub requested_code: Option<String>,
    pub created_at: i64,
}

#[derive(Clone, Debug, Default, Eq, PartialEq)]
pub struct CouponPatchInput {
    pub name: Option<String>,
    pub kind_code: Option<i64>,
    pub value: Option<i64>,
    pub starts_at: Option<i64>,
    pub ends_at: Option<i64>,
    pub remaining_uses: Option<Option<i64>>,
    pub per_user_limit: Option<Option<i64>>,
    pub plan_ids: Option<Option<Vec<i64>>>,
    pub periods: Option<Option<Vec<String>>>,
    pub code: Option<String>,
    pub visible: Option<bool>,
}

#[derive(Clone, Debug, Eq, PartialEq)]
pub struct CouponChanges {
    pub input: CouponPatchInput,
    pub requested_code: Option<String>,
    pub updated_at: i64,
}

#[derive(Clone, Debug, Eq, PartialEq)]
pub struct GiftCardCreateInput {
    pub name: String,
    pub kind_code: i64,
    pub value: Option<i64>,
    pub plan_id: Option<i64>,
    pub starts_at: i64,
    pub ends_at: i64,
    pub remaining_uses: Option<i64>,
    pub code: Option<String>,
    pub generate_count: Option<i64>,
}

#[derive(Clone, Debug, Eq, PartialEq)]
pub struct NewGiftCard {
    pub input: GiftCardCreateInput,
    pub requested_code: Option<String>,
    pub created_at: i64,
}

#[derive(Clone, Debug, Default, Eq, PartialEq)]
pub struct GiftCardPatchInput {
    pub name: Option<String>,
    pub kind_code: Option<i64>,
    pub value: Option<Option<i64>>,
    pub plan_id: Option<Option<i64>>,
    pub starts_at: Option<i64>,
    pub ends_at: Option<i64>,
    pub remaining_uses: Option<Option<i64>>,
    pub code: Option<String>,
}

#[derive(Clone, Debug, Eq, PartialEq)]
pub struct GiftCardChanges {
    pub input: GiftCardPatchInput,
    pub requested_code: Option<String>,
    pub updated_at: i64,
}

#[derive(Clone, Copy, Debug, Eq, PartialEq, Structural)]
pub enum CreateCodeOutcome {
    Created(i32),
    DuplicateCode,
}

#[derive(Clone, Copy, Debug, Eq, PartialEq, Structural)]
pub enum PatchCodeOutcome {
    Updated,
    NotFound,
    DuplicateCode,
}

#[derive(Clone, Copy, Debug, Eq, PartialEq, Structural)]
pub enum DeleteCodeOutcome {
    Deleted,
    NotFound,
}

#[derive(Clone, Debug, Eq, PartialEq)]
pub enum GenerateCodeOutcome {
    Created(i32),
    Batch(Vec<String>),
}

#[derive(Clone, Copy, Debug, Eq, PartialEq, Structural)]
pub enum PromotionInputViolation {
    CouponGenerateCountTooLarge,
    CouponTypeInvalid,
    CouponValueInvalid,
    GiftCardGenerateCountTooLarge,
    GiftCardTypeInvalid,
    GiftCardValueRequired,
    GiftCardValueInvalid,
    GiftCardPlanRequired,
}

/// The promotion failures decided in this library; a coupon that the
/// coupon rules refuse is reported by the caller that ran those rules.
#[derive(Debug)]
pub enum PromotionError {
    InvalidInput(PromotionInputViolation),
    InvalidSortBy(String),
    InvalidSortDirection(String),
    CouponCodeEmpty,
    CouponInvalid,
    CouponNotFound,
    GiftCardNotFound,
    DuplicateCouponCode,
    DuplicateGiftCardCode,
    Repository(RepositoryError),
}

pub struct PromotionService<R> {
    repository: R,
}

impl<R> PromotionService<R> {
    pub closed spec fn spec_repository(&self) -> R {
        self.repository
    }

    pub fn new(repository: R) -> (s: Self)
        ensures
            s.spec_repository() == repository,
    {
        Self { repository }
    }

    pub fn repository(&self) -> (r: &R)
        ensures
            *r == self.spec_repository(),
    {
        &self.repository
    }
}

/// Codes are listed by creation time only; descending unless `asc` is
/// asked for.
pub fn resolve_sort(sort_by: Option<&str>, sort_direction: Option<&str>) -> (r: Result<
    CodeSort,
    PromotionError,
>)
    ensures
        match sort_by {
            Some(f) if f@ != "created_at"@ => r matches Err(PromotionError::InvalidSortBy(x))
                && x@ == f@,
            _ => match sort_direction {
                None => r matches Ok(CodeSort::CreatedAtDescending),
                Some(d) => if d@ == "desc"@ {
                    r matches Ok(CodeSort::CreatedAtDescending)
                } else if d@ == "asc"@ {
                    r matches Ok(CodeSort::CreatedAtAscending)
                } else {
                    r matches Err(PromotionError::InvalidSortDirection(x)) && x@ == d@
                },
            },
        },
{
    match sort_by {
        Some(field) => if !str_eq(field, "created_at") {
            return Err(PromotionError::InvalidSortBy(to_owned(field)));
        },
        None => {},
    }
    match sort_direction {
        None => Ok(CodeSort::CreatedAtDescending),
        Some(direction) => if str_eq(direction, "desc") {
            Ok(CodeSort::CreatedAtDescending)
        } else if str_eq(direction, "asc") {
            Ok(CodeSort::CreatedAtAscending)
        } else {
            Err(PromotionError::InvalidSortDirection(to_owned(direction)))
        },
    }
}

/// A batch is asked for by a positive count.
pub fn positive_generation_count(count: Option<i64>) -> (r: Option<usize>)
    ensures
        match count {
            Some(c) if c > 0 && c <= usize::MAX => r == Some(c as usize),
            _ => r is None,
        },
{
    match count {
        Some(c) => if c > 0 && (c as u64) <= (usize::MAX as u64) {
            Some(c as usize)
        } else {
            None
        },
        None => None,
    }
}

/// A requested code is the trimmed code when it is not blank; a blank code
/// means "generate one" on create and "keep it" on patch.
pub fn requested_code(code: Option<&str>) -> (r: Option<String>)
    ensures
        match code {
            Some(c) if trim(c@).len() > 0 => r matches Some(t) && t@ == trim(c@),
            _ => r is None,
        },
{
    match code {
        Some(c) => {
            let t = trim_str(c);
            if crate::text::chars_of(t.as_str()).len() > 0 {
                Some(t)
            } else {
                None
            }
        },
        None => None,
    }
}

/// Coupon kinds: 1 is a fixed amount, 2 a percentage.
pub open spec fn coupon_kind_ok(kind_code: i64) -> bool {
    kind_code == 1 || kind_code == 2
}

/// A discount is a non-negative `i32`, and a percentage is at most 100.
pub open spec fn coupon_value_ok(kind_code: Option<i64>, value: i64) -> bool {
    0 <= value <= i32::MAX && !(kind_code == Some(2i64) && value > 100)
}

pub fn validate_coupon_create(input: &CouponCreateInput) -> (r: Result<(), PromotionInputViolation>)
    ensures
        r == (if input.generate_count matches Some(c) && c > 500 {
            Err(PromotionInputViolation::CouponGenerateCountTooLarge)
        } else if !coupon_kind_ok(input.kind_code) {
            Err(PromotionInputViolation::CouponTypeInvalid)
        } else if !coupon_value_ok(Some(input.kind_code), input.value) {
            Err(PromotionInputViolation::CouponValueInvalid)
        } else {
            Ok(())
        }),
{
    match input.generate_count {
        Some(c) => if c > 500 {
            return Err(PromotionInputViolation::CouponGenerateCountTooLarge);
        },
        None => {},
    }
    if !(input.kind_code == 1 || input.kind_code == 2) {
        return Err(PromotionInputViolation::CouponTypeInvalid);
    }
    if !(0 <= input.value && input.value <= i32::MAX as i64) || (input.kind_code == 2
        && input.value > 100) {
        return Err(PromotionInputViolation::CouponValueInvalid);
    }
    Ok(())
}

pub fn validate_coupon_patch(input: &CouponPatchInput) -> (r: Result<(), PromotionInputViolation>)
    ensures
        r == (if input.kind_code matches Some(k) && !coupon_kind_ok(k) {
            Err(PromotionInputViolation::CouponTypeInvalid)
        } else if input.value matches Some(v) && !coupon_value_ok(input.kind_code, v) {
            Err(PromotionInputViolation::CouponValueInvalid)
        } else {
            Ok(())
        }),
{
    match input.kind_code {
        Some(k) => if !(k == 1 || k == 2) {
            return Err(PromotionInputViolation::CouponTypeInvalid);
        },
        None => {},
    }
    match input.value {
        Some(v) => {
            let percentage = match input.kind_code {
                Some(k) => k == 2,
                None => false,
            };
            if !(0 <= v && v <= i32::MAX as i64) || (percentage && v > 100) {
                return Err(PromotionInputViolation::CouponValueInvalid);
            }
        },
        None => {},
    }
    Ok(())
}

/// Gift card kinds are 1 to 5.
pub open spec fn gift_kind_ok(kind_code: i64) -> bool {
    1 <= kind_code <= 5
}

/// Every kind but 4 carries a value.
pub open spec fn gift_value_required(kind_code: i64) -> bool {
    kind_code == 1 || kind_code == 2 || kind_code == 3 || kind_code == 5
}

pub open spec fn gift_value_ok(value: i64) -> bool {
    0 <= value <= i32::MAX
}

pub fn validate_gift_card_create(input: &GiftCardCreateInput) -> (r: Result<
    (),
    PromotionInputViolation,
>)
    ensures
        r == (if input.generate_count matches Some(c) && c > 500 {
            Err(PromotionInputViolation::GiftCardGenerateCountTooLarge)
        } else if !gift_kind_ok(input.kind_code) {
            Err(PromotionInputViolation::GiftCardTypeInvalid)
        } else if input.value is None && gift_value_required(input.kind_code) {
            Err(PromotionInputViolation::GiftCardValueRequired)
        } else if input.value matches Some(v) && !gift_value_ok(v) {
            Err(PromotionInputViolation::GiftCardValueInvalid)
        } else if input.kind_code == 5 && input.plan_id is None {
            Err(PromotionInputViolation::GiftCardPlanRequired)
        } else {
            Ok(())
        }),
{
    match input.generate_count {
        Some(c) => if c > 500 {
            return Err(PromotionInputViolation::GiftCardGenerateCountTooLarge);
        },
        None => {},
    }
    if !(1 <= input.kind_code && input.kind_code <= 5) {
        return Err(PromotionInputViolation::GiftCardTypeInvalid);
    }
    match input.value {
        None => if input.kind_code == 1 || input.kind_code == 2 || input.kind_code == 3
            || input.kind_code == 5 {
            return Err(PromotionInputViolation::GiftCardValueRequired);
        },
        Some(v) => if !(0 <= v && v <= i32::MAX as i64) {
            return Err(PromotionInputViolation::GiftCardValueInvalid);
        },
    }
    if input.kind_code == 5 && input.plan_id.is_none() {
        return Err(PromotionInputViolation::GiftCardPlanRequired);
    }
    Ok(())
}

pub fn validate_gift_card_patch(input: &GiftCardPatchInput) -> (r: Result<
    (),
    PromotionInputViolation,
>)
    ensures
        r == (if input.kind_code matches Some(k) && !gift_kind_ok(k) {
            Err(PromotionInputViolation::GiftCardTypeInvalid)
        } else if input.value matches Some(Some(v)) && !gift_value_ok(v) {
            Err(PromotionInputViolation::GiftCardValueInvalid)
        } else {
            Ok(())
        }),
{
    match input.kind_code {
        Some(k) => if !(1 <= k && k <= 5) {
            return Err(PromotionInputViolation::GiftCardTypeInvalid);
        },
        None => {},
    }
    match input.value {
        Some(Some(v)) => if !(0 <= v && v <= i32::MAX as i64) {
            return Err(PromotionInputViolation::GiftCardValueInvalid);
        },
        _ => {},
    }
    Ok(())
}

/// The answer to a single-code creation from the store.
pub fn create_result(outcome: CreateCodeOutcome, duplicate: PromotionError) -> (r: Result<
    GenerateCodeOutcome,
    PromotionError,
>)
    ensures
        match outcome {
            CreateCodeOutcome::Created(id) => r matches Ok(GenerateCodeOutcome::Created(x)) && x
                == id,
            CreateCodeOutcome::DuplicateCode => r matches Err(e) && e == duplicate,
        },
{
    match outcome {
        CreateCodeOutcome::Created(id) => Ok(GenerateCodeOutcome::Created(id)),
        CreateCodeOutcome::DuplicateCode => Err(duplicate),
    }
}

/// The answer to a code patch from the store.
pub fn patch_result(
    outcome: PatchCodeOutcome,
    missing: PromotionError,
    duplicate: PromotionError,
) -> (r: Result<(), PromotionError>)
    ensures
        outcome == PatchCodeOutcome::Updated ==> r is Ok,
        outcome == PatchCodeOutcome::NotFound ==> (r matches Err(e) && e == missing),
        outcome == PatchCodeOutcome::DuplicateCode ==> (r matches Err(e) && e == duplicate),
{
    match outcome {
        PatchCodeOutcome::Updated => Ok(()),
        PatchCodeOutcome::NotFound => Err(missing),
        PatchCodeOutcome::DuplicateCode => Err(duplicate),
    }
}

/// The answer to a code deletion from the store.
pub fn delete_result(outcome: DeleteCodeOutcome, missing: PromotionError) -> (r: Result<
    (),
    PromotionError,
>)
    ensures
        outcome == DeleteCodeOutcome::Deleted ==> r is Ok,
        outcome == DeleteCodeOutcome::NotFound ==> (r matches Err(e) && e == missing),
{
    match outcome {
        DeleteCodeOutcome::Deleted => Ok(()),
        DeleteCodeOutcome::NotFound => Err(missing),
    }
}

/// A coupon check needs a non-blank code.
pub fn check_coupon_code(code: &str) -> (r: Result<(), PromotionError>)
    ensures
        r is Ok <==> trim(code@).len() > 0,
        r is Err ==> r matches Err(PromotionError::CouponCodeEmpty),
{
    if crate::text::is_blank(code) {
        Err(PromotionError::CouponCodeEmpty)
    } else {
        Ok(())
    }
}

} // verus!
