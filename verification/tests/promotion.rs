use v2board_application::promotion::{
    positive_generation_count, requested_code, validate_coupon_create, validate_coupon_patch,
    validate_gift_card_create, CouponCreateInput, CouponPatchInput, GiftCardCreateInput,
    PromotionInputViolation,
};

fn coupon_input() -> CouponCreateInput {
    CouponCreateInput {
        name: "Save".to_string(),
        kind_code: 1,
        value: 1_000,
        starts_at: 10,
        ends_at: 20,
        remaining_uses: None,
        per_user_limit: None,
        plan_ids: None,
        periods: None,
        code: Some("  SAVE  ".to_string()),
        generate_count: None,
    }
}

#[test]
fn coupon_validation_rejects_every_invalid_discount_shape() {
    for (kind_code, value, expected) in [
        (9, 10, PromotionInputViolation::CouponTypeInvalid),
        (1, -1, PromotionInputViolation::CouponValueInvalid),
        (1, i64::from(i32::MAX) + 1, PromotionInputViolation::CouponValueInvalid),
        (2, -1, PromotionInputViolation::CouponValueInvalid),
        (2, 101, PromotionInputViolation::CouponValueInvalid),
    ] {
        let mut input = coupon_input();
        input.kind_code = kind_code;
        input.value = value;
        assert_eq!(validate_coupon_create(&input), Err(expected));
    }
    let mut maximum_batch = coupon_input();
    maximum_batch.generate_count = Some(500);
    assert_eq!(validate_coupon_create(&maximum_batch), Ok(()));
}

#[test]
fn gift_card_validation_keeps_required_if_rules_explicit() {
    let mut input = GiftCardCreateInput {
        name: "Gift".to_string(),
        kind_code: 4,
        value: None,
        plan_id: None,
        starts_at: 10,
        ends_at: 20,
        remaining_uses: None,
        code: None,
        generate_count: None,
    };
    assert_eq!(validate_gift_card_create(&input), Ok(()));

    input.kind_code = 5;
    assert_eq!(
        validate_gift_card_create(&input),
        Err(PromotionInputViolation::GiftCardValueRequired)
    );
    input.value = Some(30);
    assert_eq!(
        validate_gift_card_create(&input),
        Err(PromotionInputViolation::GiftCardPlanRequired)
    );
    input.plan_id = Some(7);
    assert_eq!(validate_gift_card_create(&input), Ok(()));

    input.kind_code = 6;
    assert_eq!(
        validate_gift_card_create(&input),
        Err(PromotionInputViolation::GiftCardTypeInvalid)
    );
    input.kind_code = 3;
    input.value = Some(-1);
    assert_eq!(
        validate_gift_card_create(&input),
        Err(PromotionInputViolation::GiftCardValueInvalid)
    );
}

#[test]
fn blank_codes_mean_generate_or_retain_without_a_compatibility_branch() {
    assert_eq!(requested_code(None), None);
    assert_eq!(requested_code(Some("   ")), None);
    assert_eq!(requested_code(Some("  SAVE  ")), Some("SAVE".to_string()));
    assert_eq!(positive_generation_count(Some(-1)), None);
    assert_eq!(positive_generation_count(Some(0)), None);
    assert_eq!(positive_generation_count(Some(3)), Some(3));
}

#[test]
fn oversized_coupon_batches_are_refused_first() {
    let mut input = coupon_input();
    input.generate_count = Some(501);
    input.kind_code = 9;
    assert_eq!(
        validate_coupon_create(&input),
        Err(PromotionInputViolation::CouponGenerateCountTooLarge)
    );
}

#[test]
fn coupon_patch_checks_the_percentage_bound_only_with_its_kind() {
    let patch = CouponPatchInput { value: Some(150), ..CouponPatchInput::default() };
    assert_eq!(validate_coupon_patch(&patch), Ok(()));
    let patch = CouponPatchInput { kind_code: Some(2), value: Some(150), ..CouponPatchInput::default() };
    assert_eq!(validate_coupon_patch(&patch), Err(PromotionInputViolation::CouponValueInvalid));
    let patch = CouponPatchInput { kind_code: Some(3), ..CouponPatchInput::default() };
    assert_eq!(validate_coupon_patch(&patch), Err(PromotionInputViolation::CouponTypeInvalid));
}

use v2board_application::promotion::{create_result, resolve_sort, CreateCodeOutcome, PromotionError};

#[test]
fn invalid_generation_fails_before_the_repository() {
    let mut input = coupon_input();
    input.generate_count = Some(501);
    assert_eq!(
        validate_coupon_create(&input),
        Err(PromotionInputViolation::CouponGenerateCountTooLarge)
    );
}

#[test]
fn sort_and_duplicate_outcomes_remain_typed() {
    assert!(matches!(
        resolve_sort(Some("name"), None),
        Err(PromotionError::InvalidSortBy(field)) if field == "name"
    ));
    assert!(matches!(
        create_result(CreateCodeOutcome::DuplicateCode, PromotionError::DuplicateCouponCode),
        Err(PromotionError::DuplicateCouponCode)
    ));
}
