use v2board_application::plan::{
    create_result, delete_result, patch_result, plan_id, sort_result, CreatePlanOutcome,
    DeletePlanOutcome, PatchPlanOutcome, PlanError, PlanReference, SortPlansOutcome,
};

#[test]
fn concurrency_and_reference_outcomes_remain_business_errors() {
    assert!(matches!(patch_result(PatchPlanOutcome::UpdateConflict), Err(PlanError::UpdateConflict)));
    assert!(matches!(
        delete_result(DeletePlanOutcome::InUse(PlanReference::GiftCard)),
        Err(PlanError::PlanInUse(PlanReference::GiftCard))
    ));
}

#[test]
fn every_repository_outcome_is_mapped_without_transport_or_database_types() {
    assert!(matches!(
        create_result(CreatePlanOutcome::ServerGroupNotFound),
        Err(PlanError::ServerGroupNotFound)
    ));
    for (outcome, expected) in [
        (PatchPlanOutcome::PlanNotFound, PlanError::PlanNotFound),
        (PatchPlanOutcome::ServerGroupNotFound, PlanError::ServerGroupNotFound),
        (PatchPlanOutcome::ForceUpdateLimitExceeded, PlanError::ForceUpdateLimitExceeded),
    ] {
        let error = patch_result(outcome).expect_err("repository outcome must remain a business error");
        assert_eq!(format!("{error:?}"), format!("{expected:?}"));
    }
    assert!(matches!(sort_result(SortPlansOutcome::PlanSetChanged), Err(PlanError::UpdateConflict)));
}

#[test]
fn out_of_range_path_ids_fail_before_the_persistence_port() {
    assert!(matches!(plan_id(i64::from(i32::MAX) + 1), Err(PlanError::PlanNotFound)));
}

#[test]
fn store_answers_that_succeed_pass_through() {
    assert_eq!(create_result(CreatePlanOutcome::Created(7)).unwrap(), 7);
    assert!(patch_result(PatchPlanOutcome::Updated).is_ok());
    assert!(delete_result(DeletePlanOutcome::Deleted).is_ok());
    assert!(matches!(delete_result(DeletePlanOutcome::PlanNotFound), Err(PlanError::PlanNotFound)));
    assert!(sort_result(SortPlansOutcome::Sorted).is_ok());
    assert_eq!(plan_id(-5).unwrap(), -5);
}
