use v2board_application::reconciliation::{
    checked_payment_id, resolution_filter, resolution_note, resolve_result,
    ReconciliationError, ReconciliationIdentityHasher, ReconciliationInputViolation,
    ReconciliationService, ResolutionFilter, ResolveReconciliationOutcome,
};

struct LengthHasher;

impl ReconciliationIdentityHasher for LengthHasher {
    fn spec_hash(&self, _value: vstd::seq::Seq<char>) -> [u8; 32] {
        unreachable!("a specification is never run")
    }

    fn hash(&self, value: &str) -> [u8; 32] {
        [u8::try_from(value.len()).unwrap_or(u8::MAX); 32]
    }
}

#[test]
fn list_normalizes_named_filters_before_the_repository() {
    let service = ReconciliationService::new((), LengthHasher);
    let query = service
        .reconciliation_query(
            10,
            20,
            Some("resolved"),
            Some(7),
            Some("amount_mismatch".to_string()),
            Some("trade"),
            Some("callback"),
        )
        .unwrap();
    assert_eq!(query.resolution, ResolutionFilter::Resolved);
    assert_eq!(query.payment_id, Some(7));
    assert_eq!(query.trade_no_hash, Some([5; 32]));
    assert_eq!(query.callback_no_hash, Some([8; 32]));
    assert_eq!(query.reason.as_deref(), Some("amount_mismatch"));
    assert_eq!((query.limit, query.offset), (10, 20));
}

#[test]
fn invalid_filters_and_notes_fail_before_persistence() {
    let service = ReconciliationService::new((), LengthHasher);
    assert!(matches!(
        service.reconciliation_query(10, 0, Some("maybe"), None, None, None, None),
        Err(ReconciliationError::InvalidInput(
            ReconciliationInputViolation::InvalidResolutionFilter
        ))
    ));
    assert!(matches!(
        resolution_note(" ".to_string()),
        Err(ReconciliationError::InvalidInput(ReconciliationInputViolation::EmptyResolution))
    ));
}

#[test]
fn idempotent_and_conflicting_resolution_outcomes_stay_distinct() {
    assert!(resolve_result(ResolveReconciliationOutcome::AlreadyResolvedIdentically).is_ok());
    assert!(matches!(
        resolve_result(ResolveReconciliationOutcome::AlreadyProcessed),
        Err(ReconciliationError::AlreadyProcessed)
    ));
}

#[test]
fn every_filter_spelling_is_read() {
    for (spelling, filter) in [
        (None, ResolutionFilter::Open),
        (Some("0"), ResolutionFilter::Open),
        (Some("unresolved"), ResolutionFilter::Open),
        (Some("open"), ResolutionFilter::Open),
        (Some("1"), ResolutionFilter::Resolved),
        (Some("closed"), ResolutionFilter::Resolved),
        (Some("all"), ResolutionFilter::All),
    ] {
        assert_eq!(resolution_filter(spelling).unwrap(), filter);
    }
    assert!(resolution_filter(Some("ALL")).is_err());
}

#[test]
fn payment_ids_must_fit_the_stored_width() {
    assert_eq!(checked_payment_id(None).unwrap(), None);
    assert_eq!(checked_payment_id(Some(-3)).unwrap(), Some(-3));
    assert!(matches!(
        checked_payment_id(Some(i64::from(i32::MAX) + 1)),
        Err(ReconciliationError::InvalidInput(ReconciliationInputViolation::PaymentIdOutOfRange))
    ));
    let service = ReconciliationService::new((), LengthHasher);
    assert!(matches!(
        service.reconciliation_query(1, 0, None, Some(i64::MIN), None, None, None),
        Err(ReconciliationError::InvalidInput(ReconciliationInputViolation::PaymentIdOutOfRange))
    ));
    let query = service.reconciliation_query(1, 0, None, None, None, None, None).unwrap();
    assert_eq!(query.trade_no_hash, None);
    assert_eq!(query.callback_no_hash, None);
}

#[test]
fn notes_are_trimmed_and_bounded_in_characters() {
    assert_eq!(resolution_note("  checked  ".to_string()).unwrap(), "checked");
    let longest = "é".repeat(160);
    assert_eq!(resolution_note(format!(" {longest} ")).unwrap(), longest);
    assert!(matches!(
        resolution_note("é".repeat(161)),
        Err(ReconciliationError::InvalidInput(ReconciliationInputViolation::ResolutionTooLong))
    ));
    assert!(matches!(
        resolve_result(ResolveReconciliationOutcome::EncodedResolutionTooLong),
        Err(ReconciliationError::InvalidInput(ReconciliationInputViolation::ResolutionTooLong))
    ));
    assert!(matches!(
        resolve_result(ResolveReconciliationOutcome::NotFound),
        Err(ReconciliationError::NotFound)
    ));
    assert!(resolve_result(ResolveReconciliationOutcome::Resolved).is_ok());
}
