use v2board_application::order::OrderNumberGenerator;
use v2board_application::order_jobs::{
    actual_commission_balance, commission_pool, may_claim_more, mark_ready_step, renewal_request,
    renewal_write, renewal_write_at, CommissionOrder, CommissionPayout, CommissionRunOutcome, RenewalCalendar,
    RenewalCandidateOutcome, RenewalDecision, RenewalRunOutcome, RenewalSnapshot,
};
use v2board_application::plan::PlanPricePeriod;

struct FixedNumbers;

impl OrderNumberGenerator for FixedNumbers {
    fn spec_issues(&self, _trade_no: vstd::seq::Seq<char>) -> bool {
        unreachable!("a specification is never run")
    }

    fn generate(&self) -> String {
        "renewal-trade".into()
    }
}

struct FixedCalendar;

impl RenewalCalendar for FixedCalendar {
    fn spec_add_months(&self, _timestamp: i64, _months: u32) -> Option<i64> {
        unreachable!("a specification is never run")
    }

    fn add_months(&self, timestamp: i64, months: u32) -> Option<i64> {
        Some(timestamp + i64::from(months) * 30 * 86_400)
    }
}

fn snapshot(expired_at: i64) -> RenewalSnapshot {
    RenewalSnapshot {
        user_id: 7,
        balance: 1_000,
        plan_id: 3,
        expired_at,
        period: Some(PlanPricePeriod::Month),
        price: Some(500),
        plan_allows_renewal: true,
    }
}

#[test]
fn invalid_or_expired_renewal_is_disabled_without_minting_an_order() {
    assert!(renewal_request(&snapshot(1_000), 1_000).is_none());
}

#[test]
fn a_live_renewal_is_decided_on_its_snapshot() {
    let request = renewal_request(&snapshot(2_000), 1_000).unwrap();
    assert_eq!(request.current_expiry, 2_000);
    assert_eq!(request.balance, 1_000);
    assert_eq!(request.period, PlanPricePeriod::Month);
    assert_eq!(request.plan_price, Some(500));
    let mut no_period = snapshot(2_000);
    no_period.period = None;
    assert!(renewal_request(&no_period, 1_000).is_none());
    let mut in_debt = snapshot(2_000);
    in_debt.balance = -1;
    assert!(renewal_request(&in_debt, 1_000).is_none());
}

#[test]
fn a_decided_renewal_writes_a_fresh_order_and_the_extended_expiry() {
    let write = renewal_write(
        RenewalDecision::Renew { debit: 500, extension_base: 2_000, months: 1 },
        PlanPricePeriod::Month,
        1_000,
        &FixedCalendar,
        &FixedNumbers,
    )
    .unwrap();
    assert_eq!(write.debit, 500);
    assert_eq!(write.trade_no, "renewal-trade");
    assert_eq!(write.expired_at, 2_000 + 30 * 86_400);
    assert_eq!(write.now, 1_000);
    assert!(renewal_write(
        RenewalDecision::Disable,
        PlanPricePeriod::Month,
        1_000,
        &FixedCalendar,
        &FixedNumbers
    )
    .is_none());
}

#[test]
fn a_renewal_write_carries_the_issued_number_and_date() {
    let renew = RenewalDecision::Renew { debit: 700, extension_base: 10, months: 12 };
    let write =
        renewal_write_at(renew, PlanPricePeriod::Year, 5, "trade-7".to_string(), Some(99)).unwrap();
    assert_eq!(write.trade_no, "trade-7");
    assert_eq!((write.debit, write.expired_at, write.now), (700, 99, 5));
    assert_eq!(write.period, PlanPricePeriod::Year);
    assert!(renewal_write_at(renew, PlanPricePeriod::Year, 5, "trade-7".to_string(), None).is_none());
    assert!(renewal_write_at(
        RenewalDecision::Disable,
        PlanPricePeriod::Year,
        5,
        "trade-7".to_string(),
        Some(99)
    )
    .is_none());
}

#[test]
fn the_settled_commission_is_added_up_exactly() {
    let payouts = vec![CommissionPayout { inviter_id: 9, amount: 50 }];
    assert_eq!(actual_commission_balance(None, &payouts), Some(50));
    assert_eq!(actual_commission_balance(Some(25), &payouts), Some(75));
    assert_eq!(actual_commission_balance(Some(i32::MAX), &payouts), None);
    assert_eq!(actual_commission_balance(Some(3), &Vec::new()), Some(3));
}

#[test]
fn a_negative_commission_pool_is_refused() {
    let mut order = CommissionOrder {
        id: 1,
        invite_user_id: 9,
        user_id: 7,
        trade_no: "commission-trade".into(),
        total_amount: 1_000,
        commission_balance: 100,
        actual_commission_balance: None,
    };
    assert_eq!(commission_pool(&order), Some(100));
    order.commission_balance = -1;
    assert_eq!(commission_pool(&order), None);
}

#[test]
fn commission_runs_are_bounded() {
    assert!(may_claim_more(0, 1));
    assert!(!may_claim_more(1, 1));
    assert!(!may_claim_more(u64::MAX, usize::MAX));
    assert_eq!(mark_ready_step(10, 100, 100), (110, true));
    assert_eq!(mark_ready_step(10, 99, 100), (109, false));
    let mut outcome = CommissionRunOutcome::default();
    outcome.record_processed();
    outcome.record_failure(1, "trade".to_string(), "boom".to_string());
    assert_eq!(outcome.processed, 1);
    assert_eq!(outcome.failures.len(), 1);
    assert_eq!(outcome.failures[0].reference, "trade");
}

#[test]
fn renewal_outcomes_are_tallied() {
    let mut outcome = RenewalRunOutcome::default();
    outcome.record(RenewalCandidateOutcome::Renewed);
    outcome.record(RenewalCandidateOutcome::Disabled);
    outcome.record(RenewalCandidateOutcome::Skipped);
    outcome.record_failure(-42, "lost".to_string());
    assert_eq!(
        (outcome.examined, outcome.renewed, outcome.disabled, outcome.skipped),
        (4, 1, 1, 1)
    );
    assert_eq!(outcome.failures[0].reference, "-42");
    assert_eq!(outcome.failures[0].id, -42);
}
