use v2board_application::maintenance::{
    batch_was_full, record_reset, reset_batch_step, reset_facts_at, retention_step, scheduled_reset_facts,
    scheduled_reset_policy, CalendarDay, ResetBatchStep, RetentionCutoff, RetentionDataset,
    ScheduledResetCandidate, ScheduledTrafficResetOutcome, ScheduledTrafficResetPolicy,
    ScheduledTrafficResetRun, TrafficResetCalendar,
};
use v2board_application::subscription::TrafficResetMethod;

#[test]
fn retention_is_bounded_per_dataset() {
    let cutoffs = [
        RetentionCutoff { dataset: RetentionDataset::UserTraffic, before: 10 },
        RetentionCutoff { dataset: RetentionDataset::SystemLog, before: 20 },
    ];
    let batch_size = 5;
    let max_batches_per_dataset = 3;
    let mut calls: Vec<(RetentionDataset, u64)> = Vec::new();
    let mut deleted_total = 0_u64;
    for cutoff in cutoffs {
        for _ in 0..max_batches_per_dataset {
            let prior = calls.iter().filter(|(dataset, _)| *dataset == cutoff.dataset).count();
            let deleted = if prior == 0 { 5 } else { 2 };
            calls.push((cutoff.dataset, deleted));
            let (total, more) = retention_step(deleted_total, deleted, batch_size);
            deleted_total = total;
            if !more {
                break;
            }
        }
    }
    assert_eq!(deleted_total, 14);
    assert_eq!(calls.len(), 4);
}

#[test]
fn batches_go_on_only_after_a_full_one() {
    assert!(batch_was_full(5, 5));
    assert!(batch_was_full(6, 5));
    assert!(!batch_was_full(4, 5));
    assert!(!batch_was_full(u64::MAX - 1, -1));
    assert!(batch_was_full(u64::MAX, -1));
    assert_eq!(retention_step(u64::MAX - 1, 5, 5), (u64::MAX, true));
}

#[test]
fn a_candidate_method_beats_the_site_default() {
    assert_eq!(
        scheduled_reset_policy(Some(1), 3),
        Some(ScheduledTrafficResetPolicy::Explicit(TrafficResetMethod::ExpiryDay))
    );
    assert_eq!(
        scheduled_reset_policy(None, 3),
        Some(ScheduledTrafficResetPolicy::LegacyDefault(TrafficResetMethod::YearStart))
    );
    assert_eq!(scheduled_reset_policy(Some(9), 3), None);
    assert_eq!(scheduled_reset_policy(None, 7), None);
}

struct FixedCalendar;

impl TrafficResetCalendar for FixedCalendar {
    fn spec_day_at(&self, _timestamp: i64) -> Option<CalendarDay> {
        unreachable!("a specification is never run")
    }

    fn day_at(&self, timestamp: i64) -> Option<CalendarDay> {
        match timestamp {
            500 => Some(CalendarDay { month: 3, day: 31, days_in_month: 31 }),
            _ => None,
        }
    }
}

fn run_command() -> ScheduledTrafficResetRun {
    ScheduledTrafficResetRun {
        now_epoch: -3_000_000,
        now_day: CalendarDay { month: 3, day: 31, days_in_month: 31 },
        reset_key: "2026-03-31".to_string(),
        default_method: 3,
        batch_size: 2,
    }
}

#[test]
fn reset_facts_need_a_known_method_and_a_calendar_day() {
    let command = run_command();
    let due = ScheduledResetCandidate { id: 1, expired_at: 500, reset_traffic_method: Some(1) };
    let (policy, facts) = scheduled_reset_facts(&due, &command, &FixedCalendar).unwrap();
    assert_eq!(policy, ScheduledTrafficResetPolicy::Explicit(TrafficResetMethod::ExpiryDay));
    assert_eq!(facts.expiry, CalendarDay { month: 3, day: 31, days_in_month: 31 });
    assert_eq!((facts.now_epoch, facts.expiry_epoch), (-3_000_000, 500));
    let no_day = ScheduledResetCandidate { id: 2, expired_at: 600, reset_traffic_method: Some(1) };
    assert!(scheduled_reset_facts(&no_day, &command, &FixedCalendar).is_none());
    let unknown = ScheduledResetCandidate { id: 3, expired_at: 500, reset_traffic_method: Some(8) };
    assert!(scheduled_reset_facts(&unknown, &command, &FixedCalendar).is_none());
}

#[test]
fn reset_facts_take_the_day_the_calendar_gave() {
    let command = run_command();
    let day = CalendarDay { month: 2, day: 28, days_in_month: 28 };
    let legacy = ScheduledResetCandidate { id: 4, expired_at: 900, reset_traffic_method: None };
    let (policy, facts) = reset_facts_at(&legacy, &command, Some(day)).unwrap();
    assert_eq!(policy, ScheduledTrafficResetPolicy::LegacyDefault(TrafficResetMethod::YearStart));
    assert_eq!(facts.expiry, day);
    assert_eq!(facts.now, command.now_day);
    assert_eq!((facts.now_epoch, facts.expiry_epoch), (-3_000_000, 900));
    assert!(reset_facts_at(&legacy, &command, None).is_none());
    let unknown = ScheduledResetCandidate { id: 5, expired_at: 900, reset_traffic_method: Some(9) };
    assert!(reset_facts_at(&unknown, &command, Some(day)).is_none());
}

#[test]
fn a_batch_resets_its_due_candidates_and_moves_past_its_last() {
    let candidates = vec![
        ScheduledResetCandidate { id: 1, expired_at: 500, reset_traffic_method: Some(1) },
        ScheduledResetCandidate { id: 2, expired_at: 600, reset_traffic_method: Some(2) },
        ScheduledResetCandidate { id: 3, expired_at: 500, reset_traffic_method: None },
    ];
    let start = ScheduledTrafficResetOutcome::default();
    match reset_batch_step(start, &candidates, &vec![true, false, true]) {
        ResetBatchStep::Apply { outcome, user_ids, after_id } => {
            assert_eq!(outcome.examined, 3);
            assert_eq!(outcome.reset, 0);
            assert_eq!(user_ids, vec![1, 3]);
            assert_eq!(after_id, 3);
            let after = record_reset(outcome, 2);
            assert_eq!((after.examined, after.reset), (3, 2));
        }
        ResetBatchStep::Finish => panic!("a non-empty batch is applied"),
    }
    assert_eq!(reset_batch_step(start, &Vec::new(), &Vec::new()), ResetBatchStep::Finish);
}
