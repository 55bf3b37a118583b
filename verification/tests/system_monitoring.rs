use v2board_application::keyed_map::KeyedMap;
use v2board_application::system_monitoring::{queue_stats_of, workload_of, WorkerSnapshot};

fn map(entries: &[(&str, i64)]) -> KeyedMap<i64> {
    let mut map = KeyedMap::new();
    for (key, value) in entries {
        map.insert(key.to_string(), *value);
    }
    map
}

fn snapshot() -> WorkerSnapshot {
    WorkerSnapshot {
        schedule_last_seen_at: None,
        totals: KeyedMap::new(),
        failed: KeyedMap::new(),
        last_run_at: KeyedMap::new(),
        last_success_at: KeyedMap::new(),
        last_failure_at: KeyedMap::new(),
    }
}

#[test]
fn counters_saturate_and_recency_is_overflow_safe() {
    let snapshot = WorkerSnapshot {
        schedule_last_seen_at: Some(i64::MIN),
        totals: map(&[("a", i64::MAX), ("b", 1)]),
        failed: map(&[("a", i64::MIN), ("b", -1)]),
        ..snapshot()
    };
    let stats = queue_stats_of(snapshot, i64::MAX);
    assert_eq!(stats.recent_jobs, i64::MAX);
    assert_eq!(stats.failed_jobs, i64::MIN);
    assert!(!stats.worker_running);
}

#[test]
fn workload_uses_union_of_known_job_names() {
    let snapshot = WorkerSnapshot {
        failed: map(&[("failed-only", 2)]),
        last_run_at: map(&[("active", 90)]),
        ..snapshot()
    };
    let rows = workload_of(&snapshot, 100);
    assert_eq!(rows.iter().map(|row| row.name.as_str()).collect::<Vec<_>>(), ["active", "failed-only"]);
    assert_eq!(rows[0].processes, 1);
}

#[test]
fn the_busiest_queue_and_the_recent_runs_are_counted() {
    let snapshot = WorkerSnapshot {
        totals: map(&[("mail", 4), ("traffic", 9), ("stats", 9)]),
        last_run_at: map(&[("mail", 950), ("traffic", 900), ("stats", 990)]),
        ..snapshot()
    };
    let stats = queue_stats_of(snapshot, 1_000);
    assert_eq!(stats.recent_jobs, 22);
    assert_eq!(stats.jobs_per_minute, 2);
    assert_eq!(stats.queue_with_max_throughput.as_deref(), Some("traffic"));
}
