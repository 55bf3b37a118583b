use v2board_application::statistics::{
    canonical_server_type, series_dates, series_points, StatSeriesSource, StatisticsBoundaries,
    StatisticsBucket, StatisticsCalendar, StatisticsWindow,
};

struct FakeCalendar;

impl StatisticsCalendar for FakeCalendar {
    fn spec_month_day(&self, _timestamp: i64) -> vstd::seq::Seq<char> {
        unreachable!("a specification is never run")
    }

    fn boundaries(&self) -> StatisticsBoundaries {
        StatisticsBoundaries { now: 100, today: 90, yesterday: 80, month: 70, previous_month: 60 }
    }

    fn month_day(&self, timestamp: i64) -> String {
        format!("date-{timestamp}")
    }
}

fn source(recorded_at: i64, base: i64) -> StatSeriesSource {
    StatSeriesSource {
        recorded_at,
        register_count: base + 1,
        paid_total: base + 2,
        paid_count: base + 3,
        commission_total: base + 4,
        commission_count: base + 5,
    }
}

#[test]
fn series_projection_is_oldest_first_with_stable_machine_slugs() {
    let sources = vec![source(5, 0)];
    let dates = series_dates(&FakeCalendar, &sources);
    let rows = series_points(&sources, &dates).unwrap();
    assert_eq!(rows[0].series, "commission_paid_count");
    assert_eq!(rows[4].series, "register_count");
    assert_eq!(rows[0].date, "date-5");
}

#[test]
fn newest_sources_come_last() {
    let sources = vec![source(20, 10), source(10, 0)];
    let dates = series_dates(&FakeCalendar, &sources);
    let rows = series_points(&sources, &dates).unwrap();
    assert_eq!(rows.len(), 10);
    let seen: Vec<(&str, &str, i64)> =
        rows.iter().map(|row| (row.series, row.date.as_str(), row.value)).collect();
    assert_eq!(
        seen,
        vec![
            ("commission_paid_count", "date-10", 5),
            ("commission_paid_total", "date-10", 4),
            ("paid_count", "date-10", 3),
            ("paid_total", "date-10", 2),
            ("register_count", "date-10", 1),
            ("commission_paid_count", "date-20", 15),
            ("commission_paid_total", "date-20", 14),
            ("paid_count", "date-20", 13),
            ("paid_total", "date-20", 12),
            ("register_count", "date-20", 11),
        ]
    );
    assert!(series_points(&sources, &vec!["only".to_string()]).is_none());
}

#[test]
fn windows_buckets_and_type_aliases() {
    let bounds = FakeCalendar.boundaries();
    assert_eq!(bounds.range(StatisticsWindow::Today), (90, 100));
    assert_eq!(bounds.range(StatisticsWindow::Previous), (80, 90));
    assert_eq!(StatisticsBucket::Daily.storage_code(), "d");
    assert_eq!(StatisticsBucket::Monthly.storage_code(), "m");
    assert_eq!(canonical_server_type("v2ray"), "vmess");
    assert_eq!(canonical_server_type("trojan"), "trojan");
}
