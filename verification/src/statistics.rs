//! Operator reports: the reporting windows and the time series projection.
//!
//! The traffic rankings weigh bytes by floating-point server rates and are
//! computed by the application shell.
use vstd::prelude::*;

use crate::text::{str_eq, to_owned};

verus! {

#[derive(Clone, Copy, Debug, Eq, PartialEq, Structural)]
pub enum StatisticsWindow {
    Today,
    Previous,
}

#[derive(Clone, Copy, Debug, Eq, PartialEq, Structural)]
pub enum StatisticsBucket {
    Daily,
    Monthly,
}

impl StatisticsBucket {
    /// The bucket's code in the statistics store.
    pub fn storage_code(self) -> (r: &'static str)
        ensures
            self == StatisticsBucket::Daily ==> r@ == "d"@,
            self == StatisticsBucket::Monthly ==> r@ == "m"@,
    {
        match self {
            StatisticsBucket::Daily => "d",
            StatisticsBucket::Monthly => "m",
        }
    }
}

#[derive(Clone, Copy, Debug, Eq, PartialEq, Structural)]
pub struct StatisticsBoundaries {
    pub now: i64,
    pub today: i64,
    pub yesterday: i64,
    pub month: i64,
    pub previous_month: i64,
}

impl StatisticsBoundaries {
    /// Today runs from the day's start to now; the previous window is
    /// yesterday.
    pub fn range(self, window: StatisticsWindow) -> (r: (i64, i64))
        ensures
            window == StatisticsWindow::Today ==> r == (self.today, self.now),
            window == StatisticsWindow::Previous ==> r == (self.yesterday, self.today),
    {
        match window {
            StatisticsWindow::Today => (self.today, self.now),
            StatisticsWindow::Previous => (self.yesterday, self.today),
        }
    }
}

#[derive(Clone, Copy, Debug, Default, Eq, PartialEq, Structural)]
pub struct StatisticsSummary {
    pub online_user: i64,
    pub month_income: i64,
    pub month_register_total: i64,
    pub day_register_total: i64,
    pub ticket_pending_total: i64,
    pub commission_pending_total: i64,
    pub payment_reconciliation_pending_total: i64,
    pub payment_reconciliation_pending_amount: i64,
    pub day_income: i64,
    pub last_month_income: i64,
    pub commission_month_payout: i64,
    pub commission_last_month_payout: i64,
}

#[derive(Clone, Debug, PartialEq)]
pub struct ServerRankSource {
    pub server_id: i64,
    pub server_type: String,
    pub upload: i64,
    pub download: i64,
}

#[derive(Clone, Copy, Debug, Eq, PartialEq, Structural)]
pub struct StatSeriesSource {
    pub recorded_at: i64,
    pub register_count: i64,
    pub paid_total: i64,
    pub paid_count: i64,
    pub commission_total: i64,
    pub commission_count: i64,
}

#[derive(Clone, Debug, Eq, PartialEq)]
pub struct StatSeriesPoint {
    pub series: &'static str,
    pub date: String,
    pub value: i64,
}

/// The deployment's calendar.
pub trait StatisticsCalendar {
    fn boundaries(&self) -> StatisticsBoundaries;

    /// The month-and-day label of `timestamp`.
    spec fn spec_month_day(&self, timestamp: i64) -> Seq<char>;

    fn month_day(&self, timestamp: i64) -> (r: String)
        ensures
            r@ == self.spec_month_day(timestamp),
    ;
}

pub struct StatisticsService<R, C> {
    repository: R,
    calendar: C,
}

impl<R, C> StatisticsService<R, C> {
    pub closed spec fn spec_parts(&self) -> (R, C) {
        (self.repository, self.calendar)
    }

    pub fn new(repository: R, calendar: C) -> (s: Self)
        ensures
            s.spec_parts() == (repository, calendar),
    {
        Self { repository, calendar }
    }

    pub fn repository(&self) -> (r: &R)
        ensures
            *r == self.spec_parts().0,
    {
        &self.repository
    }

    pub fn calendar(&self) -> (r: &C)
        ensures
            *r == self.spec_parts().1,
    {
        &self.calendar
    }
}

/// Legacy `v2ray` nodes are named as `vmess` nodes.
pub open spec fn canonical_type(server_type: Seq<char>) -> Seq<char> {
    if server_type == "v2ray"@ {
        "vmess"@
    } else {
        server_type
    }
}

pub fn canonical_server_type(server_type: &str) -> (r: &str)
    ensures
        r@ == canonical_type(server_type@),
{
    if str_eq(server_type, "v2ray") {
        "vmess"
    } else {
        server_type
    }
}

/// The five series of one source row, in the order they are listed.
pub open spec fn source_points(source: StatSeriesSource) -> Seq<(Seq<char>, i64)> {
    seq![
        ("register_count"@, source.register_count),
        ("paid_total"@, source.paid_total),
        ("paid_count"@, source.paid_count),
        ("commission_paid_total"@, source.commission_total),
        ("commission_paid_count"@, source.commission_count),
    ]
}

/// The series points of all source rows, newest source first in the
/// store and oldest point first in the answer: the list is reversed.
pub open spec fn series_fits(
    points: Seq<StatSeriesPoint>,
    sources: Seq<StatSeriesSource>,
    dates: Seq<String>,
) -> bool {
    &&& points.len() == 5 * sources.len()
    &&& forall|i: int, k: int|
        #![trigger points[points.len() - 1 - (5 * i + k)]]
        0 <= i < sources.len() && 0 <= k < 5 ==> {
            let p = points[points.len() - 1 - (5 * i + k)];
            &&& p.series@ == source_points(sources[i])[k].0
            &&& p.value == source_points(sources[i])[k].1
            &&& p.date@ == dates[i]@
        }
}

/// The points of the series report; `dates[i]` is the calendar day of
/// `sources[i]`.
pub fn series_points(sources: &Vec<StatSeriesSource>, dates: &Vec<String>) -> (r: Option<
    Vec<StatSeriesPoint>,
>)
    ensures
        dates@.len() != sources@.len() ==> r is None,
        dates@.len() == sources@.len() ==> (r matches Some(points) && series_fits(
            points@,
            sources@,
            dates@,
        )),
{
    if dates.len() != sources.len() {
        return None;
    }
    let n = sources.len();
    let mut points: Vec<StatSeriesPoint> = Vec::new();
    let mut i: usize = n;
    while i > 0
        invariant
            n == sources@.len(),
            n == dates@.len(),
            i <= n,
            points@.len() == 5 * (n - i),
            forall|j: int, k: int|
                #![trigger points@[5 * (n - 1 - j) + 4 - k]]
                i <= j < n && 0 <= k < 5 ==> {
                    let p = points@[5 * (n - 1 - j) + 4 - k];
                    &&& p.series@ == source_points(sources@[j])[k].0
                    &&& p.value == source_points(sources@[j])[k].1
                    &&& p.date@ == dates@[j]@
                },
        decreases i,
    {
        i = i - 1;
        let source = sources[i];
        let date = &dates[i];
        let ghost before = points@;
        points.push(
            StatSeriesPoint {
                series: "commission_paid_count",
                date: date.clone(),
                value: source.commission_count,
            },
        );
        points.push(
            StatSeriesPoint {
                series: "commission_paid_total",
                date: date.clone(),
                value: source.commission_total,
            },
        );
        points.push(
            StatSeriesPoint { series: "paid_count", date: date.clone(), value: source.paid_count },
        );
        points.push(
            StatSeriesPoint { series: "paid_total", date: date.clone(), value: source.paid_total },
        );
        points.push(
            StatSeriesPoint {
                series: "register_count",
                date: date.clone(),
                value: source.register_count,
            },
        );
        proof {
            assert forall|j: int, k: int|
                #![trigger points@[5 * (n - 1 - j) + 4 - k]]
                i <= j < n && 0 <= k < 5 implies {
                    let p = points@[5 * (n - 1 - j) + 4 - k];
                    &&& p.series@ == source_points(sources@[j])[k].0
                    &&& p.value == source_points(sources@[j])[k].1
                    &&& p.date@ == dates@[j]@
                } by {
                if j > i {
                    assert(points@[5 * (n - 1 - j) + 4 - k] == before[5 * (n - 1 - j) + 4 - k]);
                } else {
                    assert(j == i);
                }
            }
        }
    }
    proof {
        assert forall|j: int, k: int|
            #![trigger points@[points@.len() - 1 - (5 * j + k)]]
            0 <= j < sources@.len() && 0 <= k < 5 implies {
                let p = points@[points@.len() - 1 - (5 * j + k)];
                &&& p.series@ == source_points(sources@[j])[k].0
                &&& p.value == source_points(sources@[j])[k].1
                &&& p.date@ == dates@[j]@
            } by {
            assert(points@.len() - 1 - (5 * j + k) == 5 * (n - 1 - j) + 4 - k);
            let p = points@[5 * (n - 1 - j) + 4 - k];
            assert(p.series@ == source_points(sources@[j])[k].0);
        }
    }
    Some(points)
}

/// The calendar days of the source rows.
pub fn series_dates<C: StatisticsCalendar>(calendar: &C, sources: &Vec<StatSeriesSource>) -> (r: Vec<
    String,
>)
    ensures
        r@.len() == sources@.len(),
        forall|i: int|
            0 <= i < sources@.len() ==> (#[trigger] r@[i])@ == calendar.spec_month_day(
                sources@[i].recorded_at,
            ),
{
    let mut dates: Vec<String> = Vec::new();
    let mut i: usize = 0;
    while i < sources.len()
        invariant
            i <= sources@.len(),
            dates@.len() == i,
            forall|j: int|
                0 <= j < i ==> (#[trigger] dates@[j])@ == calendar.spec_month_day(
                    sources@[j].recorded_at,
                ),
        decreases sources@.len() - i,
    {
        dates.push(calendar.month_day(sources[i].recorded_at));
        i = i + 1;
    }
    dates
}

} // verus!
