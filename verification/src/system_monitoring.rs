//! Worker health: counters that saturate, recency that cannot overflow, and
//! the per-job rows of the queue dashboard.
use vstd::prelude::*;

use crate::RepositoryError;
use crate::keyed_map::KeyedMap;
use crate::text::{
    chars_of, lemma_lex_asymmetric, lemma_lex_irreflexive, lemma_lex_total,
    lemma_lex_transitive, lex_lt, lex_lt_exec, str_eq,
};

verus! {

/// The worker counters and timestamps, keyed by job name.
#[derive(Clone, Debug, PartialEq)]
pub struct WorkerSnapshot {
    pub schedule_last_seen_at: Option<i64>,
    pub totals: KeyedMap<i64>,
    pub failed: KeyedMap<i64>,
    pub last_run_at: KeyedMap<i64>,
    pub last_success_at: KeyedMap<i64>,
    pub last_failure_at: KeyedMap<i64>,
}

#[derive(Clone, Debug, Eq, PartialEq)]
pub struct RuntimeIdentity {
    pub log_level: String,
    pub backend_version: String,
    pub frontend_version: String,
}

#[derive(Clone, Debug, Eq, PartialEq)]
pub struct SystemStatus {
    pub schedule: bool,
    pub worker: bool,
    pub schedule_last_seen_at: Option<i64>,
    pub runtime: RuntimeIdentity,
}

#[derive(Debug)]
pub struct QueueStats {
    pub failed_jobs: i64,
    pub jobs_per_minute: usize,
    pub recent_jobs: i64,
    pub worker_running: bool,
    pub queue_with_max_throughput: Option<String>,
    pub last_run_at: KeyedMap<i64>,
    pub last_success_at: KeyedMap<i64>,
    pub last_failure_at: KeyedMap<i64>,
}

#[derive(Clone, Debug, Eq, PartialEq)]
pub struct QueueWorkload {
    pub name: String,
    pub processes: i64,
    pub recent_jobs: i64,
    pub failed_jobs: i64,
    pub last_run_at: Option<i64>,
    pub last_success_at: Option<i64>,
    pub last_failure_at: Option<i64>,
}

#[derive(Clone, Debug, Eq, PartialEq)]
pub struct QueueMaster {
    pub running: bool,
    pub supervisors: Vec<String>,
    pub last_seen_at: Option<i64>,
    pub schedule_last_seen_at: Option<i64>,
}

pub struct SystemMonitoringService<R> {
    repository: R,
}

impl<R> SystemMonitoringService<R> {
    pub closed spec fn spec_repository(&self) -> R {
        self.repository
    }

    pub fn new(repository: R) -> (s: Self)
        ensures
            s.spec_repository() == repository,
    {
        Self { repository }
    }

    pub fn repository(&self) -> (r: &R)
        ensures
            *r == self.spec_repository(),
    {
        &self.repository
    }
}

/// `x` clamped to the `i64` range.
pub open spec fn clamp(x: int) -> int {
    if x > i64::MAX {
        i64::MAX as int
    } else if x < i64::MIN {
        i64::MIN as int
    } else {
        x
    }
}

/// The saturating sum of the values, added in order.
pub open spec fn saturating_total(e: Seq<(String, i64)>) -> int
    decreases e.len(),
{
    if e.len() == 0 {
        0
    } else {
        clamp(saturating_total(e.drop_last()) + e.last().1)
    }
}

/// A timestamp is recent when at most `seconds` have passed, the
/// difference saturating.
pub open spec fn recent(now: i64, last_seen: i64, seconds: i64) -> bool {
    clamp(now - last_seen) <= seconds
}

pub fn timestamp_is_recent(now: i64, last_seen: i64, seconds: i64) -> (r: bool)
    ensures
        r == recent(now, last_seen, seconds),
{
    let difference: i128 = now as i128 - last_seen as i128;
    let clamped: i128 = if difference > i64::MAX as i128 {
        i64::MAX as i128
    } else if difference < i64::MIN as i128 {
        i64::MIN as i128
    } else {
        difference
    };
    clamped <= seconds as i128
}

/// The largest value, if any.
pub open spec fn max_value(e: Seq<(String, i64)>) -> Option<i64>
    decreases e.len(),
{
    if e.len() == 0 {
        None
    } else {
        match max_value(e.drop_last()) {
            Some(m) => Some(
                if e.last().1 > m {
                    e.last().1
                } else {
                    m
                },
            ),
            None => Some(e.last().1),
        }
    }
}

/// The name with the largest value; among equal values the last one.
pub open spec fn max_name(e: Seq<(String, i64)>) -> Option<(String, i64)>
    decreases e.len(),
{
    if e.len() == 0 {
        None
    } else {
        match max_name(e.drop_last()) {
            Some(best) => if e.last().1 >= best.1 {
                Some(e.last())
            } else {
                Some(best)
            },
            None => Some(e.last()),
        }
    }
}

/// How many values are within `seconds` of `now`.
pub open spec fn recent_count(e: Seq<(String, i64)>, now: i64, seconds: i64) -> nat
    decreases e.len(),
{
    if e.len() == 0 {
        0
    } else {
        recent_count(e.drop_last(), now, seconds) + if recent(now, e.last().1, seconds) {
            1nat
        } else {
            0nat
        }
    }
}

/// When the worker was last seen: the later of the scheduler's heartbeat
/// and the last run of any job.
pub open spec fn last_seen(snapshot: WorkerSnapshot) -> Option<i64> {
    match (snapshot.schedule_last_seen_at, max_value(snapshot.last_run_at.spec_entries())) {
        (Some(a), Some(b)) => Some(
            if a > b {
                a
            } else {
                b
            },
        ),
        (Some(a), None) => Some(a),
        (None, b) => b,
    }
}

pub open spec fn worker_running(snapshot: WorkerSnapshot, now: i64) -> bool {
    match last_seen(snapshot) {
        Some(t) => recent(now, t, 180),
        None => false,
    }
}

pub open spec fn has_key(e: Seq<(String, i64)>, x: Seq<char>) -> bool {
    exists|i: int| 0 <= i < e.len() && (#[trigger] e[i]).0@ == x
}

pub open spec fn names_sorted(v: Seq<String>) -> bool {
    forall|a: int, b: int| 0 <= a < b < v.len() ==> lex_lt((#[trigger] v[a])@, (#[trigger] v[b])@)
}

pub open spec fn has_name(v: Seq<String>, x: Seq<char>) -> bool {
    exists|i: int| 0 <= i < v.len() && (#[trigger] v[i])@ == x
}

/// The job names of a snapshot: every name with a total, a failure count
/// or a last run, once each, in order.
pub open spec fn job_names_of(names: Seq<String>, snapshot: WorkerSnapshot) -> bool {
    &&& names_sorted(names)
    &&& forall|x: Seq<char>|
        has_name(names, x) <==> (has_key(snapshot.totals.spec_entries(), x) || has_key(
            snapshot.failed.spec_entries(),
            x,
        ) || has_key(snapshot.last_run_at.spec_entries(), x))
}

fn saturating_sum(map: &KeyedMap<i64>) -> (r: i64)
    ensures
        r == saturating_total(map.spec_entries()),
{
    let entries = map.entries();
    let mut acc: i64 = 0;
    let mut i: usize = 0;
    while i < entries.len()
        invariant
            i <= entries@.len(),
            entries@ == map.spec_entries(),
            acc == saturating_total(entries@.take(i as int)),
        decreases entries@.len() - i,
    {
        proof {
            assert(entries@.take(i + 1).drop_last() =~= entries@.take(i as int));
        }
        let sum: i128 = acc as i128 + entries[i].1 as i128;
        acc = if sum > i64::MAX as i128 {
            i64::MAX
        } else if sum < i64::MIN as i128 {
            i64::MIN
        } else {
            sum as i64
        };
        i = i + 1;
    }
    proof {
        assert(entries@.take(entries@.len() as int) =~= entries@);
    }
    acc
}

fn largest(map: &KeyedMap<i64>) -> (r: Option<i64>)
    ensures
        r == max_value(map.spec_entries()),
{
    let entries = map.entries();
    let mut best: Option<i64> = None;
    let mut i: usize = 0;
    while i < entries.len()
        invariant
            i <= entries@.len(),
            entries@ == map.spec_entries(),
            best == max_value(entries@.take(i as int)),
        decreases entries@.len() - i,
    {
        proof {
            assert(entries@.take(i + 1).drop_last() =~= entries@.take(i as int));
        }
        let v = entries[i].1;
        best = match best {
            Some(m) => Some(
                if v > m {
                    v
                } else {
                    m
                },
            ),
            None => Some(v),
        };
        i = i + 1;
    }
    proof {
        assert(entries@.take(entries@.len() as int) =~= entries@);
    }
    best
}

fn busiest(map: &KeyedMap<i64>) -> (r: Option<String>)
    ensures
        match max_name(map.spec_entries()) {
            Some(best) => r matches Some(n) && n@ == best.0@,
            None => r is None,
        },
{
    let entries = map.entries();
    let mut best: Option<usize> = None;
    let mut i: usize = 0;
    while i < entries.len()
        invariant
            i <= entries@.len(),
            entries@ == map.spec_entries(),
            match max_name(entries@.take(i as int)) {
                Some(b) => best matches Some(k) && k < i && entries@[k as int] == b,
                None => best is None,
            },
        decreases entries@.len() - i,
    {
        proof {
            assert(entries@.take(i + 1).drop_last() =~= entries@.take(i as int));
        }
        best = match best {
            Some(k) => if entries[i].1 >= entries[k].1 {
                Some(i)
            } else {
                Some(k)
            },
            None => Some(i),
        };
        i = i + 1;
    }
    proof {
        assert(entries@.take(entries@.len() as int) =~= entries@);
    }
    match best {
        Some(k) => Some(entries[k].0.clone()),
        None => None,
    }
}

fn count_recent(map: &KeyedMap<i64>, now: i64, seconds: i64) -> (r: usize)
    ensures
        r == recent_count(map.spec_entries(), now, seconds),
{
    let entries = map.entries();
    let mut count: usize = 0;
    let mut i: usize = 0;
    while i < entries.len()
        invariant
            i <= entries@.len(),
            entries@ == map.spec_entries(),
            count == recent_count(entries@.take(i as int), now, seconds),
            count <= i,
        decreases entries@.len() - i,
    {
        proof {
            assert(entries@.take(i + 1).drop_last() =~= entries@.take(i as int));
        }
        if timestamp_is_recent(now, entries[i].1, seconds) {
            count = count + 1;
        }
        i = i + 1;
    }
    proof {
        assert(entries@.take(entries@.len() as int) =~= entries@);
    }
    count
}

/// Adds a name to a sorted list of distinct names.
pub(crate) fn insert_name(names: Vec<String>, key: &String) -> (r: Vec<String>)
    requires
        names_sorted(names@),
    ensures
        names_sorted(r@),
        forall|x: Seq<char>| #[trigger] has_name(r@, x) <==> (has_name(names@, x) || x == key@),
{
    let mut names = names;
    let kv = chars_of(key.as_str());
    let mut p: usize = 0;
    while p < names.len() && lex_lt_exec(&chars_of(names[p].as_str()), &kv)
        invariant
            p <= names@.len(),
            kv@ == key@,
            forall|a: int| 0 <= a < p ==> lex_lt((#[trigger] names@[a])@, key@),
        decreases names@.len() - p,
    {
        p = p + 1;
    }
    let ghost before = names@;
    if p < names.len() && str_eq(names[p].as_str(), key.as_str()) {
        assert(before[p as int]@ == key@);
        return names;
    }
    proof {
        if p < before.len() {
            lemma_lex_total(before[p as int]@, key@);
        }
    }
    names.insert(p, key.clone());
    proof {
        assert(names@ =~= before.insert(p as int, *key));
        assert forall|a: int, b: int| 0 <= a < b < names@.len() implies lex_lt(
            (#[trigger] names@[a])@,
            (#[trigger] names@[b])@,
        ) by {
            if b < p {
                assert(lex_lt(before[a]@, before[b]@));
            } else if b == p {
            } else if a < p {
                assert(lex_lt(before[a]@, key@));
                assert(lex_lt(key@, before[p as int]@));
                if b - 1 > p {
                    assert(lex_lt(before[p as int]@, before[b - 1]@));
                    lemma_lex_transitive(key@, before[p as int]@, before[b - 1]@);
                }
                lemma_lex_transitive(before[a]@, key@, before[b - 1]@);
            } else if a == p {
                assert(lex_lt(key@, before[p as int]@));
                if b - 1 > p {
                    assert(lex_lt(before[p as int]@, before[b - 1]@));
                    lemma_lex_transitive(key@, before[p as int]@, before[b - 1]@);
                }
            } else {
                assert(lex_lt(before[a - 1]@, before[b - 1]@));
            }
        }
        assert forall|x: Seq<char>| #[trigger] has_name(names@, x) <==> (has_name(before, x) || x
            == key@) by {
            if has_name(names@, x) {
                let k = choose|k: int| 0 <= k < names@.len() && (#[trigger] names@[k])@ == x;
                if k < p {
                    assert(before[k]@ == x);
                } else if k > p {
                    assert(before[k - 1]@ == x);
                }
            }
            if has_name(before, x) {
                let k = choose|k: int| 0 <= k < before.len() && (#[trigger] before[k])@ == x;
                if k < p {
                    assert(names@[k]@ == x);
                } else {
                    assert(names@[k + 1]@ == x);
                }
            }
            if x == key@ {
                assert(names@[p as int]@ == x);
            }
        }
    }
    names
}

fn insert_keys(names: Vec<String>, map: &KeyedMap<i64>) -> (r: Vec<String>)
    requires
        names_sorted(names@),
    ensures
        names_sorted(r@),
        forall|x: Seq<char>|
            #[trigger] has_name(r@, x) <==> (has_name(names@, x) || has_key(map.spec_entries(), x)),
{
    let ghost start = names@;
    let mut names = names;
    let entries = map.entries();
    let mut i: usize = 0;
    while i < entries.len()
        invariant
            i <= entries@.len(),
            entries@ == map.spec_entries(),
            names_sorted(names@),
            forall|x: Seq<char>|
                #[trigger] has_name(names@, x) <==> (has_name(start, x) || has_key(
                    entries@.take(i as int),
                    x,
                )),
        decreases entries@.len() - i,
    {
        names = insert_name(names, &entries[i].0);
        proof {
            assert forall|x: Seq<char>| #[trigger] has_key(entries@.take(i + 1), x) <==> (has_key(
                entries@.take(i as int),
                x,
            ) || x == entries@[i as int].0@) by {
                if has_key(entries@.take(i + 1), x) {
                    let k = choose|k: int|
                        0 <= k < entries@.take(i + 1).len() && (#[trigger] entries@.take(
                            i + 1,
                        )[k]).0@ == x;
                    if k < i {
                        assert(entries@.take(i as int)[k].0@ == x);
                    }
                }
                if has_key(entries@.take(i as int), x) {
                    let k = choose|k: int|
                        0 <= k < entries@.take(i as int).len() && (#[trigger] entries@.take(
                            i as int,
                        )[k]).0@ == x;
                    assert(entries@.take(i + 1)[k].0@ == x);
                }
                if x == entries@[i as int].0@ {
                    assert(entries@.take(i + 1)[i as int].0@ == x);
                }
            }
        }
        i = i + 1;
    }
    proof {
        assert(entries@.take(entries@.len() as int) =~= entries@);
    }
    names
}

impl WorkerSnapshot {
    /// All jobs run, saturating.
    pub fn total_jobs(&self) -> (r: i64)
        ensures
            r == saturating_total(self.totals.spec_entries()),
    {
        saturating_sum(&self.totals)
    }

    /// All failures, saturating.
    pub fn failed_jobs(&self) -> (r: i64)
        ensures
            r == saturating_total(self.failed.spec_entries()),
    {
        saturating_sum(&self.failed)
    }

    pub fn last_seen_at(&self) -> (r: Option<i64>)
        ensures
            r == last_seen(*self),
    {
        let last_run = largest(&self.last_run_at);
        match (self.schedule_last_seen_at, last_run) {
            (Some(a), Some(b)) => Some(
                if a > b {
                    a
                } else {
                    b
                },
            ),
            (Some(a), None) => Some(a),
            (None, b) => b,
        }
    }

    /// The job names, sorted and distinct.
    pub fn job_names(&self) -> (r: Vec<String>)
        ensures
            job_names_of(r@, *self),
    {
        let names: Vec<String> = Vec::new();
        let names = insert_keys(names, &self.totals);
        let names = insert_keys(names, &self.failed);
        insert_keys(names, &self.last_run_at)
    }

    /// The worker counts as running when it was seen in the last three
    /// minutes.
    pub fn running(&self, now: i64) -> (r: bool)
        ensures
            r == worker_running(*self, now),
    {
        match self.last_seen_at() {
            Some(t) => timestamp_is_recent(now, t, 180),
            None => false,
        }
    }
}

/// The system status of a snapshot.
pub fn status_of(snapshot: &WorkerSnapshot, now: i64, runtime: RuntimeIdentity) -> (r: SystemStatus)
    ensures
        r.schedule == (match snapshot.schedule_last_seen_at {
            Some(t) => recent(now, t, 180),
            None => false,
        }),
        r.worker == worker_running(*snapshot, now),
        r.schedule_last_seen_at == snapshot.schedule_last_seen_at,
        r.runtime == runtime,
{
    let schedule = match snapshot.schedule_last_seen_at {
        Some(t) => timestamp_is_recent(now, t, 180),
        None => false,
    };
    SystemStatus {
        schedule,
        worker: snapshot.running(now),
        schedule_last_seen_at: snapshot.schedule_last_seen_at,
        runtime,
    }
}

/// The queue statistics of a snapshot.
pub fn queue_stats_of(snapshot: WorkerSnapshot, now: i64) -> (r: QueueStats)
    ensures
        r.failed_jobs == saturating_total(snapshot.failed.spec_entries()),
        r.jobs_per_minute == recent_count(snapshot.last_run_at.spec_entries(), now, 60),
        r.recent_jobs == saturating_total(snapshot.totals.spec_entries()),
        r.worker_running == worker_running(snapshot, now),
        match max_name(snapshot.totals.spec_entries()) {
            Some(best) => r.queue_with_max_throughput matches Some(n) && n@ == best.0@,
            None => r.queue_with_max_throughput is None,
        },
        r.last_run_at == snapshot.last_run_at,
        r.last_success_at == snapshot.last_success_at,
        r.last_failure_at == snapshot.last_failure_at,
{
    let queue_with_max_throughput = busiest(&snapshot.totals);
    let failed_jobs = snapshot.failed_jobs();
    let jobs_per_minute = count_recent(&snapshot.last_run_at, now, 60);
    let recent_jobs = snapshot.total_jobs();
    let worker_running = snapshot.running(now);
    QueueStats {
        failed_jobs,
        jobs_per_minute,
        recent_jobs,
        worker_running,
        queue_with_max_throughput,
        last_run_at: snapshot.last_run_at,
        last_success_at: snapshot.last_success_at,
        last_failure_at: snapshot.last_failure_at,
    }
}

pub open spec fn lookup_value(map: KeyedMap<i64>, name: Seq<char>) -> Option<i64> {
    map.spec_get(name)
}

/// One dashboard row per job name.
pub open spec fn workload_row(row: QueueWorkload, snapshot: WorkerSnapshot, name: String, now: i64) -> bool {
    &&& row.name == name
    &&& row.last_run_at == lookup_value(snapshot.last_run_at, name@)
    &&& row.processes == (match lookup_value(snapshot.last_run_at, name@) {
        Some(t) => if recent(now, t, 180) {
            1int
        } else {
            0int
        },
        None => 0int,
    })
    &&& row.recent_jobs == (match lookup_value(snapshot.totals, name@) {
        Some(v) => v,
        None => 0,
    })
    &&& row.failed_jobs == (match lookup_value(snapshot.failed, name@) {
        Some(v) => v,
        None => 0,
    })
    &&& row.last_success_at == lookup_value(snapshot.last_success_at, name@)
    &&& row.last_failure_at == lookup_value(snapshot.last_failure_at, name@)
}

fn copied(value: Option<&i64>) -> (r: Option<i64>)
    ensures
        match value {
            Some(v) => r == Some(*v),
            None => r is None,
        },
{
    match value {
        Some(v) => Some(*v),
        None => None,
    }
}

/// The per-job rows of a snapshot.
pub fn workload_of(snapshot: &WorkerSnapshot, now: i64) -> (r: Vec<QueueWorkload>)
    ensures
        exists|names: Seq<String>|
            job_names_of(names, *snapshot) && r@.len() == names.len() && forall|i: int|
                0 <= i < names.len() ==> workload_row(#[trigger] r@[i], *snapshot, names[i], now),
{
    let names = snapshot.job_names();
    let mut rows: Vec<QueueWorkload> = Vec::new();
    let mut i: usize = 0;
    while i < names.len()
        invariant
            i <= names@.len(),
            rows@.len() == i,
            forall|k: int| 0 <= k < i ==> workload_row(#[trigger] rows@[k], *snapshot, names@[k], now),
        decreases names@.len() - i,
    {
        let name = &names[i];
        let last_run_at = copied(snapshot.last_run_at.get(name.as_str()));
        let processes: i64 = match last_run_at {
            Some(t) => if timestamp_is_recent(now, t, 180) {
                1
            } else {
                0
            },
            None => 0,
        };
        let recent_jobs = match snapshot.totals.get(name.as_str()) {
            Some(v) => *v,
            None => 0,
        };
        let failed_jobs = match snapshot.failed.get(name.as_str()) {
            Some(v) => *v,
            None => 0,
        };
        let row = QueueWorkload {
            name: name.clone(),
            processes,
            recent_jobs,
            failed_jobs,
            last_run_at,
            last_success_at: copied(snapshot.last_success_at.get(name.as_str())),
            last_failure_at: copied(snapshot.last_failure_at.get(name.as_str())),
        };
        rows.push(row);
        i = i + 1;
    }
    rows
}

/// The single master row of a snapshot.
pub fn master_of(snapshot: &WorkerSnapshot, now: i64) -> (r: QueueMaster)
    ensures
        r.running == worker_running(*snapshot, now),
        job_names_of(r.supervisors@, *snapshot),
        r.last_seen_at == last_seen(*snapshot),
        r.schedule_last_seen_at == snapshot.schedule_last_seen_at,
{
    QueueMaster {
        running: snapshot.running(now),
        supervisors: snapshot.job_names(),
        last_seen_at: snapshot.last_seen_at(),
        schedule_last_seen_at: snapshot.schedule_last_seen_at,
    }
}

/// A failure to read the worker metrics.
pub type MonitoringResult<T> = Result<T, RepositoryError>;

} // verus!
