//! A string-keyed map kept in ascending key order, with unique keys.
//!
//! The configuration use cases iterate their maps in key order and report
//! the first offending entry, so the order of the entries is part of what
//! they answer; this map keeps that order explicit and its contents
//! visible to contracts as a sequence of entries.
use vstd::prelude::*;

use crate::text::{
    chars_of, lemma_lex_irreflexive, lemma_lex_total, lemma_lex_transitive, lex_lt, lex_lt_exec,
    str_eq,
};

verus! {

/// Entries `(key, value)`, keys unique, ascending in code-point order.
#[derive(Clone, Debug, PartialEq)]
pub struct KeyedMap<V> {
    entries: Vec<(String, V)>,
}

pub open spec fn keys_unique<V>(e: Seq<(String, V)>) -> bool {
    forall|i: int, j: int| 0 <= i < j < e.len() ==> (#[trigger] e[i]).0@ != (#[trigger] e[j]).0@
}

/// Keys strictly ascending in code-point order.
pub open spec fn keys_ascending<V>(e: Seq<(String, V)>) -> bool {
    forall|i: int, j: int|
        0 <= i < j < e.len() ==> lex_lt((#[trigger] e[i]).0@, (#[trigger] e[j]).0@)
}

/// Ascending keys are unique.
pub proof fn lemma_ascending_unique<V>(e: Seq<(String, V)>)
    requires
        keys_ascending(e),
    ensures
        keys_unique(e),
{
    assert forall|i: int, j: int| 0 <= i < j < e.len() implies (#[trigger] e[i]).0@ != (
    #[trigger] e[j]).0@ by {
        if e[i].0@ == e[j].0@ {
            lemma_lex_irreflexive(e[i].0@);
        }
    }
}

/// Index of the first entry at or after `i` whose key is `k`.
pub open spec fn index_of_from<V>(e: Seq<(String, V)>, k: Seq<char>, i: int) -> Option<int>
    decreases e.len() - i,
{
    if i < 0 || i >= e.len() {
        None
    } else if e[i].0@ == k {
        Some(i)
    } else {
        index_of_from(e, k, i + 1)
    }
}

pub open spec fn index_of<V>(e: Seq<(String, V)>, k: Seq<char>) -> Option<int> {
    index_of_from(e, k, 0)
}

pub open spec fn lookup<V>(e: Seq<(String, V)>, k: Seq<char>) -> Option<V> {
    match index_of(e, k) {
        Some(i) => Some(e[i].1),
        None => None,
    }
}

pub proof fn lemma_index_of_from<V>(e: Seq<(String, V)>, k: Seq<char>, i: int)
    requires
        0 <= i <= e.len(),
    ensures
        index_of_from(e, k, i) matches Some(j) ==> i <= j < e.len() && e[j].0@ == k && forall|m: int|
            i <= m < j ==> e[m].0@ != k,
        index_of_from(e, k, i) is None ==> forall|m: int| i <= m < e.len() ==> e[m].0@ != k,
    decreases e.len() - i,
{
    if i < e.len() {
        lemma_index_of_from(e, k, i + 1);
    }
}

/// Where a key is found depends on the keys alone.
pub proof fn lemma_index_of_same_keys<V, W>(
    e: Seq<(String, V)>,
    f: Seq<(String, W)>,
    k: Seq<char>,
    i: int,
)
    requires
        e.len() == f.len(),
        forall|j: int| 0 <= j < e.len() ==> (#[trigger] e[j]).0 == f[j].0,
    ensures
        index_of_from(e, k, i) == index_of_from(f, k, i),
    decreases e.len() - i,
{
    if 0 <= i < e.len() {
        assert(e[i].0 == f[i].0);
        lemma_index_of_same_keys(e, f, k, i + 1);
    }
}

/// The value of the last pair whose key is `k`, if any.
pub open spec fn last_pair_for<V>(pairs: Seq<(String, V)>, k: Seq<char>) -> Option<V>
    decreases pairs.len(),
{
    if pairs.len() == 0 {
        None
    } else if pairs.last().0@ == k {
        Some(pairs.last().1)
    } else {
        last_pair_for(pairs.drop_last(), k)
    }
}

/// What storing `value` under `key` does to the entries: an existing entry
/// keeps its place and its key and takes the value; otherwise the new
/// entry is inserted somewhere.
pub open spec fn is_insertion<V>(
    before: Seq<(String, V)>,
    after: Seq<(String, V)>,
    key: String,
    value: V,
) -> bool {
    match index_of(before, key@) {
        Some(i) => after == before.update(i, (after[i].0, value)) && after[i].0@ == key@,
        None => exists|p: int| 0 <= p <= before.len() && after == before.insert(p, (key, value)),
    }
}

/// With unique keys, the entry holding `k` is where `k` is found.
pub proof fn lemma_unique_index<V>(e: Seq<(String, V)>, k: Seq<char>, i: int)
    requires
        keys_unique(e),
        0 <= i < e.len(),
        e[i].0@ == k,
    ensures
        index_of(e, k) == Some(i),
{
    lemma_index_of_from(e, k, 0);
    match index_of(e, k) {
        Some(j) => {
            if j != i {
                if j < i {
                    assert(e[j].0@ != e[i].0@);
                } else {
                    assert(e[i].0@ != e[j].0@);
                }
            }
        },
        None => {
            assert(e[i].0@ != k);
        },
    }
}

/// A key held by no entry is not found.
pub proof fn lemma_absent_index<V>(e: Seq<(String, V)>, k: Seq<char>)
    requires
        forall|j: int| 0 <= j < e.len() ==> (#[trigger] e[j]).0@ != k,
    ensures
        index_of(e, k) is None,
{
    lemma_index_of_from(e, k, 0);
    if let Some(j) = index_of(e, k) {
        assert(e[j].0@ != k);
    }
}

/// Reading a key gives back what was stored under it last, and storing
/// under one key leaves every other key as it was.
pub proof fn law_get_after_insert<V>(
    before: KeyedMap<V>,
    after: KeyedMap<V>,
    key: String,
    value: V,
    other: Seq<char>,
)
    requires
        before.wf(),
        after.wf(),
        is_insertion(before.spec_entries(), after.spec_entries(), key, value),
    ensures
        after.spec_get(key@) == Some(value),
        other != key@ ==> after.spec_get(other) == before.spec_get(other),
{
    let b = before.spec_entries();
    let a = after.spec_entries();
    lemma_index_of_from(b, key@, 0);
    match index_of(b, key@) {
        Some(i) => {
            lemma_unique_index(a, key@, i);
            if other != key@ {
                assert(forall|j: int| 0 <= j < b.len() && j != i ==> a[j] == b[j]);
                lemma_index_of_from(b, other, 0);
                lemma_index_of_from(a, other, 0);
                match index_of(b, other) {
                    Some(j) => {
                        assert(j != i);
                        lemma_unique_index(a, other, j);
                    },
                    None => {
                        assert forall|j: int| 0 <= j < a.len() implies (#[trigger] a[j]).0@
                            != other by {
                            if j != i {
                                assert(a[j] == b[j]);
                            }
                        }
                        lemma_absent_index(a, other);
                    },
                }
            }
        },
        None => {
            let p = choose|p: int| 0 <= p <= b.len() && a == b.insert(p, (key, value));
            assert(a[p] == (key, value));
            lemma_unique_index(a, key@, p);
            if other != key@ {
                lemma_index_of_from(b, other, 0);
                match index_of(b, other) {
                    Some(j) => {
                        if j < p {
                            assert(a[j] == b[j]);
                            lemma_unique_index(a, other, j);
                        } else {
                            assert(a[j + 1] == b[j]);
                            lemma_unique_index(a, other, j + 1);
                        }
                    },
                    None => {
                        assert forall|j: int| 0 <= j < a.len() implies (#[trigger] a[j]).0@
                            != other by {
                            if j < p {
                                assert(a[j] == b[j]);
                            } else if j > p {
                                assert(a[j] == b[j - 1]);
                            }
                        }
                        lemma_absent_index(a, other);
                    },
                }
            }
        },
    }
}

/// The entries whose flag in `drop` is false, in order.
pub open spec fn kept<V>(e: Seq<(String, V)>, drop: Seq<bool>) -> Seq<(String, V)>
    decreases e.len(),
{
    if e.len() == 0 || drop.len() != e.len() {
        Seq::empty()
    } else {
        let rest = kept(e.drop_last(), drop.drop_last());
        if drop.last() {
            rest
        } else {
            rest.push(e.last())
        }
    }
}

pub proof fn lemma_kept_subset<V>(e: Seq<(String, V)>, drop: Seq<bool>)
    requires
        drop.len() == e.len(),
    ensures
        forall|a: int| 0 <= a < kept(e, drop).len() ==> exists|j: int|
            0 <= j < e.len() && !drop[j] && e[j] == #[trigger] kept(e, drop)[a],
    decreases e.len(),
{
    if e.len() > 0 {
        lemma_kept_subset(e.drop_last(), drop.drop_last());
        let rest = kept(e.drop_last(), drop.drop_last());
        assert forall|a: int| 0 <= a < kept(e, drop).len() implies exists|j: int|
            0 <= j < e.len() && !drop[j] && e[j] == #[trigger] kept(e, drop)[a] by {
            if a < rest.len() {
                let j = choose|j: int|
                    0 <= j < e.drop_last().len() && !drop.drop_last()[j] && e.drop_last()[j]
                        == #[trigger] rest[a];
                assert(e[j] == kept(e, drop)[a]);
            } else {
                assert(kept(e, drop)[a] == e[e.len() - 1]);
            }
        }
    }
}

pub proof fn lemma_kept_unique<V>(e: Seq<(String, V)>, drop: Seq<bool>)
    requires
        drop.len() == e.len(),
        keys_unique(e),
    ensures
        keys_unique(kept(e, drop)),
    decreases e.len(),
{
    if e.len() > 0 {
        let rest = kept(e.drop_last(), drop.drop_last());
        assert(keys_unique(e.drop_last()));
        lemma_kept_unique(e.drop_last(), drop.drop_last());
        lemma_kept_subset(e.drop_last(), drop.drop_last());
        if !drop.last() {
            assert forall|a: int, b: int| 0 <= a < b < rest.push(e.last()).len() implies (
            #[trigger] rest.push(e.last())[a]).0@ != (#[trigger] rest.push(e.last())[b]).0@ by {
                if b == rest.len() {
                    let j = choose|j: int|
                        0 <= j < e.drop_last().len() && !drop.drop_last()[j] && e.drop_last()[j]
                            == #[trigger] rest[a];
                    assert(e[j].0@ != e[e.len() - 1].0@);
                } else {
                    assert(rest[a].0@ != rest[b].0@);
                }
            }
        }
    }
}

/// Keeping some entries keeps their keys ascending.
pub proof fn lemma_kept_ascending<V>(e: Seq<(String, V)>, drop: Seq<bool>)
    requires
        drop.len() == e.len(),
        keys_ascending(e),
    ensures
        keys_ascending(kept(e, drop)),
    decreases e.len(),
{
    if e.len() > 0 {
        let rest = kept(e.drop_last(), drop.drop_last());
        assert(keys_ascending(e.drop_last()));
        lemma_kept_ascending(e.drop_last(), drop.drop_last());
        lemma_kept_subset(e.drop_last(), drop.drop_last());
        if !drop.last() {
            assert forall|a: int, b: int| 0 <= a < b < rest.push(e.last()).len() implies lex_lt(
                (#[trigger] rest.push(e.last())[a]).0@,
                (#[trigger] rest.push(e.last())[b]).0@,
            ) by {
                if b == rest.len() {
                    let j = choose|j: int|
                        0 <= j < e.drop_last().len() && !drop.drop_last()[j] && e.drop_last()[j]
                            == #[trigger] rest[a];
                    assert(lex_lt(e[j].0@, e[e.len() - 1].0@));
                } else {
                    assert(lex_lt(rest[a].0@, rest[b].0@));
                }
            }
        }
    }
}

impl<V> KeyedMap<V> {
    pub closed spec fn spec_entries(&self) -> Seq<(String, V)> {
        self.entries@
    }

    pub open spec fn wf(&self) -> bool {
        keys_unique(self.spec_entries()) && keys_ascending(self.spec_entries())
    }

    /// The value stored under `k`, if any.
    pub open spec fn spec_get(&self, k: Seq<char>) -> Option<V> {
        lookup(self.spec_entries(), k)
    }

    pub fn new() -> (m: Self)
        ensures
            m.spec_entries() == Seq::<(String, V)>::empty(),
            m.wf(),
    {
        Self { entries: Vec::new() }
    }

    /// The entries in key order.
    pub fn entries(&self) -> (r: &Vec<(String, V)>)
        ensures
            r@ == self.spec_entries(),
    {
        &self.entries
    }

    pub fn len(&self) -> (r: usize)
        ensures
            r == self.spec_entries().len(),
    {
        self.entries.len()
    }

    pub fn is_empty(&self) -> (r: bool)
        ensures
            r == (self.spec_entries().len() == 0),
    {
        self.entries.len() == 0
    }

    /// Checks that the keys ascend strictly, so that none occurs twice.
    pub fn keys_ascend(&self) -> (r: bool)
        ensures
            r == self.wf(),
    {
        let n = self.entries.len();
        if n == 0 {
            return true;
        }
        let mut i: usize = 1;
        let mut prev = chars_of(self.entries[0].0.as_str());
        while i < n
            invariant
                n == self.entries@.len(),
                1 <= i <= n,
                prev@ == self.entries@[i - 1].0@,
                keys_ascending(self.entries@.take(i as int)),
            decreases n - i,
        {
            let cur = chars_of(self.entries[i].0.as_str());
            if !lex_lt_exec(&prev, &cur) {
                proof {
                    assert(self.entries@[i - 1].0@ == prev@);
                    assert(!keys_ascending(self.entries@));
                }
                return false;
            }
            proof {
                let t = self.entries@.take(i as int);
                let u = self.entries@.take(i + 1);
                assert forall|a: int, b: int| 0 <= a < b < u.len() implies lex_lt(
                    (#[trigger] u[a]).0@,
                    (#[trigger] u[b]).0@,
                ) by {
                    if b < i {
                        assert(u[a] == t[a] && u[b] == t[b]);
                    } else if a < i - 1 {
                        assert(lex_lt(t[a].0@, t[i - 1].0@));
                        lemma_lex_transitive(u[a].0@, u[i - 1].0@, u[b].0@);
                    }
                }
            }
            prev = cur;
            i = i + 1;
        }
        proof {
            assert(self.entries@.take(n as int) =~= self.entries@);
            lemma_ascending_unique(self.entries@);
        }
        true
    }

    /// Position of the entry whose key is `key`.
    pub fn position(&self, key: &str) -> (r: Option<usize>)
        ensures
            r matches Some(i) ==> index_of(self.spec_entries(), key@) == Some(i as int),
            r is None ==> index_of(self.spec_entries(), key@) is None,
    {
        let mut i: usize = 0;
        while i < self.entries.len()
            invariant
                i <= self.entries@.len(),
                index_of(self.entries@, key@) == index_of_from(self.entries@, key@, i as int),
            decreases self.entries@.len() - i,
        {
            if str_eq(self.entries[i].0.as_str(), key) {
                return Some(i);
            }
            i = i + 1;
        }
        None
    }

    pub fn get(&self, key: &str) -> (r: Option<&V>)
        ensures
            match self.spec_get(key@) {
                Some(v) => r == Some(&v),
                None => r is None,
            },
    {
        match self.position(key) {
            Some(i) => {
                proof {
                    lemma_index_of_from(self.entries@, key@, 0);
                }
                Some(&self.entries[i].1)
            },
            None => None,
        }
    }

    pub fn contains_key(&self, key: &str) -> (r: bool)
        ensures
            r == (self.spec_get(key@) is Some),
    {
        self.position(key).is_some()
    }

    /// Stores `value` under `key`: an existing entry keeps its place, a new
    /// one goes before the first larger key.
    pub fn insert(&mut self, key: String, value: V)
        requires
            old(self).wf(),
        ensures
            final(self).wf(),
            is_insertion(old(self).spec_entries(), final(self).spec_entries(), key, value),
    {
        proof {
            lemma_index_of_from(self.entries@, key@, 0);
        }
        match self.position(key.as_str()) {
            Some(i) => {
                let ghost before = self.entries@;
                let old_key = self.entries[i].0.clone();
                self.entries.set(i, (old_key, value));
                assert(self.entries@ =~= before.update(i as int, (self.entries@[i as int].0, value)));
                assert forall|a: int, b: int| 0 <= a < b < self.entries@.len() implies (
                #[trigger] self.entries@[a]).0@ != (#[trigger] self.entries@[b]).0@ by {
                    assert(before[a].0@ != before[b].0@);
                }
                assert forall|a: int, b: int| 0 <= a < b < self.entries@.len() implies lex_lt(
                    (#[trigger] self.entries@[a]).0@,
                    (#[trigger] self.entries@[b]).0@,
                ) by {
                    assert(lex_lt(before[a].0@, before[b].0@));
                }
            },
            None => {
                let kv = chars_of(key.as_str());
                let mut p: usize = 0;
                while p < self.entries.len() && !lex_lt_exec(
                    &kv,
                    &chars_of(self.entries[p].0.as_str()),
                )
                    invariant
                        p <= self.entries@.len(),
                        kv@ == key@,
                        forall|j: int| 0 <= j < p ==> !lex_lt(key@, (#[trigger] self.entries@[j]).0@),
                    decreases self.entries@.len() - p,
                {
                    p = p + 1;
                }
                let ghost before = self.entries@;
                proof {
                    assert forall|j: int| 0 <= j < p implies lex_lt(
                        (#[trigger] before[j]).0@,
                        key@,
                    ) by {
                        assert(!lex_lt(key@, before[j].0@));
                        assert(before[j].0@ != key@);
                        lemma_lex_total(before[j].0@, key@);
                    }
                }
                self.entries.insert(p, (key, value));
                assert(self.entries@ =~= before.insert(p as int, (key, value)));
                assert forall|a: int, b: int| 0 <= a < b < self.entries@.len() implies (
                #[trigger] self.entries@[a]).0@ != (#[trigger] self.entries@[b]).0@ by {
                    if a < p && b < p {
                        assert(before[a].0@ != before[b].0@);
                    } else if a < p && b == p {
                        assert(before[a].0@ != key@);
                    } else if a < p && b > p {
                        assert(before[a].0@ != before[b - 1].0@);
                    } else if a == p {
                        assert(before[b - 1].0@ != key@);
                    } else {
                        assert(before[a - 1].0@ != before[b - 1].0@);
                    }
                }
                assert forall|a: int, b: int| 0 <= a < b < self.entries@.len() implies lex_lt(
                    (#[trigger] self.entries@[a]).0@,
                    (#[trigger] self.entries@[b]).0@,
                ) by {
                    if b < p {
                        assert(lex_lt(before[a].0@, before[b].0@));
                    } else if b == p {
                        assert(lex_lt(before[a].0@, key@));
                    } else if a < p {
                        assert(lex_lt(before[a].0@, key@));
                        assert(lex_lt(key@, before[p as int].0@));
                        if b - 1 > p {
                            assert(lex_lt(before[p as int].0@, before[b - 1].0@));
                            lemma_lex_transitive(key@, before[p as int].0@, before[b - 1].0@);
                        }
                        lemma_lex_transitive(before[a].0@, key@, before[b - 1].0@);
                    } else if a == p {
                        assert(lex_lt(key@, before[p as int].0@));
                        if b - 1 > p {
                            assert(lex_lt(before[p as int].0@, before[b - 1].0@));
                            lemma_lex_transitive(key@, before[p as int].0@, before[b - 1].0@);
                        }
                    } else {
                        assert(lex_lt(before[a - 1].0@, before[b - 1].0@));
                    }
                }
            },
        }
    }

    /// Removes the entry whose key is `key`, if any.
    pub fn remove(&mut self, key: &str)
        requires
            old(self).wf(),
        ensures
            final(self).wf(),
            match index_of(old(self).spec_entries(), key@) {
                Some(i) => final(self).spec_entries() == old(self).spec_entries().remove(i),
                None => final(self).spec_entries() == old(self).spec_entries(),
            },
    {
        proof {
            lemma_index_of_from(self.entries@, key@, 0);
        }
        match self.position(key) {
            Some(i) => {
                let ghost before = self.entries@;
                self.entries.remove(i);
                assert forall|a: int, b: int| 0 <= a < b < self.entries@.len() implies (
                #[trigger] self.entries@[a]).0@ != (#[trigger] self.entries@[b]).0@ by {
                    if a < i && b < i {
                        assert(before[a].0@ != before[b].0@);
                    } else if a < i {
                        assert(before[a].0@ != before[b + 1].0@);
                    } else {
                        assert(before[a + 1].0@ != before[b + 1].0@);
                    }
                }
                assert forall|a: int, b: int| 0 <= a < b < self.entries@.len() implies lex_lt(
                    (#[trigger] self.entries@[a]).0@,
                    (#[trigger] self.entries@[b]).0@,
                ) by {
                    if a < i && b < i {
                        assert(lex_lt(before[a].0@, before[b].0@));
                    } else if a < i {
                        assert(lex_lt(before[a].0@, before[b + 1].0@));
                    } else {
                        assert(lex_lt(before[a + 1].0@, before[b + 1].0@));
                    }
                }
            },
            None => {},
        }
    }

    /// Builds a map from pairs; a later pair replaces an earlier one with
    /// the same key.
    pub fn from_pairs(pairs: Vec<(String, V)>) -> (m: Self)
        ensures
            m.wf(),
            forall|k: Seq<char>| #[trigger] m.spec_get(k) == last_pair_for(pairs@, k),
    {
        let ghost all = pairs@;
        let mut m = Self::new();
        let mut pairs = pairs;
        proof {
            assert forall|k: Seq<char>| #[trigger] m.spec_get(k) == last_pair_for(
                all.take(0),
                k,
            ) by {
                assert(all.take(0).len() == 0);
            }
        }
        while pairs.len() > 0
            invariant
                m.wf(),
                pairs@.len() <= all.len(),
                pairs@ == all.skip(all.len() - pairs@.len()),
                forall|k: Seq<char>|
                    #[trigger] m.spec_get(k) == last_pair_for(
                        all.take(all.len() - pairs@.len()),
                        k,
                    ),
            decreases pairs@.len(),
        {
            let ghost done = all.len() - pairs@.len();
            let ghost before = m;
            let (k, v) = pairs.remove(0);
            assert(all[done] == (k, v));
            m.insert(k, v);
            proof {
                assert(all.take(done + 1).drop_last() == all.take(done));
                assert(pairs@ == all.skip(done + 1));
                assert forall|q: Seq<char>| #[trigger] m.spec_get(q) == last_pair_for(
                    all.take(done + 1),
                    q,
                ) by {
                    law_get_after_insert(before, m, k, v, q);
                }
            }
        }
        proof {
            assert(all.take(all.len() as int) == all);
        }
        m
    }

    /// Builds a map whose entries are `pairs`, in their order.
    pub fn from_distinct(pairs: Vec<(String, V)>) -> (m: Self)
        requires
            keys_ascending(pairs@),
        ensures
            m.spec_entries() == pairs@,
            m.wf(),
    {
        proof {
            lemma_ascending_unique(pairs@);
        }
        Self { entries: pairs }
    }

    /// Drops every entry whose flag in `drop` is set, keeping the order.
    pub fn retain_where(&mut self, drop: &Vec<bool>)
        requires
            old(self).wf(),
            drop@.len() == old(self).spec_entries().len(),
        ensures
            final(self).wf(),
            final(self).spec_entries() == kept(old(self).spec_entries(), drop@),
    {
        let ghost before = self.entries@;
        let mut out: Vec<(String, V)> = Vec::new();
        let mut rest: Vec<(String, V)> = Vec::new();
        std::mem::swap(&mut rest, &mut self.entries);
        assert(rest@ =~= before.skip(0));
        let mut i: usize = 0;
        let n = rest.len();
        proof {
            assert(before.take(0) =~= Seq::<(String, V)>::empty());
        }
        while i < n
            invariant
                n == before.len(),
                drop@.len() == n,
                i <= n,
                rest@ == before.skip(i as int),
                out@ == kept(before.take(i as int), drop@.take(i as int)),
            decreases n - i,
        {
            let entry = rest.remove(0);
            assert(entry == before[i as int]);
            assert(rest@ =~= before.skip(i + 1));
            proof {
                assert(before.take(i + 1).drop_last() =~= before.take(i as int));
                assert(drop@.take(i + 1).drop_last() =~= drop@.take(i as int));
            }
            if !drop[i] {
                out.push(entry);
            }
            i = i + 1;
        }
        proof {
            assert(before.take(n as int) =~= before);
            assert(drop@.take(n as int) =~= drop@);
            lemma_kept_unique(before, drop@);
            lemma_kept_ascending(before, drop@);
        }
        self.entries = out;
    }

    /// Replaces the value of entry `i`, keeping its key.
    pub fn set_value(&mut self, i: usize, value: V)
        requires
            old(self).wf(),
            i < old(self).spec_entries().len(),
        ensures
            final(self).wf(),
            final(self).spec_entries() == old(self).spec_entries().update(
                i as int,
                (old(self).spec_entries()[i as int].0, value),
            ),
    {
        let ghost before = self.entries@;
        let key = self.entries[i].0.clone();
        self.entries.set(i, (key, value));
        assert forall|a: int, b: int| 0 <= a < b < self.entries@.len() implies (
        #[trigger] self.entries@[a]).0@ != (#[trigger] self.entries@[b]).0@ by {
            assert(before[a].0@ != before[b].0@);
        }
        assert forall|a: int, b: int| 0 <= a < b < self.entries@.len() implies lex_lt(
            (#[trigger] self.entries@[a]).0@,
            (#[trigger] self.entries@[b]).0@,
        ) by {
            assert(lex_lt(before[a].0@, before[b].0@));
        }
    }

    /// Mutable access to the value of entry `i`.
    pub fn value_at_mut(&mut self, i: usize) -> (r: &mut V)
        requires
            i < old(self).spec_entries().len(),
        ensures
            *r == old(self).spec_entries()[i as int].1,
            final(self).spec_entries() == old(self).spec_entries().update(
                i as int,
                (old(self).spec_entries()[i as int].0, *final(r)),
            ),
    {
        let ghost before = self.entries@;
        let entry = &mut self.entries[i];
        &mut entry.1
    }
}

} // verus!
