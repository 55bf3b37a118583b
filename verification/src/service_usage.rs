//! Node visibility for subscribers: when a node counts as online and how
//! its cache key records it.
use vstd::prelude::*;

use crate::RepositoryError;
use crate::text::{chars_of, push_char, string_from};

verus! {

#[derive(Clone, Copy, Debug, Eq, PartialEq, Structural)]
pub struct ServiceAccess {
    pub banned: bool,
    pub transfer_enable: i64,
    pub expiry: Option<i64>,
    pub group_id: Option<i32>,
}

#[derive(Debug)]
pub enum ServiceUsageError {
    UserNotRegistered,
    Repository(RepositoryError),
}

pub struct ServiceUsageService<R, P> {
    repository: R,
    presence: P,
}

impl<R, P> ServiceUsageService<R, P> {
    pub closed spec fn spec_parts(&self) -> (R, P) {
        (self.repository, self.presence)
    }

    pub fn new(repository: R, presence: P) -> (s: Self)
        ensures
            s.spec_parts() == (repository, presence),
    {
        Self { repository, presence }
    }

    pub fn repository(&self) -> (r: &R)
        ensures
            *r == self.spec_parts().0,
    {
        &self.repository
    }

    pub fn presence(&self) -> (r: &P)
        ensures
            *r == self.spec_parts().1,
    {
        &self.presence
    }
}

/// A node is online when it checked in during the last five minutes; a
/// node that never checked in counts as checking in at time zero.
pub open spec fn online(now: int, last_check_at: Option<i64>) -> bool {
    now - 300 <= match last_check_at {
        Some(t) => t as int,
        None => 0,
    }
}

/// `server_is_online`, exact over the whole `i64` range.
pub fn server_is_online(now: i64, last_check_at: Option<i64>) -> (r: bool)
    ensures
        r == online(now as int, last_check_at),
{
    let last: i128 = match last_check_at {
        Some(t) => t as i128,
        None => 0,
    };
    (now as i128) - 300 <= last
}

/// Index of the last `-`.
pub open spec fn last_dash(s: Seq<char>, j: int) -> Option<int>
    decreases j,
{
    if j <= 0 || j > s.len() {
        None
    } else if s[j - 1] == '-' {
        Some(j - 1)
    } else {
        last_dash(s, j - 1)
    }
}

/// A node's cache key ends in its online flag: the part after the last `-`
/// is replaced by `1` or `0`. A key without `-` is kept.
pub open spec fn presence_cache_key(key: Seq<char>, online: bool) -> Seq<char> {
    match last_dash(key, key.len() as int) {
        Some(i) => key.take(i + 1).push(
            if online {
                '1'
            } else {
                '0'
            },
        ),
        None => key,
    }
}

pub fn cache_key_with_presence(key: &str, online: bool) -> (r: String)
    ensures
        r@ == presence_cache_key(key@, online),
{
    let v = chars_of(key);
    let mut j = v.len();
    while j > 0 && v[j - 1] != '-'
        invariant
            j <= v@.len(),
            last_dash(v@, v@.len() as int) == last_dash(v@, j as int),
        decreases j,
    {
        j = j - 1;
    }
    if j == 0 {
        return string_from(&v, 0, v.len());
    }
    let mut out = string_from(&v, 0, j);
    push_char(&mut out, if online {
        '1'
    } else {
        '0'
    });
    out
}

/// The presence port must answer one row per node.
pub fn check_presence_rows(rows: usize, servers: usize) -> (r: Result<(), ServiceUsageError>)
    ensures
        rows == servers <==> r is Ok,
        r is Err ==> (r matches Err(ServiceUsageError::Repository(e)) && e.spec_operation()
            == "load server presence"),
{
    if rows != servers {
        return Err(
            ServiceUsageError::Repository(
                RepositoryError::new(
                    "load server presence",
                    "presence adapter returned a different number of rows",
                ),
            ),
        );
    }
    Ok(())
}

} // verus!
