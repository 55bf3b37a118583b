//! The node-agent runtime: metric keys, node authentication against the
//! stored credential epoch, and the alignment of alive-device counts.
use vstd::prelude::*;

use crate::error::RepositoryError;
use crate::server_management::ServerKind;

verus! {

#[derive(Clone, Debug, PartialEq)]
pub struct RuntimeServerNode {
    pub id: i32,
    pub group_ids: Vec<i32>,
    pub route_ids: Vec<i32>,
    pub rate: String,
    pub host: String,
    pub server_port: i32,
    pub created_at: i64,
    pub listen_ip: Option<String>,
    pub protocol: Option<String>,
    pub version: Option<i32>,
    pub tls: Option<i16>,
    pub tls_settings_json: Option<String>,
    pub flow: Option<String>,
    pub network: Option<String>,
    pub network_settings_json: Option<String>,
    pub encryption: Option<String>,
    pub encryption_settings_json: Option<String>,
    pub zero_rtt_handshake: Option<i16>,
    pub congestion_control: Option<String>,
    pub cipher: Option<String>,
    pub obfs: Option<String>,
    pub obfs_settings_json: Option<String>,
    pub obfs_password: Option<String>,
    pub padding_scheme_json: Option<String>,
    pub server_name: Option<String>,
    pub up_mbps: Option<i32>,
    pub down_mbps: Option<i32>,
    pub dns_settings_json: Option<String>,
    pub rule_settings_json: Option<String>,
}

#[derive(Clone, Debug, Eq, PartialEq)]
pub struct RuntimeServerUser {
    pub id: i64,
    pub uuid: String,
    pub speed_limit: Option<i32>,
    pub device_limit: Option<i32>,
}

#[derive(Clone, Debug, Eq, PartialEq)]
pub struct RuntimeServerRoute {
    pub id: i32,
    pub match_json: String,
    pub action: String,
    pub action_value_json: Option<String>,
}

#[derive(Clone, Copy, Debug, Eq, PartialEq, Structural)]
pub struct RuntimeTrafficEntry {
    pub user_id: i64,
    pub upload: i64,
    pub download: i64,
}

#[derive(Clone, Debug, Eq, PartialEq)]
pub struct PersistTrafficReport {
    pub installation_id: String,
    pub report_key: String,
    pub payload_hash: String,
    pub node_id: i32,
    pub node_kind: ServerKind,
    pub group_ids: Vec<i32>,
    pub rate: String,
    pub entries: Vec<RuntimeTrafficEntry>,
    pub accepted_at: i64,
    pub accounting_date: String,
    pub accounting_record_at: i64,
}

#[derive(Clone, Copy, Debug, Eq, PartialEq, Structural)]
pub enum ServerMetric {
    OnlineUser,
    LastCheckAt,
    LastPushAt,
}

impl ServerMetric {
    /// The suffix of the metric's cache key.
    pub fn key_suffix(self) -> (r: &'static str)
        ensures
            self == ServerMetric::OnlineUser ==> r@ == "ONLINE_USER"@,
            self == ServerMetric::LastCheckAt ==> r@ == "LAST_CHECK_AT"@,
            self == ServerMetric::LastPushAt ==> r@ == "LAST_PUSH_AT"@,
    {
        match self {
            ServerMetric::OnlineUser => "ONLINE_USER",
            ServerMetric::LastCheckAt => "LAST_CHECK_AT",
            ServerMetric::LastPushAt => "LAST_PUSH_AT",
        }
    }
}

#[derive(Clone, Debug, Eq, PartialEq)]
pub struct AliveUpdate {
    pub user_id: i64,
    pub ips_json: String,
}

#[derive(Debug)]
pub enum PersistTrafficError {
    IdempotencyConflict,
    UnauthorizedUser,
    RateOutOfRange,
    ChargeOutOfRange,
    TotalOutOfRange,
    AnalyticsRateLimited,
    AnalyticsUnavailable,
    AnalyticsEventInvalid,
    Repository(RepositoryError),
}

impl PersistTrafficError {
    /// `From<RepositoryError>`.
    pub fn from_repository(error: RepositoryError) -> (r: Self)
        ensures
            r == PersistTrafficError::Repository(error),
    {
        PersistTrafficError::Repository(error)
    }
}

/// Checks a node's presented credential against the credential epoch.
pub trait NodeCredentialVerifier {
    /// Whether `candidate` is the credential of node `node_id` of `kind`
    /// under credential epoch `epoch`.
    spec fn spec_accepts(&self, kind: ServerKind, node_id: i32, epoch: i64, candidate: Seq<char>) -> bool;

    fn verify(&self, kind: ServerKind, node_id: i32, epoch: i64, candidate: &str) -> (r: bool)
        ensures
            r == self.spec_accepts(kind, node_id, epoch, candidate@),
    ;
}

pub struct ServerRuntimeService<R, C, V> {
    repository: R,
    cache: C,
    credentials: V,
}

impl<R, C, V: NodeCredentialVerifier> ServerRuntimeService<R, C, V> {
    pub fn new(repository: R, cache: C, credentials: V) -> (s: Self)
        ensures
            s.spec_repository() == repository,
            s.spec_cache() == cache,
            s.spec_credentials() == credentials,
    {
        Self { repository, cache, credentials }
    }

    pub closed spec fn spec_repository(&self) -> R {
        self.repository
    }

    pub closed spec fn spec_cache(&self) -> C {
        self.cache
    }

    pub closed spec fn spec_credentials(&self) -> V {
        self.credentials
    }

    pub fn repository(&self) -> (r: &R)
        ensures
            *r == self.spec_repository(),
    {
        &self.repository
    }

    pub fn cache(&self) -> (r: &C)
        ensures
            *r == self.spec_cache(),
    {
        &self.cache
    }

    pub fn credentials(&self) -> (r: &V)
        ensures
            *r == self.spec_credentials(),
    {
        &self.credentials
    }

    /// A node without a stored credential epoch is refused without asking
    /// the verifier; otherwise the verifier decides, bound to that epoch.
    pub fn authenticate_with_epoch(
        &self,
        epoch: Option<i64>,
        kind: ServerKind,
        node_id: i32,
        candidate: &str,
    ) -> (r: bool)
        ensures
            r == match epoch {
                Some(e) => self.spec_credentials().spec_accepts(kind, node_id, e, candidate@),
                None => false,
            },
    {
        match epoch {
            None => false,
            Some(epoch) => self.credentials.verify(kind, node_id, epoch, candidate),
        }
    }
}

/// The users that have a cached alive count, each with its count, in the
/// order of `user_ids`.
pub open spec fn alive_pairs(user_ids: Seq<i64>, counts: Seq<Option<i64>>) -> Seq<(i64, i64)>
    decreases user_ids.len(),
{
    if user_ids.len() == 0 || counts.len() == 0 {
        seq![]
    } else {
        let rest = alive_pairs(user_ids.drop_last(), counts.drop_last());
        match counts.last() {
            Some(c) => rest.push((user_ids.last(), c)),
            None => rest,
        }
    }
}

/// Pairs each alive user with its cached count, dropping cache misses; a
/// cache answer of another length than the user list is a failure.
pub fn alive_counts_of(user_ids: &Vec<i64>, counts: &Vec<Option<i64>>) -> (r: Result<
    Vec<(i64, i64)>,
    RepositoryError,
>)
    ensures
        counts@.len() != user_ids@.len() ==> r is Err,
        counts@.len() == user_ids@.len() ==> (r matches Ok(pairs) && pairs@ == alive_pairs(
            user_ids@,
            counts@,
        )),
{
    if counts.len() != user_ids.len() {
        return Err(
            RepositoryError::new(
                "load alive user counts",
                "cache returned a different number of rows",
            ),
        );
    }
    let mut pairs: Vec<(i64, i64)> = Vec::new();
    let mut i: usize = 0;
    while i < user_ids.len()
        invariant
            counts@.len() == user_ids@.len(),
            i <= user_ids@.len(),
            pairs@ == alive_pairs(user_ids@.take(i as int), counts@.take(i as int)),
        decreases user_ids@.len() - i,
    {
        proof {
            assert(user_ids@.take(i + 1).drop_last() == user_ids@.take(i as int));
            assert(counts@.take(i + 1).drop_last() == counts@.take(i as int));
        }
        match counts[i] {
            Some(c) => pairs.push((user_ids[i], c)),
            None => {},
        }
        i = i + 1;
    }
    proof {
        assert(user_ids@.take(user_ids@.len() as int) == user_ids@);
        assert(counts@.take(counts@.len() as int) == counts@);
    }
    Ok(pairs)
}

} // verus!
