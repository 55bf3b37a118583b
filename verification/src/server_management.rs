//! Server groups, routes and protocol nodes: the input rules of the
//! management use cases and the column values a node write is turned into.
//!
//! The storage and presence ports are asynchronous and live with the
//! application shell; what is decided between their calls is here.
use vstd::prelude::*;

use crate::RepositoryError;
use crate::keyed_map::{KeyedMap, index_of, lemma_index_of_from};
use crate::text::{
    in_list, in_list_exec,
    chars_of, decimal, decimal_text, is_blank, lower_seq, parse_integer, parsed_in_range, str_eq,
    to_ascii_lowercase, trim, trim_str,
};

verus! {

/// Adapter-neutral structured protocol setting.
#[derive(Debug)]
pub enum ServerSettingValue {
    Null,
    Bool(bool),
    Integer(i64),
    Decimal(String),
    String(String),
    Array(Vec<ServerSettingValue>),
    Object(KeyedMap<ServerSettingValue>),
}

impl ServerSettingValue {
    pub fn object(&self) -> (r: Option<&KeyedMap<ServerSettingValue>>)
        ensures
            match self {
                ServerSettingValue::Object(m) => r == Some(m),
                _ => r is None,
            },
    {
        match self {
            Self::Object(value) => Some(value),
            _ => None,
        }
    }

    pub fn object_mut(&mut self) -> (r: Option<&mut KeyedMap<ServerSettingValue>>)
        ensures
            match *old(self) {
                ServerSettingValue::Object(m) => r matches Some(x) && *x == m
                    && *final(self) == ServerSettingValue::Object(*final(x)),
                _ => r is None && *final(self) == *old(self),
            },
    {
        match self {
            Self::Object(value) => Some(value),
            _ => None,
        }
    }

    pub fn string(&self) -> (r: Option<&str>)
        ensures
            match self {
                ServerSettingValue::String(s) => r matches Some(t) && t@ == s@,
                _ => r is None,
            },
    {
        match self {
            Self::String(value) => Some(value.as_str()),
            _ => None,
        }
    }
}

#[derive(Clone, Debug, Eq, PartialEq)]
pub struct ServerGroup {
    pub id: i32,
    pub name: String,
    pub user_count: i64,
    pub server_count: i64,
    pub created_at: i64,
    pub updated_at: i64,
}

/// The protocol families a node can speak.
#[derive(Clone, Copy, Debug, Eq, PartialEq, Structural)]
pub enum ServerKind {
    Shadowsocks,
    Vmess,
    Trojan,
    Tuic,
    Hysteria,
    Vless,
    Anytls,
    V2node,
}

pub open spec fn kind_name(kind: ServerKind) -> Seq<char> {
    match kind {
        ServerKind::Shadowsocks => "shadowsocks"@,
        ServerKind::Vmess => "vmess"@,
        ServerKind::Trojan => "trojan"@,
        ServerKind::Tuic => "tuic"@,
        ServerKind::Hysteria => "hysteria"@,
        ServerKind::Vless => "vless"@,
        ServerKind::Anytls => "anytls"@,
        ServerKind::V2node => "v2node"@,
    }
}

pub open spec fn kind_named(raw: Seq<char>) -> Option<ServerKind> {
    if raw == "shadowsocks"@ {
        Some(ServerKind::Shadowsocks)
    } else if raw == "vmess"@ {
        Some(ServerKind::Vmess)
    } else if raw == "trojan"@ {
        Some(ServerKind::Trojan)
    } else if raw == "tuic"@ {
        Some(ServerKind::Tuic)
    } else if raw == "hysteria"@ {
        Some(ServerKind::Hysteria)
    } else if raw == "vless"@ {
        Some(ServerKind::Vless)
    } else if raw == "anytls"@ {
        Some(ServerKind::Anytls)
    } else if raw == "v2node"@ {
        Some(ServerKind::V2node)
    } else {
        None
    }
}

impl ServerKind {
    /// The kind's name in routes and tokens.
    pub fn as_str(&self) -> (r: &'static str)
        ensures
            r@ == kind_name(*self),
    {
        match self {
            ServerKind::Shadowsocks => "shadowsocks",
            ServerKind::Vmess => "vmess",
            ServerKind::Trojan => "trojan",
            ServerKind::Tuic => "tuic",
            ServerKind::Hysteria => "hysteria",
            ServerKind::Vless => "vless",
            ServerKind::Anytls => "anytls",
            ServerKind::V2node => "v2node",
        }
    }

    /// The kind a route segment names; an unknown name is refused.
    pub fn parse(raw: &str) -> (r: Result<ServerKind, ServerInputViolation>)
        ensures
            match kind_named(raw@) {
                Some(k) => r == Ok::<ServerKind, ServerInputViolation>(k),
                None => r == Err::<ServerKind, ServerInputViolation>(
                    ServerInputViolation::UnknownKind,
                ),
            },
    {
        if str_eq(raw, "shadowsocks") {
            Ok(ServerKind::Shadowsocks)
        } else if str_eq(raw, "vmess") {
            Ok(ServerKind::Vmess)
        } else if str_eq(raw, "trojan") {
            Ok(ServerKind::Trojan)
        } else if str_eq(raw, "tuic") {
            Ok(ServerKind::Tuic)
        } else if str_eq(raw, "hysteria") {
            Ok(ServerKind::Hysteria)
        } else if str_eq(raw, "vless") {
            Ok(ServerKind::Vless)
        } else if str_eq(raw, "anytls") {
            Ok(ServerKind::Anytls)
        } else if str_eq(raw, "v2node") {
            Ok(ServerKind::V2node)
        } else {
            Err(ServerInputViolation::UnknownKind)
        }
    }
}

/// Why a server command's input was refused.
#[derive(Clone, Copy, Debug, Eq, PartialEq)]
pub enum ServerInputViolation {
    Required(&'static str),
    UnsupportedField(&'static str),
    InvalidRate,
    InvalidPort(&'static str),
    InvalidGroupId,
    EmptyRouteRemarks,
    EmptyRouteMatches,
    UnknownKind,
}

/// A node's rate as the transport read it: the decimal text of a finite
/// number, or a number that is not finite.
#[derive(Clone, Debug, PartialEq)]
pub enum RateInput {
    Finite(String),
    NonFinite,
}

#[derive(Debug, Default)]
pub struct ServerWriteInput {
    pub group_id: Option<Vec<i64>>,
    pub route_id: Option<Option<Vec<i64>>>,
    pub parent_id: Option<Option<i64>>,
    pub tags: Option<Option<Vec<String>>>,
    pub name: Option<String>,
    pub rate: Option<RateInput>,
    pub host: Option<String>,
    pub port: Option<i64>,
    pub server_port: Option<i64>,
    pub show: Option<bool>,
    pub rotate_credential: Option<bool>,
    pub cipher: Option<Option<String>>,
    pub obfs: Option<Option<String>>,
    pub obfs_settings: Option<Option<ServerSettingValue>>,
    pub obfs_password: Option<Option<String>>,
    pub network: Option<String>,
    pub network_settings: Option<Option<ServerSettingValue>>,
    pub allow_insecure: Option<bool>,
    pub server_name: Option<Option<String>>,
    pub tls: Option<i64>,
    pub tls_settings: Option<Option<ServerSettingValue>>,
    pub vmess_network_settings: Option<Option<ServerSettingValue>>,
    pub vmess_tls_settings: Option<Option<ServerSettingValue>>,
    pub vmess_rule_settings: Option<Option<ServerSettingValue>>,
    pub vmess_dns_settings: Option<Option<ServerSettingValue>>,
    pub insecure: Option<bool>,
    pub disable_sni: Option<bool>,
    pub udp_relay_mode: Option<Option<String>>,
    pub zero_rtt_handshake: Option<bool>,
    pub congestion_control: Option<Option<String>>,
    pub version: Option<i64>,
    pub up_mbps: Option<Option<i64>>,
    pub down_mbps: Option<Option<i64>>,
    pub flow: Option<Option<String>>,
    pub encryption: Option<Option<String>>,
    pub encryption_settings: Option<Option<ServerSettingValue>>,
    pub sort: Option<Option<i64>>,
    pub padding_scheme: Option<Option<ServerSettingValue>>,
    pub listen_ip: Option<String>,
    pub protocol: Option<String>,
}

#[derive(Debug)]
pub enum ServerColumnValue {
    Text(Option<String>),
    Integer(Option<i64>),
    Structured(Option<ServerSettingValue>),
}

pub type ServerColumnValues = Vec<(&'static str, ServerColumnValue)>;

#[derive(Debug)]
pub struct PreparedServerWrite {
    pub values: ServerColumnValues,
    pub group_ids: Vec<i32>,
    pub rotate_credential: bool,
    pub updated_at: i64,
}

#[derive(Debug)]
pub enum ServerNodeDetails {
    Shadowsocks { cipher: String, obfs: Option<String>, obfs_settings: Option<ServerSettingValue> },
    Vmess {
        tls: i16,
        network: String,
        rules: Option<ServerSettingValue>,
        network_settings: Option<ServerSettingValue>,
        tls_settings: Option<ServerSettingValue>,
        rule_settings: Option<ServerSettingValue>,
        dns_settings: Option<ServerSettingValue>,
    },
    Trojan {
        network: Option<String>,
        network_settings: Option<ServerSettingValue>,
        allow_insecure: bool,
        server_name: Option<String>,
    },
    Tuic {
        server_name: Option<String>,
        insecure: bool,
        disable_sni: bool,
        udp_relay_mode: Option<String>,
        zero_rtt_handshake: bool,
        congestion_control: Option<String>,
    },
    Hysteria {
        version: i32,
        up_mbps: i32,
        down_mbps: i32,
        obfs: Option<String>,
        obfs_password: Option<String>,
        server_name: Option<String>,
        insecure: bool,
    },
    Vless {
        tls: i16,
        tls_settings: Option<ServerSettingValue>,
        flow: Option<String>,
        network: String,
        network_settings: Option<ServerSettingValue>,
        encryption: Option<String>,
        encryption_settings: Option<ServerSettingValue>,
    },
    Anytls { server_name: Option<String>, insecure: bool, padding_scheme: Option<ServerSettingValue> },
    V2node {
        listen_ip: String,
        protocol: String,
        tls: i16,
        tls_settings: Option<ServerSettingValue>,
        flow: Option<String>,
        network: String,
        network_settings: Option<ServerSettingValue>,
        encryption: Option<String>,
        encryption_settings: Option<ServerSettingValue>,
        disable_sni: bool,
        udp_relay_mode: Option<String>,
        zero_rtt_handshake: bool,
        congestion_control: Option<String>,
        cipher: Option<String>,
        up_mbps: i32,
        down_mbps: i32,
        obfs: Option<String>,
        obfs_password: Option<String>,
        padding_scheme: Option<ServerSettingValue>,
        install_command: String,
    },
}

impl ServerNodeDetails {
    /// The protocol family of a node.
    pub fn kind(&self) -> (r: ServerKind)
        ensures
            r == match self {
                ServerNodeDetails::Shadowsocks { .. } => ServerKind::Shadowsocks,
                ServerNodeDetails::Vmess { .. } => ServerKind::Vmess,
                ServerNodeDetails::Trojan { .. } => ServerKind::Trojan,
                ServerNodeDetails::Tuic { .. } => ServerKind::Tuic,
                ServerNodeDetails::Hysteria { .. } => ServerKind::Hysteria,
                ServerNodeDetails::Vless { .. } => ServerKind::Vless,
                ServerNodeDetails::Anytls { .. } => ServerKind::Anytls,
                ServerNodeDetails::V2node { .. } => ServerKind::V2node,
            },
    {
        match self {
            ServerNodeDetails::Shadowsocks { .. } => ServerKind::Shadowsocks,
            ServerNodeDetails::Vmess { .. } => ServerKind::Vmess,
            ServerNodeDetails::Trojan { .. } => ServerKind::Trojan,
            ServerNodeDetails::Tuic { .. } => ServerKind::Tuic,
            ServerNodeDetails::Hysteria { .. } => ServerKind::Hysteria,
            ServerNodeDetails::Vless { .. } => ServerKind::Vless,
            ServerNodeDetails::Anytls { .. } => ServerKind::Anytls,
            ServerNodeDetails::V2node { .. } => ServerKind::V2node,
        }
    }
}

#[derive(Clone, Copy, Debug, Default, Eq, PartialEq, Structural)]
pub struct ServerHealth {
    pub online: Option<i64>,
    pub last_check_at: Option<i64>,
    pub last_push_at: Option<i64>,
}

#[derive(Clone, Copy, Debug, Eq, PartialEq, Structural)]
pub struct ServerPresenceKey {
    pub kind: ServerKind,
    pub node_id: i32,
}

#[derive(Clone, Copy, Debug, Eq, PartialEq, Structural)]
pub struct ServerSortUpdate {
    pub kind: ServerKind,
    pub id: i32,
    pub sort: i32,
}

#[derive(Clone, Copy, Debug, Eq, PartialEq, Structural)]
pub enum ServerGroupReference {
    Server,
    Plan,
    User,
    Unknown,
}

#[derive(Clone, Copy, Debug, Eq, PartialEq, Structural)]
pub enum UpdateOutcome {
    Updated,
    NotFound,
}

#[derive(Clone, Copy, Debug, Eq, PartialEq, Structural)]
pub enum DeleteGroupOutcome {
    Deleted,
    NotFound,
    InUse(ServerGroupReference),
}

#[derive(Clone, Copy, Debug, Eq, PartialEq, Structural)]
pub enum ServerPersistenceOutcome {
    Applied,
    ServerNotFound,
    ServerGroupNotFound,
}

#[derive(Clone, Debug, Eq, PartialEq)]
pub enum ServerCredentialError {
    InvalidSettings,
    Generation(String),
}

/// Protocol credentials and install commands, supplied by the deployment.
pub trait ServerCredentialProvisioner {
    /// Whether `out` is TLS settings the provisioner may prepare from the
    /// sent settings `input` for TLS mode `tls` on a node of the v2node
    /// family or not; keys it generates are left to it.
    spec fn spec_tls_prepared(
        &self,
        input: Option<ServerSettingValue>,
        tls: i64,
        v2node: bool,
        out: ServerSettingValue,
    ) -> bool;

    /// Whether `out` is encryption settings the provisioner may prepare
    /// from the sent settings `input` for the handshake `encryption`.
    spec fn spec_encryption_prepared(
        &self,
        input: Option<ServerSettingValue>,
        encryption: Option<Seq<char>>,
        v2node: bool,
        out: ServerSettingValue,
    ) -> bool;

    /// Whether `out` is an obfuscation password the provisioner may
    /// generate at time `now`.
    spec fn spec_obfs_generated(&self, now: i64, out: Seq<char>) -> bool;

    fn prepare_tls_settings(
        &self,
        input: Option<&ServerSettingValue>,
        tls: i64,
        v2node: bool,
    ) -> (r: Result<ServerSettingValue, ServerCredentialError>)
        ensures
            r matches Ok(v) ==> self.spec_tls_prepared(
                match input {
                    Some(i) => Some(*i),
                    None => None,
                },
                tls,
                v2node,
                v,
            ),
    ;

    fn prepare_encryption_settings(
        &self,
        input: Option<&ServerSettingValue>,
        encryption: Option<&str>,
        v2node: bool,
    ) -> (r: Result<ServerSettingValue, ServerCredentialError>)
        ensures
            r matches Ok(v) ==> self.spec_encryption_prepared(
                match input {
                    Some(i) => Some(*i),
                    None => None,
                },
                match encryption {
                    Some(e) => Some(e@),
                    None => None,
                },
                v2node,
                v,
            ),
    ;

    fn generate_obfs_password(&self, now: i64) -> (r: Result<String, ServerCredentialError>)
        ensures
            r matches Ok(p) ==> self.spec_obfs_generated(now, p@),
    ;

    fn node_token(&self, kind: ServerKind, id: i32, epoch: i64) -> Option<String>;

    fn v2node_install_command(&self, id: i32, token: Option<&str>) -> String;
}

#[derive(Debug)]
pub enum ServerManagementError {
    InvalidInput(ServerInputViolation),
    ServerGroupNotFound,
    ServerGroupInUse(ServerGroupReference),
    RouteNotFound,
    ServerNotFound,
    Credential(ServerCredentialError),
    InvalidNodeSort,
    InvalidPresenceResult,
    Repository(RepositoryError),
}

pub struct ServerManagementService<R, P, C> {
    repository: R,
    presence: P,
    credentials: C,
}

impl<R, P, C> ServerManagementService<R, P, C> {
    pub closed spec fn spec_parts(&self) -> (R, P, C) {
        (self.repository, self.presence, self.credentials)
    }

    pub fn new(repository: R, presence: P, credentials: C) -> (s: Self)
        ensures
            s.spec_parts() == (repository, presence, credentials),
    {
        Self { repository, presence, credentials }
    }

    pub fn repository(&self) -> (r: &R)
        ensures
            *r == self.spec_parts().0,
    {
        &self.repository
    }

    pub fn presence(&self) -> (r: &P)
        ensures
            *r == self.spec_parts().1,
    {
        &self.presence
    }

    pub fn credentials(&self) -> (r: &C)
        ensures
            *r == self.spec_parts().2,
    {
        &self.credentials
    }
}

/// What a refused node write reports: a server that was not there (or an
/// outcome that should not have been refused) is "not found".
pub fn persistence_error(outcome: ServerPersistenceOutcome) -> (r: ServerManagementError)
    ensures
        outcome == ServerPersistenceOutcome::ServerGroupNotFound ==> r
            is ServerGroupNotFound,
        outcome != ServerPersistenceOutcome::ServerGroupNotFound ==> r is ServerNotFound,
{
    match outcome {
        ServerPersistenceOutcome::Applied | ServerPersistenceOutcome::ServerNotFound => {
            ServerManagementError::ServerNotFound
        },
        ServerPersistenceOutcome::ServerGroupNotFound => ServerManagementError::ServerGroupNotFound,
    }
}

/// A group needs a non-blank name.
pub fn validate_group_name(name: &str) -> (r: Result<(), ServerManagementError>)
    ensures
        r is Ok <==> trim(name@).len() > 0,
        r is Err ==> r == Err::<(), ServerManagementError>(
            ServerManagementError::InvalidInput(ServerInputViolation::Required("name")),
        ),
{
    if is_blank(name) {
        Err(ServerManagementError::InvalidInput(ServerInputViolation::Required("name")))
    } else {
        Ok(())
    }
}

/// A route needs non-blank remarks.
pub fn validate_route_remarks(remarks: &str) -> (r: Result<(), ServerManagementError>)
    ensures
        r is Ok <==> trim(remarks@).len() > 0,
        r is Err ==> r == Err::<(), ServerManagementError>(
            ServerManagementError::InvalidInput(ServerInputViolation::EmptyRouteRemarks),
        ),
{
    if is_blank(remarks) {
        Err(ServerManagementError::InvalidInput(ServerInputViolation::EmptyRouteRemarks))
    } else {
        Ok(())
    }
}

/// A stored id is an `i32`; an identifier outside that range names nothing.
pub fn stored_id(id: i64, missing: ServerManagementError) -> (r: Result<i32, ServerManagementError>)
    ensures
        i32::MIN <= id <= i32::MAX ==> r == Ok::<i32, ServerManagementError>(id as i32),
        !(i32::MIN <= id <= i32::MAX) ==> r == Err::<i32, ServerManagementError>(missing),
{
    if i32::MIN as i64 <= id && id <= i32::MAX as i64 {
        Ok(id as i32)
    } else {
        Err(missing)
    }
}

/// One entry of a node-sort request: the id, trimmed, must read as a
/// positive `i32`, and the sort value must fit `i32`.
pub fn sort_update(kind: ServerKind, raw_id: &str, raw_sort: i64) -> (r: Result<
    ServerSortUpdate,
    ServerManagementError,
>)
    ensures
        match parsed_in_range(trim(raw_id@), i32::MIN as int, i32::MAX as int) {
            Some(id) => if id > 0 && i32::MIN <= raw_sort <= i32::MAX {
                r matches Ok(u) && u.kind == kind && u.id == id && u.sort == raw_sort
            } else {
                r matches Err(ServerManagementError::InvalidNodeSort)
            },
            None => r matches Err(ServerManagementError::InvalidNodeSort),
        },
{
    let t = trim_str(raw_id);
    match parse_integer(t.as_str(), i32::MIN as i64, i32::MAX as i64) {
        Some(id) => if id > 0 && i32::MIN as i64 <= raw_sort && raw_sort <= i32::MAX as i64 {
            Ok(ServerSortUpdate { kind, id: id as i32, sort: raw_sort as i32 })
        } else {
            Err(ServerManagementError::InvalidNodeSort)
        },
        None => Err(ServerManagementError::InvalidNodeSort),
    }
}

/// The answer to a group rename or route change from the store.
pub fn update_result(outcome: UpdateOutcome, missing: ServerManagementError) -> (r: Result<
    (),
    ServerManagementError,
>)
    ensures
        outcome == UpdateOutcome::Updated ==> r is Ok,
        outcome == UpdateOutcome::NotFound ==> r == Err::<(), ServerManagementError>(missing),
{
    match outcome {
        UpdateOutcome::Updated => Ok(()),
        UpdateOutcome::NotFound => Err(missing),
    }
}

/// The answer to a group deletion from the store.
pub fn delete_group_result(outcome: DeleteGroupOutcome) -> (r: Result<(), ServerManagementError>)
    ensures
        match outcome {
            DeleteGroupOutcome::Deleted => r is Ok,
            DeleteGroupOutcome::NotFound => r matches Err(ServerManagementError::ServerGroupNotFound),
            DeleteGroupOutcome::InUse(reference) => r matches Err(
                ServerManagementError::ServerGroupInUse(x),
            ) && x == reference,
        },
{
    match outcome {
        DeleteGroupOutcome::Deleted => Ok(()),
        DeleteGroupOutcome::NotFound => Err(ServerManagementError::ServerGroupNotFound),
        DeleteGroupOutcome::InUse(reference) => Err(
            ServerManagementError::ServerGroupInUse(reference),
        ),
    }
}

/// A listening port is 1 to 65535.
pub fn validate_server_port(port: i64, field: &'static str) -> (r: Result<i64, ServerInputViolation>)
    ensures
        1 <= port <= 65535 ==> r == Ok::<i64, ServerInputViolation>(port),
        !(1 <= port <= 65535) ==> r == Err::<i64, ServerInputViolation>(
            ServerInputViolation::InvalidPort(field),
        ),
{
    if 1 <= port && port <= 65535 {
        Ok(port)
    } else {
        Err(ServerInputViolation::InvalidPort(field))
    }
}

/// Whether `ids` is strictly increasing.
pub open spec fn strictly_increasing(ids: Seq<i32>) -> bool {
    forall|a: int, b: int| 0 <= a < b < ids.len() ==> ids[a] < ids[b]
}

/// The group ids a node write locks: the distinct ids in ascending order.
/// Every id must be a positive `i32`, and there must be one.
pub open spec fn group_ids_valid(ids: Seq<i64>) -> bool {
    ids.len() > 0 && forall|i: int| 0 <= i < ids.len() ==> 1 <= #[trigger] ids[i] <= i32::MAX
}

pub fn canonical_server_group_ids(ids: &[i64]) -> (r: Result<Vec<i32>, ServerInputViolation>)
    ensures
        ids@.len() == 0 ==> r == Err::<Vec<i32>, ServerInputViolation>(
            ServerInputViolation::Required("group_id"),
        ),
        ids@.len() > 0 && !group_ids_valid(ids@) ==> r == Err::<Vec<i32>, ServerInputViolation>(
            ServerInputViolation::InvalidGroupId,
        ),
        group_ids_valid(ids@) ==> (r matches Ok(v) && strictly_increasing(v@) && (forall|x: i32|
            v@.contains(x) <==> ids@.contains(x as i64))),
{
    if ids.len() == 0 {
        return Err(ServerInputViolation::Required("group_id"));
    }
    let mut out: Vec<i32> = Vec::new();
    let mut i: usize = 0;
    while i < ids.len()
        invariant
            i <= ids@.len(),
            forall|j: int| 0 <= j < i ==> 1 <= #[trigger] ids@[j] <= i32::MAX,
            strictly_increasing(out@),
            forall|x: i32| out@.contains(x) <==> ids@.take(i as int).contains(x as i64),
        decreases ids@.len() - i,
    {
        let id = ids[i];
        if !(1 <= id && id <= i32::MAX as i64) {
            return Err(ServerInputViolation::InvalidGroupId);
        }
        let value = id as i32;
        let mut p: usize = 0;
        while p < out.len() && out[p] < value
            invariant
                p <= out@.len(),
                forall|j: int| 0 <= j < p ==> out@[j] < value,
            decreases out@.len() - p,
        {
            p = p + 1;
        }
        let ghost before = out@;
        if p < out.len() && out[p] == value {
            proof {
                assert(ids@.take(i + 1) =~= ids@.take(i as int).push(id));
                assert forall|x: i32| out@.contains(x) <==> ids@.take(i + 1).contains(x as i64) by {
                    if x == value {
                        assert(out@[p as int] == x);
                    }
                    if ids@.take(i + 1).contains(x as i64) && x != value {
                        let k = choose|k: int| 0 <= k < ids@.take(i + 1).len() && #[trigger] ids@.take(i + 1)[k] == x as i64;
                        assert(k < i);
                        assert(ids@.take(i as int)[k] == x as i64);
                    }
                }
            }
        } else {
            out.insert(p, value);
            proof {
                assert(ids@.take(i + 1) =~= ids@.take(i as int).push(id));
                assert(out@ =~= before.insert(p as int, value));
                assert forall|a: int, b: int| 0 <= a < b < out@.len() implies out@[a] < out@[b] by {
                    if b < p {
                        assert(before[a] < before[b]);
                    } else if b == p {
                        assert(before[a] < value);
                    } else if a < p {
                        assert(before[a] < value);
                        assert(p < before.len() ==> value < before[p as int]);
                        assert(before[p as int] <= before[b - 1]) by {
                            if p < b - 1 {
                                assert(before[p as int] < before[b - 1]);
                            }
                        };
                    } else if a == p {
                        assert(value < before[p as int]);
                        assert(before[p as int] <= before[b - 1]) by {
                            if p < b - 1 {
                                assert(before[p as int] < before[b - 1]);
                            }
                        };
                    } else {
                        assert(before[a - 1] < before[b - 1]);
                    }
                }
                assert forall|x: i32| out@.contains(x) <==> ids@.take(i + 1).contains(x as i64) by {
                    if out@.contains(x) {
                        let k = choose|k: int| 0 <= k < out@.len() && #[trigger] out@[k] == x;
                        if k < p {
                            assert(before[k] == x);
                            assert(before.contains(x));
                        } else if k > p {
                            assert(before[k - 1] == x);
                            assert(before.contains(x));
                        } else {
                            assert(ids@.take(i + 1)[i as int] == id);
                        }
                    }
                    if ids@.take(i + 1).contains(x as i64) {
                        let k = choose|k: int| 0 <= k < ids@.take(i + 1).len() && #[trigger] ids@.take(i + 1)[k] == x as i64;
                        if k < i {
                            assert(ids@.take(i as int)[k] == x as i64);
                            assert(before.contains(x));
                            let m = choose|m: int| 0 <= m < before.len() && #[trigger] before[m] == x;
                            if m < p {
                                assert(out@[m] == x);
                            } else {
                                assert(out@[m + 1] == x);
                            }
                        } else {
                            assert(out@[p as int] == x);
                        }
                    }
                }
            }
        }
        i = i + 1;
    }
    proof {
        assert(ids@.take(ids@.len() as int) =~= ids@);
    }
    Ok(out)
}

/// The fields every kind accepts.
pub const COMMON_FIELDS: [&'static str; 11] = [
    "group_id",
    "route_id",
    "parent_id",
    "tags",
    "name",
    "rate",
    "host",
    "port",
    "server_port",
    "show",
    "rotate_credential",
];

/// The fields of a shadowsocks node.
pub const SHADOWSOCKS_FIELDS: [&'static str; 3] = [
    "cipher",
    "obfs",
    "obfs_settings",
];

/// The fields of a trojan node.
pub const TROJAN_FIELDS: [&'static str; 4] = [
    "network",
    "network_settings",
    "allow_insecure",
    "server_name",
];

/// The fields of a vmess node.
pub const VMESS_FIELDS: [&'static str; 6] = [
    "tls",
    "network",
    "networkSettings",
    "tlsSettings",
    "ruleSettings",
    "dnsSettings",
];

/// The fields of a tuic node.
pub const TUIC_FIELDS: [&'static str; 6] = [
    "server_name",
    "insecure",
    "disable_sni",
    "udp_relay_mode",
    "zero_rtt_handshake",
    "congestion_control",
];

/// The fields of a hysteria node.
pub const HYSTERIA_FIELDS: [&'static str; 7] = [
    "version",
    "up_mbps",
    "down_mbps",
    "obfs",
    "obfs_password",
    "server_name",
    "insecure",
];

/// The fields of a vless node.
pub const VLESS_FIELDS: [&'static str; 8] = [
    "tls",
    "tls_settings",
    "flow",
    "network",
    "network_settings",
    "encryption",
    "encryption_settings",
    "sort",
];

/// The fields of a anytls node.
pub const ANYTLS_FIELDS: [&'static str; 3] = [
    "server_name",
    "insecure",
    "padding_scheme",
];

/// The fields of a v2node node.
pub const V2NODE_FIELDS: [&'static str; 20] = [
    "listen_ip",
    "protocol",
    "tls",
    "tls_settings",
    "flow",
    "network",
    "network_settings",
    "encryption",
    "encryption_settings",
    "disable_sni",
    "udp_relay_mode",
    "zero_rtt_handshake",
    "congestion_control",
    "cipher",
    "up_mbps",
    "down_mbps",
    "obfs",
    "obfs_password",
    "padding_scheme",
    "sort",
];

/// The protocol fields of each kind.
pub open spec fn protocol_field_list(kind: ServerKind) -> Seq<&'static str> {
    match kind {
        ServerKind::Shadowsocks => SHADOWSOCKS_FIELDS@,
        ServerKind::Trojan => TROJAN_FIELDS@,
        ServerKind::Vmess => VMESS_FIELDS@,
        ServerKind::Tuic => TUIC_FIELDS@,
        ServerKind::Hysteria => HYSTERIA_FIELDS@,
        ServerKind::Vless => VLESS_FIELDS@,
        ServerKind::Anytls => ANYTLS_FIELDS@,
        ServerKind::V2node => V2NODE_FIELDS@,
    }
}

pub fn protocol_fields(kind: ServerKind) -> (r: &'static [&'static str])
    ensures
        r@ == protocol_field_list(kind),
{
    match kind {
        ServerKind::Shadowsocks => &SHADOWSOCKS_FIELDS,
        ServerKind::Trojan => &TROJAN_FIELDS,
        ServerKind::Vmess => &VMESS_FIELDS,
        ServerKind::Tuic => &TUIC_FIELDS,
        ServerKind::Hysteria => &HYSTERIA_FIELDS,
        ServerKind::Vless => &VLESS_FIELDS,
        ServerKind::Anytls => &ANYTLS_FIELDS,
        ServerKind::V2node => &V2NODE_FIELDS,
    }
}

pub open spec fn present_fields_0(input: ServerWriteInput, s: Seq<&'static str>) -> Seq<&'static str> {
    let s = if input.group_id is Some { s.push("group_id") } else { s };
    let s = if input.route_id is Some { s.push("route_id") } else { s };
    let s = if input.parent_id is Some { s.push("parent_id") } else { s };
    let s = if input.tags is Some { s.push("tags") } else { s };
    let s = if input.name is Some { s.push("name") } else { s };
    let s = if input.rate is Some { s.push("rate") } else { s };
    let s = if input.host is Some { s.push("host") } else { s };
    let s = if input.port is Some { s.push("port") } else { s };
    s
}

pub open spec fn present_fields_1(input: ServerWriteInput, s: Seq<&'static str>) -> Seq<&'static str> {
    let s = if input.server_port is Some { s.push("server_port") } else { s };
    let s = if input.show is Some { s.push("show") } else { s };
    let s = if input.rotate_credential is Some { s.push("rotate_credential") } else { s };
    let s = if input.cipher is Some { s.push("cipher") } else { s };
    let s = if input.obfs is Some { s.push("obfs") } else { s };
    let s = if input.obfs_settings is Some { s.push("obfs_settings") } else { s };
    let s = if input.obfs_password is Some { s.push("obfs_password") } else { s };
    let s = if input.network is Some { s.push("network") } else { s };
    s
}

pub open spec fn present_fields_2(input: ServerWriteInput, s: Seq<&'static str>) -> Seq<&'static str> {
    let s = if input.network_settings is Some { s.push("network_settings") } else { s };
    let s = if input.allow_insecure is Some { s.push("allow_insecure") } else { s };
    let s = if input.server_name is Some { s.push("server_name") } else { s };
    let s = if input.tls is Some { s.push("tls") } else { s };
    let s = if input.tls_settings is Some { s.push("tls_settings") } else { s };
    let s = if input.vmess_network_settings is Some { s.push("networkSettings") } else { s };
    let s = if input.vmess_tls_settings is Some { s.push("tlsSettings") } else { s };
    let s = if input.vmess_rule_settings is Some { s.push("ruleSettings") } else { s };
    s
}

pub open spec fn present_fields_3(input: ServerWriteInput, s: Seq<&'static str>) -> Seq<&'static str> {
    let s = if input.vmess_dns_settings is Some { s.push("dnsSettings") } else { s };
    let s = if input.insecure is Some { s.push("insecure") } else { s };
    let s = if input.disable_sni is Some { s.push("disable_sni") } else { s };
    let s = if input.udp_relay_mode is Some { s.push("udp_relay_mode") } else { s };
    let s = if input.zero_rtt_handshake is Some { s.push("zero_rtt_handshake") } else { s };
    let s = if input.congestion_control is Some { s.push("congestion_control") } else { s };
    let s = if input.version is Some { s.push("version") } else { s };
    let s = if input.up_mbps is Some { s.push("up_mbps") } else { s };
    s
}

pub open spec fn present_fields_4(input: ServerWriteInput, s: Seq<&'static str>) -> Seq<&'static str> {
    let s = if input.down_mbps is Some { s.push("down_mbps") } else { s };
    let s = if input.flow is Some { s.push("flow") } else { s };
    let s = if input.encryption is Some { s.push("encryption") } else { s };
    let s = if input.encryption_settings is Some { s.push("encryption_settings") } else { s };
    let s = if input.sort is Some { s.push("sort") } else { s };
    let s = if input.padding_scheme is Some { s.push("padding_scheme") } else { s };
    let s = if input.listen_ip is Some { s.push("listen_ip") } else { s };
    let s = if input.protocol is Some { s.push("protocol") } else { s };
    s
}

/// The names of the fields a write input carries, in declaration order.
pub open spec fn present_field_list(input: ServerWriteInput) -> Seq<&'static str> {
    present_fields_4(input, present_fields_3(input, present_fields_2(input, present_fields_1(input, present_fields_0(input, Seq::empty())))))
}

fn push_present_0(input: &ServerWriteInput, fields: &mut Vec<&'static str>)
    ensures
        final(fields)@ == present_fields_0(*input, old(fields)@),
{
    if input.group_id.is_some() {
        fields.push("group_id");
    }
    if input.route_id.is_some() {
        fields.push("route_id");
    }
    if input.parent_id.is_some() {
        fields.push("parent_id");
    }
    if input.tags.is_some() {
        fields.push("tags");
    }
    if input.name.is_some() {
        fields.push("name");
    }
    if input.rate.is_some() {
        fields.push("rate");
    }
    if input.host.is_some() {
        fields.push("host");
    }
    if input.port.is_some() {
        fields.push("port");
    }
}

fn push_present_1(input: &ServerWriteInput, fields: &mut Vec<&'static str>)
    ensures
        final(fields)@ == present_fields_1(*input, old(fields)@),
{
    if input.server_port.is_some() {
        fields.push("server_port");
    }
    if input.show.is_some() {
        fields.push("show");
    }
    if input.rotate_credential.is_some() {
        fields.push("rotate_credential");
    }
    if input.cipher.is_some() {
        fields.push("cipher");
    }
    if input.obfs.is_some() {
        fields.push("obfs");
    }
    if input.obfs_settings.is_some() {
        fields.push("obfs_settings");
    }
    if input.obfs_password.is_some() {
        fields.push("obfs_password");
    }
    if input.network.is_some() {
        fields.push("network");
    }
}

fn push_present_2(input: &ServerWriteInput, fields: &mut Vec<&'static str>)
    ensures
        final(fields)@ == present_fields_2(*input, old(fields)@),
{
    if input.network_settings.is_some() {
        fields.push("network_settings");
    }
    if input.allow_insecure.is_some() {
        fields.push("allow_insecure");
    }
    if input.server_name.is_some() {
        fields.push("server_name");
    }
    if input.tls.is_some() {
        fields.push("tls");
    }
    if input.tls_settings.is_some() {
        fields.push("tls_settings");
    }
    if input.vmess_network_settings.is_some() {
        fields.push("networkSettings");
    }
    if input.vmess_tls_settings.is_some() {
        fields.push("tlsSettings");
    }
    if input.vmess_rule_settings.is_some() {
        fields.push("ruleSettings");
    }
}

fn push_present_3(input: &ServerWriteInput, fields: &mut Vec<&'static str>)
    ensures
        final(fields)@ == present_fields_3(*input, old(fields)@),
{
    if input.vmess_dns_settings.is_some() {
        fields.push("dnsSettings");
    }
    if input.insecure.is_some() {
        fields.push("insecure");
    }
    if input.disable_sni.is_some() {
        fields.push("disable_sni");
    }
    if input.udp_relay_mode.is_some() {
        fields.push("udp_relay_mode");
    }
    if input.zero_rtt_handshake.is_some() {
        fields.push("zero_rtt_handshake");
    }
    if input.congestion_control.is_some() {
        fields.push("congestion_control");
    }
    if input.version.is_some() {
        fields.push("version");
    }
    if input.up_mbps.is_some() {
        fields.push("up_mbps");
    }
}

fn push_present_4(input: &ServerWriteInput, fields: &mut Vec<&'static str>)
    ensures
        final(fields)@ == present_fields_4(*input, old(fields)@),
{
    if input.down_mbps.is_some() {
        fields.push("down_mbps");
    }
    if input.flow.is_some() {
        fields.push("flow");
    }
    if input.encryption.is_some() {
        fields.push("encryption");
    }
    if input.encryption_settings.is_some() {
        fields.push("encryption_settings");
    }
    if input.sort.is_some() {
        fields.push("sort");
    }
    if input.padding_scheme.is_some() {
        fields.push("padding_scheme");
    }
    if input.listen_ip.is_some() {
        fields.push("listen_ip");
    }
    if input.protocol.is_some() {
        fields.push("protocol");
    }
}

impl ServerWriteInput {
    pub fn present_fields(&self) -> (r: Vec<&'static str>)
        ensures
            r@ == present_field_list(*self),
    {
        let mut fields: Vec<&'static str> = Vec::new();
        push_present_0(self, &mut fields);
        push_present_1(self, &mut fields);
        push_present_2(self, &mut fields);
        push_present_3(self, &mut fields);
        push_present_4(self, &mut fields);
        fields
    }
}

/// Whether a kind accepts a field.
pub open spec fn field_allowed(kind: ServerKind, field: &'static str) -> bool {
    in_list(COMMON_FIELDS@, field@) || in_list(protocol_field_list(kind), field@)
}

/// The first field at or after `i` that the kind does not accept.
pub open spec fn first_unsupported(kind: ServerKind, fields: Seq<&'static str>, i: int) -> Option<
    &'static str,
>
    decreases fields.len() - i,
{
    if i < 0 || i >= fields.len() {
        None
    } else if !field_allowed(kind, fields[i]) {
        Some(fields[i])
    } else {
        first_unsupported(kind, fields, i + 1)
    }
}

/// Refuses the first field the kind does not accept.
pub fn check_fields(kind: ServerKind, input: &ServerWriteInput) -> (r: Result<(), ServerInputViolation>)
    ensures
        match first_unsupported(kind, present_field_list(*input), 0) {
            Some(f) => r == Err::<(), ServerInputViolation>(ServerInputViolation::UnsupportedField(f)),
            None => r is Ok,
        },
{
    let fields = input.present_fields();
    let common = COMMON_FIELDS;
    let protocol = protocol_fields(kind);
    let mut i: usize = 0;
    while i < fields.len()
        invariant
            i <= fields@.len(),
            fields@ == present_field_list(*input),
            common@ == COMMON_FIELDS@,
            protocol@ == protocol_field_list(kind),
            first_unsupported(kind, fields@, 0) == first_unsupported(kind, fields@, i as int),
        decreases fields@.len() - i,
    {
        let field = fields[i];
        if !in_list_exec(&common, field) && !in_list_exec(protocol, field) {
            return Err(ServerInputViolation::UnsupportedField(field));
        }
        i = i + 1;
    }
    Ok(())
}


/// `coerce_bool`: what a flag setting becomes.
pub open spec fn coerced_bool(v: ServerSettingValue) -> ServerSettingValue {
    ServerSettingValue::Bool(
        match v {
            ServerSettingValue::Bool(b) => b,
            ServerSettingValue::Integer(i) => i != 0,
            ServerSettingValue::String(s) => {
                let l = lower_seq(s@);
                l == "1"@ || l == "true"@ || l == "yes"@ || l == "on"@
            },
            _ => false,
        },
    )
}

/// `coerce_integer`: what a numeric setting becomes (unchanged when it
/// cannot be read as an `i64`).
pub open spec fn coerced_integer(v: ServerSettingValue) -> ServerSettingValue {
    match v {
        ServerSettingValue::Integer(i) => ServerSettingValue::Integer(i),
        ServerSettingValue::String(s) => match parsed_in_range(
            s@,
            i64::MIN as int,
            i64::MAX as int,
        ) {
            Some(n) => ServerSettingValue::Integer(n as i64),
            None => v,
        },
        ServerSettingValue::Bool(b) => ServerSettingValue::Integer(
            if b {
                1
            } else {
                0
            },
        ),
        _ => v,
    }
}

/// The entries with the value under `key` (if any) coerced to a flag.
pub open spec fn with_bool(
    e: Seq<(String, ServerSettingValue)>,
    key: Seq<char>,
) -> Seq<(String, ServerSettingValue)> {
    match index_of(e, key) {
        Some(i) => e.update(i, (e[i].0, coerced_bool(e[i].1))),
        None => e,
    }
}

/// The entries with the value under `key` (if any) coerced to an integer.
pub open spec fn with_integer(
    e: Seq<(String, ServerSettingValue)>,
    key: Seq<char>,
) -> Seq<(String, ServerSettingValue)> {
    match index_of(e, key) {
        Some(i) => e.update(i, (e[i].0, coerced_integer(e[i].1))),
        None => e,
    }
}

/// An entry whose value, if it is an object, had `field` coerced to an
/// integer.
pub open spec fn entry_coerced(
    after: (String, ServerSettingValue),
    before: (String, ServerSettingValue),
    field: Seq<char>,
) -> bool {
    after.0 == before.0 && match before.1 {
        ServerSettingValue::Object(b) => after.1 matches ServerSettingValue::Object(a)
            && a.spec_entries() == with_integer(b.spec_entries(), field),
        _ => after.1 == before.1,
    }
}

/// The flags and numbers of an xhttp `extra` object before its nested
/// objects are visited.
pub open spec fn extra_scalars(
    e: Seq<(String, ServerSettingValue)>,
    v2node: bool,
) -> Seq<(String, ServerSettingValue)> {
    let e = if v2node {
        with_bool(e, "xPaddingObfsMode"@)
    } else {
        e
    };
    with_integer(with_bool(with_bool(e, "noGRPCHeader"@), "noSSEHeader"@), "scMaxBufferedPosts"@)
}

/// The normalized `extra` object: its scalars coerced, then the
/// `xmux.hKeepAlivePeriod` and `downloadSettings.port` numbers.
pub open spec fn extra_normalized(
    after: Seq<(String, ServerSettingValue)>,
    before: Seq<(String, ServerSettingValue)>,
    v2node: bool,
) -> bool {
    let x = extra_scalars(before, v2node);
    &&& after.len() == x.len()
    &&& forall|j: int|
        0 <= j < x.len() ==> if index_of(x, "xmux"@) == Some(j) {
            entry_coerced(#[trigger] after[j], x[j], "hKeepAlivePeriod"@)
        } else if index_of(x, "downloadSettings"@) == Some(j) {
            entry_coerced(after[j], x[j], "port"@)
        } else {
            after[j] == x[j]
        }
}

/// A setting after the first step of normalization: on a v2node, the
/// `acceptProxyProtocol` flag of an object is coerced.
pub open spec fn proxy_flag_normalized(
    after: ServerSettingValue,
    before: ServerSettingValue,
    v2node: bool,
) -> bool {
    if v2node && before is Object {
        after matches ServerSettingValue::Object(a) && a.spec_entries() == with_bool(
            before->Object_0.spec_entries(),
            "acceptProxyProtocol"@,
        )
    } else {
        same_setting(after, before)
    }
}

/// The same setting, objects compared by their entries.
pub open spec fn same_setting(after: ServerSettingValue, before: ServerSettingValue) -> bool {
    match before {
        ServerSettingValue::Object(b) => after matches ServerSettingValue::Object(a)
            && a.spec_entries() == b.spec_entries(),
        _ => after == before,
    }
}

/// `normalize_network_settings`: an xhttp transport's `extra` object has
/// its flags and numbers coerced to their types; other transports only get
/// the v2node proxy-protocol flag.
pub open spec fn network_normalized(
    after: ServerSettingValue,
    before: ServerSettingValue,
    network: Option<Seq<char>>,
    v2node: bool,
) -> bool {
    if network != Some("xhttp"@) || !(before is Object) {
        proxy_flag_normalized(after, before, v2node)
    } else {
        let e = if v2node {
            with_bool(before->Object_0.spec_entries(), "acceptProxyProtocol"@)
        } else {
            before->Object_0.spec_entries()
        };
        match index_of(e, "extra"@) {
            Some(i) => if e[i].1 is Object {
                &&& after matches ServerSettingValue::Object(a)
                &&& a.spec_entries().len() == e.len()
                &&& forall|j: int|
                    0 <= j < e.len() && j != i ==> #[trigger] a.spec_entries()[j] == e[j]
                &&& a.spec_entries()[i].0 == e[i].0
                &&& a.spec_entries()[i].1 matches ServerSettingValue::Object(x)
                &&& extra_normalized(x.spec_entries(), e[i].1->Object_0.spec_entries(), v2node)
            } else {
                proxy_flag_normalized(after, before, v2node)
            },
            None => proxy_flag_normalized(after, before, v2node),
        }
    }
}

/// Coerces the value under `key` to a flag.
pub fn coerce_bool(object: &mut KeyedMap<ServerSettingValue>, key: &str)
    ensures
        final(object).spec_entries() == with_bool(old(object).spec_entries(), key@),
{
    proof {
        lemma_index_of_from(object.spec_entries(), key@, 0);
    }
    match object.position(key) {
        Some(i) => {
            let value = object.value_at_mut(i);
            let flag = match &*value {
                ServerSettingValue::Bool(b) => *b,
                ServerSettingValue::Integer(n) => *n != 0,
                ServerSettingValue::String(text) => {
                    let lowered = to_ascii_lowercase(text.as_str());
                    let l = lowered.as_str();
                    str_eq(l, "1") || str_eq(l, "true") || str_eq(l, "yes") || str_eq(l, "on")
                },
                _ => false,
            };
            *value = ServerSettingValue::Bool(flag);
        },
        None => {},
    }
}

/// Coerces the value under `key` to an integer where it reads as one.
pub fn coerce_integer(object: &mut KeyedMap<ServerSettingValue>, key: &str)
    ensures
        final(object).spec_entries() == with_integer(old(object).spec_entries(), key@),
{
    proof {
        lemma_index_of_from(object.spec_entries(), key@, 0);
    }
    match object.position(key) {
        Some(i) => {
            let value = object.value_at_mut(i);
            let parsed = match &*value {
                ServerSettingValue::Integer(n) => Some(*n),
                ServerSettingValue::String(text) => parse_integer(
                    text.as_str(),
                    i64::MIN,
                    i64::MAX,
                ),
                ServerSettingValue::Bool(b) => Some(
                    if *b {
                        1
                    } else {
                        0
                    },
                ),
                _ => None,
            };
            match parsed {
                Some(n) => {
                    *value = ServerSettingValue::Integer(n);
                },
                None => {},
            }
        },
        None => {},
    }
}

/// Coerces `field` inside the object stored under `key`, if it is one.
fn coerce_nested_integer(object: &mut KeyedMap<ServerSettingValue>, key: &str, field: &str)
    ensures
        final(object).spec_entries().len() == old(object).spec_entries().len(),
        forall|j: int|
            0 <= j < old(object).spec_entries().len() ==> if index_of(
                old(object).spec_entries(),
                key@,
            ) == Some(j) {
                entry_coerced(
                    #[trigger] final(object).spec_entries()[j],
                    old(object).spec_entries()[j],
                    field@,
                )
            } else {
                final(object).spec_entries()[j] == old(object).spec_entries()[j]
            },
{
    proof {
        lemma_index_of_from(object.spec_entries(), key@, 0);
    }
    match object.position(key) {
        Some(i) => {
            let value = object.value_at_mut(i);
            match value.object_mut() {
                Some(inner) => coerce_integer(inner, field),
                None => {},
            }
        },
        None => {},
    }
}

/// Normalizes an xhttp `extra` object in place.
fn normalize_extra(extra: &mut KeyedMap<ServerSettingValue>, v2node: bool)
    ensures
        extra_normalized(final(extra).spec_entries(), old(extra).spec_entries(), v2node),
{
    if v2node {
        coerce_bool(extra, "xPaddingObfsMode");
    }
    coerce_bool(extra, "noGRPCHeader");
    coerce_bool(extra, "noSSEHeader");
    coerce_integer(extra, "scMaxBufferedPosts");
    let ghost x = extra.spec_entries();
    coerce_nested_integer(extra, "xmux", "hKeepAlivePeriod");
    let ghost y = extra.spec_entries();
    coerce_nested_integer(extra, "downloadSettings", "port");
    proof {
        lemma_index_of_from(x, "xmux"@, 0);
        lemma_index_of_from(x, "downloadSettings"@, 0);
        crate::keyed_map::lemma_index_of_same_keys(x, y, "downloadSettings"@, 0);
        assert forall|j: int| 0 <= j < x.len() implies if index_of(x, "xmux"@) == Some(j) {
            entry_coerced(#[trigger] extra.spec_entries()[j], x[j], "hKeepAlivePeriod"@)
        } else if index_of(x, "downloadSettings"@) == Some(j) {
            entry_coerced(extra.spec_entries()[j], x[j], "port"@)
        } else {
            extra.spec_entries()[j] == x[j]
        } by {
            reveal_strlit("xmux");
            reveal_strlit("downloadSettings");
            assert(y[j].0 == x[j].0);
            if index_of(x, "xmux"@) == Some(j) {
                assert(x[j].0@ == "xmux"@);
                assert(index_of(y, "downloadSettings"@) != Some(j));
            }
        }
    }
}

/// `normalize_network_settings`.
pub fn normalize_network_settings(
    settings: ServerSettingValue,
    network: Option<&str>,
    v2node: bool,
) -> (r: ServerSettingValue)
    ensures
        network_normalized(
            r,
            settings,
            match network {
                Some(n) => Some(n@),
                None => None,
            },
            v2node,
        ),
{
    let mut settings = settings;
    let ghost s0 = settings;
    if v2node {
        match settings.object_mut() {
            Some(object) => coerce_bool(object, "acceptProxyProtocol"),
            None => {},
        }
    }
    let ghost s1 = settings;
    assert(proxy_flag_normalized(s1, s0, v2node));
    let xhttp = match network {
        Some(n) => str_eq(n, "xhttp"),
        None => false,
    };
    if !xhttp {
        return settings;
    }
    match settings.object_mut() {
        Some(object) => {
            let ghost e = object.spec_entries();
            proof {
                lemma_index_of_from(e, "extra"@, 0);
            }
            match object.position("extra") {
                Some(i) => {
                    let extra = object.value_at_mut(i);
                    match extra.object_mut() {
                        Some(inner) => normalize_extra(inner, v2node),
                        None => {},
                    }
                },
                None => {},
            }
            proof {
                if index_of(e, "extra"@) is None || !(e[index_of(e, "extra"@)->0].1 is Object) {
                    assert(object.spec_entries() =~= e);
                }
            }
        },
        None => {},
    }
    settings
}


/// How a column is written: `Create` needs the required fields and fills
/// defaults, `Patch` writes only what was sent.
#[derive(Clone, Copy, Debug, Eq, PartialEq, Structural)]
pub enum WriteMode {
    Create,
    Patch,
}

/// A column and what its value must satisfy.
pub type ColumnExpectation = (&'static str, spec_fn(ServerColumnValue) -> bool);

pub open spec fn fits(c: (&'static str, ServerColumnValue), e: ColumnExpectation) -> bool {
    c.0 == e.0 && (e.1)(c.1)
}

/// The columns are the expected ones, in order, each with a fitting value.
pub open spec fn columns_fit(
    values: Seq<(&'static str, ServerColumnValue)>,
    expected: Seq<ColumnExpectation>,
) -> bool {
    values.len() == expected.len() && forall|i: int|
        0 <= i < values.len() ==> fits(#[trigger] values[i], expected[i])
}

pub open spec fn eq_col(v: ServerColumnValue) -> spec_fn(ServerColumnValue) -> bool {
    |c: ServerColumnValue| c == v
}

pub open spec fn text_col(v: Option<String>) -> spec_fn(ServerColumnValue) -> bool {
    eq_col(ServerColumnValue::Text(v))
}

pub open spec fn int_col(v: Option<i64>) -> spec_fn(ServerColumnValue) -> bool {
    eq_col(ServerColumnValue::Integer(v))
}

pub open spec fn setting_col(v: Option<ServerSettingValue>) -> spec_fn(ServerColumnValue) -> bool {
    eq_col(ServerColumnValue::Structured(v))
}

/// A text column holding the decimal digits of `n`.
pub open spec fn decimal_col(n: nat) -> spec_fn(ServerColumnValue) -> bool {
    |c: ServerColumnValue| c matches ServerColumnValue::Text(Some(t)) && t@ == decimal(n)
}

pub open spec fn is_int_array(v: ServerSettingValue, ids: Seq<i64>) -> bool {
    v matches ServerSettingValue::Array(a) && a@.len() == ids.len() && forall|i: int|
        0 <= i < ids.len() ==> #[trigger] a@[i] == ServerSettingValue::Integer(ids[i])
}

pub open spec fn is_string_array(v: ServerSettingValue, items: Seq<String>) -> bool {
    v matches ServerSettingValue::Array(a) && a@.len() == items.len() && forall|i: int|
        0 <= i < items.len() ==> #[trigger] a@[i] == ServerSettingValue::String(items[i])
}

/// A structured column with the integers `ids` as an array, or null.
pub open spec fn int_array_col(ids: Option<Seq<i64>>) -> spec_fn(ServerColumnValue) -> bool {
    |c: ServerColumnValue|
        c matches ServerColumnValue::Structured(o) && match ids {
            Some(ids) => o matches Some(v) && is_int_array(v, ids),
            None => o is None,
        }
}

/// A structured column with the strings `items` as an array, or null.
pub open spec fn string_array_col(items: Option<Seq<String>>) -> spec_fn(ServerColumnValue) -> bool {
    |c: ServerColumnValue|
        c matches ServerColumnValue::Structured(o) && match items {
            Some(items) => o matches Some(v) && is_string_array(v, items),
            None => o is None,
        }
}

/// The settings sent for a structured column, when a value was sent.
pub open spec fn settings_sent(v: Option<Option<ServerSettingValue>>) -> Option<ServerSettingValue> {
    match v {
        Some(Some(x)) => Some(x),
        _ => None,
    }
}

/// A structured column holding TLS settings the provisioner prepared from
/// `input` for mode `tls`.
pub open spec fn tls_prepared_col<C: ServerCredentialProvisioner>(
    credentials: C,
    input: Option<ServerSettingValue>,
    tls: i64,
    v2node: bool,
) -> spec_fn(ServerColumnValue) -> bool {
    |c: ServerColumnValue|
        c matches ServerColumnValue::Structured(Some(v)) && credentials.spec_tls_prepared(
            input,
            tls,
            v2node,
            v,
        )
}

/// A structured column holding encryption settings the provisioner
/// prepared from `input` for the handshake `encryption`.
pub open spec fn encryption_prepared_col<C: ServerCredentialProvisioner>(
    credentials: C,
    input: Option<ServerSettingValue>,
    encryption: Option<Seq<char>>,
    v2node: bool,
) -> spec_fn(ServerColumnValue) -> bool {
    |c: ServerColumnValue|
        c matches ServerColumnValue::Structured(Some(v)) && credentials.spec_encryption_prepared(
            input,
            encryption,
            v2node,
            v,
        )
}

/// A text column holding an obfuscation password the provisioner
/// generated at `now`.
pub open spec fn generated_col<C: ServerCredentialProvisioner>(credentials: C, now: i64) -> spec_fn(
    ServerColumnValue,
) -> bool {
    |c: ServerColumnValue|
        c matches ServerColumnValue::Text(Some(p)) && credentials.spec_obfs_generated(now, p@)
}

/// A structured column holding the normalized network settings.
pub open spec fn normalized_col(
    original: Option<ServerSettingValue>,
    network: Option<Seq<char>>,
    v2node: bool,
) -> spec_fn(ServerColumnValue) -> bool {
    |c: ServerColumnValue|
        c matches ServerColumnValue::Structured(o) && match original {
            Some(b) => o matches Some(a) && network_normalized(a, b, network, v2node),
            None => o is None,
        }
}

/// The column values of a write being prepared, with what each is expected
/// to be.
pub struct Columns {
    values: ServerColumnValues,
    expected: Ghost<Seq<ColumnExpectation>>,
}

impl Columns {
    pub closed spec fn spec_values(&self) -> Seq<(&'static str, ServerColumnValue)> {
        self.values@
    }

    pub closed spec fn spec_expected(&self) -> Seq<ColumnExpectation> {
        self.expected@
    }

    pub open spec fn wf(&self) -> bool {
        columns_fit(self.spec_values(), self.spec_expected())
    }

    pub fn new() -> (r: Columns)
        ensures
            r.wf(),
            r.spec_expected() == Seq::<ColumnExpectation>::empty(),
    {
        Columns { values: Vec::new(), expected: Ghost(Seq::empty()) }
    }

    /// Appends a column whose value is `e`-fitting.
    fn push_fitting(
        &mut self,
        column: &'static str,
        value: ServerColumnValue,
        Ghost(e): Ghost<spec_fn(ServerColumnValue) -> bool>,
    )
        requires
            old(self).wf(),
            e(value),
        ensures
            final(self).wf(),
            final(self).spec_expected() == old(self).spec_expected().push((column, e)),
    {
        let ghost before = self.values@;
        self.values.push((column, value));
        self.expected = Ghost(self.expected@.push((column, e)));
        assert forall|i: int| 0 <= i < self.values@.len() implies fits(
            #[trigger] self.values@[i],
            self.expected@[i],
        ) by {
            if i < before.len() {
                assert(self.values@[i] == before[i]);
            }
        }
    }

    /// Appends a column with exactly `value`.
    fn push_exact(&mut self, column: &'static str, value: ServerColumnValue)
        requires
            old(self).wf(),
        ensures
            final(self).wf(),
            final(self).spec_expected() == old(self).spec_expected().push((column, eq_col(value))),
    {
        let ghost e = eq_col(value);
        self.push_fitting(column, value, Ghost(e));
    }

    pub fn into_values(self) -> (r: ServerColumnValues)
        requires
            self.wf(),
        ensures
            columns_fit(r@, self.spec_expected()),
    {
        self.values
    }
}

pub open spec fn text_expect(s: Seq<ColumnExpectation>, column: &'static str, value: Option<String>) -> Seq<ColumnExpectation> {
    s.push((column, text_col(value)))
}

/// `set_required_text`: a sent value is written.
pub open spec fn required_text_expect(
    s: Seq<ColumnExpectation>,
    column: &'static str,
    value: Option<String>,
) -> Seq<ColumnExpectation> {
    match value {
        Some(v) => s.push((column, text_col(Some(v)))),
        None => s,
    }
}

/// `set_nullable_text`: a sent value or null is written.
pub open spec fn nullable_text_expect(
    s: Seq<ColumnExpectation>,
    column: &'static str,
    value: Option<Option<String>>,
) -> Seq<ColumnExpectation> {
    match value {
        Some(v) => s.push((column, text_col(v))),
        None => s,
    }
}

pub open spec fn nullable_setting_expect(
    s: Seq<ColumnExpectation>,
    column: &'static str,
    value: Option<Option<ServerSettingValue>>,
) -> Seq<ColumnExpectation> {
    match value {
        Some(v) => s.push((column, setting_col(v))),
        None => s,
    }
}

pub open spec fn nullable_integer_expect(
    s: Seq<ColumnExpectation>,
    column: &'static str,
    value: Option<Option<i64>>,
) -> Seq<ColumnExpectation> {
    match value {
        Some(v) => s.push((column, int_col(v))),
        None => s,
    }
}

/// `set_integer_default`: a sent value, or on create the default.
pub open spec fn integer_default_expect(
    s: Seq<ColumnExpectation>,
    column: &'static str,
    value: Option<i64>,
    default: i64,
    mode: WriteMode,
) -> Seq<ColumnExpectation> {
    match value {
        Some(v) => s.push((column, int_col(Some(v)))),
        None => if mode == WriteMode::Create {
            s.push((column, int_col(Some(default))))
        } else {
            s
        },
    }
}

pub open spec fn bool_int(b: bool) -> i64 {
    if b {
        1
    } else {
        0
    }
}

/// `set_bool_default`: flags are stored as 0 or 1.
pub open spec fn bool_default_expect(
    s: Seq<ColumnExpectation>,
    column: &'static str,
    value: Option<bool>,
    default: bool,
    mode: WriteMode,
) -> Seq<ColumnExpectation> {
    integer_default_expect(
        s,
        column,
        match value {
            Some(b) => Some(bool_int(b)),
            None => None,
        },
        bool_int(default),
        mode,
    )
}

/// `set_integer_clear_default`: a sent null means the default.
pub open spec fn integer_clear_default_expect(
    s: Seq<ColumnExpectation>,
    column: &'static str,
    value: Option<Option<i64>>,
    default: i64,
    mode: WriteMode,
) -> Seq<ColumnExpectation> {
    integer_default_expect(
        s,
        column,
        match value {
            Some(Some(v)) => Some(v),
            Some(None) => Some(default),
            None => None,
        },
        default,
        mode,
    )
}

fn push_text(cols: &mut Columns, column: &'static str, value: Option<String>)
    requires
        old(cols).wf(),
    ensures
        final(cols).wf(),
        final(cols).spec_expected() == text_expect(old(cols).spec_expected(), column, value),
{
    cols.push_exact(column, ServerColumnValue::Text(value));
}

fn push_integer(cols: &mut Columns, column: &'static str, value: Option<i64>)
    requires
        old(cols).wf(),
    ensures
        final(cols).wf(),
        final(cols).spec_expected() == old(cols).spec_expected().push((column, int_col(value))),
{
    cols.push_exact(column, ServerColumnValue::Integer(value));
}

fn push_setting(cols: &mut Columns, column: &'static str, value: Option<ServerSettingValue>)
    requires
        old(cols).wf(),
    ensures
        final(cols).wf(),
        final(cols).spec_expected() == old(cols).spec_expected().push((column, setting_col(value))),
{
    cols.push_exact(column, ServerColumnValue::Structured(value));
}

fn set_required_text(
    cols: &mut Columns,
    column: &'static str,
    value: &Option<String>,
    mode: WriteMode,
) -> (r: Result<(), ServerManagementError>)
    requires
        old(cols).wf(),
    ensures
        final(cols).wf(),
        value is None && mode == WriteMode::Create ==> (r matches Err(
            ServerManagementError::InvalidInput(ServerInputViolation::Required(f)),
        ) && f == column),
        !(value is None && mode == WriteMode::Create) ==> r is Ok && final(cols).spec_expected()
            == required_text_expect(old(cols).spec_expected(), column, *value),
{
    match value {
        Some(v) => {
            push_text(cols, column, Some(v.clone()));
            Ok(())
        },
        None => match mode {
            WriteMode::Create => Err(required(column)),
            WriteMode::Patch => Ok(()),
        },
    }
}

fn set_nullable_text(cols: &mut Columns, column: &'static str, value: &Option<Option<String>>)
    requires
        old(cols).wf(),
    ensures
        final(cols).wf(),
        final(cols).spec_expected() == nullable_text_expect(old(cols).spec_expected(), column, *value),
{
    match value {
        Some(v) => push_text(cols, column, v.clone()),
        None => {},
    }
}

fn set_nullable_setting(
    cols: &mut Columns,
    column: &'static str,
    value: Option<Option<ServerSettingValue>>,
)
    requires
        old(cols).wf(),
    ensures
        final(cols).wf(),
        final(cols).spec_expected() == nullable_setting_expect(old(cols).spec_expected(), column, value),
{
    match value {
        Some(v) => push_setting(cols, column, v),
        None => {},
    }
}

fn set_nullable_integer(cols: &mut Columns, column: &'static str, value: Option<Option<i64>>)
    requires
        old(cols).wf(),
    ensures
        final(cols).wf(),
        final(cols).spec_expected() == nullable_integer_expect(old(cols).spec_expected(), column, value),
{
    match value {
        Some(v) => push_integer(cols, column, v),
        None => {},
    }
}

fn set_integer_default(
    cols: &mut Columns,
    column: &'static str,
    value: Option<i64>,
    default: i64,
    mode: WriteMode,
)
    requires
        old(cols).wf(),
    ensures
        final(cols).wf(),
        final(cols).spec_expected() == integer_default_expect(
            old(cols).spec_expected(),
            column,
            value,
            default,
            mode,
        ),
{
    match value {
        Some(v) => push_integer(cols, column, Some(v)),
        None => match mode {
            WriteMode::Create => push_integer(cols, column, Some(default)),
            WriteMode::Patch => {},
        },
    }
}

fn bool_to_int(b: bool) -> (r: i64)
    ensures
        r == bool_int(b),
{
    if b {
        1
    } else {
        0
    }
}

fn set_bool_default(
    cols: &mut Columns,
    column: &'static str,
    value: Option<bool>,
    default: bool,
    mode: WriteMode,
)
    requires
        old(cols).wf(),
    ensures
        final(cols).wf(),
        final(cols).spec_expected() == bool_default_expect(
            old(cols).spec_expected(),
            column,
            value,
            default,
            mode,
        ),
{
    let as_int = match value {
        Some(b) => Some(bool_to_int(b)),
        None => None,
    };
    set_integer_default(cols, column, as_int, bool_to_int(default), mode);
}

fn set_integer_clear_default(
    cols: &mut Columns,
    column: &'static str,
    value: Option<Option<i64>>,
    default: i64,
    mode: WriteMode,
)
    requires
        old(cols).wf(),
    ensures
        final(cols).wf(),
        final(cols).spec_expected() == integer_clear_default_expect(
            old(cols).spec_expected(),
            column,
            value,
            default,
            mode,
        ),
{
    let resolved = match value {
        Some(Some(v)) => Some(v),
        Some(None) => Some(default),
        None => None,
    };
    set_integer_default(cols, column, resolved, default, mode);
}

/// A required field that was not sent.
pub fn required(field: &'static str) -> (r: ServerManagementError)
    ensures
        r matches ServerManagementError::InvalidInput(ServerInputViolation::Required(f)) && f
            == field,
{
    ServerManagementError::InvalidInput(ServerInputViolation::Required(field))
}

/// An array of integer settings.
pub fn integer_array(values: &[i64]) -> (r: ServerSettingValue)
    ensures
        is_int_array(r, values@),
{
    let mut out: Vec<ServerSettingValue> = Vec::new();
    let mut i: usize = 0;
    while i < values.len()
        invariant
            i <= values@.len(),
            out@.len() == i,
            forall|j: int| 0 <= j < i ==> #[trigger] out@[j] == ServerSettingValue::Integer(values@[j]),
        decreases values@.len() - i,
    {
        out.push(ServerSettingValue::Integer(values[i]));
        i = i + 1;
    }
    ServerSettingValue::Array(out)
}

/// An array of string settings.
pub fn string_array(items: &Vec<String>) -> (r: ServerSettingValue)
    ensures
        is_string_array(r, items@),
{
    let mut out: Vec<ServerSettingValue> = Vec::new();
    let mut i: usize = 0;
    while i < items.len()
        invariant
            i <= items@.len(),
            out@.len() == i,
            forall|j: int| 0 <= j < i ==> #[trigger] out@[j] == ServerSettingValue::String(items@[j]),
        decreases items@.len() - i,
    {
        out.push(ServerSettingValue::String(items[i].clone()));
        i = i + 1;
    }
    ServerSettingValue::Array(out)
}


pub open spec fn string_view(o: Option<String>) -> Option<Seq<char>> {
    match o {
        Some(v) => Some(v@),
        None => None,
    }
}

pub open spec fn ints_view(o: Option<Vec<i64>>) -> Option<Seq<i64>> {
    match o {
        Some(v) => Some(v@),
        None => None,
    }
}

pub open spec fn strings_view(o: Option<Vec<String>>) -> Option<Seq<String>> {
    match o {
        Some(v) => Some(v@),
        None => None,
    }
}

/// A text column whose characters are `v` (or null).
pub open spec fn text_view_col(v: Option<Seq<char>>) -> spec_fn(ServerColumnValue) -> bool {
    |c: ServerColumnValue| c matches ServerColumnValue::Text(t) && string_view(t) == v
}

/// The locks a write takes: the canonical group ids when groups were sent.
pub open spec fn group_locks(locks: Seq<i32>, group_id: Option<Vec<i64>>) -> bool {
    match group_id {
        Some(ids) => strictly_increasing(locks) && forall|x: i32|
            locks.contains(x) <==> ids@.contains(x as i64),
        None => locks.len() == 0,
    }
}

pub open spec fn port_valid(p: i64) -> bool {
    1 <= p <= 65535
}

/// The first refusal of the fields every kind shares, in the order they are
/// checked.
pub open spec fn common_violation(input: ServerWriteInput, mode: WriteMode) -> Option<ServerInputViolation> {
    let create = mode == WriteMode::Create;
    if input.group_id is None && create {
        Some(ServerInputViolation::Required("group_id"))
    } else if input.group_id is Some && input.group_id->0@.len() == 0 {
        Some(ServerInputViolation::Required("group_id"))
    } else if input.group_id is Some && !group_ids_valid(input.group_id->0@) {
        Some(ServerInputViolation::InvalidGroupId)
    } else if input.name is None && create {
        Some(ServerInputViolation::Required("name"))
    } else if input.rate == Some(RateInput::NonFinite) {
        Some(ServerInputViolation::InvalidRate)
    } else if input.rate is None && create {
        Some(ServerInputViolation::Required("rate"))
    } else if input.host is None && create {
        Some(ServerInputViolation::Required("host"))
    } else if input.port is Some && !port_valid(input.port->0) {
        Some(ServerInputViolation::InvalidPort("port"))
    } else if input.port is None && create {
        Some(ServerInputViolation::Required("port"))
    } else if input.server_port is Some && !port_valid(input.server_port->0) {
        Some(ServerInputViolation::InvalidPort("server_port"))
    } else if input.server_port is None && create {
        Some(ServerInputViolation::Required("server_port"))
    } else {
        None
    }
}

/// The shared columns, in the order they are written.
pub open spec fn common_expect(
    s: Seq<ColumnExpectation>,
    kind: ServerKind,
    input: ServerWriteInput,
) -> Seq<ColumnExpectation> {
    let s = match input.group_id {
        Some(ids) => s.push(("group_id", int_array_col(Some(ids@)))),
        None => s,
    };
    let s = required_text_expect(s, "name", input.name);
    let s = match input.rate {
        Some(RateInput::Finite(t)) => s.push(("rate", text_col(Some(t)))),
        _ => s,
    };
    let s = required_text_expect(s, "host", input.host);
    let s = match input.port {
        Some(p) => if kind == ServerKind::Vless {
            s.push(("port", int_col(Some(p))))
        } else {
            s.push(("port", decimal_col(p as nat)))
        },
        None => s,
    };
    let s = match input.server_port {
        Some(p) => s.push(("server_port", int_col(Some(p)))),
        None => s,
    };
    let s = match input.route_id {
        Some(r) => s.push(("route_id", int_array_col(ints_view(r)))),
        None => s,
    };
    let s = nullable_integer_expect(s, "parent_id", input.parent_id);
    let s = match input.tags {
        Some(t) => s.push(("tags", string_array_col(strings_view(t)))),
        None => s,
    };
    match input.show {
        Some(b) => s.push(("show", int_col(Some(bool_int(b))))),
        None => s,
    }
}

/// `push_common_values`: the fields every kind shares.
pub fn push_common_values(
    cols: &mut Columns,
    kind: ServerKind,
    input: &ServerWriteInput,
    mode: WriteMode,
) -> (r: Result<Vec<i32>, ServerManagementError>)
    requires
        old(cols).wf(),
    ensures
        final(cols).wf(),
        common_violation(*input, mode) matches Some(v) ==> (r matches Err(
            ServerManagementError::InvalidInput(x),
        ) && x == v),
        common_violation(*input, mode) is None ==> (r matches Ok(locks) && group_locks(
            locks@,
            input.group_id,
        ) && final(cols).spec_expected() == common_expect(old(cols).spec_expected(), kind, *input)),
{
    let group_ids = match &input.group_id {
        Some(ids) => {
            let locks = match canonical_server_group_ids(ids.as_slice()) {
                Ok(locks) => locks,
                Err(v) => {
                    return Err(ServerManagementError::InvalidInput(v));
                },
            };
            let array = integer_array(ids.as_slice());
            cols.push_fitting(
                "group_id",
                ServerColumnValue::Structured(Some(array)),
                Ghost(int_array_col(Some(ids@))),
            );
            locks
        },
        None => match mode {
            WriteMode::Create => {
                return Err(required("group_id"));
            },
            WriteMode::Patch => Vec::new(),
        },
    };
    set_required_text(cols, "name", &input.name, mode)?;
    match &input.rate {
        Some(RateInput::Finite(text)) => push_text(cols, "rate", Some(text.clone())),
        Some(RateInput::NonFinite) => {
            return Err(ServerManagementError::InvalidInput(ServerInputViolation::InvalidRate));
        },
        None => match mode {
            WriteMode::Create => {
                return Err(required("rate"));
            },
            WriteMode::Patch => {},
        },
    }
    set_required_text(cols, "host", &input.host, mode)?;
    match input.port {
        Some(port) => {
            let port = match validate_server_port(port, "port") {
                Ok(p) => p,
                Err(v) => {
                    return Err(ServerManagementError::InvalidInput(v));
                },
            };
            if kind == ServerKind::Vless {
                push_integer(cols, "port", Some(port));
            } else {
                let text = decimal_text(port as u64);
                cols.push_fitting(
                    "port",
                    ServerColumnValue::Text(Some(text)),
                    Ghost(decimal_col(port as nat)),
                );
            }
        },
        None => match mode {
            WriteMode::Create => {
                return Err(required("port"));
            },
            WriteMode::Patch => {},
        },
    }
    match input.server_port {
        Some(port) => {
            let port = match validate_server_port(port, "server_port") {
                Ok(p) => p,
                Err(v) => {
                    return Err(ServerManagementError::InvalidInput(v));
                },
            };
            push_integer(cols, "server_port", Some(port));
        },
        None => match mode {
            WriteMode::Create => {
                return Err(required("server_port"));
            },
            WriteMode::Patch => {},
        },
    }
    match &input.route_id {
        Some(route_ids) => {
            let value = match route_ids {
                Some(ids) => Some(integer_array(ids.as_slice())),
                None => None,
            };
            cols.push_fitting(
                "route_id",
                ServerColumnValue::Structured(value),
                Ghost(int_array_col(ints_view(*route_ids))),
            );
        },
        None => {},
    }
    set_nullable_integer(cols, "parent_id", input.parent_id);
    match &input.tags {
        Some(tags) => {
            let value = match tags {
                Some(items) => Some(string_array(items)),
                None => None,
            };
            cols.push_fitting(
                "tags",
                ServerColumnValue::Structured(value),
                Ghost(string_array_col(strings_view(*tags))),
            );
        },
        None => {},
    }
    match input.show {
        Some(show) => push_integer(cols, "show", Some(bool_to_int(show))),
        None => {},
    }
    Ok(group_ids)
}


/// The TLS settings column: reality (`tls == 2`) always has provisioned
/// settings; otherwise sent settings are provisioned and a sent null is
/// written as null.
pub open spec fn tls_expect<C: ServerCredentialProvisioner>(
    credentials: C,
    s: Seq<ColumnExpectation>,
    tls_settings: Option<Option<ServerSettingValue>>,
    tls: Option<i64>,
    v2node: bool,
) -> Seq<ColumnExpectation> {
    let reality = tls == Some(2i64);
    if !reality && tls_settings is None {
        s
    } else if !reality && tls_settings == Some(None::<ServerSettingValue>) {
        s.push(("tls_settings", setting_col(None)))
    } else {
        s.push(
            (
                "tls_settings",
                tls_prepared_col(
                    credentials,
                    settings_sent(tls_settings),
                    match tls {
                        Some(t) => t,
                        None => 0,
                    },
                    v2node,
                ),
            ),
        )
    }
}

/// Whether the TLS settings go through the credential provisioner.
pub open spec fn tls_calls(tls_settings: Option<Option<ServerSettingValue>>, tls: Option<i64>) -> bool {
    tls == Some(2i64) || tls_settings matches Some(Some(_))
}

pub open spec fn encryption_view(encryption: Option<Option<String>>) -> Option<Seq<char>> {
    match encryption {
        Some(Some(e)) => Some(e@),
        _ => None,
    }
}

pub open spec fn mlkem(encryption: Option<Option<String>>) -> bool {
    encryption_view(encryption) == Some("mlkem768x25519plus"@)
}

/// The encryption settings column: the post-quantum handshake always has
/// provisioned settings; otherwise as for TLS.
pub open spec fn encryption_expect<C: ServerCredentialProvisioner>(
    credentials: C,
    s: Seq<ColumnExpectation>,
    encryption: Option<Option<String>>,
    encryption_settings: Option<Option<ServerSettingValue>>,
    v2node: bool,
) -> Seq<ColumnExpectation> {
    if !mlkem(encryption) && encryption_settings is None {
        s
    } else if !mlkem(encryption) && encryption_settings == Some(None::<ServerSettingValue>) {
        s.push(("encryption_settings", setting_col(None)))
    } else {
        s.push(
            (
                "encryption_settings",
                encryption_prepared_col(
                    credentials,
                    settings_sent(encryption_settings),
                    encryption_view(encryption),
                    v2node,
                ),
            ),
        )
    }
}

pub open spec fn encryption_calls(
    encryption: Option<Option<String>>,
    encryption_settings: Option<Option<ServerSettingValue>>,
) -> bool {
    mlkem(encryption) || encryption_settings matches Some(Some(_))
}

pub open spec fn obfs_enabled(obfs: Option<Option<String>>) -> bool {
    match obfs {
        Some(Some(v)) => trim(v@).len() > 0,
        _ => false,
    }
}

pub open spec fn password_given(obfs_password: Option<Option<String>>) -> bool {
    match obfs_password {
        Some(Some(p)) => trim(p@).len() > 0,
        _ => false,
    }
}

/// The obfuscation password column: cleared when obfuscation is off, the
/// sent password when there is one, else a generated one.
pub open spec fn obfs_password_expect<C: ServerCredentialProvisioner>(
    credentials: C,
    s: Seq<ColumnExpectation>,
    obfs: Option<Option<String>>,
    obfs_password: Option<Option<String>>,
    mode: WriteMode,
    now: i64,
) -> Seq<ColumnExpectation> {
    if mode == WriteMode::Patch && obfs is None && obfs_password is None {
        s
    } else if obfs is Some || mode == WriteMode::Create {
        if !obfs_enabled(obfs) {
            s.push(("obfs_password", text_col(None)))
        } else if password_given(obfs_password) {
            s.push(("obfs_password", text_col(obfs_password->0)))
        } else {
            s.push(("obfs_password", generated_col(credentials, now)))
        }
    } else {
        nullable_text_expect(s, "obfs_password", obfs_password)
    }
}

pub open spec fn obfs_calls(
    obfs: Option<Option<String>>,
    obfs_password: Option<Option<String>>,
    mode: WriteMode,
) -> bool {
    !(mode == WriteMode::Patch && obfs is None && obfs_password is None) && (obfs is Some || mode
        == WriteMode::Create) && obfs_enabled(obfs) && !password_given(obfs_password)
}

pub open spec fn network_settings_expect(
    s: Seq<ColumnExpectation>,
    settings: Option<Option<ServerSettingValue>>,
    network: Option<String>,
    v2node: bool,
) -> Seq<ColumnExpectation> {
    match settings {
        Some(e) => s.push(("network_settings", normalized_col(e, string_view(network), v2node))),
        None => s,
    }
}

pub open spec fn flow_expect(
    s: Seq<ColumnExpectation>,
    flow: Option<Option<String>>,
    force_null: bool,
) -> Seq<ColumnExpectation> {
    if force_null {
        s.push(("flow", text_col(None)))
    } else {
        nullable_text_expect(s, "flow", flow)
    }
}

pub open spec fn non_tcp(network: Option<String>) -> bool {
    match network {
        Some(n) => n@ != "tcp"@,
        None => false,
    }
}

fn push_tls_settings<C: ServerCredentialProvisioner>(
    credentials: &C,
    cols: &mut Columns,
    tls_settings: &Option<Option<ServerSettingValue>>,
    tls: Option<i64>,
    v2node: bool,
) -> (r: Result<(), ServerManagementError>)
    requires
        old(cols).wf(),
    ensures
        final(cols).wf(),
        r is Ok ==> final(cols).spec_expected() == tls_expect(
            *credentials,
            old(cols).spec_expected(),
            *tls_settings,
            tls,
            v2node,
        ),
        r is Err ==> (r matches Err(ServerManagementError::Credential(_)) && tls_calls(*tls_settings, tls)),
{
    let reality = match tls {
        Some(t) => t == 2,
        None => false,
    };
    if !reality && tls_settings.is_none() {
        return Ok(());
    }
    let settings = match tls_settings {
        Some(Some(v)) => Some(v),
        _ => None,
    };
    if !reality && settings.is_none() {
        push_setting(cols, "tls_settings", None);
        return Ok(());
    }
    let requested = match tls {
        Some(t) => t,
        None => 0,
    };
    match credentials.prepare_tls_settings(settings, requested, v2node) {
        Ok(prepared) => {
            cols.push_fitting(
                "tls_settings",
                ServerColumnValue::Structured(Some(prepared)),
                Ghost(tls_prepared_col(*credentials, settings_sent(*tls_settings), requested, v2node)),
            );
            Ok(())
        },
        Err(e) => Err(ServerManagementError::Credential(e)),
    }
}

fn is_mlkem(encryption: &Option<Option<String>>) -> (r: bool)
    ensures
        r == mlkem(*encryption),
{
    match encryption {
        Some(Some(e)) => str_eq(e.as_str(), "mlkem768x25519plus"),
        _ => false,
    }
}

fn push_encryption_settings<C: ServerCredentialProvisioner>(
    credentials: &C,
    cols: &mut Columns,
    encryption: &Option<Option<String>>,
    encryption_settings: &Option<Option<ServerSettingValue>>,
    v2node: bool,
) -> (r: Result<(), ServerManagementError>)
    requires
        old(cols).wf(),
    ensures
        final(cols).wf(),
        r is Ok ==> final(cols).spec_expected() == encryption_expect(
            *credentials,
            old(cols).spec_expected(),
            *encryption,
            *encryption_settings,
            v2node,
        ),
        r is Err ==> (r matches Err(ServerManagementError::Credential(_)) && encryption_calls(
            *encryption,
            *encryption_settings,
        )),
{
    let mlkem = is_mlkem(encryption);
    if !mlkem && encryption_settings.is_none() {
        return Ok(());
    }
    let settings = match encryption_settings {
        Some(Some(v)) => Some(v),
        _ => None,
    };
    if !mlkem && settings.is_none() {
        push_setting(cols, "encryption_settings", None);
        return Ok(());
    }
    let chosen = match encryption {
        Some(Some(e)) => Some(e.as_str()),
        _ => None,
    };
    match credentials.prepare_encryption_settings(settings, chosen, v2node) {
        Ok(prepared) => {
            cols.push_fitting(
                "encryption_settings",
                ServerColumnValue::Structured(Some(prepared)),
                Ghost(
                    encryption_prepared_col(
                        *credentials,
                        settings_sent(*encryption_settings),
                        encryption_view(*encryption),
                        v2node,
                    ),
                ),
            );
            Ok(())
        },
        Err(e) => Err(ServerManagementError::Credential(e)),
    }
}

fn push_obfs_password<C: ServerCredentialProvisioner>(
    credentials: &C,
    cols: &mut Columns,
    obfs: &Option<Option<String>>,
    obfs_password: &Option<Option<String>>,
    mode: WriteMode,
    now: i64,
) -> (r: Result<(), ServerManagementError>)
    requires
        old(cols).wf(),
    ensures
        final(cols).wf(),
        r is Ok ==> final(cols).spec_expected() == obfs_password_expect(
            *credentials,
            old(cols).spec_expected(),
            *obfs,
            *obfs_password,
            mode,
            now,
        ),
        r is Err ==> (r matches Err(ServerManagementError::Credential(_)) && obfs_calls(
            *obfs,
            *obfs_password,
            mode,
        )),
{
    if mode == WriteMode::Patch && obfs.is_none() && obfs_password.is_none() {
        return Ok(());
    }
    if obfs.is_some() || mode == WriteMode::Create {
        let enabled = match obfs {
            Some(Some(v)) => !is_blank(v.as_str()),
            _ => false,
        };
        if !enabled {
            push_text(cols, "obfs_password", None);
            return Ok(());
        }
        let given = match obfs_password {
            Some(Some(p)) => if is_blank(p.as_str()) {
                None
            } else {
                Some(p.clone())
            },
            _ => None,
        };
        match given {
            Some(p) => {
                push_text(cols, "obfs_password", Some(p));
            },
            None => match credentials.generate_obfs_password(now) {
                Ok(p) => {
                    cols.push_fitting(
                        "obfs_password",
                        ServerColumnValue::Text(Some(p)),
                        Ghost(generated_col(*credentials, now)),
                    );
                },
                Err(e) => {
                    return Err(ServerManagementError::Credential(e));
                },
            },
        }
    } else {
        set_nullable_text(cols, "obfs_password", obfs_password);
    }
    Ok(())
}

fn push_network_settings(
    cols: &mut Columns,
    settings: Option<Option<ServerSettingValue>>,
    network: &Option<String>,
    v2node: bool,
)
    requires
        old(cols).wf(),
    ensures
        final(cols).wf(),
        final(cols).spec_expected() == network_settings_expect(
            old(cols).spec_expected(),
            settings,
            *network,
            v2node,
        ),
{
    match settings {
        Some(entry) => {
            let ghost original = entry;
            let net = match network {
                Some(n) => Some(n.as_str()),
                None => None,
            };
            let normalized = match entry {
                Some(value) => Some(normalize_network_settings(value, net, v2node)),
                None => None,
            };
            cols.push_fitting(
                "network_settings",
                ServerColumnValue::Structured(normalized),
                Ghost(normalized_col(original, string_view(*network), v2node)),
            );
        },
        None => {},
    }
}

fn push_flow(cols: &mut Columns, flow: &Option<Option<String>>, force_null: bool)
    requires
        old(cols).wf(),
    ensures
        final(cols).wf(),
        final(cols).spec_expected() == flow_expect(old(cols).spec_expected(), *flow, force_null),
{
    if force_null {
        push_text(cols, "flow", None);
    } else {
        set_nullable_text(cols, "flow", flow);
    }
}

fn is_non_tcp(network: &Option<String>) -> (r: bool)
    ensures
        r == non_tcp(*network),
{
    match network {
        Some(n) => !str_eq(n.as_str(), "tcp"),
        None => false,
    }
}


/// The TLS mode a v2node protocol actually runs: anytls defaults to TLS,
/// and hysteria2, trojan and tuic always use it.
pub open spec fn effective_tls(requested: i64, protocol: Seq<char>) -> i64 {
    if (protocol == "anytls"@ && requested == 0) || protocol == "hysteria2"@ || protocol
        == "trojan"@ || protocol == "tuic"@ {
        1
    } else {
        requested
    }
}

pub fn v2node_effective_tls(requested: i64, protocol: &str) -> (r: i64)
    ensures
        r == effective_tls(requested, protocol@),
{
    if (str_eq(protocol, "anytls") && requested == 0) || str_eq(protocol, "hysteria2") || str_eq(
        protocol,
        "trojan",
    ) || str_eq(protocol, "tuic") {
        1
    } else {
        requested
    }
}

/// The TLS column value a v2node write carries, if any.
pub open spec fn v2node_tls(input: ServerWriteInput, mode: WriteMode) -> Option<i64> {
    match input.protocol {
        Some(p) => if mode == WriteMode::Create {
            Some(
                effective_tls(
                    match input.tls {
                        Some(t) => t,
                        None => 0,
                    },
                    p@,
                ),
            )
        } else {
            match input.tls {
                Some(t) => Some(effective_tls(t, p@)),
                None => if effective_tls(0, p@) == 1 {
                    Some(1i64)
                } else {
                    None
                },
            }
        },
        None => input.tls,
    }
}

/// Flow control is cleared for a non-TCP transport with a classic cipher.
pub open spec fn v2node_flow_cleared(input: ServerWriteInput) -> bool {
    non_tcp(input.network) && encryption_view(input.encryption) is Some && !mlkem(input.encryption)
}

pub open spec fn is_shadowsocks(protocol: Option<String>) -> bool {
    match protocol {
        Some(p) => p@ == "shadowsocks"@,
        None => false,
    }
}

/// The cipher a v2node stores: a sent non-blank cipher, else the
/// shadowsocks default.
pub open spec fn v2node_cipher(input: ServerWriteInput) -> Option<Seq<char>> {
    match input.cipher {
        Some(Some(c)) if trim(c@).len() > 0 => Some(c@),
        _ => if is_shadowsocks(input.protocol) {
            Some("aes-128-gcm"@)
        } else {
            None
        },
    }
}

pub open spec fn v2node_violation(input: ServerWriteInput, mode: WriteMode) -> Option<
    ServerInputViolation,
> {
    if input.protocol is None && mode == WriteMode::Create {
        Some(ServerInputViolation::Required("protocol"))
    } else if input.network is None && mode == WriteMode::Create {
        Some(ServerInputViolation::Required("network"))
    } else {
        None
    }
}

pub open spec fn v2node_calls(input: ServerWriteInput, mode: WriteMode) -> bool {
    tls_calls(input.tls_settings, v2node_tls(input, mode)) || encryption_calls(
        input.encryption,
        input.encryption_settings,
    ) || obfs_calls(input.obfs, input.obfs_password, mode)
}

/// The columns of a v2node write after the shared ones.
pub open spec fn v2node_expect<C: ServerCredentialProvisioner>(
    credentials: C,
    s: Seq<ColumnExpectation>,
    input: ServerWriteInput,
    mode: WriteMode,
    now: i64,
) -> Seq<ColumnExpectation> {
    let s = required_text_expect(s, "listen_ip", input.listen_ip);
    let s = required_text_expect(s, "protocol", input.protocol);
    let t = v2node_tls(input, mode);
    let s = match t {
        Some(v) => s.push(("tls", int_col(Some(v)))),
        None => s,
    };
    let s = tls_expect(credentials, s, input.tls_settings, t, true);
    let s = flow_expect(s, input.flow, v2node_flow_cleared(input));
    let s = required_text_expect(s, "network", input.network);
    let s = network_settings_expect(s, input.network_settings, input.network, true);
    let s = nullable_text_expect(s, "encryption", input.encryption);
    let s = encryption_expect(credentials, s, input.encryption, input.encryption_settings, true);
    let s = bool_default_expect(s, "disable_sni", input.disable_sni, false, mode);
    let s = nullable_text_expect(s, "udp_relay_mode", input.udp_relay_mode);
    let s = bool_default_expect(s, "zero_rtt_handshake", input.zero_rtt_handshake, false, mode);
    let s = nullable_text_expect(s, "congestion_control", input.congestion_control);
    let s = if is_shadowsocks(input.protocol) || input.cipher is Some {
        s.push(("cipher", text_view_col(v2node_cipher(input))))
    } else {
        s
    };
    let s = integer_clear_default_expect(s, "up_mbps", input.up_mbps, 0, mode);
    let s = integer_clear_default_expect(s, "down_mbps", input.down_mbps, 0, mode);
    let s = nullable_text_expect(s, "obfs", input.obfs);
    let s = obfs_password_expect(credentials, s, input.obfs, input.obfs_password, mode, now);
    let s = nullable_setting_expect(s, "padding_scheme", input.padding_scheme);
    nullable_integer_expect(s, "sort", input.sort)
}

/// `push_v2node_values`: the columns of a v2node write. `input` is the
/// write with its two moved settings taken out; `original` is as sent.
fn push_v2node_values<C: ServerCredentialProvisioner>(
    credentials: &C,
    cols: &mut Columns,
    input: &ServerWriteInput,
    network_settings: Option<Option<ServerSettingValue>>,
    padding_scheme: Option<Option<ServerSettingValue>>,
    Ghost(original): Ghost<ServerWriteInput>,
    mode: WriteMode,
    now: i64,
) -> (r: Result<(), ServerManagementError>)
    requires
        old(cols).wf(),
        network_settings == original.network_settings,
        padding_scheme == original.padding_scheme,
        *input == (ServerWriteInput {
            network_settings: input.network_settings,
            padding_scheme: input.padding_scheme,
            ..original
        }),
    ensures
        final(cols).wf(),
        v2node_violation(original, mode) matches Some(v) ==> (r matches Err(
            ServerManagementError::InvalidInput(x),
        ) && x == v),
        v2node_violation(original, mode) is None ==> match r {
            Ok(_) => final(cols).spec_expected() == v2node_expect(
                *credentials,
                old(cols).spec_expected(),
                original,
                mode,
                now,
            ),
            Err(e) => e is Credential && v2node_calls(original, mode),
        },
{
    match &input.listen_ip {
        Some(listen_ip) => push_text(cols, "listen_ip", Some(listen_ip.clone())),
        None => {},
    }
    let protocol: Option<&str> = match &input.protocol {
        Some(protocol) => {
            push_text(cols, "protocol", Some(protocol.clone()));
            Some(protocol.as_str())
        },
        None => match mode {
            WriteMode::Create => {
                return Err(required("protocol"));
            },
            WriteMode::Patch => None,
        },
    };
    if input.network.is_none() && mode == WriteMode::Create {
        return Err(required("network"));
    }
    let tls: Option<i64> = match protocol {
        Some(p) => match mode {
            WriteMode::Create => {
                let requested = match input.tls {
                    Some(t) => t,
                    None => 0,
                };
                Some(v2node_effective_tls(requested, p))
            },
            WriteMode::Patch => match input.tls {
                Some(t) => Some(v2node_effective_tls(t, p)),
                None => if v2node_effective_tls(0, p) == 1 {
                    Some(1)
                } else {
                    None
                },
            },
        },
        None => input.tls,
    };
    match tls {
        Some(t) => push_integer(cols, "tls", Some(t)),
        None => {},
    }
    push_tls_settings(credentials, cols, &input.tls_settings, tls, true)?;
    let has_classic_cipher = match &input.encryption {
        Some(Some(_)) => !is_mlkem(&input.encryption),
        _ => false,
    };
    let force_flow_null = is_non_tcp(&input.network) && has_classic_cipher;
    push_flow(cols, &input.flow, force_flow_null);
    match &input.network {
        Some(network) => push_text(cols, "network", Some(network.clone())),
        None => {},
    }
    push_network_settings(cols, network_settings, &input.network, true);
    set_nullable_text(cols, "encryption", &input.encryption);
    push_encryption_settings(credentials, cols, &input.encryption, &input.encryption_settings, true)?;
    set_bool_default(cols, "disable_sni", input.disable_sni, false, mode);
    set_nullable_text(cols, "udp_relay_mode", &input.udp_relay_mode);
    set_bool_default(cols, "zero_rtt_handshake", input.zero_rtt_handshake, false, mode);
    set_nullable_text(cols, "congestion_control", &input.congestion_control);
    let shadowsocks = match protocol {
        Some(p) => str_eq(p, "shadowsocks"),
        None => false,
    };
    if shadowsocks || input.cipher.is_some() {
        let chosen: Option<String> = match &input.cipher {
            Some(Some(c)) => if is_blank(c.as_str()) {
                None
            } else {
                Some(c.clone())
            },
            _ => None,
        };
        let cipher = match chosen {
            Some(c) => Some(c),
            None => if shadowsocks {
                Some(crate::text::to_owned("aes-128-gcm"))
            } else {
                None
            },
        };
        cols.push_fitting(
            "cipher",
            ServerColumnValue::Text(cipher),
            Ghost(text_view_col(v2node_cipher(original))),
        );
    }
    set_integer_clear_default(cols, "up_mbps", input.up_mbps, 0, mode);
    set_integer_clear_default(cols, "down_mbps", input.down_mbps, 0, mode);
    set_nullable_text(cols, "obfs", &input.obfs);
    push_obfs_password(credentials, cols, &input.obfs, &input.obfs_password, mode, now)?;
    set_nullable_setting(cols, "padding_scheme", padding_scheme);
    set_nullable_integer(cols, "sort", input.sort);
    Ok(())
}


/// The TLS column value a vless write carries, if any.
pub open spec fn vless_tls(input: ServerWriteInput, mode: WriteMode) -> Option<i64> {
    if mode == WriteMode::Create {
        Some(
            match input.tls {
                Some(t) => t,
                None => 0,
            },
        )
    } else {
        input.tls
    }
}

/// The first refusal of the protocol fields of `kind`.
pub open spec fn kind_violation(kind: ServerKind, input: ServerWriteInput, mode: WriteMode) -> Option<
    ServerInputViolation,
> {
    let create = mode == WriteMode::Create;
    match kind {
        ServerKind::Shadowsocks => match input.cipher {
            Some(Some(_)) => None,
            Some(None) => Some(ServerInputViolation::Required("cipher")),
            None => if create {
                Some(ServerInputViolation::Required("cipher"))
            } else {
                None
            },
        },
        ServerKind::Trojan | ServerKind::Vmess | ServerKind::Vless => if input.network is None
            && create {
            Some(ServerInputViolation::Required("network"))
        } else {
            None
        },
        ServerKind::V2node => v2node_violation(input, mode),
        _ => None,
    }
}

/// Whether a write of `kind` asks the credential provisioner for anything.
pub open spec fn kind_calls(kind: ServerKind, input: ServerWriteInput, mode: WriteMode) -> bool {
    match kind {
        ServerKind::Hysteria => obfs_calls(input.obfs, input.obfs_password, mode),
        ServerKind::Vless => tls_calls(input.tls_settings, vless_tls(input, mode))
            || encryption_calls(input.encryption, input.encryption_settings),
        ServerKind::V2node => v2node_calls(input, mode),
        _ => false,
    }
}

/// The protocol columns of `kind`, after the shared ones.
pub open spec fn kind_expect<C: ServerCredentialProvisioner>(
    credentials: C,
    s: Seq<ColumnExpectation>,
    kind: ServerKind,
    input: ServerWriteInput,
    mode: WriteMode,
    now: i64,
) -> Seq<ColumnExpectation> {
    match kind {
        ServerKind::Shadowsocks => {
            let s = match input.cipher {
                Some(Some(c)) => s.push(("cipher", text_col(Some(c)))),
                _ => s,
            };
            let s = nullable_text_expect(s, "obfs", input.obfs);
            nullable_setting_expect(s, "obfs_settings", input.obfs_settings)
        },
        ServerKind::Trojan => {
            let s = required_text_expect(s, "network", input.network);
            let s = network_settings_expect(s, input.network_settings, input.network, false);
            let s = match input.allow_insecure {
                Some(b) => s.push(("allow_insecure", int_col(Some(bool_int(b))))),
                None => s,
            };
            nullable_text_expect(s, "server_name", input.server_name)
        },
        ServerKind::Vmess => {
            let s = integer_default_expect(s, "tls", input.tls, 0, mode);
            let s = required_text_expect(s, "network", input.network);
            let s = nullable_setting_expect(s, "networkSettings", input.vmess_network_settings);
            let s = nullable_setting_expect(s, "tlsSettings", input.vmess_tls_settings);
            let s = nullable_setting_expect(s, "ruleSettings", input.vmess_rule_settings);
            nullable_setting_expect(s, "dnsSettings", input.vmess_dns_settings)
        },
        ServerKind::Tuic => {
            let s = nullable_text_expect(s, "server_name", input.server_name);
            let s = bool_default_expect(s, "insecure", input.insecure, false, mode);
            let s = bool_default_expect(s, "disable_sni", input.disable_sni, false, mode);
            let s = nullable_text_expect(s, "udp_relay_mode", input.udp_relay_mode);
            let s = bool_default_expect(s, "zero_rtt_handshake", input.zero_rtt_handshake, false, mode);
            nullable_text_expect(s, "congestion_control", input.congestion_control)
        },
        ServerKind::Hysteria => {
            let s = integer_default_expect(s, "version", input.version, 2, mode);
            let s = integer_clear_default_expect(s, "up_mbps", input.up_mbps, 0, mode);
            let s = integer_clear_default_expect(s, "down_mbps", input.down_mbps, 0, mode);
            let s = nullable_text_expect(s, "obfs", input.obfs);
            let s = obfs_password_expect(credentials, s, input.obfs, input.obfs_password, mode, now);
            let s = nullable_text_expect(s, "server_name", input.server_name);
            bool_default_expect(s, "insecure", input.insecure, false, mode)
        },
        ServerKind::Vless => {
            let t = vless_tls(input, mode);
            let s = match t {
                Some(v) => s.push(("tls", int_col(Some(v)))),
                None => s,
            };
            let s = tls_expect(credentials, s, input.tls_settings, t, false);
            let s = flow_expect(s, input.flow, non_tcp(input.network));
            let s = required_text_expect(s, "network", input.network);
            let s = network_settings_expect(s, input.network_settings, input.network, false);
            let s = nullable_text_expect(s, "encryption", input.encryption);
            let s = encryption_expect(credentials, s, input.encryption, input.encryption_settings, false);
            nullable_integer_expect(s, "sort", input.sort)
        },
        ServerKind::Anytls => {
            let s = nullable_text_expect(s, "server_name", input.server_name);
            let s = bool_default_expect(s, "insecure", input.insecure, false, mode);
            nullable_setting_expect(s, "padding_scheme", input.padding_scheme)
        },
        ServerKind::V2node => v2node_expect(credentials, s, input, mode, now),
    }
}

/// The first refusal of a node write, in the order the fields are checked:
/// fields the kind does not accept, then the shared fields, then the
/// protocol fields.
pub open spec fn write_violation(kind: ServerKind, input: ServerWriteInput, mode: WriteMode) -> Option<
    ServerInputViolation,
> {
    match first_unsupported(kind, present_field_list(input), 0) {
        Some(f) => Some(ServerInputViolation::UnsupportedField(f)),
        None => match common_violation(input, mode) {
            Some(v) => Some(v),
            None => kind_violation(kind, input, mode),
        },
    }
}

/// All the columns of a node write, in the order they are written.
pub open spec fn write_expect<C: ServerCredentialProvisioner>(
    credentials: C,
    kind: ServerKind,
    input: ServerWriteInput,
    mode: WriteMode,
    now: i64,
) -> Seq<ColumnExpectation> {
    kind_expect(credentials, common_expect(Seq::empty(), kind, input), kind, input, mode, now)
}

/// `prepare_server_write`: checks a node write of `kind` and turns it into
/// the column values to store. Every refusal of the input comes before the
/// credential provisioner is asked for anything; only a write that needs
/// it can fail there.
pub fn prepare_server_write<C: ServerCredentialProvisioner>(
    credentials: &C,
    kind: ServerKind,
    input: ServerWriteInput,
    mode: WriteMode,
    now: i64,
) -> (r: Result<PreparedServerWrite, ServerManagementError>)
    ensures
        write_violation(kind, input, mode) matches Some(v) ==> (r matches Err(
            ServerManagementError::InvalidInput(x),
        ) && x == v),
        write_violation(kind, input, mode) is None ==> match r {
            Ok(w) => columns_fit(w.values@, write_expect(*credentials, kind, input, mode, now)) && group_locks(
                w.group_ids@,
                input.group_id,
            ) && w.rotate_credential == (input.rotate_credential == Some(true)) && w.updated_at
                == now,
            Err(e) => e is Credential && kind_calls(kind, input, mode),
        },
{
    let ghost original = input;
    let mut input = input;
    match check_fields(kind, &input) {
        Ok(()) => {},
        Err(v) => {
            return Err(ServerManagementError::InvalidInput(v));
        },
    }
    let mut cols = Columns::new();
    let group_ids = push_common_values(&mut cols, kind, &input, mode)?;
    match kind {
        ServerKind::Shadowsocks => {
            match &input.cipher {
                Some(Some(cipher)) => push_text(&mut cols, "cipher", Some(cipher.clone())),
                Some(None) => {
                    return Err(required("cipher"));
                },
                None => match mode {
                    WriteMode::Create => {
                        return Err(required("cipher"));
                    },
                    WriteMode::Patch => {},
                },
            }
            set_nullable_text(&mut cols, "obfs", &input.obfs);
            let obfs_settings = input.obfs_settings.take();
            set_nullable_setting(&mut cols, "obfs_settings", obfs_settings);
        },
        ServerKind::Trojan => {
            set_required_text(&mut cols, "network", &input.network, mode)?;
            let network_settings = input.network_settings.take();
            push_network_settings(&mut cols, network_settings, &input.network, false);
            match input.allow_insecure {
                Some(value) => push_integer(&mut cols, "allow_insecure", Some(bool_to_int(value))),
                None => {},
            }
            set_nullable_text(&mut cols, "server_name", &input.server_name);
        },
        ServerKind::Vmess => {
            set_integer_default(&mut cols, "tls", input.tls, 0, mode);
            set_required_text(&mut cols, "network", &input.network, mode)?;
            let a = input.vmess_network_settings.take();
            set_nullable_setting(&mut cols, "networkSettings", a);
            let b = input.vmess_tls_settings.take();
            set_nullable_setting(&mut cols, "tlsSettings", b);
            let c = input.vmess_rule_settings.take();
            set_nullable_setting(&mut cols, "ruleSettings", c);
            let d = input.vmess_dns_settings.take();
            set_nullable_setting(&mut cols, "dnsSettings", d);
        },
        ServerKind::Tuic => {
            set_nullable_text(&mut cols, "server_name", &input.server_name);
            set_bool_default(&mut cols, "insecure", input.insecure, false, mode);
            set_bool_default(&mut cols, "disable_sni", input.disable_sni, false, mode);
            set_nullable_text(&mut cols, "udp_relay_mode", &input.udp_relay_mode);
            set_bool_default(&mut cols, "zero_rtt_handshake", input.zero_rtt_handshake, false, mode);
            set_nullable_text(&mut cols, "congestion_control", &input.congestion_control);
        },
        ServerKind::Hysteria => {
            set_integer_default(&mut cols, "version", input.version, 2, mode);
            set_integer_clear_default(&mut cols, "up_mbps", input.up_mbps, 0, mode);
            set_integer_clear_default(&mut cols, "down_mbps", input.down_mbps, 0, mode);
            set_nullable_text(&mut cols, "obfs", &input.obfs);
            push_obfs_password(credentials, &mut cols, &input.obfs, &input.obfs_password, mode, now)?;
            set_nullable_text(&mut cols, "server_name", &input.server_name);
            set_bool_default(&mut cols, "insecure", input.insecure, false, mode);
        },
        ServerKind::Vless => {
            if input.network.is_none() && mode == WriteMode::Create {
                return Err(required("network"));
            }
            let tls = match mode {
                WriteMode::Create => Some(
                    match input.tls {
                        Some(t) => t,
                        None => 0,
                    },
                ),
                WriteMode::Patch => input.tls,
            };
            match tls {
                Some(t) => push_integer(&mut cols, "tls", Some(t)),
                None => {},
            }
            push_tls_settings(credentials, &mut cols, &input.tls_settings, tls, false)?;
            let force_null = is_non_tcp(&input.network);
            push_flow(&mut cols, &input.flow, force_null);
            match &input.network {
                Some(network) => push_text(&mut cols, "network", Some(network.clone())),
                None => {},
            }
            let network_settings = input.network_settings.take();
            push_network_settings(&mut cols, network_settings, &input.network, false);
            set_nullable_text(&mut cols, "encryption", &input.encryption);
            push_encryption_settings(
                credentials,
                &mut cols,
                &input.encryption,
                &input.encryption_settings,
                false,
            )?;
            set_nullable_integer(&mut cols, "sort", input.sort);
        },
        ServerKind::Anytls => {
            set_nullable_text(&mut cols, "server_name", &input.server_name);
            set_bool_default(&mut cols, "insecure", input.insecure, false, mode);
            let padding = input.padding_scheme.take();
            set_nullable_setting(&mut cols, "padding_scheme", padding);
        },
        ServerKind::V2node => {
            let network_settings = input.network_settings.take();
            let padding = input.padding_scheme.take();
            push_v2node_values(
                credentials,
                &mut cols,
                &input,
                network_settings,
                padding,
                Ghost(original),
                mode,
                now,
            )?;
        },
    }
    let rotate_credential = match input.rotate_credential {
        Some(true) => true,
        _ => false,
    };
    let values = cols.into_values();
    Ok(PreparedServerWrite { values, group_ids, rotate_credential, updated_at: now })
}

/// Two strictly increasing lists holding the same ids are the same list.
pub proof fn lemma_increasing_lists_with_equal_contents(a: Seq<i32>, b: Seq<i32>)
    requires
        strictly_increasing(a),
        strictly_increasing(b),
        forall|x: i32| a.contains(x) <==> b.contains(x),
    ensures
        a == b,
    decreases a.len(),
{
    if a.len() == 0 {
        if b.len() > 0 {
            assert(b.contains(b[0]));
        }
        assert(b.len() == 0);
    } else {
        if b.len() == 0 {
            assert(a.contains(a[0]));
        }
        assert(a.contains(a[0]));
        assert(b.contains(b[0]));
        let j = choose|j: int| 0 <= j < b.len() && b[j] == a[0];
        let i = choose|i: int| 0 <= i < a.len() && a[i] == b[0];
        if j > 0 {
            assert(b[0] < b[j]);
        }
        if i > 0 {
            assert(a[0] < a[i]);
        }
        assert(a[0] == b[0]);
        let ta = a.drop_first();
        let tb = b.drop_first();
        assert forall|k: int, l: int| 0 <= k < l < ta.len() implies ta[k] < ta[l] by {
            assert(a[k + 1] < a[l + 1]);
        }
        assert forall|k: int, l: int| 0 <= k < l < tb.len() implies tb[k] < tb[l] by {
            assert(b[k + 1] < b[l + 1]);
        }
        assert forall|x: i32| ta.contains(x) <==> tb.contains(x) by {
            if ta.contains(x) {
                let k = choose|k: int| 0 <= k < ta.len() && ta[k] == x;
                assert(a[k + 1] == x);
                assert(a.contains(x));
                let l = choose|l: int| 0 <= l < b.len() && b[l] == x;
                assert(a[0] < a[k + 1]);
                if l == 0 {
                    assert(false);
                }
                assert(tb[l - 1] == x);
            }
            if tb.contains(x) {
                let k = choose|k: int| 0 <= k < tb.len() && tb[k] == x;
                assert(b[k + 1] == x);
                assert(b.contains(x));
                let l = choose|l: int| 0 <= l < a.len() && a[l] == x;
                assert(b[0] < b[k + 1]);
                if l == 0 {
                    assert(false);
                }
                assert(ta[l - 1] == x);
            }
        }
        lemma_increasing_lists_with_equal_contents(ta, tb);
        assert(a =~= seq![a[0]] + ta);
        assert(b =~= seq![b[0]] + tb);
    }
}

/// The group locks of a node write depend on the set of groups alone: two
/// requests naming the same groups, in any order and with any repeats, lock
/// the same ids in the same order.
pub proof fn law_group_locks_depend_on_the_set(
    ids1: Seq<i64>,
    ids2: Seq<i64>,
    locks1: Seq<i32>,
    locks2: Seq<i32>,
)
    requires
        strictly_increasing(locks1),
        forall|x: i32| locks1.contains(x) <==> ids1.contains(x as i64),
        strictly_increasing(locks2),
        forall|x: i32| locks2.contains(x) <==> ids2.contains(x as i64),
        forall|y: i64| ids1.contains(y) <==> ids2.contains(y),
    ensures
        locks1 == locks2,
{
    assert forall|x: i32| locks1.contains(x) <==> locks2.contains(x) by {
        assert(ids1.contains(x as i64) <==> ids2.contains(x as i64));
    }
    lemma_increasing_lists_with_equal_contents(locks1, locks2);
}

} // verus!
