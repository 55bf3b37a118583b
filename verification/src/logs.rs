//! Operator system/audit log queries with a closed filter vocabulary,
//! built on the shared admin filter DSL.
use vstd::prelude::*;

use crate::filter_dsl::{ColumnKind, FilterClause, FilterField};
use crate::text::str_eq;
use crate::RepositoryError;

verus! {

pub type RepositoryResult<T> = Result<T, RepositoryError>;

#[derive(Clone, Copy, Debug, Eq, PartialEq, Structural)]
pub enum SortDirection {
    Ascending,
    Descending,
}

#[derive(Clone, Copy, Debug, Eq, PartialEq, Structural)]
pub enum SystemLogSort {
    CreatedAt,
    Level,
}

/// `system/logs` filters only its one column: `level`.
#[derive(Clone, Copy, Debug, Eq, PartialEq, Structural)]
pub enum SystemLogField {
    Level,
}

impl FilterField for SystemLogField {
    open spec fn spec_parse(name: Seq<char>) -> Option<Self> {
        if name == "level"@ {
            Some(SystemLogField::Level)
        } else {
            None
        }
    }

    open spec fn spec_name(self) -> Seq<char> {
        "level"@
    }

    open spec fn spec_kind(self) -> ColumnKind {
        ColumnKind::Text
    }

    fn parse(name: &str) -> (r: Option<Self>) {
        if str_eq(name, "level") {
            Some(Self::Level)
        } else {
            None
        }
    }

    fn name(self) -> (r: &'static str) {
        "level"
    }

    fn kind(self) -> (r: ColumnKind) {
        ColumnKind::Text
    }
}

pub type SystemLogFilterClause = FilterClause<SystemLogField>;

#[derive(Clone, Copy, Debug, Eq, PartialEq, Structural)]
pub enum AuditLogField {
    Surface,
    ActorEmail,
    Method,
}

impl FilterField for AuditLogField {
    open spec fn spec_parse(name: Seq<char>) -> Option<Self> {
        if name == "surface"@ {
            Some(AuditLogField::Surface)
        } else if name == "actor_email"@ {
            Some(AuditLogField::ActorEmail)
        } else if name == "method"@ {
            Some(AuditLogField::Method)
        } else {
            None
        }
    }

    open spec fn spec_name(self) -> Seq<char> {
        match self {
            AuditLogField::Surface => "surface"@,
            AuditLogField::ActorEmail => "actor_email"@,
            AuditLogField::Method => "method"@,
        }
    }

    open spec fn spec_kind(self) -> ColumnKind {
        ColumnKind::Text
    }

    fn parse(name: &str) -> (r: Option<Self>) {
        if str_eq(name, "surface") {
            Some(Self::Surface)
        } else if str_eq(name, "actor_email") {
            Some(Self::ActorEmail)
        } else if str_eq(name, "method") {
            Some(Self::Method)
        } else {
            None
        }
    }

    fn name(self) -> (r: &'static str) {
        match self {
            Self::Surface => "surface",
            Self::ActorEmail => "actor_email",
            Self::Method => "method",
        }
    }

    fn kind(self) -> (r: ColumnKind) {
        ColumnKind::Text
    }
}

pub type AuditLogFilterClause = FilterClause<AuditLogField>;

#[derive(Clone, Debug, Eq, PartialEq)]
pub struct SystemLogQuery {
    pub level: Vec<SystemLogFilterClause>,
    pub sort: SystemLogSort,
    pub direction: SortDirection,
    pub limit: i64,
    pub offset: i64,
}

#[derive(Clone, Debug, Eq, PartialEq)]
pub struct AuditLogQuery {
    pub filters: Vec<AuditLogFilterClause>,
    pub direction: SortDirection,
    pub limit: i64,
    pub offset: i64,
}

#[derive(Clone, Debug, Eq, PartialEq)]
pub struct SystemLog {
    pub id: i64,
    pub title: String,
    pub level: Option<String>,
    pub host: Option<String>,
    pub uri: String,
    pub method: String,
    pub data: Option<String>,
    pub ip: Option<String>,
    pub context: Option<String>,
    pub created_at: i64,
    pub updated_at: i64,
}

#[derive(Clone, Debug, Eq, PartialEq)]
pub struct AuditLog {
    pub id: i64,
    pub actor_id: i64,
    pub actor_email: String,
    pub session_id: String,
    pub surface: String,
    pub method: String,
    pub path: String,
    pub status_code: i32,
    pub client_ip: Option<String>,
    pub request_id: Option<String>,
    pub created_at: i64,
}

/// Log queries over a repository port; the queries pass through unchanged.
#[derive(Clone, Debug)]
pub struct LogService<R> {
    repository: R,
}

impl<R> LogService<R> {
    pub closed spec fn spec_repository(&self) -> R {
        self.repository
    }

    pub fn new(repository: R) -> (s: Self)
        ensures
            s.spec_repository() == repository,
    {
        Self { repository }
    }

    pub fn repository(&self) -> (r: &R)
        ensures
            *r == self.spec_repository(),
    {
        &self.repository
    }
}

} // verus!
