//! The append-only record of privileged mutations.
use vstd::prelude::*;

verus! {

#[derive(Clone, Debug, Eq, PartialEq)]
pub struct PrivilegedMutationAudit {
    pub actor_id: i64,
    pub actor_email: String,
    pub session_id: String,
    pub surface: String,
    pub method: String,
    pub path: String,
    pub status_code: i32,
    pub client_ip: Option<String>,
    pub request_id: Option<String>,
    pub created_at: i64,
}

pub struct AuditService<R> {
    repository: R,
}

impl<R> AuditService<R> {
    pub closed spec fn spec_repository(&self) -> R {
        self.repository
    }

    pub fn new(repository: R) -> (s: Self)
        ensures
            s.spec_repository() == repository,
    {
        Self { repository }
    }

    pub fn repository(&self) -> (r: &R)
        ensures
            *r == self.spec_repository(),
    {
        &self.repository
    }
}

} // verus!
