//! Administrative payment-reconciliation ledger: the list filters and the
//! resolution notes, checked before anything reaches persistence.
use vstd::prelude::*;

use crate::error::RepositoryError;
use crate::text::{char_count, str_eq, trim, trim_str};

verus! {

#[derive(Clone, Copy, Debug, Eq, PartialEq, Structural)]
pub enum ResolutionFilter {
    Open,
    Resolved,
    All,
}

#[derive(Clone, Debug, Eq, PartialEq)]
pub struct ReconciliationQuery {
    pub resolution: ResolutionFilter,
    pub payment_id: Option<i32>,
    pub reason: Option<String>,
    pub trade_no_hash: Option<[u8; 32]>,
    pub callback_no_hash: Option<[u8; 32]>,
    pub limit: i64,
    pub offset: i64,
}

#[derive(Clone, Debug, Eq, PartialEq)]
pub struct PaymentReconciliation {
    pub id: i64,
    pub payment_id: i32,
    pub payment_name: String,
    pub payment_archived_at: Option<i64>,
    pub provider: String,
    pub trade_no: String,
    pub trade_no_hash: String,
    pub callback_no: String,
    pub callback_no_hash: String,
    pub reason: String,
    pub order_status: i16,
    pub expected_amount: i64,
    pub settled_amount: Option<i64>,
    pub occurrence_count: i32,
    pub first_seen_at: i64,
    pub last_seen_at: i64,
    pub resolved_at: Option<i64>,
    pub resolution: Option<String>,
}

#[derive(Clone, Debug, Eq, PartialEq)]
pub struct ReconciliationPage {
    pub items: Vec<PaymentReconciliation>,
    pub total: i64,
}

#[derive(Clone, Copy, Debug, Eq, PartialEq, Structural)]
pub enum ResolveReconciliationOutcome {
    Resolved,
    AlreadyResolvedIdentically,
    NotFound,
    AlreadyProcessed,
    EncodedResolutionTooLong,
}

#[derive(Clone, Copy, Debug, Eq, PartialEq, Structural)]
pub enum ReconciliationInputViolation {
    InvalidResolutionFilter,
    PaymentIdOutOfRange,
    EmptyResolution,
    ResolutionTooLong,
}

#[derive(Debug)]
pub enum ReconciliationError {
    InvalidInput(ReconciliationInputViolation),
    NotFound,
    AlreadyProcessed,
    Repository(RepositoryError),
}

/// Hashes a trade or callback number into the ledger's lookup key.
pub trait ReconciliationIdentityHasher {
    /// The identity hash of `value`.
    spec fn spec_hash(&self, value: Seq<char>) -> [u8; 32];

    fn hash(&self, value: &str) -> (r: [u8; 32])
        ensures
            r == self.spec_hash(value@),
    ;
}

pub struct ReconciliationService<R, H> {
    repository: R,
    hasher: H,
}

/// The longest resolution note, in characters.
pub const RESOLUTION_MAX_CHARS: usize = 160;

/// The filter a `resolved` parameter names: nothing, `0`, `unresolved` or
/// `open` the open entries; `1`, `resolved` or `closed` the resolved ones;
/// `all` every entry; anything else none.
pub open spec fn named_filter(resolved: Option<Seq<char>>) -> Option<ResolutionFilter> {
    match resolved {
        None => Some(ResolutionFilter::Open),
        Some(s) => if s == "0"@ || s == "unresolved"@ || s == "open"@ {
            Some(ResolutionFilter::Open)
        } else if s == "1"@ || s == "resolved"@ || s == "closed"@ {
            Some(ResolutionFilter::Resolved)
        } else if s == "all"@ {
            Some(ResolutionFilter::All)
        } else {
            None
        },
    }
}

/// Reads the `resolved` list parameter.
pub fn resolution_filter(resolved: Option<&str>) -> (r: Result<
    ResolutionFilter,
    ReconciliationError,
>)
    ensures
        match named_filter(
            match resolved {
                Some(s) => Some(s@),
                None => None,
            },
        ) {
            Some(f) => r matches Ok(g) && g == f,
            None => r matches Err(
                ReconciliationError::InvalidInput(
                    ReconciliationInputViolation::InvalidResolutionFilter,
                ),
            ),
        },
{
    match resolved {
        None => Ok(ResolutionFilter::Open),
        Some(s) => {
            if str_eq(s, "0") || str_eq(s, "unresolved") || str_eq(s, "open") {
                Ok(ResolutionFilter::Open)
            } else if str_eq(s, "1") || str_eq(s, "resolved") || str_eq(s, "closed") {
                Ok(ResolutionFilter::Resolved)
            } else if str_eq(s, "all") {
                Ok(ResolutionFilter::All)
            } else {
                Err(
                    ReconciliationError::InvalidInput(
                        ReconciliationInputViolation::InvalidResolutionFilter,
                    ),
                )
            }
        },
    }
}

/// Narrows a payment id filter to the stored width.
pub fn checked_payment_id(payment_id: Option<i64>) -> (r: Result<Option<i32>, ReconciliationError>)
    ensures
        match payment_id {
            None => r matches Ok(None),
            Some(p) => if i32::MIN <= p <= i32::MAX {
                r matches Ok(Some(q)) && q == p
            } else {
                r matches Err(
                    ReconciliationError::InvalidInput(
                        ReconciliationInputViolation::PaymentIdOutOfRange,
                    ),
                )
            },
        },
{
    match payment_id {
        None => Ok(None),
        Some(p) => {
            if i32::MIN as i64 <= p && p <= i32::MAX as i64 {
                Ok(Some(p as i32))
            } else {
                Err(
                    ReconciliationError::InvalidInput(
                        ReconciliationInputViolation::PaymentIdOutOfRange,
                    ),
                )
            }
        },
    }
}

/// The trimmed resolution note: refused when empty or longer than
/// [`RESOLUTION_MAX_CHARS`] characters.
pub fn resolution_note(note: String) -> (r: Result<String, ReconciliationError>)
    ensures
        trim(note@).len() == 0 ==> r matches Err(
            ReconciliationError::InvalidInput(ReconciliationInputViolation::EmptyResolution),
        ),
        trim(note@).len() > RESOLUTION_MAX_CHARS ==> r matches Err(
            ReconciliationError::InvalidInput(ReconciliationInputViolation::ResolutionTooLong),
        ),
        0 < trim(note@).len() <= RESOLUTION_MAX_CHARS ==> (r matches Ok(t) && t@ == trim(note@)),
{
    let trimmed = trim_str(note.as_str());
    let n = char_count(trimmed.as_str());
    if n == 0 {
        return Err(
            ReconciliationError::InvalidInput(ReconciliationInputViolation::EmptyResolution),
        );
    }
    if n > RESOLUTION_MAX_CHARS {
        return Err(
            ReconciliationError::InvalidInput(ReconciliationInputViolation::ResolutionTooLong),
        );
    }
    Ok(trimmed)
}

/// What a stored resolution outcome is answered: success for a new or an
/// identical resolution, the matching failure otherwise.
pub fn resolve_result(outcome: ResolveReconciliationOutcome) -> (r: Result<(), ReconciliationError>)
    ensures
        outcome == ResolveReconciliationOutcome::Resolved ==> r is Ok,
        outcome == ResolveReconciliationOutcome::AlreadyResolvedIdentically ==> r is Ok,
        outcome == ResolveReconciliationOutcome::NotFound ==> r matches Err(
            ReconciliationError::NotFound,
        ),
        outcome == ResolveReconciliationOutcome::AlreadyProcessed ==> r matches Err(
            ReconciliationError::AlreadyProcessed,
        ),
        outcome == ResolveReconciliationOutcome::EncodedResolutionTooLong ==> r matches Err(
            ReconciliationError::InvalidInput(ReconciliationInputViolation::ResolutionTooLong),
        ),
{
    match outcome {
        ResolveReconciliationOutcome::Resolved => Ok(()),
        ResolveReconciliationOutcome::AlreadyResolvedIdentically => Ok(()),
        ResolveReconciliationOutcome::NotFound => Err(ReconciliationError::NotFound),
        ResolveReconciliationOutcome::AlreadyProcessed => Err(
            ReconciliationError::AlreadyProcessed,
        ),
        ResolveReconciliationOutcome::EncodedResolutionTooLong => Err(
            ReconciliationError::InvalidInput(ReconciliationInputViolation::ResolutionTooLong),
        ),
    }
}

impl<R, H: ReconciliationIdentityHasher> ReconciliationService<R, H> {
    pub fn new(repository: R, hasher: H) -> (s: Self)
        ensures
            s.spec_repository() == repository,
            s.spec_hasher() == hasher,
    {
        Self { repository, hasher }
    }

    pub closed spec fn spec_repository(&self) -> R {
        self.repository
    }

    pub closed spec fn spec_hasher(&self) -> H {
        self.hasher
    }

    pub fn repository(&self) -> (r: &R)
        ensures
            *r == self.spec_repository(),
    {
        &self.repository
    }

    pub fn hasher(&self) -> (r: &H)
        ensures
            *r == self.spec_hasher(),
    {
        &self.hasher
    }

    /// The repository query of a list request: the named filter, the
    /// narrowed payment id, the reason, paging, and the hashes of the trade
    /// and callback numbers where they were given.
    pub fn reconciliation_query(
        &self,
        limit: i64,
        offset: i64,
        resolved: Option<&str>,
        payment_id: Option<i64>,
        reason: Option<String>,
        trade_no: Option<&str>,
        callback_no: Option<&str>,
    ) -> (r: Result<ReconciliationQuery, ReconciliationError>)
        ensures
            named_filter(
                match resolved {
                    Some(s) => Some(s@),
                    None => None,
                },
            ) is None ==> r matches Err(
                ReconciliationError::InvalidInput(
                    ReconciliationInputViolation::InvalidResolutionFilter,
                ),
            ),
            named_filter(
                match resolved {
                    Some(s) => Some(s@),
                    None => None,
                },
            ) is Some && (payment_id matches Some(p) && !(i32::MIN <= p <= i32::MAX))
                ==> r matches Err(
                ReconciliationError::InvalidInput(
                    ReconciliationInputViolation::PaymentIdOutOfRange,
                ),
            ),
            named_filter(
                match resolved {
                    Some(s) => Some(s@),
                    None => None,
                },
            ) is Some && (payment_id matches Some(p) ==> i32::MIN <= p <= i32::MAX) ==> (r matches Ok(
                q,
            ) && Some(q.resolution) == named_filter(
                match resolved {
                    Some(s) => Some(s@),
                    None => None,
                },
            ) && (match payment_id {
                Some(p) => q.payment_id == Some(p as i32),
                None => q.payment_id is None,
            }) && q.reason == reason && q.limit == limit && q.offset == offset && q.trade_no_hash == match trade_no {
                Some(t) => Some(self.spec_hasher().spec_hash(t@)),
                None => None,
            } && q.callback_no_hash == match callback_no {
                Some(c) => Some(self.spec_hasher().spec_hash(c@)),
                None => None,
            }),
    {
        let resolution = match resolution_filter(resolved) {
            Ok(f) => f,
            Err(e) => return Err(e),
        };
        let payment_id = match checked_payment_id(payment_id) {
            Ok(p) => p,
            Err(e) => return Err(e),
        };
        let trade_no_hash = match trade_no {
            Some(value) => Some(self.hasher.hash(value)),
            None => None,
        };
        let callback_no_hash = match callback_no {
            Some(value) => Some(self.hasher.hash(value)),
            None => None,
        };
        Ok(
            ReconciliationQuery {
                resolution,
                payment_id,
                reason,
                trade_no_hash,
                callback_no_hash,
                limit,
                offset,
            },
        )
    }
}

} // verus!
