//! The adapter-neutral repository failure shared by every use case.
use vstd::prelude::*;

use crate::text::{append_str_to, to_owned};

verus! {

/// An adapter-neutral repository failure. The operation label preserves
/// useful observability without making any datastore part of the contract.
#[derive(Debug, Clone, Eq, PartialEq)]
pub struct RepositoryError {
    operation: &'static str,
    message: String,
}

impl RepositoryError {
    pub closed spec fn spec_operation(&self) -> &'static str {
        self.operation
    }

    pub closed spec fn spec_text(&self) -> String {
        self.message
    }

    pub open spec fn spec_message(&self) -> Seq<char> {
        self.spec_text()@
    }

    /// Records the failing operation and the rendered error message.
    pub fn new<E: std::fmt::Display>(operation: &'static str, error: E) -> (r: Self)
        ensures
            r.spec_operation() == operation,
            vstd::string::to_string_from_display_ensures::<E>(&error, r.spec_text()),
    {
        Self { operation, message: error.to_string() }
    }

    pub fn operation(&self) -> (r: &'static str)
        ensures
            r == self.spec_operation(),
    {
        self.operation
    }

    /// The message the failure was recorded with.
    pub fn message(&self) -> (r: &str)
        ensures
            r@ == self.spec_message(),
    {
        self.message.as_str()
    }

    /// The failure as text: `"{operation} failed: {message}"`.
    pub fn rendered(&self) -> (r: String)
        ensures
            r@ == self.spec_operation()@ + " failed: "@ + self.spec_message(),
    {
        let mut text = to_owned(self.operation);
        append_str_to(&mut text, " failed: ");
        append_str_to(&mut text, self.message.as_str());
        text
    }
}

/// Failures of the public content use cases.
#[derive(Debug)]
pub enum ApplicationError {
    NoticeNotFound,
    KnowledgeNotFound,
    ArticleNotFound,
    ReaderNotFound,
    Repository(RepositoryError),
}

impl ApplicationError {
    /// `From<RepositoryError>`: repository failures pass through unchanged.
    pub fn from_repository(error: RepositoryError) -> (r: Self)
        ensures
            r == ApplicationError::Repository(error),
    {
        ApplicationError::Repository(error)
    }
}

} // verus!
