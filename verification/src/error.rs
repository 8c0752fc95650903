//! The error type of the storage layer.
use vstd::prelude::*;

verus! {

/// What can go wrong when records are written or read back.
#[derive(Clone, Debug, PartialEq, Eq)]
pub enum CoreError {
    /// The database refused a statement or a column.
    Storage(String),
    /// A stored or given value has not the form it must have.
    Serde(String),
    /// The caller's input is not acceptable.
    Validation(String),
    /// The record that was asked for does not exist.
    NotFound(String),
    /// The record is not in the state that the request needs.
    Conflict(String),
    /// The caller may not do this.
    Forbidden(String),
    /// A tenant's limit is reached.
    QuotaExceeded { resource: String, limit: i64, current: i64 },
}

/// The mathematical model of [`CoreError`].
#[verifier::ext_equal]
pub ghost enum ErrorView {
    Storage(Seq<char>),
    Serde(Seq<char>),
    Validation(Seq<char>),
    NotFound(Seq<char>),
    Conflict(Seq<char>),
    Forbidden(Seq<char>),
    QuotaExceeded { resource: Seq<char>, limit: int, current: int },
}

impl View for CoreError {
    type V = ErrorView;

    open spec fn view(&self) -> ErrorView {
        match self {
            CoreError::Storage(m) => ErrorView::Storage(m@),
            CoreError::Serde(m) => ErrorView::Serde(m@),
            CoreError::Validation(m) => ErrorView::Validation(m@),
            CoreError::NotFound(m) => ErrorView::NotFound(m@),
            CoreError::Conflict(m) => ErrorView::Conflict(m@),
            CoreError::Forbidden(m) => ErrorView::Forbidden(m@),
            CoreError::QuotaExceeded { resource, limit, current } => ErrorView::QuotaExceeded {
                resource: resource@,
                limit: *limit as int,
                current: *current as int,
            },
        }
    }
}

impl CoreError {
    pub fn storage(message: &str) -> (e: CoreError)
        ensures
            e@ == ErrorView::Storage(message@),
    {
        CoreError::Storage(message.to_owned())
    }

    pub fn serde(message: &str) -> (e: CoreError)
        ensures
            e@ == ErrorView::Serde(message@),
    {
        CoreError::Serde(message.to_owned())
    }

    pub fn validation(message: &str) -> (e: CoreError)
        ensures
            e@ == ErrorView::Validation(message@),
    {
        CoreError::Validation(message.to_owned())
    }

    pub fn conflict(message: &str) -> (e: CoreError)
        ensures
            e@ == ErrorView::Conflict(message@),
    {
        CoreError::Conflict(message.to_owned())
    }

    pub fn forbidden(message: &str) -> (e: CoreError)
        ensures
            e@ == ErrorView::Forbidden(message@),
    {
        CoreError::Forbidden(message.to_owned())
    }

    pub fn quota_exceeded(resource: &str, limit: i64, current: i64) -> (e: CoreError)
        ensures
            e@ == (ErrorView::QuotaExceeded {
                resource: resource@,
                limit: limit as int,
                current: current as int,
            }),
    {
        CoreError::QuotaExceeded { resource: resource.to_owned(), limit, current }
    }
}

} // verus!
