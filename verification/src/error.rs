//! The errors of the relational store and the errors that requests are
//! answered with.

use vstd::prelude::*;

verus! {

/// A call of the relational store that failed.
#[derive(Debug, PartialEq, Eq)]
pub enum OhosRdbError {
    /// An API call named by `context` failed with `code`.
    Api { context: &'static str, code: i32 },
    /// Any other failure of the store layer, held as its debug text.
    Reported { debug: String },
}

/// What a request is answered with when it fails.
#[derive(Debug, PartialEq, Eq)]
pub enum BackendError {
    /// The database failed; the text describes how.
    DbErr(String),
    /// The request names an object store that does not exist.
    StoreNotFound,
}

/// The mathematical content of a [`BackendError`].
pub enum BackendErrorView {
    DbErr(Seq<char>),
    StoreNotFound,
}

impl View for BackendError {
    type V = BackendErrorView;

    open spec fn view(&self) -> BackendErrorView {
        match self {
            BackendError::DbErr(text) => BackendErrorView::DbErr(text@),
            BackendError::StoreNotFound => BackendErrorView::StoreNotFound,
        }
    }
}

impl Clone for BackendError {
    fn clone(&self) -> (copy: Self)
        ensures
            copy == *self,
    {
        match self {
            BackendError::DbErr(text) => BackendError::DbErr(text.clone()),
            BackendError::StoreNotFound => BackendError::StoreNotFound,
        }
    }
}

/// The answer to a request.
pub type BackendResult<T> = Result<T, BackendError>;

/// The outcome of a call of the relational store.
pub type OhosRdbResult<T> = Result<T, OhosRdbError>;

/// The code of an error that reports a missing row, column or lock.
pub const MISSING_ROW_CODE: i32 = -1;

/// The error that reports `context` as missing.
pub open spec fn missing_row_error(context: &'static str) -> OhosRdbError {
    OhosRdbError::Api { context, code: MISSING_ROW_CODE }
}

/// The error that reports `context` as missing.
pub fn missing_row(context: &'static str) -> (error: OhosRdbError)
    ensures
        error == missing_row_error(context),
{
    OhosRdbError::Api { context, code: MISSING_ROW_CODE }
}

/// `value` if it is there, else the error that reports `context` as missing.
pub open spec fn required_or<T>(value: Option<T>, context: &'static str) -> OhosRdbResult<T> {
    match value {
        Some(value) => Ok(value),
        None => Err(missing_row_error(context)),
    }
}

/// Takes a value that must be there: a null where the schema allows none means
/// a corrupt row or a write from an incompatible version, and is surfaced as an
/// error instead of being masked with a default.
pub fn required<T>(value: Option<T>, context: &'static str) -> (result: OhosRdbResult<T>)
    ensures
        result == required_or(value, context),
{
    match value {
        Some(value) => Ok(value),
        None => Err(missing_row(context)),
    }
}

} // verus!
