//! The ways an operation on the salon table can fail.

use vstd::prelude::*;
use vstd::string::StringExecFns;

verus! {

/// A failure of an operation on the salon table.
#[derive(Debug, Clone, PartialEq, Eq)]
pub enum StoreError {
    /// Setting up the storage schema failed; carries the storage diagnostic.
    SchemaError(String),
    /// A statement was turned down by storage; carries the storage diagnostic.
    ConstraintError(String),
    /// No row has the requested id.
    NotFoundError,
    /// A stored region is none of the permitted tags; carries the stored text.
    DecodeInvariantViolation(String),
}

/// The mathematical value of a [`StoreError`].
pub enum ErrorView {
    SchemaError(Seq<char>),
    ConstraintError(Seq<char>),
    NotFoundError,
    DecodeInvariantViolation(Seq<char>),
}

impl View for StoreError {
    type V = ErrorView;

    open spec fn view(&self) -> ErrorView {
        match self {
            StoreError::SchemaError(diagnostic) => ErrorView::SchemaError(diagnostic@),
            StoreError::ConstraintError(diagnostic) => ErrorView::ConstraintError(diagnostic@),
            StoreError::NotFoundError => ErrorView::NotFoundError,
            StoreError::DecodeInvariantViolation(tag) => ErrorView::DecodeInvariantViolation(tag@),
        }
    }
}

/// To whom a failure is owed: to the caller, whose request could not be
/// met; to the service, whose stored data is damaged; or to the setup,
/// without which the service cannot start.
#[derive(Debug, Clone, Copy, PartialEq, Eq, Structural)]
pub enum Severity {
    Client,
    Server,
    Fatal,
}

/// How a failure is surfaced: a schema error ends the start of the service,
/// a constraint error and a missing row are the caller's, and a region that
/// cannot be decoded is the service's and is reported, not fatal.
pub open spec fn severity_of(error: ErrorView) -> Severity {
    match error {
        ErrorView::SchemaError(_) => Severity::Fatal,
        ErrorView::ConstraintError(_) => Severity::Client,
        ErrorView::NotFoundError => Severity::Client,
        ErrorView::DecodeInvariantViolation(_) => Severity::Server,
    }
}

/// What is said of a statement that should have handed back a row and did
/// not.
pub const NO_ROW: &'static str =
    "no rows returned by a query that expected to return at least one row";

/// What is said of a stored region that is none of the permitted tags,
/// before the stored text.
pub const UNKNOWN_REGION: &'static str = "stored region is not a known tag: ";

/// The text shown to a caller for a failure: the storage diagnostic as it
/// came, a fixed sentence for a missing row, and the offending text after a
/// fixed prefix for a region that cannot be decoded.
pub open spec fn message_of(error: ErrorView) -> Seq<char> {
    match error {
        ErrorView::SchemaError(diagnostic) => diagnostic,
        ErrorView::ConstraintError(diagnostic) => diagnostic,
        ErrorView::NotFoundError => NO_ROW@,
        ErrorView::DecodeInvariantViolation(tag) => UNKNOWN_REGION@ + tag,
    }
}

/// The mathematical value of what an operation hands back.
pub open spec fn outcome<T: View>(result: Result<T, StoreError>) -> Result<T::V, ErrorView> {
    match result {
        Ok(value) => Ok(value@),
        Err(error) => Err(error@),
    }
}

/// The mathematical value of what an operation hands back where success
/// may come without a value.
pub open spec fn optional_outcome<T: View>(result: Result<Option<T>, StoreError>) -> Result<
    Option<T::V>,
    ErrorView,
> {
    match result {
        Ok(Some(value)) => Ok(Some(value@)),
        Ok(None) => Ok(None),
        Err(error) => Err(error@),
    }
}

impl StoreError {
    /// How this failure is surfaced.
    pub fn severity(&self) -> (severity: Severity)
        ensures
            severity == severity_of(self@),
    {
        match self {
            StoreError::SchemaError(_) => Severity::Fatal,
            StoreError::ConstraintError(_) => Severity::Client,
            StoreError::NotFoundError => Severity::Client,
            StoreError::DecodeInvariantViolation(_) => Severity::Server,
        }
    }

    /// The text shown to a caller for this failure.
    pub fn message(&self) -> (text: String)
        ensures
            text@ == message_of(self@),
    {
        match self {
            StoreError::SchemaError(diagnostic) => diagnostic.clone(),
            StoreError::ConstraintError(diagnostic) => diagnostic.clone(),
            StoreError::NotFoundError => String::from_str(NO_ROW),
            StoreError::DecodeInvariantViolation(tag) => String::from_str(UNKNOWN_REGION).concat(
                tag.as_str(),
            ),
        }
    }
}

} // verus!
