//! The ways in which an operation on the store fails.

use vstd::prelude::*;

verus! {

/// Why an operation on the store failed. Where the database reported the
/// failure, the variant carries its report as text.
#[derive(Debug, Clone, PartialEq, Eq)]
pub enum StoreError {
    /// The table name is empty or holds a character other than an ASCII
    /// letter, a digit or an underscore.
    InvalidTableName,
    /// The database could not be opened: connecting to it failed, or its
    /// catalog could not be read.
    OpenError(String),
    /// The table was missing and could not be created.
    SchemaError(String),
    /// No row holds the key that was asked for.
    NotFound,
    /// The database failed to answer a query.
    ReadError(String),
    /// The database rejected a write.
    WriteError(String),
    /// The outcome handed back does not fit the statement that was run.
    UnexpectedOutcome,
}

/// A [`StoreError`] with each report as a sequence of characters.
pub enum StoreErrorView {
    InvalidTableName,
    OpenError(Seq<char>),
    SchemaError(Seq<char>),
    NotFound,
    ReadError(Seq<char>),
    WriteError(Seq<char>),
    UnexpectedOutcome,
}

impl View for StoreError {
    type V = StoreErrorView;

    open spec fn view(&self) -> StoreErrorView {
        match *self {
            StoreError::InvalidTableName => StoreErrorView::InvalidTableName,
            StoreError::OpenError(report) => StoreErrorView::OpenError(report@),
            StoreError::SchemaError(report) => StoreErrorView::SchemaError(report@),
            StoreError::NotFound => StoreErrorView::NotFound,
            StoreError::ReadError(report) => StoreErrorView::ReadError(report@),
            StoreError::WriteError(report) => StoreErrorView::WriteError(report@),
            StoreError::UnexpectedOutcome => StoreErrorView::UnexpectedOutcome,
        }
    }
}

impl DeepView for StoreError {
    type V = StoreErrorView;

    open spec fn deep_view(&self) -> StoreErrorView {
        self@
    }
}

/// The view of a result: the deep view of what it holds on either side.
pub open spec fn result_view<T: DeepView, E: DeepView>(r: Result<T, E>) -> Result<T::V, E::V> {
    match r {
        Ok(value) => Ok(value.deep_view()),
        Err(error) => Err(error.deep_view()),
    }
}

} // verus!
