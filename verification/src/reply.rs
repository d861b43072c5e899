//! What storage answers to a statement, and what each operation makes of
//! the answer.

use crate::entity::{InsertReturnCols, InsertReturnColsView, Salon_QR, Salons, SalonsView};
use crate::error::{optional_outcome, outcome, ErrorView, StoreError, NO_ROW};
use crate::row::{decode_listed, decode_salon, decoded_of, listed_of, timed, RowView, StoredRow};
use vstd::prelude::*;
use vstd::string::StringExecFns;

verus! {

/// The answer of storage to a statement that hands back at most one row:
/// the row, no row, or the diagnostic of a failure.
#[derive(Debug, Clone, PartialEq, Eq)]
pub enum Fetched<T> {
    Row(T),
    NoRow,
    Failed(String),
}

/// The mathematical value of a [`Fetched`].
pub enum FetchedView<V> {
    Row(V),
    NoRow,
    Failed(Seq<char>),
}

impl<T: View> View for Fetched<T> {
    type V = FetchedView<T::V>;

    open spec fn view(&self) -> FetchedView<T::V> {
        match self {
            Fetched::Row(row) => FetchedView::Row(row@),
            Fetched::NoRow => FetchedView::NoRow,
            Fetched::Failed(diagnostic) => FetchedView::Failed(diagnostic@),
        }
    }
}

/// What a creation makes of the answer to its insertion: the reported row,
/// or a constraint error with the diagnostic of storage.
pub open spec fn created_of(reply: FetchedView<InsertReturnColsView>) -> Result<
    InsertReturnColsView,
    ErrorView,
> {
    match reply {
        FetchedView::Row(reported) => Ok(reported),
        FetchedView::NoRow => Err(ErrorView::ConstraintError(NO_ROW@)),
        FetchedView::Failed(diagnostic) => Err(ErrorView::ConstraintError(diagnostic)),
    }
}

/// What a read makes of the answer to its selection: the decoded row, that
/// nothing was found, or the diagnostic of storage.
pub open spec fn read_of(reply: FetchedView<RowView>) -> Result<SalonsView, ErrorView> {
    match reply {
        FetchedView::Row(row) => decoded_of(row),
        FetchedView::NoRow => Err(ErrorView::NotFoundError),
        FetchedView::Failed(diagnostic) => Err(ErrorView::ConstraintError(diagnostic)),
    }
}

/// What an update makes of the answer to its statement: the reported row,
/// that nothing was found, or a constraint error with the diagnostic of
/// storage.
pub open spec fn updated_of(reply: FetchedView<InsertReturnColsView>) -> Result<
    InsertReturnColsView,
    ErrorView,
> {
    match reply {
        FetchedView::Row(reported) => Ok(reported),
        FetchedView::NoRow => Err(ErrorView::NotFoundError),
        FetchedView::Failed(diagnostic) => Err(ErrorView::ConstraintError(diagnostic)),
    }
}

/// What a deletion makes of the answer to its statement: the decoded row
/// that was deleted, nothing where there was no row, or the diagnostic of
/// storage.
pub open spec fn deleted_of(reply: FetchedView<RowView>) -> Result<Option<SalonsView>, ErrorView> {
    match reply {
        FetchedView::Row(row) => match decoded_of(row) {
            Ok(salon) => Ok(Some(salon)),
            Err(error) => Err(error),
        },
        FetchedView::NoRow => Ok(None),
        FetchedView::Failed(diagnostic) => Err(ErrorView::ConstraintError(diagnostic)),
    }
}

/// Maps the answer to the insertion of a creation.
pub fn create_reply(reply: Fetched<InsertReturnCols>) -> (result: Result<InsertReturnCols, StoreError>)
    ensures
        outcome(result) == created_of(reply@),
{
    match reply {
        Fetched::Row(reported) => Ok(reported),
        Fetched::NoRow => Err(StoreError::ConstraintError(String::from_str(NO_ROW))),
        Fetched::Failed(diagnostic) => Err(StoreError::ConstraintError(diagnostic)),
    }
}

/// Maps the answer to the selection of a read, decoding the row. A row
/// that storage hands back has both of its points in time.
pub fn read_reply(reply: Fetched<StoredRow>) -> (result: Result<Salons, StoreError>)
    requires
        reply matches Fetched::Row(row) ==> timed(row@),
    ensures
        outcome(result) == read_of(reply@),
{
    match reply {
        Fetched::Row(row) => decode_salon(&row),
        Fetched::NoRow => Err(StoreError::NotFoundError),
        Fetched::Failed(diagnostic) => Err(StoreError::ConstraintError(diagnostic)),
    }
}

/// Maps the answer to the statement of an update.
pub fn update_reply(reply: Fetched<InsertReturnCols>) -> (result: Result<InsertReturnCols, StoreError>)
    ensures
        outcome(result) == updated_of(reply@),
{
    match reply {
        Fetched::Row(reported) => Ok(reported),
        Fetched::NoRow => Err(StoreError::NotFoundError),
        Fetched::Failed(diagnostic) => Err(StoreError::ConstraintError(diagnostic)),
    }
}

/// Maps the answer to the statement of a deletion, decoding the row. A row
/// that storage hands back has both of its points in time.
pub fn delete_reply(reply: Fetched<StoredRow>) -> (result: Result<Option<Salons>, StoreError>)
    requires
        reply matches Fetched::Row(row) ==> timed(row@),
    ensures
        optional_outcome(result) == deleted_of(reply@),
{
    match reply {
        Fetched::Row(row) => match decode_salon(&row) {
            Ok(salon) => Ok(Some(salon)),
            Err(error) => Err(error),
        },
        Fetched::NoRow => Ok(None),
        Fetched::Failed(diagnostic) => Err(StoreError::ConstraintError(diagnostic)),
    }
}

/// Decodes the rows of a listing, one listed salon for each row and in the
/// order of the rows. No row is dropped, whatever its columns hold.
pub fn listed(rows: &Vec<StoredRow>) -> (salons: Vec<Salon_QR>)
    ensures
        salons.len() == rows.len(),
        forall|i: int| 0 <= i < salons.len() ==> (#[trigger] salons[i])@ == listed_of(rows[i]@),
{
    let mut salons: Vec<Salon_QR> = Vec::new();
    let mut place: usize = 0;
    while place < rows.len()
        invariant
            place <= rows.len(),
            salons.len() == place,
            forall|i: int| 0 <= i < place ==> (#[trigger] salons[i])@ == listed_of(rows[i]@),
        decreases rows.len() - place,
    {
        salons.push(decode_listed(&rows[place]));
        place += 1;
    }
    salons
}

/// Maps the answer to the selection of a listing, decoding the rows.
pub fn list_reply(reply: Result<Vec<StoredRow>, String>) -> (result: Result<
    Vec<Salon_QR>,
    StoreError,
>)
    ensures
        match (reply, result) {
            (Ok(rows), Ok(salons)) => salons.len() == rows.len() && forall|i: int|
                0 <= i < salons.len() ==> (#[trigger] salons[i])@ == listed_of(rows[i]@),
            (Err(diagnostic), Err(error)) => error@ == ErrorView::ConstraintError(diagnostic@),
            _ => false,
        },
{
    match reply {
        Ok(rows) => Ok(listed(&rows)),
        Err(diagnostic) => Err(StoreError::ConstraintError(diagnostic)),
    }
}

/// Maps the answer to the statements that set up the schema: any failure
/// that storage reports is a schema error with its diagnostic.
pub fn schema_reply(reply: Result<(), String>) -> (result: Result<(), StoreError>)
    ensures
        match reply {
            Ok(()) => result is Ok,
            Err(diagnostic) => result matches Err(error) && error@ == ErrorView::SchemaError(
                diagnostic@,
            ),
        },
{
    match reply {
        Ok(()) => Ok(()),
        Err(diagnostic) => Err(StoreError::SchemaError(diagnostic)),
    }
}

} // verus!
