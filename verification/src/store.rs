//! The salon table held in memory: the five operations on salons and the
//! setup of the schema, each as one step on the rows.

use crate::entity::{
    InsertReturnCols, InsertReturnColsView, ListedView, NewSalone, NewSaloneView, Salon_QR, Salons,
    SalonsView, Timestamp, UpdateSalone, UpdateSaloneView,
};
use crate::error::{optional_outcome, outcome, ErrorView, StoreError};
use crate::merge::{merge_row, merged_row};
use crate::region::tag_of;
use crate::reply::{
    create_reply, delete_reply, listed, read_reply, update_reply, Fetched, FetchedView,
};
use crate::row::{
    decoded_of, listed_of, not_null_diagnostic, not_null_text, required_present, text_or_default,
    RowView, StoredRow,
};
use vstd::prelude::*;
use vstd::string::StringExecFns;

verus! {

/// A database that holds the salon table: whether the type of the region
/// column and the table exist, and the rows of the table in the order in
/// which they were inserted.
pub struct SalonStore {
    region_type: bool,
    table: bool,
    rows: Vec<StoredRow>,
}

/// The mathematical value of a [`SalonStore`].
pub struct StoreView {
    pub region_type: bool,
    pub table: bool,
    pub rows: Seq<RowView>,
}

/// Some row has the id.
pub open spec fn holds(rows: Seq<RowView>, id: Seq<char>) -> bool {
    exists|i: int| 0 <= i < rows.len() && (#[trigger] rows[i]).id == Some(id)
}

/// The place of a row that has the id, where there is one.
pub open spec fn position(rows: Seq<RowView>, id: Seq<char>) -> int {
    choose|i: int| 0 <= i < rows.len() && (#[trigger] rows[i]).id == Some(id)
}

/// No two rows have the same id: the id is the primary key.
pub open spec fn distinct_ids(rows: Seq<RowView>) -> bool {
    forall|i: int, j: int|
        0 <= i < j < rows.len() ==> (#[trigger] rows[i]).id != (#[trigger] rows[j]).id
}

/// The constraints of the table hold of the rows: the required columns are
/// present in each, and the id is a key.
pub open spec fn constrained(rows: Seq<RowView>) -> bool {
    &&& forall|i: int| 0 <= i < rows.len() ==> required_present(#[trigger] rows[i])
    &&& distinct_ids(rows)
}

/// The table needs the type of its region column, and without the table
/// there are no rows.
pub open spec fn well_formed(store: StoreView) -> bool {
    &&& store.table ==> store.region_type
    &&& !store.table ==> store.rows.len() == 0
    &&& constrained(store.rows)
}

/// The database after the schema was set up: the type exists, whether or
/// not it did before, and the table is new and empty.
pub open spec fn initialised() -> StoreView {
    StoreView { region_type: true, table: true, rows: Seq::empty() }
}

/// The row that a creation inserts: the attributes as supplied, the given
/// id, and `now` as both points in time.
pub open spec fn created_row(data: NewSaloneView, id: Seq<char>, now: int) -> RowView {
    RowView {
        id: Some(id),
        owner_id: Some(data.ownerId),
        name: Some(data.name),
        description: Some(data.description),
        address: Some(data.address),
        region: Some(tag_of(data.region)),
        phone: Some(data.phone),
        email: Some(data.email),
        created_at: Some(now),
        updated_at: Some(now),
    }
}

/// What the table says of a row whose id is taken.
pub const DUPLICATE_KEY: &'static str =
    "duplicate key value violates unique constraint \"salons_pkey\"";

/// The message of a successful update.
pub const UPDATE_MESSAGE: &'static str = "update succesfull";

/// The answer of storage to the insertion of a row: the id and the name of
/// the row, or the diagnostic where a required column is absent or the id
/// is taken.
pub open spec fn inserted_of(rows: Seq<RowView>, row: RowView) -> FetchedView<InsertReturnColsView> {
    if !required_present(row) {
        FetchedView::Failed(not_null_diagnostic(row))
    } else if holds(rows, row.id.unwrap()) {
        FetchedView::Failed(DUPLICATE_KEY@)
    } else {
        FetchedView::Row(InsertReturnColsView { id: row.id.unwrap(), msg: row.name.unwrap() })
    }
}

/// The rows after the insertion of a row was asked for.
pub open spec fn after_insertion(rows: Seq<RowView>, row: RowView) -> Seq<RowView> {
    if inserted_of(rows, row) is Row {
        rows.push(row)
    } else {
        rows
    }
}

/// The answer of storage to the selection of an id: the row that has it, or
/// no row.
pub open spec fn selected_of(rows: Seq<RowView>, id: Seq<char>) -> FetchedView<RowView> {
    if holds(rows, id) {
        FetchedView::Row(rows[position(rows, id)])
    } else {
        FetchedView::NoRow
    }
}

/// The answer of storage to an update: the id and the message of success,
/// or no row.
pub open spec fn merged_of(rows: Seq<RowView>, id: Seq<char>) -> FetchedView<InsertReturnColsView> {
    if holds(rows, id) {
        FetchedView::Row(InsertReturnColsView { id: id, msg: UPDATE_MESSAGE@ })
    } else {
        FetchedView::NoRow
    }
}

/// What a creation hands back: the id and the name of the new salon, or the
/// failure of the insertion.
pub open spec fn creation_of(rows: Seq<RowView>, data: NewSaloneView, id: Seq<char>) -> Result<
    InsertReturnColsView,
    ErrorView,
> {
    if holds(rows, id) {
        Err(ErrorView::ConstraintError(DUPLICATE_KEY@))
    } else {
        Ok(InsertReturnColsView { id: id, msg: data.name })
    }
}

/// The rows after a creation was asked for.
pub open spec fn after_creation(
    rows: Seq<RowView>,
    data: NewSaloneView,
    id: Seq<char>,
    now: int,
) -> Seq<RowView> {
    if holds(rows, id) {
        rows
    } else {
        rows.push(created_row(data, id, now))
    }
}

/// What reading an id hands back: the decoded row that has the id, or that
/// there is none.
pub open spec fn reading_of(rows: Seq<RowView>, id: Seq<char>) -> Result<SalonsView, ErrorView> {
    if holds(rows, id) {
        decoded_of(rows[position(rows, id)])
    } else {
        Err(ErrorView::NotFoundError)
    }
}

/// What a listing shows: the listed shape of every row, in the order of the
/// rows.
pub open spec fn listing_of(rows: Seq<RowView>) -> Seq<ListedView> {
    Seq::new(rows.len(), |i: int| listed_of(rows[i]))
}

/// What an update hands back: the id and the message of success, or that no
/// row has the id.
pub open spec fn update_of(rows: Seq<RowView>, id: Seq<char>) -> Result<
    InsertReturnColsView,
    ErrorView,
> {
    if holds(rows, id) {
        Ok(InsertReturnColsView { id: id, msg: UPDATE_MESSAGE@ })
    } else {
        Err(ErrorView::NotFoundError)
    }
}

/// The rows after an update was asked for: the row that has the id merged
/// with the change, every other row as it was.
pub open spec fn after_update(
    rows: Seq<RowView>,
    id: Seq<char>,
    patch: UpdateSaloneView,
    now: int,
) -> Seq<RowView> {
    if holds(rows, id) {
        rows.update(position(rows, id), merged_row(rows[position(rows, id)], patch, now))
    } else {
        rows
    }
}

/// What a deletion hands back: the decoded row that had the id, or nothing
/// where no row had it, which is no failure.
pub open spec fn deletion_of(rows: Seq<RowView>, id: Seq<char>) -> Result<
    Option<SalonsView>,
    ErrorView,
> {
    if holds(rows, id) {
        match decoded_of(rows[position(rows, id)]) {
            Ok(salon) => Ok(Some(salon)),
            Err(error) => Err(error),
        }
    } else {
        Ok(None)
    }
}

/// The rows after a deletion was asked for: without the row that had the
/// id, whether or not that row could be decoded.
pub open spec fn after_deletion(rows: Seq<RowView>, id: Seq<char>) -> Seq<RowView> {
    if holds(rows, id) {
        rows.remove(position(rows, id))
    } else {
        rows
    }
}

impl View for SalonStore {
    type V = StoreView;

    closed spec fn view(&self) -> StoreView {
        StoreView {
            region_type: self.region_type,
            table: self.table,
            rows: Seq::new(self.rows@.len(), |i: int| self.rows@[i]@),
        }
    }
}

impl SalonStore {
    /// The invariant of the store.
    pub open spec fn wf(&self) -> bool {
        well_formed(self@)
    }

    /// The table exists, so the operations on salons can run.
    pub open spec fn ready(&self) -> bool {
        self.wf() && self@.table
    }

    /// A database in which nothing was set up yet.
    pub fn new() -> (store: SalonStore)
        ensures
            store.wf(),
            store@ == (StoreView { region_type: false, table: false, rows: Seq::empty() }),
    {
        let store = SalonStore { region_type: false, table: false, rows: Vec::new() };
        assert(store@.rows =~= Seq::empty());
        store
    }

    /// Whether the table exists.
    pub fn is_ready(&self) -> (ready: bool)
        ensures
            ready == self@.table,
    {
        self.table
    }

    /// The number of rows.
    pub fn len(&self) -> (count: usize)
        ensures
            count == self@.rows.len(),
    {
        self.rows.len()
    }

    /// The place of the row that has the id.
    fn find(&self, id: &String) -> (found: Option<usize>)
        requires
            self.wf(),
        ensures
            match found {
                Some(place) => holds(self@.rows, id@) && place == position(self@.rows, id@)
                    && place < self.rows.len(),
                None => !holds(self@.rows, id@),
            },
    {
        let mut place: usize = 0;
        while place < self.rows.len()
            invariant
                place <= self.rows.len(),
                self.wf(),
                forall|i: int| 0 <= i < place ==> (#[trigger] self@.rows[i]).id != Some(id@),
            decreases self.rows.len() - place,
        {
            let same = match &self.rows[place].id {
                Some(stored) => *stored == *id,
                None => false,
            };
            if same {
                assert(self@.rows[place as int].id == Some(id@));
                return Some(place);
            }
            place += 1;
        }
        None
    }

    /// Puts a row into the table as it is, the region as any text, and
    /// answers with its id and name. The table turns the row down where a
    /// required column is absent or the id is taken, and is then unchanged.
    pub fn insert(&mut self, row: StoredRow) -> (reply: Fetched<InsertReturnCols>)
        requires
            old(self).ready(),
        ensures
            final(self).ready(),
            reply@ == inserted_of(old(self)@.rows, row@),
            final(self)@ == (StoreView {
                rows: after_insertion(old(self)@.rows, row@),
                ..old(self)@
            }),
    {
        if !row.meets_schema() {
            return Fetched::Failed(not_null_text(&row));
        }
        let id = text_or_default(&row.id);
        if self.find(&id).is_some() {
            return Fetched::Failed(String::from_str(DUPLICATE_KEY));
        }
        let reported = InsertReturnCols { id: id, msg: text_or_default(&row.name) };
        self.rows.push(row);
        assert(self@.rows =~= old(self)@.rows.push(row@));
        Fetched::Row(reported)
    }

    /// Answers with a copy of the row that has the id.
    fn select(&self, id: &String) -> (reply: Fetched<StoredRow>)
        requires
            self.ready(),
        ensures
            reply@ == selected_of(self@.rows, id@),
            reply matches Fetched::Row(row) ==> required_present(row@),
    {
        match self.find(id) {
            Some(place) => Fetched::Row(self.rows[place].duplicate()),
            None => Fetched::NoRow,
        }
    }

    /// Merges a partial change into the row that has the id.
    fn merge(&mut self, id: String, patch: &UpdateSalone, now: Timestamp) -> (reply: Fetched<
        InsertReturnCols,
    >)
        requires
            old(self).ready(),
        ensures
            final(self).ready(),
            reply@ == merged_of(old(self)@.rows, id@),
            final(self)@ == (StoreView {
                rows: after_update(old(self)@.rows, id@, patch@, now.micros as int),
                ..old(self)@
            }),
    {
        match self.find(&id) {
            Some(place) => {
                let merged = merge_row(&self.rows[place], patch, now);
                self.rows.set(place, merged);
                assert(self@.rows =~= after_update(
                    old(self)@.rows,
                    id@,
                    patch@,
                    now.micros as int,
                ));
                Fetched::Row(InsertReturnCols { id: id, msg: String::from_str(UPDATE_MESSAGE) })
            },
            None => Fetched::NoRow,
        }
    }

    /// Takes the row that has the id out of the table and answers with it.
    fn remove(&mut self, id: &String) -> (reply: Fetched<StoredRow>)
        requires
            old(self).ready(),
        ensures
            final(self).ready(),
            reply@ == selected_of(old(self)@.rows, id@),
            reply matches Fetched::Row(row) ==> required_present(row@),
            final(self)@ == (StoreView {
                rows: after_deletion(old(self)@.rows, id@),
                ..old(self)@
            }),
    {
        match self.find(id) {
            Some(place) => {
                let row = self.rows.remove(place);
                assert(self@.rows =~= old(self)@.rows.remove(place as int));
                Fetched::Row(row)
            },
            None => Fetched::NoRow,
        }
    }
}

/// Sets up the schema. The type of the region column is created unless it
/// exists already, which is no failure. The table is dropped and created
/// anew: every row that was there is lost.
pub fn table_init(store: &mut SalonStore)
    requires
        old(store).wf(),
    ensures
        final(store).ready(),
        final(store)@ == initialised(),
{
    if !store.region_type {
        store.region_type = true;
    }
    store.rows = Vec::new();
    store.table = true;
    assert(store@.rows =~= Seq::empty());
}

/// Creates a salon from the supplied attributes under the id `id`, at the
/// time `now`, and reports the id and the name. The caller draws the id and
/// reads the clock; the table checks that the id is free. Fails with a
/// constraint error, and changes nothing, where the id is taken.
pub fn create(data: NewSalone, store: &mut SalonStore, id: String, now: Timestamp) -> (result:
    Result<InsertReturnCols, StoreError>)
    requires
        old(store).ready(),
    ensures
        final(store).ready(),
        outcome(result) == creation_of(old(store)@.rows, data@, id@),
        final(store)@ == (StoreView {
            rows: after_creation(old(store)@.rows, data@, id@, now.micros as int),
            ..old(store)@
        }),
{
    let row = StoredRow {
        id: Some(id),
        owner_id: Some(data.ownerId),
        name: Some(data.name),
        description: Some(data.description),
        address: Some(data.address),
        region: Some(data.region.encode()),
        phone: Some(data.phone),
        email: Some(data.email),
        created_at: Some(now),
        updated_at: Some(now),
    };
    assert(row@ == created_row(data@, id@, now.micros as int));
    create_reply(store.insert(row))
}

/// Lists every salon in the order of the rows, each attribute on its own
/// present or absent.
pub fn list(store: &SalonStore) -> (salons: Vec<Salon_QR>)
    requires
        store.ready(),
    ensures
        salons.len() == listing_of(store@.rows).len(),
        forall|i: int|
            0 <= i < salons.len() ==> (#[trigger] salons[i])@ == listing_of(store@.rows)[i],
{
    listed(&store.rows)
}

/// Reads the salon that has the id, and changes nothing. Fails where no row
/// has the id, and where the stored region of the row is not a permitted
/// tag.
pub fn read(id: String, store: &SalonStore) -> (result: Result<Salons, StoreError>)
    requires
        store.ready(),
    ensures
        outcome(result) == reading_of(store@.rows, id@),
{
    read_reply(store.select(&id))
}

/// Merges a partial change into the salon that has the id, at the time
/// `now`, and reports the id and a message. The time of the last update is
/// set to `now` whether or not an attribute changes. Fails, and changes
/// nothing, where no row has the id.
pub fn update(id: String, data: UpdateSalone, store: &mut SalonStore, now: Timestamp) -> (result:
    Result<InsertReturnCols, StoreError>)
    requires
        old(store).ready(),
    ensures
        final(store).ready(),
        outcome(result) == update_of(old(store)@.rows, id@),
        final(store)@ == (StoreView {
            rows: after_update(old(store)@.rows, id@, data@, now.micros as int),
            ..old(store)@
        }),
{
    update_reply(store.merge(id, &data, now))
}

/// Deletes the salon that has the id and hands it back. Where no row has
/// the id, nothing is handed back and nothing changes: that is no failure.
/// Where the stored region of the row is not a permitted tag, the row is
/// deleted all the same and the failure to decode it is reported.
pub fn delete_by_id(id: &str, store: &mut SalonStore) -> (result: Result<Option<Salons>, StoreError>)
    requires
        old(store).ready(),
    ensures
        final(store).ready(),
        optional_outcome(result) == deletion_of(old(store)@.rows, id@),
        final(store)@ == (StoreView { rows: after_deletion(old(store)@.rows, id@), ..old(store)@ }),
{
    let key = String::from_str(id);
    delete_reply(store.remove(&key))
}

} // verus!
