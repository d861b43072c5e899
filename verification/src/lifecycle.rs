//! What holds of a salon across operations: from its creation, through its
//! updates, to its deletion.

use crate::entity::{NewSaloneView, SalonsView, UpdateSaloneView};
use crate::error::ErrorView;
use crate::merge::{lemma_blank_update_touches_only_time, merged_row, supplied, Attribute};
use crate::region::{lemma_decode_encode, region_of};
use crate::row::{decoded_of, required_present, RowView};
use crate::store::{
    after_creation, after_deletion, after_insertion, after_update, constrained, created_row,
    creation_of, deletion_of, distinct_ids, holds, inserted_of, position, reading_of,
};
use vstd::prelude::*;

verus! {

/// The entity that a creation stores: the attributes as supplied, the given
/// id, and `now` as both points in time.
pub open spec fn created_salon(data: NewSaloneView, id: Seq<char>, now: int) -> SalonsView {
    SalonsView {
        id: id,
        ownerId: data.ownerId,
        name: data.name,
        description: data.description,
        address: data.address,
        region: data.region,
        phone: data.phone,
        email: data.email,
        createdAt: now,
        updatedAt: now,
    }
}

/// A row that was just put behind rows that lack its id is the row that
/// has the id.
pub proof fn lemma_place_of_new_row(rows: Seq<RowView>, row: RowView)
    requires
        row.id is Some,
        !holds(rows, row.id.unwrap()),
    ensures
        holds(rows.push(row), row.id.unwrap()),
        position(rows.push(row), row.id.unwrap()) == rows.len(),
{
    let id = row.id.unwrap();
    let longer = rows.push(row);
    assert(longer[rows.len() as int].id == Some(id));
    let place = position(longer, id);
    if place < rows.len() {
        assert(rows[place].id == Some(id));
    }
}

/// Where the id is a key, the row that has an id is the only one.
pub proof fn lemma_place_is_unique(rows: Seq<RowView>, id: Seq<char>, place: int)
    requires
        distinct_ids(rows),
        0 <= place < rows.len(),
        rows[place].id == Some(id),
    ensures
        holds(rows, id),
        position(rows, id) == place,
{
    let chosen = position(rows, id);
    if chosen < place {
        assert(rows[chosen].id != rows[place].id);
    } else if place < chosen {
        assert(rows[place].id != rows[chosen].id);
    }
}

/// Reading a salon right after its creation gives every attribute as it
/// was supplied, and one point in time for its creation and its last
/// update.
pub proof fn lemma_read_after_create(
    rows: Seq<RowView>,
    data: NewSaloneView,
    id: Seq<char>,
    now: int,
)
    requires
        creation_of(rows, data, id) is Ok,
    ensures
        reading_of(after_creation(rows, data, id, now), id) == Ok::<SalonsView, ErrorView>(
            created_salon(data, id, now),
        ),
        created_salon(data, id, now).createdAt == created_salon(data, id, now).updatedAt,
{
    lemma_place_of_new_row(rows, created_row(data, id, now));
    lemma_decode_encode(data.region);
}

/// On a table whose constraints hold, reading an id gives the salon, or
/// fails because no row has the id or because the stored region of the row
/// is not a permitted tag, and in no other way.
pub proof fn lemma_read_of_constrained(rows: Seq<RowView>, id: Seq<char>)
    requires
        constrained(rows),
    ensures
        match reading_of(rows, id) {
            Ok(salon) => holds(rows, id) && salon.id == id,
            Err(ErrorView::NotFoundError) => !holds(rows, id),
            Err(ErrorView::DecodeInvariantViolation(tag)) => holds(rows, id) && region_of(tag)
                is None,
            Err(_) => false,
        },
{
    if holds(rows, id) {
        assert(required_present(rows[position(rows, id)]));
    }
}

/// An update leaves the number of rows and every row but the one that has
/// the id as they were.
pub proof fn lemma_update_touches_one_row(
    rows: Seq<RowView>,
    id: Seq<char>,
    patch: UpdateSaloneView,
    now: int,
)
    ensures
        after_update(rows, id, patch, now).len() == rows.len(),
        forall|i: int|
            0 <= i < rows.len() && !(holds(rows, id) && i == position(rows, id))
                ==> #[trigger] after_update(rows, id, patch, now)[i] == rows[i],
{
}

/// Reading a salon right after an update gives the decoded merge of the
/// change into the row that was stored.
pub proof fn lemma_read_after_update(
    rows: Seq<RowView>,
    id: Seq<char>,
    patch: UpdateSaloneView,
    now: int,
)
    requires
        constrained(rows),
        holds(rows, id),
    ensures
        reading_of(after_update(rows, id, patch, now), id) == decoded_of(
            merged_row(rows[position(rows, id)], patch, now),
        ),
{
    let place = position(rows, id);
    let changed = after_update(rows, id, patch, now);
    lemma_update_keeps_constraints(rows, id, patch, now);
    lemma_place_is_unique(changed, id, place);
}

/// After an update in which every attribute is absent or empty, a salon
/// reads as before but for the time of its last update, which is `now`.
pub proof fn lemma_read_after_blank_update(
    rows: Seq<RowView>,
    id: Seq<char>,
    patch: UpdateSaloneView,
    now: int,
)
    requires
        constrained(rows),
        reading_of(rows, id) is Ok,
        forall|attribute: Attribute| supplied(patch, attribute) is None,
    ensures
        reading_of(after_update(rows, id, patch, now), id) == Ok::<SalonsView, ErrorView>(
            SalonsView { updatedAt: now, ..reading_of(rows, id)->Ok_0 },
        ),
{
    let row = rows[position(rows, id)];
    lemma_read_after_update(rows, id, patch, now);
    lemma_blank_update_touches_only_time(row, patch, now);
}

/// After a deletion no row has the id, so reading it finds nothing.
pub proof fn lemma_read_after_delete(rows: Seq<RowView>, id: Seq<char>)
    requires
        distinct_ids(rows),
    ensures
        !holds(after_deletion(rows, id), id),
        reading_of(after_deletion(rows, id), id) == Err::<SalonsView, ErrorView>(
            ErrorView::NotFoundError,
        ),
{
    if holds(rows, id) {
        let place = position(rows, id);
        let fewer = rows.remove(place);
        assert forall|i: int| 0 <= i < fewer.len() implies (#[trigger] fewer[i]).id != Some(
            id,
        ) by {
            if i < place {
                assert(rows[i].id != rows[place].id);
            } else {
                assert(rows[place].id != rows[i + 1].id);
            }
        }
    }
}

/// Deleting an id that no row has hands back nothing, fails in no way and
/// leaves the rows as they were. This holds of an id that was never
/// created, and by the second clause of one that was deleted before.
pub proof fn lemma_delete_of_absent(rows: Seq<RowView>, id: Seq<char>)
    requires
        distinct_ids(rows),
    ensures
        !holds(rows, id) ==> deletion_of(rows, id) == Ok::<Option<SalonsView>, ErrorView>(None)
            && after_deletion(rows, id) == rows,
        deletion_of(after_deletion(rows, id), id) == Ok::<Option<SalonsView>, ErrorView>(None),
        after_deletion(after_deletion(rows, id), id) == after_deletion(rows, id),
{
    lemma_read_after_delete(rows, id);
}

/// A row whose stored region is not a permitted tag can be put into the
/// table, and reading it then reports that stored text.
pub proof fn lemma_unknown_region_surfaces(rows: Seq<RowView>, row: RowView)
    requires
        required_present(row),
        !holds(rows, row.id.unwrap()),
        region_of(row.region.unwrap()) is None,
    ensures
        inserted_of(rows, row) is Row,
        reading_of(after_insertion(rows, row), row.id.unwrap()) == Err::<SalonsView, ErrorView>(
            ErrorView::DecodeInvariantViolation(row.region.unwrap()),
        ),
{
    lemma_place_of_new_row(rows, row);
}

/// A creation that succeeds brings the id into the table and leaves every
/// other salon as it reads.
pub proof fn lemma_creation_touches_one_salon(
    rows: Seq<RowView>,
    data: NewSaloneView,
    id: Seq<char>,
    now: int,
    other: Seq<char>,
)
    requires
        constrained(rows),
        other != id,
    ensures
        holds(after_creation(rows, data, id, now), id),
        holds(after_creation(rows, data, id, now), other) == holds(rows, other),
        reading_of(after_creation(rows, data, id, now), other) == reading_of(rows, other),
{
    let longer = after_creation(rows, data, id, now);
    lemma_creation_keeps_constraints(rows, data, id, now);
    if !holds(rows, id) {
        lemma_place_of_new_row(rows, created_row(data, id, now));
        if holds(rows, other) {
            lemma_place_is_unique(longer, other, position(rows, other));
        }
        if holds(longer, other) {
            let place = position(longer, other);
            assert(rows[place].id == Some(other));
        }
    }
}

/// An update keeps the ids of the table as they are and leaves every other
/// salon as it reads.
pub proof fn lemma_update_touches_one_salon(
    rows: Seq<RowView>,
    id: Seq<char>,
    patch: UpdateSaloneView,
    now: int,
    other: Seq<char>,
)
    requires
        constrained(rows),
        other != id,
    ensures
        holds(after_update(rows, id, patch, now), id) == holds(rows, id),
        holds(after_update(rows, id, patch, now), other) == holds(rows, other),
        reading_of(after_update(rows, id, patch, now), other) == reading_of(rows, other),
{
    let changed = after_update(rows, id, patch, now);
    lemma_update_keeps_constraints(rows, id, patch, now);
    assert forall|i: int| 0 <= i < rows.len() implies (#[trigger] changed[i]).id
        == rows[i].id by {}
    if holds(rows, id) {
        assert(changed[position(rows, id)].id == Some(id));
    }
    if holds(changed, id) {
        assert(rows[position(changed, id)].id == Some(id));
    }
    if holds(rows, other) {
        lemma_place_is_unique(changed, other, position(rows, other));
    }
    if holds(changed, other) {
        assert(rows[position(changed, other)].id == Some(other));
    }
}

/// A deletion takes the id out of the table and leaves every other salon
/// as it reads.
pub proof fn lemma_deletion_touches_one_salon(rows: Seq<RowView>, id: Seq<char>, other: Seq<char>)
    requires
        constrained(rows),
        other != id,
    ensures
        !holds(after_deletion(rows, id), id),
        holds(after_deletion(rows, id), other) == holds(rows, other),
        reading_of(after_deletion(rows, id), other) == reading_of(rows, other),
{
    let fewer = after_deletion(rows, id);
    lemma_read_after_delete(rows, id);
    lemma_deletion_keeps_constraints(rows, id);
    if holds(rows, id) {
        let gone = position(rows, id);
        if holds(rows, other) {
            let place = position(rows, other);
            let moved = if place < gone { place } else { place - 1 };
            assert(fewer[moved] == rows[place]);
            lemma_place_is_unique(fewer, other, moved);
        }
        if holds(fewer, other) {
            let place = position(fewer, other);
            let before = if place < gone { place } else { place + 1 };
            assert(rows[before].id == Some(other));
        }
    }
}

/// The time of creation of a row is not after the time of its last update.
pub open spec fn in_order(row: RowView) -> bool {
    row.created_at matches Some(created) && row.updated_at matches Some(updated) && created
        <= updated
}

/// A row is created in order, with one point in time for both.
pub proof fn lemma_created_in_order(data: NewSaloneView, id: Seq<char>, now: int)
    ensures
        in_order(created_row(data, id, now)),
        created_row(data, id, now).created_at == created_row(data, id, now).updated_at,
{
}

/// An update at a time that is not before the last one keeps a row in
/// order, and the time of the last update does not go back.
pub proof fn lemma_update_keeps_order(row: RowView, patch: UpdateSaloneView, now: int)
    requires
        in_order(row),
        row.updated_at.unwrap() <= now,
    ensures
        in_order(merged_row(row, patch, now)),
        row.updated_at.unwrap() <= merged_row(row, patch, now).updated_at.unwrap(),
{
}

/// An insertion keeps the constraints of the table.
pub proof fn lemma_insertion_keeps_constraints(rows: Seq<RowView>, row: RowView)
    requires
        constrained(rows),
    ensures
        constrained(after_insertion(rows, row)),
{
    if inserted_of(rows, row) is Row {
        let longer = rows.push(row);
        assert forall|i: int, j: int| 0 <= i < j < longer.len() implies (#[trigger] longer[i]).id
            != (#[trigger] longer[j]).id by {
            if j == rows.len() {
                assert(rows[i].id != Some(row.id.unwrap()));
            } else {
                assert(rows[i].id != rows[j].id);
            }
        }
    }
}

/// A creation keeps the constraints of the table.
pub proof fn lemma_creation_keeps_constraints(
    rows: Seq<RowView>,
    data: NewSaloneView,
    id: Seq<char>,
    now: int,
)
    requires
        constrained(rows),
    ensures
        constrained(after_creation(rows, data, id, now)),
        after_creation(rows, data, id, now) == after_insertion(rows, created_row(data, id, now)),
{
    lemma_insertion_keeps_constraints(rows, created_row(data, id, now));
}

/// An update keeps the constraints of the table.
pub proof fn lemma_update_keeps_constraints(
    rows: Seq<RowView>,
    id: Seq<char>,
    patch: UpdateSaloneView,
    now: int,
)
    requires
        constrained(rows),
    ensures
        constrained(after_update(rows, id, patch, now)),
{
    let changed = after_update(rows, id, patch, now);
    assert forall|i: int| 0 <= i < changed.len() implies required_present(
        #[trigger] changed[i],
    ) && changed[i].id == rows[i].id by {
        assert(required_present(rows[i]));
    }
    assert forall|i: int, j: int| 0 <= i < j < changed.len() implies (#[trigger] changed[i]).id
        != (#[trigger] changed[j]).id by {
        assert(changed[i].id == rows[i].id);
        assert(changed[j].id == rows[j].id);
        assert(rows[i].id != rows[j].id);
    }
}

/// A deletion keeps the constraints of the table.
pub proof fn lemma_deletion_keeps_constraints(rows: Seq<RowView>, id: Seq<char>)
    requires
        constrained(rows),
    ensures
        constrained(after_deletion(rows, id)),
{
    if holds(rows, id) {
        let place = position(rows, id);
        let fewer = rows.remove(place);
        assert forall|i: int| 0 <= i < fewer.len() implies required_present(
            #[trigger] fewer[i],
        ) by {
            if i < place {
                assert(required_present(rows[i]));
            } else {
                assert(required_present(rows[i + 1]));
            }
        }
        assert forall|i: int, j: int| 0 <= i < j < fewer.len() implies (#[trigger] fewer[i]).id
            != (#[trigger] fewer[j]).id by {
            let before_i = if i < place { i } else { i + 1 };
            let before_j = if j < place { j } else { j + 1 };
            assert(rows[before_i].id != rows[before_j].id);
        }
    }
}

} // verus!
