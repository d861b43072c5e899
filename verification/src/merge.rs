//! The merge of a partial change into a stored row.

use crate::entity::{Timestamp, UpdateSalone, UpdateSaloneView};
use crate::region::{tag_of, Sector};
use crate::row::{copy_text, RowView, StoredRow};
use vstd::prelude::*;

verus! {

/// A supplied text that changes nothing: absent, or the empty text.
pub open spec fn blank(supplied: Option<Seq<char>>) -> bool {
    supplied matches Some(text) ==> text.len() == 0
}

/// A text column after a merge: the supplied text where there is one and it
/// is not empty, the stored column otherwise.
pub open spec fn merged_text(stored: Option<Seq<char>>, supplied: Option<Seq<char>>) -> Option<
    Seq<char>,
> {
    if blank(supplied) {
        stored
    } else {
        supplied
    }
}

/// The region column after a merge: the tag of the supplied region where
/// there is one, the stored column otherwise.
pub open spec fn merged_region(stored: Option<Seq<char>>, supplied: Option<Sector>) -> Option<
    Seq<char>,
> {
    match supplied {
        Some(region) => Some(tag_of(region)),
        None => stored,
    }
}

/// A row after a partial change at the time `now`: each attribute merged on
/// its own, the id and the time of creation kept, the time of the last
/// update set to `now`.
pub open spec fn merged_row(row: RowView, patch: UpdateSaloneView, now: int) -> RowView {
    RowView {
        id: row.id,
        owner_id: merged_text(row.owner_id, patch.ownerId),
        name: merged_text(row.name, patch.name),
        description: merged_text(row.description, patch.description),
        address: merged_text(row.address, patch.address),
        region: merged_region(row.region, patch.region),
        phone: merged_text(row.phone, patch.phone),
        email: merged_text(row.email, patch.email),
        created_at: row.created_at,
        updated_at: Some(now),
    }
}

/// Merges a supplied text into a stored column.
pub fn merge_text(stored: &Option<String>, supplied: &Option<String>) -> (merged: Option<String>)
    ensures
        merged.deep_view() == merged_text(stored.deep_view(), supplied.deep_view()),
{
    match supplied {
        Some(text) => {
            if text.as_str().is_empty() {
                copy_text(stored)
            } else {
                Some(text.clone())
            }
        },
        None => copy_text(stored),
    }
}

/// Merges a supplied region into the stored region column.
pub fn merge_region(stored: &Option<String>, supplied: &Option<Sector>) -> (merged: Option<String>)
    ensures
        merged.deep_view() == merged_region(stored.deep_view(), *supplied),
{
    match supplied {
        Some(region) => Some(region.encode()),
        None => copy_text(stored),
    }
}

/// Merges a partial change into a row at the time `now`.
pub fn merge_row(row: &StoredRow, patch: &UpdateSalone, now: Timestamp) -> (merged: StoredRow)
    ensures
        merged@ == merged_row(row@, patch@, now.micros as int),
{
    StoredRow {
        id: copy_text(&row.id),
        owner_id: merge_text(&row.owner_id, &patch.ownerId),
        name: merge_text(&row.name, &patch.name),
        description: merge_text(&row.description, &patch.description),
        address: merge_text(&row.address, &patch.address),
        region: merge_region(&row.region, &patch.region),
        phone: merge_text(&row.phone, &patch.phone),
        email: merge_text(&row.email, &patch.email),
        created_at: row.created_at,
        updated_at: Some(now),
    }
}

/// The attributes of a salon that a partial change can name.
pub enum Attribute {
    OwnerId,
    Name,
    Description,
    Address,
    Region,
    Phone,
    Email,
}

/// The stored column of an attribute, the region as its text.
pub open spec fn column(row: RowView, attribute: Attribute) -> Option<Seq<char>> {
    match attribute {
        Attribute::OwnerId => row.owner_id,
        Attribute::Name => row.name,
        Attribute::Description => row.description,
        Attribute::Address => row.address,
        Attribute::Region => row.region,
        Attribute::Phone => row.phone,
        Attribute::Email => row.email,
    }
}

/// What a partial change supplies for an attribute, the region as its tag;
/// `None` where it supplies nothing that would change the row.
pub open spec fn supplied(patch: UpdateSaloneView, attribute: Attribute) -> Option<Seq<char>> {
    match attribute {
        Attribute::OwnerId => if blank(patch.ownerId) { None } else { patch.ownerId },
        Attribute::Name => if blank(patch.name) { None } else { patch.name },
        Attribute::Description => if blank(patch.description) { None } else { patch.description },
        Attribute::Address => if blank(patch.address) { None } else { patch.address },
        Attribute::Region => match patch.region {
            Some(region) => Some(tag_of(region)),
            None => None,
        },
        Attribute::Phone => if blank(patch.phone) { None } else { patch.phone },
        Attribute::Email => if blank(patch.email) { None } else { patch.email },
    }
}

/// A partial change in which every attribute is absent or empty leaves the
/// row as it is but for the time of the last update, which does not go back
/// where `now` is not before the stored one.
pub proof fn lemma_blank_update_touches_only_time(row: RowView, patch: UpdateSaloneView, now: int)
    requires
        forall|attribute: Attribute| supplied(patch, attribute) is None,
    ensures
        merged_row(row, patch, now) == (RowView { updated_at: Some(now), ..row }),
        row.updated_at matches Some(before) ==> (before <= now ==> before <= merged_row(
            row,
            patch,
            now,
        ).updated_at.unwrap()),
{
    assert(supplied(patch, Attribute::OwnerId) is None);
    assert(supplied(patch, Attribute::Name) is None);
    assert(supplied(patch, Attribute::Description) is None);
    assert(supplied(patch, Attribute::Address) is None);
    assert(supplied(patch, Attribute::Region) is None);
    assert(supplied(patch, Attribute::Phone) is None);
    assert(supplied(patch, Attribute::Email) is None);
}

/// A partial change replaces exactly the attributes it supplies: each
/// column of the merged row is the supplied value where there is one and
/// the stored column otherwise, whatever the change holds for the other
/// attributes. The id and the time of creation stay.
pub proof fn lemma_update_is_attribute_wise(
    row: RowView,
    patch: UpdateSaloneView,
    now: int,
    attribute: Attribute,
)
    ensures
        column(merged_row(row, patch, now), attribute) == (match supplied(patch, attribute) {
            Some(text) => Some(text),
            None => column(row, attribute),
        }),
        merged_row(row, patch, now).id == row.id,
        merged_row(row, patch, now).created_at == row.created_at,
        merged_row(row, patch, now).updated_at == Some(now),
{
}

/// A partial change that supplies one attribute alone changes that column
/// and the time of the last update, and nothing else.
pub proof fn lemma_update_of_one_attribute(
    row: RowView,
    patch: UpdateSaloneView,
    now: int,
    attribute: Attribute,
)
    requires
        supplied(patch, attribute) is Some,
        forall|other: Attribute| other != attribute ==> supplied(patch, other) is None,
    ensures
        column(merged_row(row, patch, now), attribute) == supplied(patch, attribute),
        forall|other: Attribute|
            other != attribute ==> column(merged_row(row, patch, now), other) == column(row, other),
        merged_row(row, patch, now).id == row.id,
        merged_row(row, patch, now).created_at == row.created_at,
        merged_row(row, patch, now).updated_at == Some(now),
{
    assert forall|other: Attribute| other != attribute implies column(
        merged_row(row, patch, now),
        other,
    ) == column(row, other) by {
        assert(supplied(patch, other) is None);
    }
}

} // verus!
