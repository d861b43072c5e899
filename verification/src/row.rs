//! A row of the salon table as storage holds it, and how it is decoded into
//! what callers see.

use crate::entity::{moment, ListedView, Salon_QR, Salons, SalonsView, Timestamp};
use crate::error::{outcome, ErrorView, StoreError};
use crate::region::{decode, region_of};
use vstd::prelude::*;
use vstd::string::StringExecFns;

verus! {

/// One row of the salon table, column by column. `None` stands for a column
/// that is null or could not be read. The region is held as its stored text.
#[derive(Debug, Clone, PartialEq, Eq)]
pub struct StoredRow {
    pub id: Option<String>,
    pub owner_id: Option<String>,
    pub name: Option<String>,
    pub description: Option<String>,
    pub address: Option<String>,
    pub region: Option<String>,
    pub phone: Option<String>,
    pub email: Option<String>,
    pub created_at: Option<Timestamp>,
    pub updated_at: Option<Timestamp>,
}

/// The mathematical value of a [`StoredRow`].
pub struct RowView {
    pub id: Option<Seq<char>>,
    pub owner_id: Option<Seq<char>>,
    pub name: Option<Seq<char>>,
    pub description: Option<Seq<char>>,
    pub address: Option<Seq<char>>,
    pub region: Option<Seq<char>>,
    pub phone: Option<Seq<char>>,
    pub email: Option<Seq<char>>,
    pub created_at: Option<int>,
    pub updated_at: Option<int>,
}

impl View for StoredRow {
    type V = RowView;

    open spec fn view(&self) -> RowView {
        RowView {
            id: self.id.deep_view(),
            owner_id: self.owner_id.deep_view(),
            name: self.name.deep_view(),
            description: self.description.deep_view(),
            address: self.address.deep_view(),
            region: self.region.deep_view(),
            phone: self.phone.deep_view(),
            email: self.email.deep_view(),
            created_at: moment(self.created_at),
            updated_at: moment(self.updated_at),
        }
    }
}

/// The columns that the table declares as never null are present: the id,
/// the name, the address, the region and both points in time.
pub open spec fn required_present(row: RowView) -> bool {
    &&& row.id is Some
    &&& row.name is Some
    &&& row.address is Some
    &&& row.region is Some
    &&& row.created_at is Some
    &&& row.updated_at is Some
}

/// Both points in time of a row are present.
pub open spec fn timed(row: RowView) -> bool {
    row.created_at is Some && row.updated_at is Some
}

/// The name of the first required column that is absent in a row.
pub open spec fn absent_column(row: RowView) -> Seq<char> {
    if row.id is None {
        "id"@
    } else if row.name is None {
        "name"@
    } else if row.address is None {
        "address"@
    } else if row.region is None {
        "region"@
    } else if row.created_at is None {
        "createdat"@
    } else {
        "updatedat"@
    }
}

/// What the table says of a row in which a required column is absent,
/// before the name of the column.
pub const NOT_NULL_HEAD: &'static str = "null value in column \"";

/// What the table says of a row in which a required column is absent,
/// after the name of the column.
pub const NOT_NULL_TAIL: &'static str = "\" of relation \"salons\" violates not-null constraint";

/// What the table says of a row in which a required column is absent.
pub open spec fn not_null_diagnostic(row: RowView) -> Seq<char> {
    NOT_NULL_HEAD@ + absent_column(row) + NOT_NULL_TAIL@
}

/// The text of a column, with the empty text for an absent one.
pub open spec fn text_or_empty(column: Option<Seq<char>>) -> Seq<char> {
    match column {
        Some(text) => text,
        None => Seq::empty(),
    }
}

/// The entity that a row decodes to, given that its required columns are
/// present and its region is a permitted tag.
pub open spec fn entity_of(row: RowView) -> SalonsView {
    SalonsView {
        id: row.id.unwrap(),
        ownerId: text_or_empty(row.owner_id),
        name: row.name.unwrap(),
        description: text_or_empty(row.description),
        address: row.address.unwrap(),
        region: region_of(row.region.unwrap()).unwrap(),
        phone: text_or_empty(row.phone),
        email: text_or_empty(row.email),
        createdAt: row.created_at.unwrap(),
        updatedAt: row.updated_at.unwrap(),
    }
}

/// What decoding a row gives: the entity; a constraint error that names the
/// first required column that is absent; or the stored region where that
/// is not a permitted tag.
pub open spec fn decoded_of(row: RowView) -> Result<SalonsView, ErrorView> {
    if !required_present(row) {
        Err(ErrorView::ConstraintError(not_null_diagnostic(row)))
    } else if region_of(row.region.unwrap()) is None {
        Err(ErrorView::DecodeInvariantViolation(row.region.unwrap()))
    } else {
        Ok(entity_of(row))
    }
}

/// The listed shape of a row: each column on its own, the region absent
/// where its text is absent or not a permitted tag.
pub open spec fn listed_of(row: RowView) -> ListedView {
    ListedView {
        id: row.id,
        ownerId: row.owner_id,
        name: row.name,
        description: row.description,
        address: row.address,
        region: match row.region {
            Some(tag) => region_of(tag),
            None => None,
        },
        phone: row.phone,
        email: row.email,
        createdAt: row.created_at,
        updatedAt: row.updated_at,
    }
}

/// A copy of an optional text.
pub fn copy_text(column: &Option<String>) -> (copy: Option<String>)
    ensures
        copy.deep_view() == column.deep_view(),
{
    match column {
        Some(text) => Some(text.clone()),
        None => None,
    }
}

/// The text of a column, or the empty text where the column is absent.
pub fn text_or_default(column: &Option<String>) -> (text: String)
    ensures
        text@ == text_or_empty(column.deep_view()),
{
    match column {
        Some(stored) => stored.clone(),
        None => String::new(),
    }
}

impl StoredRow {
    /// Whether the columns that the table declares as never null are present.
    pub fn meets_schema(&self) -> (present: bool)
        ensures
            present == required_present(self@),
    {
        self.id.is_some() && self.name.is_some() && self.address.is_some()
            && self.region.is_some() && self.created_at.is_some() && self.updated_at.is_some()
    }

    /// Whether both points in time are present.
    pub fn is_timed(&self) -> (present: bool)
        ensures
            present == timed(self@),
    {
        self.created_at.is_some() && self.updated_at.is_some()
    }

    /// A copy of this row.
    pub fn duplicate(&self) -> (copy: StoredRow)
        ensures
            copy@ == self@,
    {
        StoredRow {
            id: copy_text(&self.id),
            owner_id: copy_text(&self.owner_id),
            name: copy_text(&self.name),
            description: copy_text(&self.description),
            address: copy_text(&self.address),
            region: copy_text(&self.region),
            phone: copy_text(&self.phone),
            email: copy_text(&self.email),
            created_at: self.created_at,
            updated_at: self.updated_at,
        }
    }
}

/// The diagnostic for the first required column that is absent in a row.
pub fn not_null_text(row: &StoredRow) -> (text: String)
    ensures
        text@ == not_null_diagnostic(row@),
{
    let column = if row.id.is_none() {
        "id"
    } else if row.name.is_none() {
        "name"
    } else if row.address.is_none() {
        "address"
    } else if row.region.is_none() {
        "region"
    } else if row.created_at.is_none() {
        "createdat"
    } else {
        "updatedat"
    };
    String::from_str(NOT_NULL_HEAD).concat(column).concat(NOT_NULL_TAIL)
}

/// Decodes a row into the full entity. The optional texts fall back to the
/// empty text one by one. The decoding fails where the id, the name, the
/// address or the region is absent, and where the region is not a permitted
/// tag, which is reported with the stored text. The two points in time are
/// taken to be there: the table never holds a row without them.
pub fn decode_salon(row: &StoredRow) -> (decoded: Result<Salons, StoreError>)
    requires
        timed(row@),
    ensures
        outcome(decoded) == decoded_of(row@),
{
    if !row.meets_schema() {
        return Err(StoreError::ConstraintError(not_null_text(row)));
    }
    let region = match decode(text_or_default(&row.region).as_str()) {
        Ok(found) => found,
        Err(error) => { return Err(error); },
    };
    Ok(
        Salons {
            id: text_or_default(&row.id),
            ownerId: text_or_default(&row.owner_id),
            name: text_or_default(&row.name),
            description: text_or_default(&row.description),
            address: text_or_default(&row.address),
            region,
            phone: text_or_default(&row.phone),
            email: text_or_default(&row.email),
            createdAt: row.created_at.unwrap(),
            updatedAt: row.updated_at.unwrap(),
        },
    )
}

/// Decodes a row into its listed shape. No column can fail the row: one
/// that is absent, or a region that is not a permitted tag, is absent in
/// the result.
pub fn decode_listed(row: &StoredRow) -> (listed: Salon_QR)
    ensures
        listed@ == listed_of(row@),
{
    let region = match &row.region {
        Some(tag) => decode(tag.as_str()).ok(),
        None => None,
    };
    Salon_QR {
        id: copy_text(&row.id),
        ownerId: copy_text(&row.owner_id),
        name: copy_text(&row.name),
        description: copy_text(&row.description),
        address: copy_text(&row.address),
        region,
        phone: copy_text(&row.phone),
        email: copy_text(&row.email),
        createdAt: row.created_at,
        updatedAt: row.updated_at,
    }
}

} // verus!
