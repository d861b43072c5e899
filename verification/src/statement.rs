//! The statements that the operations send to a relational store, each as
//! its text and the values bound to its placeholders.
//!
//! The texts are written for PostgreSQL. What the store does with them is
//! not proved here: the rows of [`crate::store`] say what it is meant to do.

use crate::entity::{NewSalone, NewSaloneView, UpdateSalone, UpdateSaloneView};
use crate::region::{tag_of, Sector};
use crate::row::copy_text;
use vstd::prelude::*;
use vstd::string::StringExecFns;

verus! {

/// A statement: its text, and the values bound to `$1`, `$2` and so on, in
/// that order. A region is bound as its tag; `None` is bound as null.
#[derive(Debug, Clone, PartialEq, Eq)]
pub struct Statement {
    pub text: &'static str,
    pub bound: Vec<Option<String>>,
}

/// The mathematical value of a [`Statement`].
pub struct StatementView {
    pub text: Seq<char>,
    pub bound: Seq<Option<Seq<char>>>,
}

impl View for Statement {
    type V = StatementView;

    open spec fn view(&self) -> StatementView {
        StatementView { text: self.text@, bound: self.bound.deep_view() }
    }
}

/// The text that sets up the schema: the type of the region column, kept
/// where it exists already, and the table, dropped and created anew.
pub const SCHEMA_TEXT: &'static str =
    "do $$ begin \
        create type sector as enum ('botanica', 'buiucani'); \
    exception when duplicate_object then null; \
    end $$; \
    drop table if exists salons; \
    create table salons ( \
        id text primary key default gen_random_uuid(), \
        ownerId text, \
        name text not null, \
        description text, \
        address text not null, \
        region sector not null, \
        phone text, \
        email text, \
        createdAt timestamp not null default current_timestamp, \
        updatedAt timestamp not null default current_timestamp \
    );";

/// The text that inserts a salon and hands back its id and its name.
pub const CREATE_TEXT: &'static str =
    "insert into salons(ownerId, name, description, address, region, phone, email) \
    values ($1, $2, $3, $4, $5::sector, $6, $7) \
    returning id, name as msg";

/// The text that selects every salon.
pub const LIST_TEXT: &'static str =
    "select id, ownerId, name, description, address, region::text, phone, email, \
    createdAt, updatedAt from salons";

/// The text that selects the salon with an id.
pub const READ_TEXT: &'static str =
    "select id, ownerId, name, description, address, region::text, phone, email, \
    createdAt, updatedAt from salons where id = $1";

/// The text that merges a partial change into the salon with an id: a text
/// that is null or empty keeps the stored one, a region that is null keeps
/// the stored one, and the time of the last update is set.
pub const UPDATE_TEXT: &'static str =
    "update salons \
    set name = coalesce(nullif($2, ''), name), \
        ownerId = coalesce(nullif($3, ''), ownerId), \
        description = coalesce(nullif($4, ''), description), \
        address = coalesce(nullif($5, ''), address), \
        phone = coalesce(nullif($6, ''), phone), \
        email = coalesce(nullif($7, ''), email), \
        updatedAt = now(), \
        region = coalesce($8::sector, region) \
    where id = $1 \
    returning id, 'update succesfull' as msg";

/// The text that deletes the salon with an id and hands back its row.
pub const DELETE_TEXT: &'static str =
    "delete from salons where id = $1 \
    returning id, ownerId, name, description, address, region::text, phone, email, \
    createdAt, updatedAt";

/// What a creation binds: the attributes in the order of the columns of
/// its text, the region as its tag.
pub open spec fn create_bound(data: NewSaloneView) -> Seq<Option<Seq<char>>> {
    seq![
        Some(data.ownerId),
        Some(data.name),
        Some(data.description),
        Some(data.address),
        Some(tag_of(data.region)),
        Some(data.phone),
        Some(data.email),
    ]
}

/// The tag of an optional region.
pub open spec fn optional_tag(region: Option<Sector>) -> Option<Seq<char>> {
    match region {
        Some(found) => Some(tag_of(found)),
        None => None,
    }
}

/// What an update binds: the id, then the attributes in the order of the
/// placeholders of its text, the region last and as its tag.
pub open spec fn update_bound(id: Seq<char>, data: UpdateSaloneView) -> Seq<Option<Seq<char>>> {
    seq![
        Some(id),
        data.name,
        data.ownerId,
        data.description,
        data.address,
        data.phone,
        data.email,
        optional_tag(data.region),
    ]
}

/// The statement that sets up the schema.
pub fn schema_statement() -> (statement: Statement)
    ensures
        statement@ == (StatementView { text: SCHEMA_TEXT@, bound: Seq::empty() }),
{
    let statement = Statement {
        text: SCHEMA_TEXT,
        bound: Vec::new(),
    };
    assert(statement@.bound =~= Seq::empty());
    statement
}

/// The statement of a creation.
pub fn create_statement(data: &NewSalone) -> (statement: Statement)
    ensures
        statement@ == (StatementView { text: CREATE_TEXT@, bound: create_bound(data@) }),
{
    let mut bound: Vec<Option<String>> = Vec::new();
    bound.push(Some(data.ownerId.clone()));
    bound.push(Some(data.name.clone()));
    bound.push(Some(data.description.clone()));
    bound.push(Some(data.address.clone()));
    bound.push(Some(data.region.encode()));
    bound.push(Some(data.phone.clone()));
    bound.push(Some(data.email.clone()));
    let statement = Statement {
        text: CREATE_TEXT,
        bound,
    };
    assert(statement@.bound =~= create_bound(data@));
    statement
}

/// The statement of a listing.
pub fn list_statement() -> (statement: Statement)
    ensures
        statement@ == (StatementView { text: LIST_TEXT@, bound: Seq::empty() }),
{
    let statement = Statement {
        text: LIST_TEXT,
        bound: Vec::new(),
    };
    assert(statement@.bound =~= Seq::empty());
    statement
}

/// The statement of a read.
pub fn read_statement(id: &str) -> (statement: Statement)
    ensures
        statement@ == (StatementView { text: READ_TEXT@, bound: seq![Some(id@)] }),
{
    let mut bound: Vec<Option<String>> = Vec::new();
    bound.push(Some(String::from_str(id)));
    let statement = Statement {
        text: READ_TEXT,
        bound,
    };
    assert(statement@.bound =~= seq![Some(id@)]);
    statement
}

/// The statement of an update.
pub fn update_statement(id: &str, data: &UpdateSalone) -> (statement: Statement)
    ensures
        statement@ == (StatementView { text: UPDATE_TEXT@, bound: update_bound(id@, data@) }),
{
    let region = match &data.region {
        Some(found) => Some(found.encode()),
        None => None,
    };
    let mut bound: Vec<Option<String>> = Vec::new();
    bound.push(Some(String::from_str(id)));
    bound.push(copy_text(&data.name));
    bound.push(copy_text(&data.ownerId));
    bound.push(copy_text(&data.description));
    bound.push(copy_text(&data.address));
    bound.push(copy_text(&data.phone));
    bound.push(copy_text(&data.email));
    bound.push(region);
    let statement = Statement {
        text: UPDATE_TEXT,
        bound,
    };
    assert(statement@.bound =~= update_bound(id@, data@));
    statement
}

/// The statement of a deletion.
pub fn delete_statement(id: &str) -> (statement: Statement)
    ensures
        statement@ == (StatementView { text: DELETE_TEXT@, bound: seq![Some(id@)] }),
{
    let mut bound: Vec<Option<String>> = Vec::new();
    bound.push(Some(String::from_str(id)));
    let statement = Statement {
        text: DELETE_TEXT,
        bound,
    };
    assert(statement@.bound =~= seq![Some(id@)]);
    statement
}

} // verus!
