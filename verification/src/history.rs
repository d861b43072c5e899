//! Sequences of operations on the table, and what holds at every point of
//! one.

use crate::entity::{NewSaloneView, UpdateSaloneView};
use crate::lifecycle::{
    lemma_creation_keeps_constraints, lemma_deletion_keeps_constraints,
    lemma_update_keeps_constraints,
};
use crate::row::RowView;
use crate::store::{
    after_creation, after_deletion, after_update, constrained, creation_of, holds, listing_of,
};
use vstd::prelude::*;

verus! {

/// One operation on the table, with what it was called with.
pub enum Call {
    Create { data: NewSaloneView, id: Seq<char>, now: int },
    List,
    Read { id: Seq<char> },
    Update { id: Seq<char>, patch: UpdateSaloneView, now: int },
    Delete { id: Seq<char> },
}

/// The rows after one operation. Listing and reading observe only.
pub open spec fn after_call(rows: Seq<RowView>, call: Call) -> Seq<RowView> {
    match call {
        Call::Create { data, id, now } => after_creation(rows, data, id, now),
        Call::List => rows,
        Call::Read { id } => rows,
        Call::Update { id, patch, now } => after_update(rows, id, patch, now),
        Call::Delete { id } => after_deletion(rows, id),
    }
}

/// The rows after a sequence of operations, one after the other.
pub open spec fn after_calls(rows: Seq<RowView>, calls: Seq<Call>) -> Seq<RowView>
    decreases calls.len(),
{
    if calls.len() == 0 {
        rows
    } else {
        after_call(after_calls(rows, calls.drop_last()), calls.last())
    }
}

/// The operation is a creation that succeeds on the rows.
pub open spec fn creates(rows: Seq<RowView>, call: Call) -> bool {
    call matches Call::Create { data, id, .. } && creation_of(rows, data, id) is Ok
}

/// The operation is a deletion that takes a row out of the rows.
pub open spec fn removes(rows: Seq<RowView>, call: Call) -> bool {
    call matches Call::Delete { id } && holds(rows, id)
}

/// How many creations of a sequence of operations succeed.
pub open spec fn creations(rows: Seq<RowView>, calls: Seq<Call>) -> nat
    decreases calls.len(),
{
    if calls.len() == 0 {
        0
    } else {
        creations(rows, calls.drop_last()) + if creates(
            after_calls(rows, calls.drop_last()),
            calls.last(),
        ) {
            1nat
        } else {
            0nat
        }
    }
}

/// How many deletions of a sequence of operations take a row out.
pub open spec fn removals(rows: Seq<RowView>, calls: Seq<Call>) -> nat
    decreases calls.len(),
{
    if calls.len() == 0 {
        0
    } else {
        removals(rows, calls.drop_last()) + if removes(
            after_calls(rows, calls.drop_last()),
            calls.last(),
        ) {
            1nat
        } else {
            0nat
        }
    }
}

/// One operation changes the number of rows by one up where it is a
/// creation that succeeds, by one down where it is a deletion that takes a
/// row out, and not at all otherwise.
pub proof fn lemma_count_after_call(rows: Seq<RowView>, call: Call)
    ensures
        after_call(rows, call).len() == rows.len() + (if creates(rows, call) {
            1int
        } else {
            0int
        }) - (if removes(rows, call) {
            1int
        } else {
            0int
        }),
{
}

/// At every point of a sequence of operations the number of rows is the
/// number at the start, plus the creations that succeeded, minus the
/// deletions that took a row out.
pub proof fn lemma_count_after_calls(rows: Seq<RowView>, calls: Seq<Call>)
    ensures
        after_calls(rows, calls).len() == rows.len() + creations(rows, calls) - removals(
            rows,
            calls,
        ),
    decreases calls.len(),
{
    if calls.len() > 0 {
        lemma_count_after_calls(rows, calls.drop_last());
        lemma_count_after_call(after_calls(rows, calls.drop_last()), calls.last());
    }
}

/// On a table that was just set up, the number of salons that a listing
/// shows is at every point the creations that succeeded minus the deletions
/// that took a row out.
pub proof fn lemma_count_from_empty(calls: Seq<Call>)
    ensures
        listing_of(after_calls(Seq::empty(), calls)).len() == creations(Seq::empty(), calls)
            - removals(Seq::empty(), calls),
{
    lemma_count_after_calls(Seq::empty(), calls);
}

/// The constraints of the table hold at every point of a sequence of
/// operations: no id is ever held by two rows.
pub proof fn lemma_calls_keep_constraints(rows: Seq<RowView>, calls: Seq<Call>)
    requires
        constrained(rows),
    ensures
        constrained(after_calls(rows, calls)),
    decreases calls.len(),
{
    if calls.len() > 0 {
        lemma_calls_keep_constraints(rows, calls.drop_last());
        let before = after_calls(rows, calls.drop_last());
        match calls.last() {
            Call::Create { data, id, now } => lemma_creation_keeps_constraints(
                before,
                data,
                id,
                now,
            ),
            Call::List => {},
            Call::Read { id } => {},
            Call::Update { id, patch, now } => lemma_update_keeps_constraints(
                before,
                id,
                patch,
                now,
            ),
            Call::Delete { id } => lemma_deletion_keeps_constraints(before, id),
        }
    }
}

} // verus!
