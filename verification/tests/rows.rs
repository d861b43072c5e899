use salons::entity::{Salon_QR, Salons, Timestamp, UpdateSalone};
use salons::error::StoreError;
use salons::merge::{merge_region, merge_row, merge_text};
use salons::region::Sector;
use salons::row::{
    copy_text, decode_listed, decode_salon, not_null_text, text_or_default, StoredRow,
};

fn text(s: &str) -> Option<String> {
    Some(s.to_string())
}

fn at(micros: i64) -> Timestamp {
    Timestamp { micros }
}

fn full_row() -> StoredRow {
    StoredRow {
        id: text("s-1"),
        owner_id: text("u1"),
        name: text("Glow Studio"),
        description: text("nails and hair"),
        address: text("12 Main St"),
        region: text("botanica"),
        phone: text("022-123"),
        email: text("glow@example.org"),
        created_at: Some(at(1_000)),
        updated_at: Some(at(2_000)),
    }
}

fn no_change() -> UpdateSalone {
    UpdateSalone {
        ownerId: None,
        name: None,
        description: None,
        address: None,
        region: None,
        phone: None,
        email: None,
    }
}

#[test]
fn a_full_row_decodes_field_by_field() {
    assert_eq!(
        decode_salon(&full_row()),
        Ok(Salons {
            id: "s-1".to_string(),
            ownerId: "u1".to_string(),
            name: "Glow Studio".to_string(),
            description: "nails and hair".to_string(),
            address: "12 Main St".to_string(),
            region: Sector::botanica,
            phone: "022-123".to_string(),
            email: "glow@example.org".to_string(),
            createdAt: at(1_000),
            updatedAt: at(2_000),
        })
    );
}

#[test]
fn absent_optional_texts_decode_as_empty_one_by_one() {
    let row = StoredRow { owner_id: None, description: None, phone: None, email: None, ..full_row() };
    let salon = decode_salon(&row).expect("the row decodes");
    assert_eq!(salon.ownerId, "");
    assert_eq!(salon.description, "");
    assert_eq!(salon.phone, "");
    assert_eq!(salon.email, "");
    assert_eq!(salon.name, "Glow Studio");
    assert_eq!(salon.address, "12 Main St");

    let row = StoredRow { phone: None, ..full_row() };
    let salon = decode_salon(&row).expect("the row decodes");
    assert_eq!(salon.phone, "");
    assert_eq!(salon.email, "glow@example.org");
    assert_eq!(salon.description, "nails and hair");
}

#[test]
fn an_unknown_region_fails_the_full_decode_with_its_text() {
    let row = StoredRow { region: text("centru"), ..full_row() };
    assert_eq!(
        decode_salon(&row),
        Err(StoreError::DecodeInvariantViolation("centru".to_string()))
    );
}

#[test]
fn an_absent_required_text_fails_the_full_decode_and_names_the_column() {
    for (row, column) in [
        (StoredRow { id: None, name: None, ..full_row() }, "id"),
        (StoredRow { name: None, region: None, ..full_row() }, "name"),
        (StoredRow { address: None, ..full_row() }, "address"),
        (StoredRow { region: None, ..full_row() }, "region"),
    ] {
        assert!(row.is_timed());
        assert_eq!(
            decode_salon(&row),
            Err(StoreError::ConstraintError(format!(
                "null value in column \"{column}\" of relation \"salons\" violates not-null constraint"
            )))
        );
    }
}

#[test]
fn an_absent_required_text_comes_before_an_unknown_region() {
    let row = StoredRow { address: None, region: text("centru"), ..full_row() };
    assert_eq!(
        decode_salon(&row),
        Err(StoreError::ConstraintError(
            "null value in column \"address\" of relation \"salons\" violates not-null constraint"
                .to_string()
        ))
    );
}

#[test]
fn is_timed_asks_for_both_points_in_time() {
    assert!(full_row().is_timed());
    assert!(StoredRow { id: None, name: None, ..full_row() }.is_timed());
    assert!(!StoredRow { created_at: None, ..full_row() }.is_timed());
    assert!(!StoredRow { updated_at: None, ..full_row() }.is_timed());
}

#[test]
fn the_diagnostic_names_the_first_absent_column() {
    assert_eq!(
        not_null_text(&StoredRow { region: None, updated_at: None, ..full_row() }),
        "null value in column \"region\" of relation \"salons\" violates not-null constraint"
    );
    assert_eq!(
        not_null_text(&StoredRow { created_at: None, updated_at: None, ..full_row() }),
        "null value in column \"createdat\" of relation \"salons\" violates not-null constraint"
    );
    assert_eq!(
        not_null_text(&StoredRow { updated_at: None, ..full_row() }),
        "null value in column \"updatedat\" of relation \"salons\" violates not-null constraint"
    );
}

#[test]
fn the_listed_shape_keeps_each_column_on_its_own() {
    let row = StoredRow { description: None, region: text("centru"), created_at: None, ..full_row() };
    assert_eq!(
        decode_listed(&row),
        Salon_QR {
            id: text("s-1"),
            ownerId: text("u1"),
            name: text("Glow Studio"),
            description: None,
            address: text("12 Main St"),
            region: None,
            phone: text("022-123"),
            email: text("glow@example.org"),
            createdAt: None,
            updatedAt: Some(at(2_000)),
        }
    );
}

#[test]
fn the_listed_shape_of_a_full_row() {
    let listed = decode_listed(&full_row());
    assert_eq!(listed.region, Some(Sector::botanica));
    assert_eq!(listed.createdAt, Some(at(1_000)));
    assert_eq!(listed.name, text("Glow Studio"));
}

#[test]
fn the_listed_shape_of_an_empty_row_is_empty() {
    let row = StoredRow {
        id: None,
        owner_id: None,
        name: None,
        description: None,
        address: None,
        region: None,
        phone: None,
        email: None,
        created_at: None,
        updated_at: None,
    };
    assert_eq!(
        decode_listed(&row),
        Salon_QR {
            id: None,
            ownerId: None,
            name: None,
            description: None,
            address: None,
            region: None,
            phone: None,
            email: None,
            createdAt: None,
            updatedAt: None,
        }
    );
}

#[test]
fn meets_schema_asks_for_the_six_required_columns() {
    assert!(full_row().meets_schema());
    assert!(StoredRow { owner_id: None, description: None, phone: None, email: None, ..full_row() }
        .meets_schema());
    assert!(!StoredRow { id: None, ..full_row() }.meets_schema());
    assert!(!StoredRow { name: None, ..full_row() }.meets_schema());
    assert!(!StoredRow { address: None, ..full_row() }.meets_schema());
    assert!(!StoredRow { region: None, ..full_row() }.meets_schema());
    assert!(!StoredRow { created_at: None, ..full_row() }.meets_schema());
    assert!(!StoredRow { updated_at: None, ..full_row() }.meets_schema());
}

#[test]
fn duplicate_and_copies_keep_the_value() {
    assert_eq!(full_row().duplicate(), full_row());
    assert_eq!(copy_text(&text("a")), text("a"));
    assert_eq!(copy_text(&None), None);
    assert_eq!(text_or_default(&text("a")), "a");
    assert_eq!(text_or_default(&None), "");
}

#[test]
fn merge_text_keeps_the_stored_text_for_absent_and_for_empty() {
    assert_eq!(merge_text(&text("old"), &None), text("old"));
    assert_eq!(merge_text(&text("old"), &text("")), text("old"));
    assert_eq!(merge_text(&text("old"), &text("new")), text("new"));
    assert_eq!(merge_text(&None, &text("")), None);
    assert_eq!(merge_text(&None, &None), None);
    assert_eq!(merge_text(&None, &text("new")), text("new"));
    assert_eq!(merge_text(&text("old"), &text(" ")), text(" "));
}

#[test]
fn merge_region_replaces_only_when_supplied() {
    assert_eq!(merge_region(&text("botanica"), &None), text("botanica"));
    assert_eq!(merge_region(&text("botanica"), &Some(Sector::buiucani)), text("buiucani"));
    assert_eq!(merge_region(&text("centru"), &None), text("centru"));
    assert_eq!(merge_region(&text("centru"), &Some(Sector::botanica)), text("botanica"));
}

#[test]
fn an_update_without_values_changes_only_the_time() {
    let merged = merge_row(&full_row(), &no_change(), at(3_000));
    assert_eq!(merged, StoredRow { updated_at: Some(at(3_000)), ..full_row() });

    let empty = UpdateSalone {
        ownerId: text(""),
        name: text(""),
        description: text(""),
        address: text(""),
        region: None,
        phone: text(""),
        email: text(""),
    };
    let merged = merge_row(&full_row(), &empty, at(3_000));
    assert_eq!(merged, StoredRow { updated_at: Some(at(3_000)), ..full_row() });
}

#[test]
fn an_update_of_one_attribute_changes_that_and_the_time() {
    let merged =
        merge_row(&full_row(), &UpdateSalone { name: text("Glow & Co"), ..no_change() }, at(3_000));
    assert_eq!(
        merged,
        StoredRow { name: text("Glow & Co"), updated_at: Some(at(3_000)), ..full_row() }
    );

    let merged = merge_row(
        &full_row(),
        &UpdateSalone { region: Some(Sector::buiucani), ..no_change() },
        at(3_000),
    );
    assert_eq!(
        merged,
        StoredRow { region: text("buiucani"), updated_at: Some(at(3_000)), ..full_row() }
    );

    let merged =
        merge_row(&full_row(), &UpdateSalone { email: text("new@example.org"), ..no_change() }, at(9));
    assert_eq!(
        merged,
        StoredRow { email: text("new@example.org"), updated_at: Some(at(9)), ..full_row() }
    );
}

#[test]
fn an_update_of_every_attribute() {
    let patch = UpdateSalone {
        ownerId: text("u2"),
        name: text("n"),
        description: text("d"),
        address: text("a"),
        region: Some(Sector::buiucani),
        phone: text("p"),
        email: text("e"),
    };
    assert_eq!(
        merge_row(&full_row(), &patch, at(5_000)),
        StoredRow {
            id: text("s-1"),
            owner_id: text("u2"),
            name: text("n"),
            description: text("d"),
            address: text("a"),
            region: text("buiucani"),
            phone: text("p"),
            email: text("e"),
            created_at: Some(at(1_000)),
            updated_at: Some(at(5_000)),
        }
    );
}
