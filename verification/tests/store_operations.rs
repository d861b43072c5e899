use salons::reply::Fetched;
use salons::row::StoredRow;
use salons::{
    create, delete_by_id, list, read, table_init, update, InsertReturnCols, NewSalone, SalonStore,
    Salon_QR, Salons, Sector, StoreError, Timestamp, UpdateSalone,
};

fn text(s: &str) -> Option<String> {
    Some(s.to_string())
}

fn at(micros: i64) -> Timestamp {
    Timestamp { micros }
}

fn ready_store() -> SalonStore {
    let mut store = SalonStore::new();
    table_init(&mut store);
    store
}

fn glow() -> NewSalone {
    NewSalone {
        ownerId: "u1".to_string(),
        name: "Glow Studio".to_string(),
        description: String::new(),
        address: "12 Main St".to_string(),
        region: Sector::botanica,
        phone: String::new(),
        email: String::new(),
    }
}

fn shine() -> NewSalone {
    NewSalone {
        ownerId: "u1".to_string(),
        name: "Shine".to_string(),
        description: "barber".to_string(),
        address: "3 Hill Rd".to_string(),
        region: Sector::buiucani,
        phone: "022-555".to_string(),
        email: "shine@example.org".to_string(),
    }
}

fn no_change() -> UpdateSalone {
    UpdateSalone {
        ownerId: None,
        name: None,
        description: None,
        address: None,
        region: None,
        phone: None,
        email: None,
    }
}

fn raw_row(id: &str, region: &str) -> StoredRow {
    StoredRow {
        id: text(id),
        owner_id: None,
        name: text("Raw"),
        description: None,
        address: text("1 Side St"),
        region: text(region),
        phone: None,
        email: None,
        created_at: Some(at(10)),
        updated_at: Some(at(20)),
    }
}

#[test]
fn a_new_store_is_not_ready_until_the_schema_is_set_up() {
    let mut store = SalonStore::new();
    assert!(!store.is_ready());
    assert_eq!(store.len(), 0);
    table_init(&mut store);
    assert!(store.is_ready());
    assert_eq!(store.len(), 0);
}

#[test]
fn setting_up_the_schema_again_discards_every_row() {
    let mut store = ready_store();
    create(glow(), &mut store, "a".to_string(), at(1)).expect("created");
    create(shine(), &mut store, "b".to_string(), at(2)).expect("created");
    assert_eq!(store.len(), 2);
    table_init(&mut store);
    assert!(store.is_ready());
    assert_eq!(store.len(), 0);
    assert_eq!(read("a".to_string(), &store), Err(StoreError::NotFoundError));
    create(glow(), &mut store, "a".to_string(), at(3)).expect("the id is free again");
}

#[test]
fn create_reports_the_id_and_the_name() {
    let mut store = ready_store();
    assert_eq!(
        create(glow(), &mut store, "a".to_string(), at(1)),
        Ok(InsertReturnCols { id: "a".to_string(), msg: "Glow Studio".to_string() })
    );
    assert_eq!(store.len(), 1);
}

#[test]
fn read_after_create_gives_the_supplied_values_and_one_time() {
    let mut store = ready_store();
    create(shine(), &mut store, "b".to_string(), at(77)).expect("created");
    let salon = read("b".to_string(), &store).expect("found");
    assert_eq!(
        salon,
        Salons {
            id: "b".to_string(),
            ownerId: "u1".to_string(),
            name: "Shine".to_string(),
            description: "barber".to_string(),
            address: "3 Hill Rd".to_string(),
            region: Sector::buiucani,
            phone: "022-555".to_string(),
            email: "shine@example.org".to_string(),
            createdAt: at(77),
            updatedAt: at(77),
        }
    );
    assert_eq!(salon.createdAt, salon.updatedAt);
}

#[test]
fn create_with_a_taken_id_is_a_constraint_error_and_changes_nothing() {
    let mut store = ready_store();
    create(glow(), &mut store, "a".to_string(), at(1)).expect("created");
    assert_eq!(
        create(shine(), &mut store, "a".to_string(), at(2)),
        Err(StoreError::ConstraintError(
            "duplicate key value violates unique constraint \"salons_pkey\"".to_string()
        ))
    );
    assert_eq!(store.len(), 1);
    assert_eq!(read("a".to_string(), &store).expect("found").name, "Glow Studio");
}

#[test]
fn the_owner_may_have_many_salons() {
    let mut store = ready_store();
    create(glow(), &mut store, "a".to_string(), at(1)).expect("created");
    create(shine(), &mut store, "b".to_string(), at(2)).expect("created");
    assert_eq!(read("a".to_string(), &store).expect("found").ownerId, "u1");
    assert_eq!(read("b".to_string(), &store).expect("found").ownerId, "u1");
}

#[test]
fn read_of_a_missing_id_is_not_found() {
    let store = ready_store();
    assert_eq!(read("nobody".to_string(), &store), Err(StoreError::NotFoundError));
}

#[test]
fn update_of_a_missing_id_is_not_found_and_changes_nothing() {
    let mut store = ready_store();
    create(glow(), &mut store, "a".to_string(), at(1)).expect("created");
    let before = list(&store);
    assert_eq!(
        update("b".to_string(), UpdateSalone { name: text("x"), ..no_change() }, &mut store, at(2)),
        Err(StoreError::NotFoundError)
    );
    assert_eq!(list(&store), before);
}

#[test]
fn update_without_values_changes_only_the_time_of_the_last_update() {
    let mut store = ready_store();
    create(shine(), &mut store, "b".to_string(), at(10)).expect("created");
    let before = read("b".to_string(), &store).expect("found");
    assert_eq!(
        update("b".to_string(), no_change(), &mut store, at(25)),
        Ok(InsertReturnCols { id: "b".to_string(), msg: "update succesfull".to_string() })
    );
    let after = read("b".to_string(), &store).expect("found");
    assert_eq!(after, Salons { updatedAt: at(25), ..before.clone() });
    assert!(after.updatedAt.micros >= before.updatedAt.micros);

    let empty = UpdateSalone {
        ownerId: text(""),
        name: text(""),
        description: text(""),
        address: text(""),
        region: None,
        phone: text(""),
        email: text(""),
    };
    update("b".to_string(), empty, &mut store, at(30)).expect("updated");
    let last = read("b".to_string(), &store).expect("found");
    assert_eq!(last, Salons { updatedAt: at(30), ..before });
}

#[test]
fn update_of_one_attribute_changes_that_attribute_and_the_time() {
    let mut store = ready_store();
    create(glow(), &mut store, "a".to_string(), at(10)).expect("created");
    create(shine(), &mut store, "b".to_string(), at(11)).expect("created");
    let before = read("b".to_string(), &store).expect("found");
    let other = read("a".to_string(), &store).expect("found");

    update("b".to_string(), UpdateSalone { phone: text("022-999"), ..no_change() }, &mut store, at(40))
        .expect("updated");
    let after = read("b".to_string(), &store).expect("found");
    assert_eq!(after, Salons { phone: "022-999".to_string(), updatedAt: at(40), ..before.clone() });

    update(
        "b".to_string(),
        UpdateSalone { region: Some(Sector::botanica), ..no_change() },
        &mut store,
        at(41),
    )
    .expect("updated");
    let after = read("b".to_string(), &store).expect("found");
    assert_eq!(
        after,
        Salons {
            phone: "022-999".to_string(),
            region: Sector::botanica,
            updatedAt: at(41),
            ..before
        }
    );
    assert_eq!(read("a".to_string(), &store).expect("found"), other);
}

#[test]
fn update_cannot_clear_a_text() {
    let mut store = ready_store();
    create(shine(), &mut store, "b".to_string(), at(10)).expect("created");
    update("b".to_string(), UpdateSalone { description: text(""), ..no_change() }, &mut store, at(11))
        .expect("updated");
    assert_eq!(read("b".to_string(), &store).expect("found").description, "barber");
}

#[test]
fn delete_hands_back_the_salon_and_read_then_finds_nothing() {
    let mut store = ready_store();
    create(shine(), &mut store, "b".to_string(), at(10)).expect("created");
    let before = read("b".to_string(), &store).expect("found");
    assert_eq!(delete_by_id("b", &mut store), Ok(Some(before)));
    assert_eq!(read("b".to_string(), &store), Err(StoreError::NotFoundError));
    assert_eq!(store.len(), 0);
}

#[test]
fn delete_of_an_id_never_created_or_already_deleted_is_empty_and_no_error() {
    let mut store = ready_store();
    assert_eq!(delete_by_id("never", &mut store), Ok(None));
    create(glow(), &mut store, "a".to_string(), at(1)).expect("created");
    assert_eq!(delete_by_id("never", &mut store), Ok(None));
    assert_eq!(store.len(), 1);
    assert!(delete_by_id("a", &mut store).expect("no failure").is_some());
    assert_eq!(delete_by_id("a", &mut store), Ok(None));
    assert_eq!(delete_by_id("a", &mut store), Ok(None));
    assert_eq!(store.len(), 0);
}

#[test]
fn delete_defaults_the_absent_optional_texts_to_empty() {
    let mut store = ready_store();
    assert_eq!(
        store.insert(raw_row("r", "buiucani")),
        Fetched::Row(InsertReturnCols { id: "r".to_string(), msg: "Raw".to_string() })
    );
    assert_eq!(
        delete_by_id("r", &mut store),
        Ok(Some(Salons {
            id: "r".to_string(),
            ownerId: String::new(),
            name: "Raw".to_string(),
            description: String::new(),
            address: "1 Side St".to_string(),
            region: Sector::buiucani,
            phone: String::new(),
            email: String::new(),
            createdAt: at(10),
            updatedAt: at(20),
        }))
    );
}

#[test]
fn the_count_of_the_list_is_creations_less_deletions() {
    let mut store = ready_store();
    let mut created = 0usize;
    let mut removed = 0usize;
    assert_eq!(list(&store).len(), created - removed);
    for (id, data) in [("a", glow()), ("b", shine()), ("a", shine()), ("c", glow())] {
        if create(data, &mut store, id.to_string(), at(1)).is_ok() {
            created += 1;
        }
        assert_eq!(list(&store).len(), created - removed);
    }
    assert_eq!(created, 3);
    update("a".to_string(), no_change(), &mut store, at(2)).expect("updated");
    assert_eq!(list(&store).len(), created - removed);
    for id in ["b", "zz", "b", "a"] {
        if let Ok(Some(_)) = delete_by_id(id, &mut store) {
            removed += 1;
        }
        assert_eq!(list(&store).len(), created - removed);
        assert_eq!(store.len(), created - removed);
    }
    assert_eq!(removed, 2);
    assert_eq!(list(&store).len(), 1);
}

#[test]
fn list_keeps_the_order_of_insertion() {
    let mut store = ready_store();
    create(glow(), &mut store, "a".to_string(), at(1)).expect("created");
    create(shine(), &mut store, "b".to_string(), at(2)).expect("created");
    create(glow(), &mut store, "c".to_string(), at(3)).expect("created");
    delete_by_id("a", &mut store).expect("no failure");
    let ids: Vec<Option<String>> = list(&store).into_iter().map(|salon| salon.id).collect();
    assert_eq!(ids, vec![text("b"), text("c")]);
}

#[test]
fn list_shows_a_created_salon_with_every_attribute_present() {
    let mut store = ready_store();
    create(glow(), &mut store, "a".to_string(), at(5)).expect("created");
    assert_eq!(
        list(&store),
        vec![Salon_QR {
            id: text("a"),
            ownerId: text("u1"),
            name: text("Glow Studio"),
            description: text(""),
            address: text("12 Main St"),
            region: Some(Sector::botanica),
            phone: text(""),
            email: text(""),
            createdAt: Some(at(5)),
            updatedAt: Some(at(5)),
        }]
    );
}

#[test]
fn a_third_tag_fed_into_storage_surfaces_on_read_and_not_as_a_crash() {
    let mut store = ready_store();
    assert!(matches!(store.insert(raw_row("r", "centru")), Fetched::Row(_)));
    assert_eq!(
        read("r".to_string(), &store),
        Err(StoreError::DecodeInvariantViolation("centru".to_string()))
    );
    let listed = list(&store);
    assert_eq!(listed.len(), 1);
    assert_eq!(listed[0].region, None);
    assert_eq!(listed[0].name, text("Raw"));
    assert_eq!(listed[0].description, None);
}

#[test]
fn an_update_of_the_region_mends_a_row_with_a_third_tag() {
    let mut store = ready_store();
    store.insert(raw_row("r", "centru"));
    update(
        "r".to_string(),
        UpdateSalone { region: Some(Sector::botanica), ..no_change() },
        &mut store,
        at(30),
    )
    .expect("updated");
    assert_eq!(read("r".to_string(), &store).expect("found").region, Sector::botanica);
}

#[test]
fn deleting_a_row_with_a_third_tag_reports_it_and_deletes_the_row() {
    let mut store = ready_store();
    store.insert(raw_row("r", "centru"));
    assert_eq!(
        delete_by_id("r", &mut store),
        Err(StoreError::DecodeInvariantViolation("centru".to_string()))
    );
    assert_eq!(store.len(), 0);
    assert_eq!(delete_by_id("r", &mut store), Ok(None));
}

#[test]
fn the_table_turns_down_a_row_without_a_required_column() {
    let mut store = ready_store();
    assert_eq!(
        store.insert(StoredRow { name: None, ..raw_row("r", "botanica") }),
        Fetched::Failed(
            "null value in column \"name\" of relation \"salons\" violates not-null constraint"
                .to_string()
        )
    );
    assert_eq!(
        store.insert(StoredRow { address: None, ..raw_row("r", "botanica") }),
        Fetched::Failed(
            "null value in column \"address\" of relation \"salons\" violates not-null constraint"
                .to_string()
        )
    );
    assert_eq!(
        store.insert(StoredRow { id: None, name: None, ..raw_row("r", "botanica") }),
        Fetched::Failed(
            "null value in column \"id\" of relation \"salons\" violates not-null constraint"
                .to_string()
        )
    );
    assert_eq!(
        store.insert(StoredRow { region: None, ..raw_row("r", "botanica") }),
        Fetched::Failed(
            "null value in column \"region\" of relation \"salons\" violates not-null constraint"
                .to_string()
        )
    );
    assert_eq!(
        store.insert(StoredRow { created_at: None, updated_at: None, ..raw_row("r", "botanica") }),
        Fetched::Failed(
            "null value in column \"createdat\" of relation \"salons\" violates not-null constraint"
                .to_string()
        )
    );
    assert_eq!(
        store.insert(StoredRow { updated_at: None, ..raw_row("r", "botanica") }),
        Fetched::Failed(
            "null value in column \"updatedat\" of relation \"salons\" violates not-null constraint"
                .to_string()
        )
    );
    assert_eq!(store.len(), 0);
}

#[test]
fn the_table_turns_down_a_row_with_a_taken_id() {
    let mut store = ready_store();
    store.insert(raw_row("r", "botanica"));
    assert_eq!(
        store.insert(raw_row("r", "buiucani")),
        Fetched::Failed(
            "duplicate key value violates unique constraint \"salons_pkey\"".to_string()
        )
    );
    assert_eq!(store.len(), 1);
    assert_eq!(read("r".to_string(), &store).expect("found").region, Sector::botanica);
}

#[test]
fn a_salon_from_creation_to_deletion() {
    let mut store = ready_store();
    let created = create(glow(), &mut store, "6f1c".to_string(), at(100)).expect("created");
    assert_eq!(created.msg, "Glow Studio");
    let id = created.id;

    assert_eq!(
        update(
            id.clone(),
            UpdateSalone { name: text("Glow & Co"), ..no_change() },
            &mut store,
            at(200)
        ),
        Ok(InsertReturnCols { id: id.clone(), msg: "update succesfull".to_string() })
    );
    let salon = read(id.clone(), &store).expect("found");
    assert_eq!(salon.name, "Glow & Co");
    assert_eq!(salon.address, "12 Main St");
    assert_eq!(salon.createdAt, at(100));
    assert_eq!(salon.updatedAt, at(200));
    assert!(salon.updatedAt.micros > salon.createdAt.micros);

    assert_eq!(
        delete_by_id(&id, &mut store),
        Ok(Some(Salons {
            id: id.clone(),
            ownerId: "u1".to_string(),
            name: "Glow & Co".to_string(),
            description: String::new(),
            address: "12 Main St".to_string(),
            region: Sector::botanica,
            phone: String::new(),
            email: String::new(),
            createdAt: at(100),
            updatedAt: at(200),
        }))
    );
    assert_eq!(read(id, &store), Err(StoreError::NotFoundError));
}
