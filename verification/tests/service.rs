use pooled_records::handler::{handle_fresh, handle_request};
use pooled_records::response::{respond, HandlerError, Response};
use pooled_records::store::Store;

#[test]
fn alice_then_bob() {
    let mut store = Store::new();

    let resp = handle_fresh(&mut store, String::from("alice"));
    assert_eq!(resp.status, 200);
    assert_eq!(resp.body, Some(String::from("alice")));

    let resp = handle_fresh(&mut store, String::from("bob"));
    assert_eq!(resp.status, 200);
    assert_eq!(resp.body, Some(String::from("bob")));

    assert_eq!(store.rows.len(), 2);
    assert_eq!(store.rows[0].name, "alice");
    assert_eq!(store.rows[1].name, "bob");
    assert_ne!(store.rows[0].id, store.rows[1].id);
}

#[test]
fn identifiers_are_36_characters() {
    let mut store = Store::new();
    let resp = handle_fresh(&mut store, String::from("carol"));
    assert_eq!(resp.status, 200);
    assert_eq!(store.rows[0].id.len(), 36);
}

#[test]
fn same_name_twice_gives_two_rows() {
    let mut store = Store::new();

    let resp = handle_request(&mut store, String::from("id-one"), String::from("dave"));
    assert_eq!(resp.status, 200);
    assert_eq!(resp.body, Some(String::from("dave")));

    let resp = handle_request(&mut store, String::from("id-two"), String::from("dave"));
    assert_eq!(resp.status, 200);
    assert_eq!(resp.body, Some(String::from("dave")));

    assert_eq!(store.rows.len(), 2);
    assert_eq!(store.rows[0].id, "id-one");
    assert_eq!(store.rows[1].id, "id-two");
}

#[test]
fn duplicate_identifier_is_opaque_failure() {
    let mut store = Store::new();

    let resp = handle_request(&mut store, String::from("same-id"), String::from("erin"));
    assert_eq!(resp.status, 200);

    let resp = handle_request(&mut store, String::from("same-id"), String::from("frank"));
    assert_eq!(resp.status, 500);
    assert_eq!(resp.body, None);

    assert_eq!(store.rows.len(), 1);
    assert_eq!(store.rows[0].name, "erin");
}

#[test]
fn schema_init_is_idempotent() {
    let mut store = Store::new();
    store.create_table_if_absent();
    assert!(store.schema_ready);

    let resp = handle_request(&mut store, String::from("an-id"), String::from("grace"));
    assert_eq!(resp.status, 200);

    store.create_table_if_absent();
    store.create_table_if_absent();
    assert!(store.schema_ready);
    assert_eq!(store.rows.len(), 1);
    assert_eq!(store.rows[0].name, "grace");
}

#[test]
fn query_returns_the_stored_name() {
    let mut store = Store::new();
    store.create_table_if_absent();
    assert!(store
        .insert_row(String::from("k1"), String::from("heidi"))
        .is_ok());
    assert_eq!(
        store.query_name(&String::from("k1")),
        Some(String::from("heidi"))
    );
    assert_eq!(store.query_name(&String::from("k2")), None);
}

#[test]
fn insert_duplicate_is_write_error() {
    let mut store = Store::new();
    store.create_table_if_absent();
    assert!(store
        .insert_row(String::from("k1"), String::from("ivan"))
        .is_ok());
    assert_eq!(
        store.insert_row(String::from("k1"), String::from("judy")),
        Err(HandlerError::Write)
    );
    assert_eq!(store.rows.len(), 1);
    assert_eq!(store.rows[0].name, "ivan");
}

#[test]
fn success_maps_to_200_with_body() {
    let resp: Response = respond(Ok(String::from("alice")));
    assert_eq!(resp.status, 200);
    assert_eq!(resp.body, Some(String::from("alice")));
}

#[test]
fn every_error_maps_to_opaque_500() {
    for err in [
        HandlerError::Pool,
        HandlerError::Schema,
        HandlerError::Write,
        HandlerError::Read,
    ] {
        let resp: Response = respond(Err(err));
        assert_eq!(resp.status, 500);
        assert_eq!(resp.body, None);
    }
}
