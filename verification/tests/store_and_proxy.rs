//! Tests of the sync-store model (the fake downstream action) and of the
//! read-side proxy's response mapping.

use activity_webhook::activities::{activities_request_url, bearer_header, proxy_response};
use activity_webhook::event::handle_body;
use activity_webhook::sync::SyncStore;
use activity_webhook::webhook::Route;

#[test]
fn upsert_then_identical_upsert_is_an_overwrite_not_an_addition() {
    let body = "{\"object_type\":\"activity\",\"object_id\":987,\"aspect_type\":\"create\",\
                \"owner_id\":42,\"subscription_id\":1,\"event_time\":1700000000}";
    let mut store = SyncStore::new();

    let (_, route) = handle_body(body);
    store.apply(&route);
    let after_first = store.records.clone();
    assert_eq!(after_first, vec![(987, 42)]);

    // The provider redelivers the identical payload.
    let (_, route_again) = handle_body(body);
    assert_eq!(route_again, route);
    store.apply(&route_again);
    assert_eq!(store.records, after_first);
}

#[test]
fn delete_twice_is_harmless() {
    let mut store = SyncStore::new();
    store.upsert(1, 10);
    store.upsert(2, 20);
    store.delete(1);
    assert_eq!(store.records, vec![(2, 20)]);
    store.delete(1);
    assert_eq!(store.records, vec![(2, 20)]);
}

#[test]
fn upsert_replaces_owner_for_existing_object() {
    let mut store = SyncStore::new();
    store.upsert(1, 10);
    store.upsert(2, 20);
    store.upsert(1, 11);
    assert_eq!(store.records, vec![(2, 20), (1, 11)]);
}

#[test]
fn ignored_route_touches_nothing() {
    let mut store = SyncStore::new();
    store.upsert(1, 10);
    store.apply(&Route::Ignored);
    assert_eq!(store.records, vec![(1, 10)]);
}

#[test]
fn out_of_order_delete_before_create_stays_consistent() {
    let mut store = SyncStore::new();
    store.apply(&Route::Delete { object_id: 7 });
    assert_eq!(store.records, vec![]);
    store.apply(&Route::Upsert { object_id: 7, owner_id: 3 });
    store.apply(&Route::Upsert { object_id: 7, owner_id: 3 });
    assert_eq!(store.records, vec![(7, 3)]);
}

#[test]
fn proxy_passes_fetched_body_through_verbatim() {
    let r = proxy_response(Ok("[{\"id\":1}]".to_string()));
    assert_eq!(r.status, 200);
    assert_eq!(r.body, "[{\"id\":1}]");
}

#[test]
fn proxy_maps_upstream_failure_to_500_and_stays_usable() {
    let r = proxy_response(Err("connection refused".to_string()));
    assert_eq!(r.status, 500);
    assert_eq!(r.body, "Error: connection refused");

    // The handler is stateless: the next request is served normally.
    let r = proxy_response(Ok("[]".to_string()));
    assert_eq!(r.status, 200);
    assert_eq!(r.body, "[]");
}

#[test]
fn request_url_and_header_are_built_exactly() {
    let url = activities_request_url(&"https://db.example".to_string());
    assert_eq!(
        url,
        "https://db.example/rest/v1/activities?order=start_date.desc&limit=50"
    );
    assert_eq!(bearer_header(&"key1".to_string()), "Bearer key1");
}
