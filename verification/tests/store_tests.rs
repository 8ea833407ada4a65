use account_service::account::{CreateAccountSchema, UpdateAccountSchema};
use account_service::errors::ServiceError;
use account_service::store::AccountStore;

fn req(name: &str, value_cents: i64, due_date: i64, paid: Option<bool>) -> CreateAccountSchema {
    CreateAccountSchema { name: name.to_owned(), value_cents, due_date, paid }
}

#[test]
fn create_then_get_returns_equal_record() {
    let mut store = AccountStore::new();
    let created = store.create(&req("electricity", 12345, 1704067200, Some(false))).unwrap();
    let fetched = store.get(created.id).unwrap();
    assert_eq!(fetched.id, created.id);
    assert_eq!(fetched.name, created.name);
    assert_eq!(fetched.value_cents, created.value_cents);
    assert_eq!(fetched.due_date, created.due_date);
    assert_eq!(fetched.paid, created.paid);
    assert_eq!(fetched.created_at, created.created_at);
}

#[test]
fn create_defaults_paid_to_false() {
    let mut store = AccountStore::new();
    let created = store.create(&req("water", 500, 100, None)).unwrap();
    assert!(!created.paid);
    assert_eq!(created.name, "water");
    assert_eq!(created.value_cents, 500);
    assert_eq!(created.due_date, 100);
}

#[test]
fn two_creates_store_two_rows() {
    let mut store = AccountStore::new();
    let a = store.create(&req("one", 1, 1, None)).unwrap();
    let b = store.create(&req("two", 2, 2, None)).unwrap();
    assert_eq!(store.count(), 2);
    assert_eq!(store.get(a.id).unwrap().name, "one");
    assert_eq!(store.get(b.id).unwrap().name, "two");
}

#[test]
fn insert_with_taken_id_is_store_error() {
    let mut store = AccountStore::new();
    store.insert_with_id(7, &req("first", 1, 1, None), 0).unwrap();
    let second = store.insert_with_id(7, &req("second", 2, 2, None), 0);
    assert_eq!(second.unwrap_err(), ServiceError::StoreError);
    assert_eq!(store.count(), 1);
    assert_eq!(store.get(7).unwrap().name, "first");
}

#[test]
fn get_missing_is_not_found() {
    let store = AccountStore::new();
    assert_eq!(store.get(99).unwrap_err(), ServiceError::NotFound);
}

#[test]
fn update_name_only_preserves_other_fields() {
    let mut store = AccountStore::new();
    let created = store.create(&req("old name", 777, 424242, Some(true))).unwrap();
    let patch = UpdateAccountSchema {
        name: Some("X".to_owned()),
        value_cents: None,
        due_date: None,
        paid: None,
    };
    let updated = store.update(created.id, &patch).unwrap();
    assert_eq!(updated.name, "X");
    assert_eq!(updated.value_cents, 777);
    assert_eq!(updated.due_date, 424242);
    assert!(updated.paid);
    assert_eq!(updated.id, created.id);
    assert_eq!(updated.created_at, created.created_at);
    let fetched = store.get(created.id).unwrap();
    assert_eq!(fetched.name, "X");
    assert_eq!(fetched.value_cents, 777);
}

#[test]
fn update_merges_each_present_field() {
    let mut store = AccountStore::new();
    let created = store.create(&req("bill", 100, 10, None)).unwrap();
    let patch = UpdateAccountSchema {
        name: None,
        value_cents: Some(200),
        due_date: Some(20),
        paid: Some(true),
    };
    let updated = store.update(created.id, &patch).unwrap();
    assert_eq!(updated.name, "bill");
    assert_eq!(updated.value_cents, 200);
    assert_eq!(updated.due_date, 20);
    assert!(updated.paid);
}

#[test]
fn update_nonexistent_is_not_found() {
    let mut store = AccountStore::new();
    store.insert_with_id(1, &req("only", 1, 1, None), 0).unwrap();
    let patch = UpdateAccountSchema {
        name: Some("X".to_owned()),
        value_cents: None,
        due_date: None,
        paid: None,
    };
    assert_eq!(store.update(2, &patch).unwrap_err(), ServiceError::NotFound);
    assert_eq!(store.get(1).unwrap().name, "only");
}

#[test]
fn delete_then_get_not_found_and_second_delete_ok() {
    let mut store = AccountStore::new();
    let created = store.create(&req("gone", 1, 1, None)).unwrap();
    store.delete(created.id);
    assert_eq!(store.get(created.id).unwrap_err(), ServiceError::NotFound);
    // A second delete of the same identifier is not an error.
    store.delete(created.id);
    assert_eq!(store.count(), 0);
}

#[test]
fn delete_missing_id_leaves_store_unchanged() {
    let mut store = AccountStore::new();
    store.insert_with_id(5, &req("keep", 1, 1, None), 0).unwrap();
    store.delete(6);
    assert_eq!(store.count(), 1);
    assert_eq!(store.get(5).unwrap().name, "keep");
}

#[test]
fn error_status_codes() {
    assert_eq!(ServiceError::ValidationError.http_status(), 400);
    assert_eq!(ServiceError::NotFound.http_status(), 404);
    assert_eq!(ServiceError::StoreError.http_status(), 500);
    assert_eq!(ServiceError::PredictionUnavailable.http_status(), 500);
}

#[test]
fn error_messages() {
    assert_eq!(ServiceError::ValidationError.message(), "invalid input");
    assert_eq!(ServiceError::NotFound.message(), "account not found");
    assert_eq!(ServiceError::StoreError.message(), "store operation failed");
    assert_eq!(
        ServiceError::PredictionUnavailable.message(),
        "failed to get payment prediction"
    );
}
