use account_service::account::{CreateAccountSchema, FilterOptions};
use account_service::service::{list_page, normalize_pagination};
use account_service::store::AccountStore;

fn opts(limit: Option<u32>, page: Option<u32>) -> FilterOptions {
    FilterOptions { name: None, paid: None, limit, page }
}

fn seeded_store(n: u128) -> AccountStore {
    let mut store = AccountStore::new();
    // Insert identifiers out of order; the store keeps them sorted.
    let mut id = n;
    loop {
        let req = CreateAccountSchema {
            name: format!("account {}", id),
            value_cents: id as i64,
            due_date: id as i64,
            paid: None,
        };
        store.insert_with_id(id, &req, 0).unwrap();
        if id == 1 {
            break;
        }
        id -= 1;
    }
    store
}

#[test]
fn first_page_of_fifteen_is_first_ten_by_id() {
    let store = seeded_store(15);
    let page = list_page(&store, &opts(Some(10), Some(1)));
    assert_eq!(page.len(), 10);
    for (i, account) in page.iter().enumerate() {
        assert_eq!(account.id, (i + 1) as u128);
    }
}

#[test]
fn second_page_of_fifteen_is_remaining_five() {
    let store = seeded_store(15);
    let page = list_page(&store, &opts(Some(10), Some(2)));
    assert_eq!(page.len(), 5);
    for (i, account) in page.iter().enumerate() {
        assert_eq!(account.id, (i + 11) as u128);
    }
}

#[test]
fn default_limit_is_ten_and_default_page_is_first() {
    let store = seeded_store(12);
    let page = list_page(&store, &opts(None, None));
    assert_eq!(page.len(), 10);
    assert_eq!(page[0].id, 1);
    assert_eq!(page[9].id, 10);
}

#[test]
fn page_zero_is_clamped_to_first_page() {
    let store = seeded_store(3);
    let page = list_page(&store, &opts(Some(2), Some(0)));
    assert_eq!(page.len(), 2);
    assert_eq!(page[0].id, 1);
    assert_eq!(page[1].id, 2);
}

#[test]
fn page_past_the_end_is_empty() {
    let store = seeded_store(3);
    let page = list_page(&store, &opts(Some(10), Some(2)));
    assert!(page.is_empty());
}

#[test]
fn zero_limit_gives_empty_page() {
    let store = seeded_store(3);
    let page = list_page(&store, &opts(Some(0), Some(1)));
    assert!(page.is_empty());
}

#[test]
fn listing_is_in_ascending_identifier_order() {
    let store = seeded_store(9);
    let page = list_page(&store, &opts(Some(9), Some(1)));
    for pair in page.windows(2) {
        assert!(pair[0].id < pair[1].id);
    }
}

#[test]
fn offset_is_page_minus_one_times_limit() {
    let (limit, offset) = normalize_pagination(&opts(Some(7), Some(4)));
    assert_eq!(limit, 7);
    assert_eq!(offset, 21);
    let (limit, offset) = normalize_pagination(&opts(None, None));
    assert_eq!(limit, 10);
    assert_eq!(offset, 0);
}
