use users_api::store::{SharedStore, UserStore};
use users_api::user::User;

fn user(id: u64, name: &str) -> User {
    User::new(id, name.to_string())
}

#[test]
fn new_store_is_empty() {
    let store = UserStore::new();
    assert_eq!(store.get(0), None);
    assert_eq!(store.get(1), None);
    assert_eq!(store.get(u64::MAX), None);
}

#[test]
fn put_then_get() {
    let mut store = UserStore::new();
    store.put(user(7, "ada"));
    assert_eq!(store.get(7), Some(user(7, "ada")));
    assert_eq!(store.get(8), None);
}

#[test]
fn put_overwrites_same_id() {
    let mut store = UserStore::new();
    store.put(user(3, "first"));
    store.put(user(3, "second"));
    assert_eq!(store.get(3), Some(user(3, "second")));
}

#[test]
fn put_keeps_other_ids() {
    let mut store = UserStore::new();
    store.put(user(1, "one"));
    store.put(user(2, "two"));
    store.put(user(1, "uno"));
    assert_eq!(store.get(1), Some(user(1, "uno")));
    assert_eq!(store.get(2), Some(user(2, "two")));
}

#[test]
fn largest_id_and_empty_name() {
    let mut store = UserStore::new();
    store.put(user(u64::MAX, ""));
    assert_eq!(store.get(u64::MAX), Some(user(u64::MAX, "")));
}

#[test]
fn clone_keeps_fields() {
    let u = user(5, "grace");
    let c = u.clone();
    assert_eq!(c.id, 5);
    assert_eq!(c.name, "grace");
}

#[test]
fn shared_put_then_get() {
    let store = SharedStore::new();
    assert_eq!(store.get(9), None);
    store.put(user(9, "linus"));
    assert_eq!(store.get(9), Some(user(9, "linus")));
    store.put(user(9, "tux"));
    assert_eq!(store.get(9), Some(user(9, "tux")));
    assert_eq!(store.get(10), None);
}
