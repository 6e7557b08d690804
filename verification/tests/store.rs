use form_backend::record::FormRecord;
use form_backend::store::FormStore;

fn record(user_id: &str, form_step: i32, email: &str) -> FormRecord {
    FormRecord {
        user_id: user_id.to_string(),
        form_step,
        email: email.to_string(),
        therapy_for_whom: "self".to_string(),
        therapist_gender: "any".to_string(),
    }
}

#[test]
fn new_store_finds_nothing() {
    let store = FormStore::new();
    assert!(store.find(&"anyone".to_string()).is_none());
}

#[test]
fn upsert_then_find_returns_the_row() {
    let mut store = FormStore::new();
    store.upsert(record("u", 3, "u@x.com"));
    let found = store.find(&"u".to_string()).expect("row should be present");
    assert_eq!(found.user_id, "u");
    assert_eq!(found.form_step, 3);
    assert_eq!(found.email, "u@x.com");
}

#[test]
fn upsert_replaces_existing_row() {
    let mut store = FormStore::new();
    store.upsert(record("u", 1, "old@x.com"));
    store.upsert(record("u", 2, "new@x.com"));
    let found = store.find(&"u".to_string()).expect("row should be present");
    assert_eq!(found.form_step, 2);
    assert_eq!(found.email, "new@x.com");
    assert!(store.find(&"v".to_string()).is_none());
}
