use cmdrec::store::StoreState;

#[test]
fn it_deletes_a_recorded_entry_and_deleting_again_is_a_no_op() {
    let mut store = StoreState::new();
    store.add_record("abcdef12");
    store.add_record("00000000");
    assert!(store.has_record("abcdef12"));

    store.remove_record("abcdef12");
    assert!(!store.has_record("abcdef12"), "the record should be deleted");
    assert!(store.has_record("00000000"));

    // Deleting the same record a second time changes nothing and is no error.
    store.remove_record("abcdef12");
    assert!(!store.has_record("abcdef12"));
    assert!(store.has_record("00000000"));
}

#[test]
fn it_deletes_missing_entries_without_complaint() {
    let mut store = StoreState::new();
    store.add_record("abcdef12");
    store.remove_record("non-existing-record");
    assert!(store.has_record("abcdef12"));
    assert!(!store.has_record("non-existing-record"));
}

#[test]
fn it_expires_every_entry_and_expiring_again_is_a_no_op() {
    let mut store = StoreState::new();
    store.add_record("abcdef12");
    store.add_record("00000000");

    store.expire();
    assert!(!store.has_record("abcdef12"), "the record should be deleted");
    assert!(!store.has_record("00000000"), "the record should be deleted");

    // Expiring an already-empty store changes nothing and is no error.
    store.expire();
    assert!(!store.has_record("abcdef12"));
}
