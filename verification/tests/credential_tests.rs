use o365_cli::credential::{
    clear_keychain_entry, plan_migration, CredentialStore, DeleteOutcome, Migration, StoreError,
};
use o365_cli::error::AuthError;

#[test]
fn put_then_get_gives_back_the_secret() {
    for secret in ["r", "0.AAA-bbb_ccc", " spaced ", "\u{1f511}key", "line\nbreak"] {
        let mut store = CredentialStore::new();
        assert!(store.put(secret).is_ok());
        assert_eq!(store.get().unwrap(), secret);
    }
}

#[test]
fn last_put_wins() {
    let mut store = CredentialStore::new();
    store.put("first").unwrap();
    store.put("second").unwrap();
    assert_eq!(store.get().unwrap(), "second");
}

#[test]
fn get_on_an_empty_store_finds_no_entry() {
    let store = CredentialStore::new();
    assert!(matches!(store.get(), Err(StoreError::NoEntry)));
}

#[test]
fn clear_twice_is_no_error() {
    let mut store = CredentialStore::new();
    store.put("secret").unwrap();
    assert!(store.clear().is_ok());
    assert!(store.clear().is_ok());
    assert!(matches!(store.get(), Err(StoreError::NoEntry)));
    let mut empty = CredentialStore::new();
    assert!(empty.clear().is_ok());
    assert!(empty.clear().is_ok());
}

#[test]
fn clear_removes_the_legacy_file_too() {
    let mut store = CredentialStore::with_legacy_file("old-token");
    store.clear().unwrap();
    store.migrate();
    assert!(matches!(store.get(), Err(StoreError::NoEntry)));
}

#[test]
fn migration_moves_the_trimmed_token_into_the_store() {
    let mut store = CredentialStore::with_legacy_file("  legacy-token\n");
    store.migrate();
    assert_eq!(store.get().unwrap(), "legacy-token");
    store.put("newer").unwrap();
    store.migrate();
    assert_eq!(store.get().unwrap(), "newer");
}

#[test]
fn migration_of_a_blank_file_writes_nothing() {
    let mut store = CredentialStore::with_legacy_file(" \n\t");
    store.put("kept").unwrap();
    store.migrate();
    assert_eq!(store.get().unwrap(), "kept");
    let mut empty = CredentialStore::with_legacy_file("");
    empty.migrate();
    assert!(matches!(empty.get(), Err(StoreError::NoEntry)));
}

#[test]
fn migration_without_a_file_changes_nothing() {
    let mut store = CredentialStore::new();
    store.migrate();
    assert!(matches!(store.get(), Err(StoreError::NoEntry)));
}

#[test]
fn migration_plans() {
    assert!(matches!(plan_migration(None), Migration::Nothing));
    assert!(matches!(plan_migration(Some("")), Migration::RemoveFile));
    assert!(matches!(plan_migration(Some(" \r\n")), Migration::RemoveFile));
    match plan_migration(Some("\ttoken value \n")) {
        Migration::StoreThenRemoveFile { token } => assert_eq!(token, "token value"),
        other => panic!("unexpected plan: {:?}", other),
    }
}

#[test]
fn clearing_a_missing_entry_is_no_error() {
    assert!(clear_keychain_entry(DeleteOutcome::Deleted).is_ok());
    assert!(clear_keychain_entry(DeleteOutcome::NoEntry).is_ok());
}

#[test]
fn a_failing_vault_is_an_error() {
    match clear_keychain_entry(DeleteOutcome::Failed { reason: "locked".to_string() }) {
        Err(AuthError::CredentialStore { reason }) => {
            assert_eq!(reason, "Failed to clear keyring: locked")
        }
        other => panic!("unexpected result: {:?}", other),
    }
}
