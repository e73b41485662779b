use spotify_sync::errors::SyncError;
use spotify_sync::models::Tokens;
use spotify_sync::store::{list_accounts, load_tokens, save_tokens, StoreFile, TokenStore};

fn tokens(tag: &str) -> Tokens {
    Tokens {
        access_token: format!("access-{}", tag),
        refresh_token: format!("refresh-{}", tag),
        expires_in: 3600,
        expires_at: Some(1_700_000_000 + 3600),
    }
}

#[test]
fn save_then_load_round_trips() {
    let saved = tokens("a");
    let doc = save_tokens(StoreFile::Absent, "alice".to_string(), saved.clone()).unwrap();
    let loaded = load_tokens(&StoreFile::Present(doc), &"alice".to_string()).unwrap();
    assert_eq!(loaded, saved);
}

#[test]
fn save_then_load_round_trips_over_existing_document() {
    let first = save_tokens(StoreFile::Absent, "alice".to_string(), tokens("a")).unwrap();
    let second = save_tokens(StoreFile::Present(first), "bob".to_string(), tokens("b")).unwrap();
    let loaded = load_tokens(&StoreFile::Present(second), &"bob".to_string()).unwrap();
    assert_eq!(loaded, tokens("b"));
}

#[test]
fn last_save_under_a_name_wins() {
    let first = save_tokens(StoreFile::Absent, "alice".to_string(), tokens("old")).unwrap();
    let second = save_tokens(StoreFile::Present(first), "alice".to_string(), tokens("new")).unwrap();
    let loaded = load_tokens(&StoreFile::Present(second), &"alice".to_string()).unwrap();
    assert_eq!(loaded, tokens("new"));
}

#[test]
fn list_accounts_on_missing_file_is_empty_and_not_an_error() {
    let names = list_accounts(&StoreFile::Absent).unwrap();
    assert!(names.is_empty());
}

#[test]
fn list_accounts_keeps_document_order() {
    let doc = save_tokens(StoreFile::Absent, "alice".to_string(), tokens("a")).unwrap();
    let doc = save_tokens(StoreFile::Present(doc), "bob".to_string(), tokens("b")).unwrap();
    let names = list_accounts(&StoreFile::Present(doc)).unwrap();
    assert_eq!(names, vec!["alice".to_string(), "bob".to_string()]);
}

#[test]
fn load_unknown_account_fails_with_account_not_found() {
    let doc = save_tokens(StoreFile::Absent, "alice".to_string(), tokens("a")).unwrap();
    let err = load_tokens(&StoreFile::Present(doc), &"bob".to_string()).unwrap_err();
    assert_eq!(err, SyncError::AccountNotFound);
}

#[test]
fn load_without_a_document_fails_with_no_store_file() {
    let err = load_tokens(&StoreFile::Absent, &"alice".to_string()).unwrap_err();
    assert_eq!(err, SyncError::NoStoreFile);
}

#[test]
fn undecodable_document_fails_with_corrupt_store() {
    let err = load_tokens(&StoreFile::Unreadable, &"alice".to_string()).unwrap_err();
    assert_eq!(err, SyncError::CorruptStore);
    let err = save_tokens(StoreFile::Unreadable, "alice".to_string(), tokens("a")).unwrap_err();
    assert_eq!(err, SyncError::CorruptStore);
    let err = list_accounts(&StoreFile::Unreadable).unwrap_err();
    assert_eq!(err, SyncError::CorruptStore);
}

#[test]
fn contains_account_follows_saves() {
    let mut doc = TokenStore::new();
    assert!(!doc.contains_account(&"alice".to_string()));
    doc.insert_account("alice".to_string(), tokens("a"));
    assert!(doc.contains_account(&"alice".to_string()));
    assert!(!doc.contains_account(&"bob".to_string()));
    assert_eq!(doc.get_account(&"alice".to_string()), Some(tokens("a")));
    assert_eq!(doc.get_account(&"bob".to_string()), None);
}
