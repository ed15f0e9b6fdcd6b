use walli::errors::AppError;
use walli::secrets::{clear, delete_outcome, found, get, has, lookup_outcome, KeyringFailure};

fn failure(no_entry: bool, text: &str) -> KeyringFailure {
    KeyringFailure { no_entry, text: text.to_string() }
}

#[test]
fn lookup_outcomes() {
    assert_eq!(lookup_outcome(Ok("k".to_string())), Ok(Some("k".to_string())));
    assert_eq!(lookup_outcome(Err(failure(true, "none"))), Ok(None));
    assert_eq!(
        lookup_outcome(Err(failure(false, "locked"))),
        Err(AppError::Internal("keyring get: locked".to_string()))
    );
}

#[test]
fn delete_outcomes() {
    assert_eq!(delete_outcome(Ok(())), Ok(()));
    assert_eq!(delete_outcome(Err(failure(true, "none"))), Ok(()));
    assert_eq!(
        delete_outcome(Err(failure(false, "denied"))),
        Err(AppError::Internal("keyring delete: denied".to_string()))
    );
}

#[test]
fn found_only_for_a_secret() {
    assert!(found(&Ok(Some("k".to_string()))));
    assert!(!found(&Ok(None)));
    assert!(!found(&Err(AppError::NotFound)));
}

#[test]
fn store_without_the_secret() {
    // a fresh entry of the platform store holds no secret
    assert_eq!(get("walli-test-missing"), Ok(None));
    assert!(!has("walli-test-missing"));
    assert_eq!(clear("walli-test-missing"), Ok(()));
    assert_eq!(walli::secrets::set("walli-test-set", "k"), Ok(()));
}

#[test]
fn entry_is_opened_for_the_service_and_source() {
    let e = walli::secrets::open_entry("unsplash").unwrap();
    assert_eq!(e.service(), "ai.walli.app");
    assert_eq!(e.user(), "unsplash");
}
