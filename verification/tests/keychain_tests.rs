use servicebus_client::keychain;

#[test]
fn fallback_store_refuses_direct_use() {
    assert!(keychain::fallback::store_connection_string("id", "cs", "name").is_err());
    assert!(keychain::fallback::get_connection_string("id").is_err());
    assert!(keychain::fallback::delete_connection_string("id").is_err());
}

#[test]
fn fallback_listing_is_empty() {
    assert_eq!(keychain::fallback::list_connection_ids().unwrap().len(), 0);
}

#[test]
fn macos_store_refuses_direct_use() {
    assert!(keychain::macos::store_connection_string("id", "cs", "name").is_err());
    assert!(keychain::macos::get_connection_string("id").is_err());
    assert!(keychain::macos::delete_connection_string("id").is_err());
    assert_eq!(keychain::macos::list_connection_ids().unwrap().len(), 0);
}
