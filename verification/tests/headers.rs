use esp_http_async::HeaderStore;

#[test]
fn round_trip_in_any_casing() {
    let mut store = HeaderStore::new();
    store.insert("Content-Type".to_string(), "text/html".to_string());
    assert_eq!(store.get("content-type"), Some("text/html"));
    assert_eq!(store.get("CONTENT-TYPE"), Some("text/html"));
    assert_eq!(store.get("Content-Type"), Some("text/html"));
}

#[test]
fn latest_value_for_a_name_wins() {
    let mut store = HeaderStore::new();
    store.insert("X-Count".to_string(), "1".to_string());
    store.insert("x-count".to_string(), "2".to_string());
    store.insert("X-COUNT".to_string(), "3".to_string());
    assert_eq!(store.get("x-Count"), Some("3"));
}

#[test]
fn missing_name_is_absent() {
    let mut store = HeaderStore::new();
    store.insert("Server".to_string(), "esp".to_string());
    assert_eq!(store.get("Location"), None);
}

#[test]
fn clear_forgets_everything() {
    let mut store = HeaderStore::new();
    store.insert("Server".to_string(), "esp".to_string());
    store.clear();
    assert_eq!(store.get("Server"), None);
}

#[test]
fn distinct_names_kept_apart() {
    let mut store = HeaderStore::new();
    store.insert("A".to_string(), "1".to_string());
    store.insert("B".to_string(), "2".to_string());
    assert_eq!(store.get("a"), Some("1"));
    assert_eq!(store.get("b"), Some("2"));
}
