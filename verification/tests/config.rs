use esp_http_async::{Configuration, FollowRedirectsPolicy};

#[test]
fn default_policy_follows_get_and_head() {
    let c = Configuration::default();
    assert_eq!(
        c.follow_redirects_policy,
        FollowRedirectsPolicy::FollowGetHead
    );
    assert_eq!(c.buffer_size, None);
    assert_eq!(c.buffer_size_tx, None);
    assert_eq!(c.timeout_ms, None);
    assert!(!c.use_global_ca_store);
}

#[test]
fn native_config_copies_plain_fields() {
    let mut c = Configuration::default();
    c.buffer_size = Some(1024);
    c.buffer_size_tx = Some(512);
    c.timeout_ms = Some(5000);
    c.use_global_ca_store = true;
    let n = c.to_native();
    assert_eq!(n.url, "http://127.0.0.1");
    assert_eq!(n.buffer_size, Some(1024));
    assert_eq!(n.buffer_size_tx, Some(512));
    assert_eq!(n.timeout_ms, Some(5000));
    assert!(n.use_global_ca_store);
    assert!(n.is_async);
}

#[test]
fn certificate_needs_its_private_key() {
    let mut c = Configuration::default();
    c.client_certificate = Some(vec![1, 2, 3]);
    let n = c.to_native();
    assert_eq!(n.client_cert_pem, None);
    assert_eq!(n.client_key_pem, None);

    c.private_key = Some(vec![4, 5]);
    let n = c.to_native();
    assert_eq!(n.client_cert_pem, Some(vec![1, 2, 3]));
    assert_eq!(n.client_key_pem, Some(vec![4, 5]));
}

#[test]
fn key_alone_configures_nothing() {
    let mut c = Configuration::default();
    c.private_key = Some(vec![9]);
    let n = c.to_native();
    assert_eq!(n.client_cert_pem, None);
    assert_eq!(n.client_key_pem, None);
}
