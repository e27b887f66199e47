use esp_http_async::{
    Configuration, EngineResponse, EspHttpConnection, FollowRedirectsPolicy, Method,
};

fn hdrs(pairs: &[(&str, &str)]) -> Vec<(String, String)> {
    pairs.iter().map(|(n, v)| (n.to_string(), v.to_string())).collect()
}

fn resp(
    fetch_result: i32,
    status: u16,
    headers: &[(&str, &str)],
    content_length: i64,
) -> EngineResponse {
    EngineResponse {
        fetch_result,
        status,
        headers: hdrs(headers),
        content_length,
    }
}

fn config_with(policy: FollowRedirectsPolicy) -> Configuration {
    let mut c = Configuration::default();
    c.follow_redirects_policy = policy;
    c
}

#[test]
fn request_records_declared_content_length() {
    let mut conn = EspHttpConnection::new(&Configuration::default());
    let len = conn.initiate_request(Method::Post, &hdrs(&[("Content-Length", "42")]));
    assert_eq!(len, 42);
    assert!(conn.is_request_initiated());
    assert!(!conn.is_response_initiated());
}

#[test]
fn last_parseable_content_length_wins() {
    let mut conn = EspHttpConnection::new(&Configuration::default());
    let len = conn.initiate_request(
        Method::Put,
        &hdrs(&[
            ("Content-Length", "10"),
            ("content-length", "nope"),
            ("CONTENT-LENGTH", "+7"),
        ]),
    );
    assert_eq!(len, 7);
}

#[test]
fn unparseable_content_length_defaults_to_zero() {
    let mut conn = EspHttpConnection::new(&Configuration::default());
    let len = conn.initiate_request(
        Method::Post,
        &hdrs(&[("Content-Length", "99999999999999999999")]),
    );
    assert_eq!(len, 0);
}

#[test]
fn post_with_follow_get_head_does_not_follow() {
    let mut conn = EspHttpConnection::new(&config_with(FollowRedirectsPolicy::FollowGetHead));
    conn.initiate_request(Method::Post, &hdrs(&[]));
    assert!(!conn.follows_redirects());
    // a redirect status is then terminal: the loop exits after one attempt
    let attempts = vec![resp(0, 301, &[("Location", "http://other/")], -1)];
    assert!(conn.initiate_response(&attempts).is_ok());
    assert!(conn.is_response_initiated());
    assert_eq!(conn.status(), 301);
}

#[test]
fn get_with_follow_get_head_follows() {
    let mut conn = EspHttpConnection::new(&config_with(FollowRedirectsPolicy::FollowGetHead));
    conn.initiate_request(Method::Get, &hdrs(&[]));
    assert!(conn.follows_redirects());
}

#[test]
fn head_with_follow_get_head_follows() {
    let mut conn = EspHttpConnection::new(&config_with(FollowRedirectsPolicy::FollowGetHead));
    conn.initiate_request(Method::Head, &hdrs(&[]));
    assert!(conn.follows_redirects());
}

#[test]
fn follow_all_follows_post() {
    let mut conn = EspHttpConnection::new(&config_with(FollowRedirectsPolicy::FollowAll));
    conn.initiate_request(Method::Post, &hdrs(&[]));
    assert!(conn.follows_redirects());
}

#[test]
fn follow_none_never_follows() {
    let mut conn = EspHttpConnection::new(&config_with(FollowRedirectsPolicy::FollowNone));
    conn.initiate_request(Method::Get, &hdrs(&[]));
    assert!(!conn.follows_redirects());
}

#[test]
fn redirect_chain_ends_at_final_response() {
    let mut conn = EspHttpConnection::new(&Configuration::default());
    conn.initiate_request(Method::Get, &hdrs(&[]));
    let attempts = vec![
        resp(0, 301, &[("a", "1")], -1),
        resp(0, 302, &[("b", "2")], -1),
        resp(2, 200, &[("Server", "esp")], 5),
    ];
    assert!(conn.initiate_response(&attempts).is_ok());
    assert!(conn.is_response_initiated());
    assert_eq!(conn.status(), 200);
    // the store reflects only the final response's headers
    assert_eq!(conn.header("SERVER").as_deref(), Some("esp"));
    assert_eq!(conn.header("a"), None);
    assert_eq!(conn.header("b"), None);
}

#[test]
fn not_modified_is_not_followed() {
    let mut conn = EspHttpConnection::new(&Configuration::default());
    conn.initiate_request(Method::Get, &hdrs(&[]));
    let attempts = vec![resp(0, 304, &[("ETag", "x")], -1)];
    assert!(conn.initiate_response(&attempts).is_ok());
    assert_eq!(conn.status(), 304);
    assert_eq!(conn.header("etag").as_deref(), Some("x"));
}

#[test]
fn fetch_failure_propagates_code() {
    let mut conn = EspHttpConnection::new(&Configuration::default());
    conn.initiate_request(Method::Get, &hdrs(&[]));
    let attempts = vec![resp(-28672, 0, &[], -1)];
    let r = conn.initiate_response(&attempts);
    assert_eq!(r.unwrap_err().code(), -28672);
    assert!(!conn.is_response_initiated());
    assert!(conn.active_handler().is_none());
}

#[test]
fn failure_after_redirect_propagates() {
    let mut conn = EspHttpConnection::new(&Configuration::default());
    conn.initiate_request(Method::Get, &hdrs(&[]));
    let attempts = vec![resp(0, 307, &[], -1), resp(-1, 0, &[], -1)];
    let r = conn.initiate_response(&attempts);
    assert_eq!(r.unwrap_err().code(), -1);
}

#[test]
fn handler_slot_empty_after_response() {
    let mut conn = EspHttpConnection::new(&Configuration::default());
    conn.initiate_request(Method::Get, &hdrs(&[]));
    let attempts = vec![resp(0, 200, &[], -1)];
    assert!(conn.initiate_response(&attempts).is_ok());
    assert!(conn.active_handler().is_none());
}

#[test]
fn handler_registration_replaces_active_one() {
    let mut conn = EspHttpConnection::new(&Configuration::default());
    conn.register_handler(5);
    conn.register_handler(7);
    assert_eq!(conn.active_handler(), Some(7));
    conn.deregister_handler();
    assert_eq!(conn.active_handler(), None);
}

#[test]
fn content_length_header_is_cached() {
    let mut conn = EspHttpConnection::new(&Configuration::default());
    conn.initiate_request(Method::Get, &hdrs(&[]));
    let attempts = vec![resp(0, 200, &[], 42)];
    assert!(conn.initiate_response(&attempts).is_ok());
    assert_eq!(conn.header("Content-Length").as_deref(), Some("42"));
    // a later query in the same response answers from the cache
    assert_eq!(conn.header("content-LENGTH").as_deref(), Some("42"));
}

#[test]
fn unknown_content_length_is_absent() {
    let mut conn = EspHttpConnection::new(&Configuration::default());
    conn.initiate_request(Method::Get, &hdrs(&[]));
    // the engine's accessor decides, not a stored header
    let attempts = vec![resp(0, 200, &[("Content-Length", "99")], -1)];
    assert!(conn.initiate_response(&attempts).is_ok());
    assert_eq!(conn.header("Content-Length"), None);
    assert_eq!(conn.header("Content-Length"), None);
}

#[test]
fn duplicate_response_header_last_wins() {
    let mut conn = EspHttpConnection::new(&Configuration::default());
    conn.initiate_request(Method::Get, &hdrs(&[]));
    let attempts = vec![resp(0, 200, &[("X-Tag", "one"), ("x-tag", "two")], -1)];
    assert!(conn.initiate_response(&attempts).is_ok());
    assert_eq!(conn.header("X-TAG").as_deref(), Some("two"));
}

#[test]
fn status_message_is_absent() {
    let mut conn = EspHttpConnection::new(&Configuration::default());
    conn.initiate_request(Method::Get, &hdrs(&[]));
    let attempts = vec![resp(0, 200, &[], -1)];
    assert!(conn.initiate_response(&attempts).is_ok());
    assert_eq!(conn.status_message(), None);
}

#[test]
fn write_and_flush_in_request_phase() {
    let mut conn = EspHttpConnection::new(&Configuration::default());
    conn.initiate_request(Method::Post, &hdrs(&[("Content-Length", "3")]));
    assert_eq!(conn.write(3), Ok(3));
    assert_eq!(conn.write(-3).unwrap_err().code(), -3);
    assert!(conn.flush().is_ok());
}

#[test]
fn read_in_response_phase() {
    let mut conn = EspHttpConnection::new(&Configuration::default());
    conn.initiate_request(Method::Get, &hdrs(&[]));
    let attempts = vec![resp(0, 200, &[], 4)];
    assert!(conn.initiate_response(&attempts).is_ok());
    assert_eq!(conn.read(4), Ok(4));
    assert_eq!(conn.read(0), Ok(0));
    assert_eq!(conn.read(-5).unwrap_err().code(), -5);
}
