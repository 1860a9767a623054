use forest_sdk::client::{bearer_value, network_error, rate_limited, request_url, status_error, transactions_path};
use forest_sdk::ForestError;

#[test]
fn url_joins_with_one_slash() {
    assert_eq!(request_url("https://api.forestprotocols.com", "/v1/x"), "https://api.forestprotocols.com/v1/x");
    assert_eq!(request_url("http://h", "//a"), "http://h/a");
    assert_eq!(request_url("http://h", "a"), "http://h/a");
    assert_eq!(bearer_value("test_key"), "Bearer test_key");
}

#[test]
fn rate_limit_headers() {
    assert!(!rate_limited(false, Some(Some("0"))));
    assert!(!rate_limited(true, None));
    assert!(rate_limited(true, Some(Some("0"))));
    assert!(rate_limited(true, Some(Some("junk"))));
    assert!(rate_limited(true, Some(None)));
    assert!(!rate_limited(true, Some(Some("7"))));
    assert!(rate_limited(true, Some(Some("4294967296"))));
}

#[test]
fn status_maps_to_error_kind() {
    assert_eq!(status_error(200, None), None);
    assert_eq!(status_error(401, Some("bad")), Some(ForestError::AuthenticationError("bad".to_string())));
    assert_eq!(status_error(403, None), Some(ForestError::AuthenticationError("Unknown error".to_string())));
    assert_eq!(status_error(404, Some("x")), Some(ForestError::NotFoundError("x".to_string())));
    assert_eq!(status_error(429, Some("x")), Some(ForestError::RateLimitError("x".to_string())));
    assert_eq!(status_error(502, Some("x")), Some(ForestError::ServerError("x".to_string())));
}

#[test]
fn network_errors() {
    assert_eq!(network_error(true, true, "t".to_string()), ForestError::NetworkError("Request timeout".to_string()));
    assert_eq!(network_error(false, true, "t".to_string()), ForestError::NetworkError("Connection error".to_string()));
    assert_eq!(network_error(false, false, "t".to_string()), ForestError::NetworkError("t".to_string()));
}

#[test]
fn transactions_query() {
    assert_eq!(transactions_path(None), "/v1/transactions");
    let params = vec![("page".to_string(), "2".to_string()), ("limit".to_string(), "10".to_string())];
    assert_eq!(transactions_path(Some(&params)), "/v1/transactions?page=2&limit=10");
}

#[test]
fn errors_render_with_their_label() {
    assert_eq!(ForestError::ValidationError("x".to_string()).to_text(), "Validation error: x");
    assert_eq!(ForestError::AuthenticationError("y".to_string()).message(), "y");
}
