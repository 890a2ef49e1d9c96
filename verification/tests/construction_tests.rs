use roy::Client;

#[test]
fn format_url_concatenates() {
    let c = Client::new("https://httpbin.org".to_string());
    assert_eq!(c.format_url("/test"), "https://httpbin.org/test");
}

#[test]
fn format_url_inserts_no_separator() {
    let c = Client::new("a".to_string());
    assert_eq!(c.format_url("b"), "ab");
    let c = Client::new(String::new());
    assert_eq!(c.format_url("x"), "x");
    let c = Client::new("base".to_string());
    assert_eq!(c.format_url(""), "base");
    let c = Client::new("https://x.io/".to_string());
    assert_eq!(c.format_url("/y"), "https://x.io//y");
}

#[test]
fn new_stores_base_url_verbatim() {
    let c = Client::new("HTTP://ExAmple.com/// ".to_string());
    assert_eq!(c.base_url, "HTTP://ExAmple.com/// ");
    assert!(c.auth.is_none());
}

#[test]
fn new_auth_stores_base_url_verbatim() {
    let c = Client::new_auth("https://httpbin.org".to_string(), "token".to_string());
    assert_eq!(c.base_url, "https://httpbin.org");
}

#[test]
fn new_auth_keeps_acceptable_token() {
    let c = Client::new_auth("https://httpbin.org".to_string(), "Bearer abc123".to_string());
    assert_eq!(c.auth, Some("Bearer abc123".to_string()));
}

#[test]
fn new_auth_still_forms_on_malformed_token() {
    let c = Client::new_auth("https://httpbin.org".to_string(), "bad\ntoken".to_string());
    assert_eq!(c.base_url, "https://httpbin.org");
    assert!(c.auth.is_none());
    let c = Client::new_auth("x".to_string(), "nul\u{0}byte".to_string());
    assert!(c.auth.is_none());
    let c = Client::new_auth("x".to_string(), "del\u{7f}char".to_string());
    assert!(c.auth.is_none());
}

#[test]
fn new_auth_token_edge_values() {
    let c = Client::new_auth("x".to_string(), String::new());
    assert_eq!(c.auth, Some(String::new()));
    let c = Client::new_auth("x".to_string(), "tab\tand space ok".to_string());
    assert_eq!(c.auth, Some("tab\tand space ok".to_string()));
    let c = Client::new_auth("x".to_string(), "caf\u{e9}".to_string());
    assert_eq!(c.auth, Some("caf\u{e9}".to_string()));
}
