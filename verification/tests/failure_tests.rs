use roy::{Client, RequestMethod};

#[test]
fn unreachable_host_yields_absent_responses() {
    let c = Client::new("http://127.0.0.1:1".to_string());
    assert!(c.get("/get", false).is_none());
    assert!(c.get("/get", true).is_none());
    assert!(c.post("/post", "{}").is_none());
    assert!(c.put("/put", "{}").is_none());
    assert!(c.patch("/patch", "{}").is_none());
    assert!(c.delete("/delete").is_none());
}

#[test]
fn unreachable_host_dispatch_yields_absent_responses() {
    let c = Client::new("http://127.0.0.1:1".to_string());
    assert!(c.request("/get", RequestMethod::GET, None).is_none());
    assert!(c.request("/post", RequestMethod::POST, Some("{}")).is_none());
    assert!(c.request("/put", RequestMethod::PUT, Some("{}")).is_none());
    assert!(c.request("/patch", RequestMethod::PATCH, Some("{}")).is_none());
    assert!(c.request("/delete", RequestMethod::DELETE, None).is_none());
}

#[test]
fn unreachable_host_with_auth_yields_absent_response() {
    let c = Client::new_auth("http://127.0.0.1:1".to_string(), "token".to_string());
    assert!(c.get("/bearer", false).is_none());
}

#[test]
fn malformed_url_yields_absent_response() {
    let c = Client::new("not a url".to_string());
    assert!(c.get("/x", false).is_none());
    assert!(c.post("/x", "{}").is_none());
    assert!(c.delete("/x").is_none());
    assert!(c.get_abs("also not a url", false).is_none());
}
