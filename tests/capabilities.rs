use crossroads::{CapabilityError, Context, Request};

fn request(uri: &str, headers: &[(&str, &str)]) -> Request {
    Request::new(
        "GET".to_string(),
        uri.to_string(),
        headers.iter().map(|(n, v)| (n.to_string(), v.to_string())).collect(),
        Vec::new(),
    )
    .unwrap()
}

fn pairs(list: &[(&str, &str)]) -> Vec<(String, String)> {
    list.iter().map(|(n, v)| (n.to_string(), v.to_string())).collect()
}

#[test]
fn set_header_stores_lowercased_name() {
    let mut ctx = Context::new(request("/", &[]));
    assert_eq!(ctx.set_header("X-Trace".to_string(), "abc".to_string()), Ok(()));
    assert_eq!(ctx.headers(), pairs(&[("x-trace", "abc")]));
}

#[test]
fn repeated_set_header_keeps_one_entry() {
    let mut ctx = Context::new(request("/", &[("host", "example.com")]));
    assert_eq!(ctx.set_header("x-a".to_string(), "1".to_string()), Ok(()));
    assert_eq!(ctx.set_header("X-A".to_string(), "2".to_string()), Ok(()));
    assert_eq!(ctx.set_header("x-a".to_string(), "3".to_string()), Ok(()));
    assert_eq!(ctx.headers(), pairs(&[("host", "example.com"), ("x-a", "3")]));
}

#[test]
fn set_header_collapses_duplicates_in_place() {
    let mut ctx = Context::new(request(
        "/",
        &[("accept", "a"), ("x-other", "1"), ("accept", "b"), ("x-last", "2")],
    ));
    assert_eq!(ctx.set_header("Accept".to_string(), "c".to_string()), Ok(()));
    assert_eq!(
        ctx.headers(),
        pairs(&[("accept", "c"), ("x-other", "1"), ("x-last", "2")])
    );
}

#[test]
fn set_header_rejects_invalid_name() {
    let mut ctx = Context::new(request("/", &[("host", "h")]));
    assert_eq!(
        ctx.set_header("bad name".to_string(), "v".to_string()),
        Err(CapabilityError::InvalidHeaderName)
    );
    assert_eq!(
        ctx.set_header(String::new(), "v".to_string()),
        Err(CapabilityError::InvalidHeaderName)
    );
    assert_eq!(ctx.headers(), pairs(&[("host", "h")]));
}

#[test]
fn set_header_rejects_invalid_value() {
    let mut ctx = Context::new(request("/", &[("host", "h")]));
    assert_eq!(
        ctx.set_header("x-a".to_string(), "line\nbreak".to_string()),
        Err(CapabilityError::InvalidHeaderValue)
    );
    assert_eq!(ctx.headers(), pairs(&[("host", "h")]));
    assert_eq!(ctx.set_header("x-a".to_string(), "tab\there".to_string()), Ok(()));
}

#[test]
fn set_uri_replaces_uri() {
    let mut ctx = Context::new(request("/anything", &[]));
    assert_eq!(ctx.uri(), "/anything");
    assert_eq!(ctx.set_uri("http://example.com/path?q=1".to_string()), Ok(()));
    assert_eq!(ctx.uri(), "http://example.com/path?q=1");
}

#[test]
fn set_uri_stores_parsed_form() {
    let mut ctx = Context::new(request("/", &[]));
    assert_eq!(ctx.set_uri("HTTP://example.com/a".to_string()), Ok(()));
    assert_eq!(ctx.uri(), "http://example.com/a");
}

#[test]
fn set_uri_invalid_keeps_previous_uri() {
    let mut ctx = Context::new(request("/before", &[]));
    assert_eq!(
        ctx.set_uri("http://exa mple.com/".to_string()),
        Err(CapabilityError::InvalidUri)
    );
    assert_eq!(ctx.set_uri(String::new()), Err(CapabilityError::InvalidUri));
    assert_eq!(ctx.uri(), "/before");
}

#[test]
fn capability_error_messages() {
    assert_eq!(CapabilityError::InvalidHeaderName.message(), "invalid header name");
    assert_eq!(CapabilityError::InvalidHeaderValue.message(), "invalid header value");
    assert_eq!(CapabilityError::InvalidUri.message(), "invalid uri");
}

#[test]
fn into_request_returns_changed_request() {
    let mut ctx = Context::new(request("/a", &[]));
    assert_eq!(ctx.set_header("x-a".to_string(), "1".to_string()), Ok(()));
    assert_eq!(ctx.set_uri("/b".to_string()), Ok(()));
    let r = ctx.into_request();
    assert_eq!(r.method(), "GET");
    assert_eq!(r.uri(), "/b");
    assert_eq!(r.headers(), &pairs(&[("x-a", "1")]));
}

#[test]
fn request_stores_names_lowercased() {
    let r = request("/", &[("X-A", "1"), ("Host", "h")]);
    assert_eq!(r.headers(), &pairs(&[("x-a", "1"), ("host", "h")]));
}

#[test]
fn spellings_of_one_name_collapse() {
    let mut ctx = Context::new(request("/", &[("X-A", "1"), ("x-b", "2"), ("x-a", "3")]));
    assert_eq!(ctx.set_header("x-a".to_string(), "4".to_string()), Ok(()));
    assert_eq!(ctx.headers(), pairs(&[("x-a", "4"), ("x-b", "2")]));
}

#[test]
fn request_refuses_invalid_headers() {
    let bad_name = Request::new("GET".to_string(), "/".to_string(), pairs(&[("bad name", "v")]), Vec::new());
    assert_eq!(bad_name, Err(CapabilityError::InvalidHeaderName));
    let bad_value = Request::new("GET".to_string(), "/".to_string(), pairs(&[("x-a", "a\rb")]), Vec::new());
    assert_eq!(bad_value, Err(CapabilityError::InvalidHeaderValue));
}

#[test]
fn last_setting_wins_among_other_names() {
    let mut ctx = Context::new(request("/", &[("x-a", "0")]));
    for (n, v) in [("x-a", "1"), ("x-b", "2"), ("X-A", "3"), ("x-c", "4"), ("X-B", "5")] {
        assert_eq!(ctx.set_header(n.to_string(), v.to_string()), Ok(()));
    }
    assert_eq!(ctx.headers(), pairs(&[("x-a", "3"), ("x-b", "5"), ("x-c", "4")]));
}
