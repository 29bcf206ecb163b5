use shrt::client::{api_url, ShrtApi};

#[test]
fn api_url_default_and_configured() {
    assert_eq!(api_url(None), "/api");
    assert_eq!(api_url(Some("https://s.example/api")), "https://s.example/api");
}

#[test]
fn link_urls_encode_the_slug() {
    assert_eq!(ShrtApi::link_url("/api", "abc-1"), "/api/links/abc-1");
    assert_eq!(ShrtApi::link_url("/api", "a b/c"), "/api/links/a%20b%2Fc");
    assert_eq!(ShrtApi::link_exists_url("/api", "x?y"), "/api/links/x%3Fy/exists");
}

#[test]
fn listing_url_defaults() {
    assert_eq!(ShrtApi::links_url("/api", None, None), "/api/links?page=1&links_per_page=10");
    assert_eq!(
        ShrtApi::links_url("/api", Some(12), Some(305)),
        "/api/links?page=12&links_per_page=305"
    );
    assert_eq!(ShrtApi::create_url("/api"), "/api/links");
}

#[test]
fn shorten_request_empty_slug_is_generated() {
    let r = ShrtApi::shorten_request("https://example.com", "");
    assert_eq!(r.url, "https://example.com");
    assert!(r.slug.is_none());
    let r = ShrtApi::shorten_request("https://example.com", "mine");
    assert_eq!(r.slug.as_deref(), Some("mine"));
}
