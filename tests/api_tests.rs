use shrt::links::LinkCreateRequest;
use shrt::registry::{create_link, get_link, link_exists};
use shrt::store::LinkDb;

#[test]
fn test_create_and_get_link() {
    let mut db = LinkDb::new();

    let create_request = LinkCreateRequest {
        slug: Some("test-slug".to_string()),
        url: "https://example.com".to_string(),
    };
    let link = create_link(&mut db, create_request).expect("Request failed");
    assert_eq!(link.slug, "test-slug");
    assert_eq!(link.url, "https://example.com");

    let link = get_link(&db, "test-slug").expect("Request failed");
    assert_eq!(link.slug, "test-slug");
}

#[test]
fn test_link_exists() {
    let mut db = LinkDb::new();

    let exists = link_exists(&db, "missing");
    assert!(!exists.exists);

    let create_request = LinkCreateRequest {
        slug: Some("existing".to_string()),
        url: "https://example.com".to_string(),
    };
    create_link(&mut db, create_request).unwrap();

    let exists = link_exists(&db, "existing");
    assert!(exists.exists);
}
