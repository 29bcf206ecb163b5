use shrt::errors::ServiceError;
use shrt::links::LinkCreateRequest;
use shrt::registry::{
    create_link, create_link_with, get_link, get_links, redirect_to_link, remove_link,
};
use shrt::slug::{alphabet, generate_slug};
use shrt::store::{LinkDb, LinkDbError};

fn request(slug: Option<&str>, url: &str) -> LinkCreateRequest {
    LinkCreateRequest { slug: slug.map(|s| s.to_string()), url: url.to_string() }
}

fn is_slug_symbol(c: char) -> bool {
    ('2'..='9').contains(&c)
        || (c.is_ascii_uppercase() && c != 'I' && c != 'O')
        || (c.is_ascii_lowercase() && c != 'l' && c != 'o')
}

#[test]
fn generated_slug_scenario() {
    let mut db = LinkDb::new();
    let link = create_link(&mut db, request(None, "https://example.com")).unwrap();
    assert_eq!(link.slug.chars().count(), 7);
    assert!(link.slug.chars().all(is_slug_symbol));
    assert_eq!(link.visits, 0);
    assert_eq!(link.url, "https://example.com");

    for _ in 0..3 {
        assert_eq!(redirect_to_link(&mut db, &link.slug).unwrap(), "https://example.com");
    }
    assert_eq!(get_link(&db, &link.slug).unwrap().visits, 3);

    let again = create_link(&mut db, request(Some(&link.slug), "https://other.example"));
    match again {
        Err(e) => {
            let service = ServiceError::from(e);
            assert_eq!(service.http_status, 400);
            assert_eq!(service.error, "Link already exists");
        }
        Ok(_) => panic!("a taken slug was accepted"),
    }
}

#[test]
fn empty_listing_scenario() {
    let db = LinkDb::new();
    let page = get_links(&db, Some(1), None);
    assert_eq!(page.page, 1);
    assert_eq!(page.links_per_page, 30);
    assert_eq!(page.num_pages, 0);
    assert!(page.links.is_empty());
}

#[test]
fn concurrent_creates_one_wins() {
    let mut db = LinkDb::new();
    let mut successes = 0;
    let mut conflicts = 0;
    for i in 0..5 {
        match create_link(&mut db, request(Some("same"), &format!("https://e{}.example", i))) {
            Ok(_) => successes += 1,
            Err(LinkDbError::Conflict { slug }) => {
                assert_eq!(slug, "same");
                conflicts += 1
            }
            Err(_) => panic!("unexpected error"),
        }
    }
    assert_eq!(successes, 1);
    assert_eq!(conflicts, 4);
    assert_eq!(get_link(&db, "same").unwrap().url, "https://e0.example");
}

#[test]
fn redirects_count_every_visit() {
    let mut db = LinkDb::new();
    create_link_with(&mut db, "go".to_string(), "https://go.example".to_string(), 10).unwrap();
    for _ in 0..25 {
        redirect_to_link(&mut db, "go").unwrap();
    }
    assert_eq!(get_link(&db, "go").unwrap().visits, 25);
}

#[test]
fn redirect_to_missing_is_not_found() {
    let mut db = LinkDb::new();
    match redirect_to_link(&mut db, "nope") {
        Err(e) => {
            let service = ServiceError::from(e);
            assert_eq!(service.http_status, 404);
            assert_eq!(service.message.as_deref(), Some("Link with slug nope not found"));
        }
        Ok(_) => panic!("missing slug redirected"),
    }
}

#[test]
fn delete_twice() {
    let mut db = LinkDb::new();
    create_link_with(&mut db, "bye".to_string(), "https://bye.example".to_string(), 1).unwrap();
    assert!(remove_link(&mut db, "bye").is_ok());
    match remove_link(&mut db, "bye") {
        Err(LinkDbError::NotFound { slug }) => assert_eq!(slug, "bye"),
        _ => panic!("second delete did not report not found"),
    }
    assert!(get_link(&db, "bye").is_err());
}

#[test]
fn listing_is_newest_first_and_paged() {
    let mut db = LinkDb::new();
    for (slug, at) in [("a", 10), ("b", 30), ("c", 20), ("d", 30), ("e", 5)] {
        create_link_with(&mut db, slug.to_string(), "https://x.example".to_string(), at).unwrap();
    }
    let page1 = get_links(&db, Some(1), Some(2));
    let slugs: Vec<&str> = page1.links.iter().map(|l| l.slug.as_str()).collect();
    assert_eq!(slugs, vec!["d", "b"]);
    assert_eq!(page1.num_pages, 3);
    let page3 = get_links(&db, Some(3), Some(2));
    let slugs: Vec<&str> = page3.links.iter().map(|l| l.slug.as_str()).collect();
    assert_eq!(slugs, vec!["e"]);
    let page2 = get_links(&db, Some(2), Some(2));
    let slugs: Vec<&str> = page2.links.iter().map(|l| l.slug.as_str()).collect();
    assert_eq!(slugs, vec!["c", "a"]);
}

#[test]
fn page_past_the_end_is_empty() {
    let mut db = LinkDb::new();
    create_link_with(&mut db, "only".to_string(), "https://x.example".to_string(), 1).unwrap();
    let page = get_links(&db, Some(5), Some(10));
    assert_eq!(page.num_pages, 1);
    assert_eq!(page.page, 5);
    assert!(page.links.is_empty());
    let huge = get_links(&db, Some(u64::MAX), Some(u64::MAX));
    assert!(huge.links.is_empty());
    assert_eq!(huge.num_pages, 1);
}

#[test]
fn zero_page_parameters_are_raised_to_one() {
    let mut db = LinkDb::new();
    create_link_with(&mut db, "a".to_string(), "https://x.example".to_string(), 2).unwrap();
    create_link_with(&mut db, "b".to_string(), "https://x.example".to_string(), 1).unwrap();
    let page = get_links(&db, Some(0), Some(0));
    assert_eq!(page.page, 1);
    assert_eq!(page.links_per_page, 1);
    assert_eq!(page.num_pages, 2);
    assert_eq!(page.links.len(), 1);
    assert_eq!(page.links[0].slug, "a");
}

#[test]
fn generated_slugs_use_the_alphabet() {
    let symbols = alphabet();
    assert_eq!(symbols.len(), 56);
    for c in ['0', '1', 'O', 'o', 'I', 'l'] {
        assert!(!symbols.contains(&c));
    }
    for _ in 0..20 {
        let s = generate_slug();
        assert_eq!(s.len(), 7);
        assert!(s.chars().all(|c| symbols.contains(&c)));
    }
}

#[test]
fn store_failure_hides_details() {
    let service = ServiceError::from(LinkDbError::VisitsOverflow { slug: "x".to_string() });
    assert_eq!(service.http_status, 500);
    assert_eq!(service.message, None);
    assert_eq!(service.display_text(), "Error `Internal server error`: <no message>");
}

#[test]
fn display_text_with_message() {
    let service = ServiceError::from(LinkDbError::NotFound { slug: "abc".to_string() });
    assert_eq!(service.display_text(), "Error `Link not found`: Link with slug abc not found");
}
