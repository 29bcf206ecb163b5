use shrt::links::Link;
use shrt::store::{LinkDb, LinkDbError};

fn link(slug: &str, at: i64) -> Link {
    Link { slug: slug.to_string(), url: format!("https://{}.example", slug), created_at: at, visits: 0 }
}

#[test]
fn store_insert_enforces_uniqueness() {
    let mut db = LinkDb::new();
    assert!(!db.slug_exists("k"));
    assert_eq!(db.create_link(link("k", 1)).unwrap().slug, "k");
    assert!(db.slug_exists("k"));
    assert!(!db.slug_exists("kk"));
    match db.create_link(link("k", 2)) {
        Err(LinkDbError::Conflict { slug }) => assert_eq!(slug, "k"),
        _ => panic!("duplicate slug stored"),
    }
    assert_eq!(db.count(), 1);
    assert_eq!(db.find_link_by_slug("k").unwrap().created_at, 1);
}

#[test]
fn store_scan_and_pages() {
    let mut db = LinkDb::new();
    for (slug, at) in [("a", 1), ("b", 2), ("c", 3)] {
        db.create_link(link(slug, at)).unwrap();
    }
    let all: Vec<String> = db.links_in_range(0, 10).into_iter().map(|l| l.slug).collect();
    assert_eq!(all, vec!["c", "b", "a"]);
    let mid: Vec<String> = db.links_in_range(1, 1).into_iter().map(|l| l.slug).collect();
    assert_eq!(mid, vec!["b"]);
    assert!(db.links_in_range(3, 5).is_empty());
    assert!(db.links_in_range(u64::MAX, u64::MAX).is_empty());
    let (page, pages) = db.find_links_in_page(2, 2);
    assert_eq!(pages, 2);
    assert_eq!(page.len(), 1);
    assert_eq!(page[0].slug, "a");
}

#[test]
fn store_increment_and_delete() {
    let mut db = LinkDb::new();
    db.create_link(link("v", 7)).unwrap();
    db.increment_visits("v").unwrap();
    db.increment_visits("v").unwrap();
    assert_eq!(db.find_link_by_slug("v").unwrap().visits, 2);
    match db.increment_visits("w") {
        Err(LinkDbError::NotFound { slug }) => assert_eq!(slug, "w"),
        _ => panic!("missing slug incremented"),
    }
    db.delete_link_by_slug("v").unwrap();
    assert_eq!(db.count(), 0);
    assert!(db.find_link_by_slug("v").is_err());
}
