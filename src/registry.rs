//! The link registry: create, fetch, existence check, delete, paginated
//! listing and redirect with visit counting, over the link store.
use vstd::prelude::*;

use crate::links::{Link, LinkCreateRequest, LinkExists, LinksResponse};
use crate::pagination::{
    at_least_one, ceil_div, offset_of, resolve_page_request, window, DEFAULT_LINKS_PER_PAGE,
    DEFAULT_PAGE,
};
use crate::slug::{generate_slug, is_generated_slug};
use crate::store::{
    has_slug, lemma_with_link_keeps_table, lemma_with_visit_keeps_table,
    lemma_without_slug_drops, link_table, slug_index, visits_of, with_link,
    with_visit, without_slug, LinkDb, LinkDbError,
};

verus! {

/// The link a create stores: the given slug and URL, created at `created_at`,
/// with no visits yet.
pub open spec fn fresh_link(slug: String, url: String, created_at: i64) -> Link {
    Link { slug, url, created_at, visits: 0 }
}

/// Store contents after an attempt to create `link` on `links`, and whether it
/// succeeded: it does exactly when the slug is free.
pub open spec fn create_outcome(links: Seq<Link>, link: Link) -> (Seq<Link>, bool) {
    if has_slug(links, link.slug@) {
        (links, false)
    } else {
        (with_link(links, link), true)
    }
}

/// Store contents after a redirect through `slug`, and whether it succeeded:
/// it does when the link exists and its counter can still grow.
pub open spec fn redirect_outcome(links: Seq<Link>, slug: Seq<char>) -> (Seq<Link>, bool) {
    if has_slug(links, slug) && visits_of(links, slug) < u64::MAX {
        (with_visit(links, slug), true)
    } else {
        (links, false)
    }
}

/// Store contents after deleting `slug`, and whether a link was removed.
pub open spec fn delete_outcome(links: Seq<Link>, slug: Seq<char>) -> (Seq<Link>, bool) {
    if has_slug(links, slug) {
        (without_slug(links, slug), true)
    } else {
        (links, false)
    }
}

/// Relies on `chrono::Utc::now`: the current time, read as milliseconds since
/// the Unix epoch. Nothing is known of the value.
#[verifier::external_body]
fn now_millis() -> i64 {
    chrono::Utc::now().timestamp_millis()
}

/// Creates a link with slug `slug` to `url`, created at `created_at`.
///
/// An existence check rejects a taken slug early; the store's insert, which
/// refuses a taken slug whatever happened before, decides in the end.
pub fn create_link_with(db: &mut LinkDb, slug: String, url: String, created_at: i64) -> (r:
    Result<Link, LinkDbError>)
    requires
        old(db).wf(),
    ensures
        final(db).wf(),
        (final(db)@, r is Ok) == create_outcome(old(db)@, fresh_link(slug, url, created_at)),
        r is Ok ==> r->Ok_0 == fresh_link(slug, url, created_at),
        r is Err ==> r->Err_0.is_conflict_for(slug@),
        has_slug(final(db)@, slug@),
{
    if db.slug_exists(slug.as_str()) {
        return Err(LinkDbError::Conflict { slug });
    }
    db.create_link(Link { slug, url, created_at, visits: 0 })
}

/// Creates a link for `request`: under the slug it asks for, or under a newly
/// generated one when it asks for none, stamped with the current time.
pub fn create_link(db: &mut LinkDb, request: LinkCreateRequest) -> (r: Result<Link, LinkDbError>)
    requires
        old(db).wf(),
    ensures
        final(db).wf(),
        match r {
            Ok(link) => {
                &&& !has_slug(old(db)@, link.slug@)
                &&& final(db)@ == with_link(old(db)@, link)
                &&& link.url == request.url
                &&& link.visits == 0
                &&& match request.slug {
                    Some(s) => link.slug == s,
                    None => is_generated_slug(link.slug@),
                }
            },
            Err(e) => {
                &&& final(db)@ == old(db)@
                &&& e matches LinkDbError::Conflict { slug: s }
                &&& has_slug(old(db)@, s@)
                &&& match request.slug {
                    Some(q) => s@ == q@,
                    None => is_generated_slug(s@),
                }
            },
        },
        request.slug matches Some(q) ==> (r is Ok <==> !has_slug(old(db)@, q@)),
        request.slug matches Some(q) ==> has_slug(final(db)@, q@),
{
    let slug = match request.slug {
        Some(s) => s,
        None => generate_slug(),
    };
    let created_at = now_millis();
    create_link_with(db, slug, request.url, created_at)
}

/// The link with slug `slug`, or the not-found error for it.
pub fn get_link(db: &LinkDb, slug: &str) -> (r: Result<Link, LinkDbError>)
    requires
        db.wf(),
    ensures
        has_slug(db@, slug@) ==> r == Ok::<Link, LinkDbError>(db@[slug_index(db@, slug@)]),
        !has_slug(db@, slug@) ==> r is Err && r->Err_0.is_not_found_for(slug@),
{
    db.find_link_by_slug(slug)
}

/// Whether a link with slug `slug` exists; a missing slug is no error.
pub fn link_exists(db: &LinkDb, slug: &str) -> (r: LinkExists)
    ensures
        r.exists == has_slug(db@, slug@),
{
    LinkExists { exists: db.slug_exists(slug) }
}

/// Deletes the link with slug `slug`, or reports that none exists.
pub fn remove_link(db: &mut LinkDb, slug: &str) -> (r: Result<(), LinkDbError>)
    requires
        old(db).wf(),
    ensures
        final(db).wf(),
        (final(db)@, r is Ok) == delete_outcome(old(db)@, slug@),
        r is Err ==> r->Err_0.is_not_found_for(slug@),
        !has_slug(final(db)@, slug@),
{
    db.delete_link_by_slug(slug)
}

/// One page of links, newest first. A missing page or page size takes its
/// default and 0 is raised to 1; a page past the last one is empty, not an
/// error.
pub fn get_links(db: &LinkDb, page: Option<u64>, links_per_page: Option<u64>) -> (r:
    LinksResponse)
    ensures
        r.page == at_least_one(
            match page {
                Some(p) => p,
                None => DEFAULT_PAGE,
            },
        ),
        r.links_per_page == at_least_one(
            match links_per_page {
                Some(n) => n,
                None => DEFAULT_LINKS_PER_PAGE,
            },
        ),
        r.num_pages == ceil_div(db@.len() as int, r.links_per_page as int),
        r.links@ == window(
            db@,
            offset_of(r.page as int, r.links_per_page as int),
            r.links_per_page as int,
        ),
{
    let (page, links_per_page) = resolve_page_request(page, links_per_page);
    let (links, num_pages) = db.find_links_in_page(page, links_per_page);
    LinksResponse { page, links_per_page, num_pages, links }
}

/// Resolves `slug` to its target URL and counts the visit with one in-place
/// increment in the store.
pub fn redirect_to_link(db: &mut LinkDb, slug: &str) -> (r: Result<String, LinkDbError>)
    requires
        old(db).wf(),
    ensures
        final(db).wf(),
        (final(db)@, r is Ok) == redirect_outcome(old(db)@, slug@),
        r is Ok ==> r->Ok_0 == old(db)@[slug_index(old(db)@, slug@)].url,
        r is Err && !has_slug(old(db)@, slug@) ==> r->Err_0.is_not_found_for(slug@),
        r is Err && has_slug(old(db)@, slug@) ==> r->Err_0.is_overflow_for(slug@),
        r is Ok ==> visits_of(final(db)@, slug@) == visits_of(old(db)@, slug@) + 1,
        has_slug(final(db)@, slug@) == has_slug(old(db)@, slug@),
{
    let link = match db.find_link_by_slug(slug) {
        Ok(link) => link,
        Err(e) => return Err(e),
    };
    match db.increment_visits(slug) {
        Ok(()) => Ok(link.url),
        Err(e) => Err(e),
    }
}

/// Number of creates in `requests`, run in order from `links`, that succeed.
pub open spec fn creates_succeeding(links: Seq<Link>, requests: Seq<Link>) -> nat
    decreases requests.len(),
{
    if requests.len() == 0 {
        0
    } else {
        let (next, ok) = create_outcome(links, requests[0]);
        (if ok {
            1nat
        } else {
            0nat
        }) + creates_succeeding(next, requests.drop_first())
    }
}

/// Creates whose slug is taken all fail and change nothing.
pub proof fn lemma_creates_on_taken_slug_fail(links: Seq<Link>, requests: Seq<Link>, slug: Seq<char>)
    requires
        has_slug(links, slug),
        forall|i: int| 0 <= i < requests.len() ==> (#[trigger] requests[i]).slug@ == slug,
    ensures
        creates_succeeding(links, requests) == 0,
    decreases requests.len(),
{
    if requests.len() > 0 {
        let rest = requests.drop_first();
        assert forall|i: int| 0 <= i < rest.len() implies (#[trigger] rest[i]).slug@ == slug by {
            assert(rest[i] == requests[i + 1]);
        }
        assert(requests[0].slug@ == slug);
        lemma_creates_on_taken_slug_fail(links, rest, slug);
    }
}

/// Of any creates that share one slug, run in any order on a store that lacks
/// the slug, exactly one succeeds; every other one meets the conflict.
pub proof fn lemma_one_create_per_slug(links: Seq<Link>, requests: Seq<Link>, slug: Seq<char>)
    requires
        link_table(links),
        !has_slug(links, slug),
        requests.len() >= 1,
        forall|i: int| 0 <= i < requests.len() ==> (#[trigger] requests[i]).slug@ == slug,
    ensures
        creates_succeeding(links, requests) == 1,
{
    let first = requests[0];
    assert(first.slug@ == slug);
    lemma_with_link_keeps_table(links, first);
    let rest = requests.drop_first();
    assert forall|i: int| 0 <= i < rest.len() implies (#[trigger] rest[i]).slug@ == slug by {
        assert(rest[i] == requests[i + 1]);
    }
    lemma_creates_on_taken_slug_fail(with_link(links, first), rest, slug);
}

/// Store contents after `n` redirects through `slug`, one after another, and
/// how many of them succeeded.
pub open spec fn redirects(links: Seq<Link>, slug: Seq<char>, n: nat) -> (Seq<Link>, nat)
    decreases n,
{
    if n == 0 {
        (links, 0)
    } else {
        let (before, done) = redirects(links, slug, (n - 1) as nat);
        let (after, ok) = redirect_outcome(before, slug);
        (after, done + if ok {
            1nat
        } else {
            0nat
        })
    }
}

/// `n` redirects through an existing slug all succeed and raise its visit
/// count by exactly `n`: no visit is lost and none is counted twice.
pub proof fn lemma_redirects_count_exactly(links: Seq<Link>, slug: Seq<char>, n: nat)
    requires
        link_table(links),
        has_slug(links, slug),
        visits_of(links, slug) + n <= u64::MAX,
    ensures
        redirects(links, slug, n).1 == n,
        visits_of(redirects(links, slug, n).0, slug) == visits_of(links, slug) + n,
        link_table(redirects(links, slug, n).0),
        has_slug(redirects(links, slug, n).0, slug),
    decreases n,
{
    if n > 0 {
        lemma_redirects_count_exactly(links, slug, (n - 1) as nat);
        let before = redirects(links, slug, (n - 1) as nat).0;
        lemma_with_visit_keeps_table(before, slug);
    }
}

/// Deleting one slug twice: the first delete removes the link, the second
/// finds nothing.
pub proof fn lemma_delete_twice(links: Seq<Link>, slug: Seq<char>)
    requires
        link_table(links),
        has_slug(links, slug),
    ensures
        delete_outcome(links, slug).1,
        !delete_outcome(delete_outcome(links, slug).0, slug).1,
{
    lemma_without_slug_drops(links, slug);
}

} // verus!
