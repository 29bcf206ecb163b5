//! An embedded link store: point lookup by slug, existence check, insert that
//! enforces slug uniqueness, in-place visit increment, deletion, count, and a
//! scan in listing order (newest first).
use vstd::prelude::*;

use crate::links::Link;
use crate::pagination::{ceil_div, offset_of, window, paginate};

verus! {

/// Whether some link in `links` has the slug `slug`.
pub open spec fn has_slug(links: Seq<Link>, slug: Seq<char>) -> bool {
    exists|i: int| 0 <= i < links.len() && #[trigger] links[i].slug@ == slug
}

/// No two links share a slug.
pub open spec fn slugs_unique(links: Seq<Link>) -> bool {
    forall|i: int, j: int|
        0 <= i < links.len() && 0 <= j < links.len() && i != j ==> #[trigger] links[i].slug@
            != #[trigger] links[j].slug@
}

/// Links are in listing order: creation time never increases along the sequence.
pub open spec fn newest_first(links: Seq<Link>) -> bool {
    forall|i: int, j: int|
        0 <= i < j < links.len() ==> #[trigger] links[j].created_at <= #[trigger] links[i].created_at
}

/// What a well-formed store holds: unique slugs, in listing order.
pub open spec fn link_table(links: Seq<Link>) -> bool {
    slugs_unique(links) && newest_first(links)
}

/// Position of the link with slug `slug`, when there is one.
pub open spec fn slug_index(links: Seq<Link>, slug: Seq<char>) -> int {
    choose|i: int| 0 <= i < links.len() && #[trigger] links[i].slug@ == slug
}

/// Visit count of the link with slug `slug`.
pub open spec fn visits_of(links: Seq<Link>, slug: Seq<char>) -> u64 {
    links[slug_index(links, slug)].visits
}

/// Length of the leading run of links created strictly after `at`.
pub open spec fn newer_count(links: Seq<Link>, at: i64) -> nat
    decreases links.len(),
{
    if links.len() == 0 {
        0
    } else if links[0].created_at > at {
        1 + newer_count(links.drop_first(), at)
    } else {
        0
    }
}

/// `links` with `link` added at its place in listing order: after every link
/// created later, before every link created at the same time or earlier.
pub open spec fn with_link(links: Seq<Link>, link: Link) -> Seq<Link> {
    links.insert(newer_count(links, link.created_at) as int, link)
}

/// `links` with the visit count of the link with slug `slug` raised by one.
pub open spec fn with_visit(links: Seq<Link>, slug: Seq<char>) -> Seq<Link> {
    let i = slug_index(links, slug);
    links.update(
        i,
        Link {
            slug: links[i].slug,
            url: links[i].url,
            created_at: links[i].created_at,
            visits: (links[i].visits + 1) as u64,
        },
    )
}

/// `links` without the link with slug `slug`.
pub open spec fn without_slug(links: Seq<Link>, slug: Seq<char>) -> Seq<Link> {
    links.remove(slug_index(links, slug))
}

/// A failure of the store or of a lookup in it.
#[derive(Clone, Debug, PartialEq, Eq)]
pub enum LinkDbError {
    /// No link has the slug.
    NotFound { slug: String },
    /// A link with the slug is already stored.
    Conflict { slug: String },
    /// The visit counter of the link is at its largest value.
    VisitsOverflow { slug: String },
}

impl LinkDbError {
    /// Whether this is the not-found error for `slug`.
    pub open spec fn is_not_found_for(self, slug: Seq<char>) -> bool {
        self matches LinkDbError::NotFound { slug: s } && s@ == slug
    }

    /// Whether this is the conflict error for `slug`.
    pub open spec fn is_conflict_for(self, slug: Seq<char>) -> bool {
        self matches LinkDbError::Conflict { slug: s } && s@ == slug
    }

    /// Whether this is the counter-overflow error for `slug`.
    pub open spec fn is_overflow_for(self, slug: Seq<char>) -> bool {
        self matches LinkDbError::VisitsOverflow { slug: s } && s@ == slug
    }

    /// The not-found error for `slug`.
    #[must_use]
    pub fn not_found(slug: String) -> (r: Self)
        ensures
            r.is_not_found_for(slug@),
    {
        LinkDbError::NotFound { slug }
    }
}

/// With unique slugs, the position of a link is the one `slug_index` names.
pub proof fn lemma_slug_index_unique(links: Seq<Link>, slug: Seq<char>, i: int)
    requires
        slugs_unique(links),
        0 <= i < links.len(),
        links[i].slug@ == slug,
    ensures
        has_slug(links, slug),
        slug_index(links, slug) == i,
{
    let j = slug_index(links, slug);
    assert(links[j].slug@ == slug);
}

/// In listing order, the leading run of newer links is all of them.
pub proof fn lemma_newer_count_splits(links: Seq<Link>, at: i64)
    requires
        newest_first(links),
    ensures
        newer_count(links, at) <= links.len(),
        forall|i: int| 0 <= i < newer_count(links, at) ==> #[trigger] links[i].created_at > at,
        forall|i: int|
            newer_count(links, at) <= i < links.len() ==> #[trigger] links[i].created_at <= at,
    decreases links.len(),
{
    if links.len() > 0 {
        let rest = links.drop_first();
        assert(newest_first(rest)) by {
            assert forall|i: int, j: int| 0 <= i < j < rest.len() implies #[trigger] rest[j].created_at
                <= #[trigger] rest[i].created_at by {
                assert(rest[i] == links[i + 1] && rest[j] == links[j + 1]);
            }
        }
        lemma_newer_count_splits(rest, at);
        if links[0].created_at > at {
            assert forall|i: int| 0 <= i < newer_count(links, at) implies #[trigger] links[i].created_at
                > at by {
                if i > 0 {
                    assert(links[i] == rest[i - 1]);
                }
            }
            assert forall|i: int| newer_count(links, at) <= i < links.len() implies #[trigger] links[i].created_at
                <= at by {
                assert(links[i] == rest[i - 1]);
            }
        } else {
            assert forall|i: int| 0 <= i < links.len() implies #[trigger] links[i].created_at
                <= at by {
                if i > 0 {
                    assert(links[i].created_at <= links[0].created_at);
                }
            }
        }
    }
}

/// Adding a link with a fresh slug keeps the table well formed, and the new
/// link is then found under its slug.
pub proof fn lemma_with_link_keeps_table(links: Seq<Link>, link: Link)
    requires
        link_table(links),
        !has_slug(links, link.slug@),
    ensures
        link_table(with_link(links, link)),
        with_link(links, link).len() == links.len() + 1,
        has_slug(with_link(links, link), link.slug@),
        forall|s: Seq<char>| has_slug(links, s) ==> has_slug(with_link(links, link), s),
{
    let k = newer_count(links, link.created_at) as int;
    lemma_newer_count_splits(links, link.created_at);
    links.insert_ensures(k, link);
    let n = with_link(links, link);
    assert(n[k].slug@ == link.slug@);
    assert forall|i: int, j: int|
        0 <= i < n.len() && 0 <= j < n.len() && i != j implies #[trigger] n[i].slug@
        != #[trigger] n[j].slug@ by {
        if i != k {
            let oi = if i < k { i } else { i - 1 };
            assert(n[i] == links[oi]);
        }
        if j != k {
            let oj = if j < k { j } else { j - 1 };
            assert(n[j] == links[oj]);
        }
    }
    assert forall|i: int, j: int| 0 <= i < j < n.len() implies #[trigger] n[j].created_at
        <= #[trigger] n[i].created_at by {
        if i != k {
            let oi = if i < k { i } else { i - 1 };
            assert(n[i] == links[oi]);
        }
        if j != k {
            let oj = if j < k { j } else { j - 1 };
            assert(n[j] == links[oj]);
        }
    }
    assert forall|s: Seq<char>| has_slug(links, s) implies has_slug(n, s) by {
        let i = choose|i: int| 0 <= i < links.len() && #[trigger] links[i].slug@ == s;
        if i < k {
            assert(n[i] == links[i]);
        } else {
            assert(n[i + 1] == links[i]);
        }
    }
}

/// Raising a visit count keeps the table well formed and every slug in place.
pub proof fn lemma_with_visit_keeps_table(links: Seq<Link>, slug: Seq<char>)
    requires
        link_table(links),
        has_slug(links, slug),
    ensures
        link_table(with_visit(links, slug)),
        with_visit(links, slug).len() == links.len(),
        forall|i: int| 0 <= i < links.len() ==> (#[trigger] with_visit(links, slug)[i]).slug
            == links[i].slug,
        has_slug(with_visit(links, slug), slug),
        slug_index(with_visit(links, slug), slug) == slug_index(links, slug),
        visits_of(links, slug) < u64::MAX ==> visits_of(with_visit(links, slug), slug)
            == visits_of(links, slug) + 1,
{
    let i = slug_index(links, slug);
    let n = with_visit(links, slug);
    assert(n[i].slug@ == slug);
    assert forall|a: int, b: int|
        0 <= a < n.len() && 0 <= b < n.len() && a != b implies #[trigger] n[a].slug@
        != #[trigger] n[b].slug@ by {
        assert(n[a].slug == links[a].slug && n[b].slug == links[b].slug);
    }
    assert forall|a: int, b: int| 0 <= a < b < n.len() implies #[trigger] n[b].created_at
        <= #[trigger] n[a].created_at by {
        assert(n[a].created_at == links[a].created_at && n[b].created_at == links[b].created_at);
    }
    lemma_slug_index_unique(n, slug, i);
}

/// Removing the link with a slug leaves no link with that slug behind.
pub proof fn lemma_without_slug_drops(links: Seq<Link>, slug: Seq<char>)
    requires
        slugs_unique(links),
        has_slug(links, slug),
    ensures
        !has_slug(without_slug(links, slug), slug),
        without_slug(links, slug).len() == links.len() - 1,
{
    let i = slug_index(links, slug);
    let rest = without_slug(links, slug);
    links.remove_ensures(i);
    if has_slug(rest, slug) {
        let j = choose|j: int| 0 <= j < rest.len() && #[trigger] rest[j].slug@ == slug;
        let oj = if j < i {
            j
        } else {
            j + 1
        };
        assert(rest[j] == links[oj]);
        assert(links[oj].slug@ != links[i].slug@);
    }
}

/// The link store. Slugs are unique and links are kept newest first.
#[derive(Debug)]
pub struct LinkDb {
    links: Vec<Link>,
}

impl View for LinkDb {
    type V = Seq<Link>;

    closed spec fn view(&self) -> Seq<Link> {
        self.links@
    }
}

impl LinkDb {
    /// The store is well formed: unique slugs, listing order.
    pub open spec fn wf(&self) -> bool {
        link_table(self@)
    }

    /// An empty store.
    pub fn new() -> (r: LinkDb)
        ensures
            r.wf(),
            r@ == Seq::<Link>::empty(),
    {
        LinkDb { links: Vec::new() }
    }

    fn position_of(&self, slug: &String) -> (r: Option<usize>)
        ensures
            match r {
                Some(i) => i < self@.len() && self@[i as int].slug@ == slug@,
                None => !has_slug(self@, slug@),
            },
    {
        let mut i: usize = 0;
        while i < self.links.len()
            invariant
                i <= self.links@.len(),
                forall|j: int| 0 <= j < i ==> (#[trigger] self.links@[j]).slug@ != slug@,
            decreases self.links.len() - i,
        {
            if self.links[i].slug == *slug {
                return Some(i);
            }
            i += 1;
        }
        None
    }

    /// Whether a link with slug `slug` is stored.
    pub fn slug_exists(&self, slug: &str) -> (r: bool)
        ensures
            r == has_slug(self@, slug@),
    {
        let key = slug.to_owned();
        self.position_of(&key).is_some()
    }

    /// The link with slug `slug`, or the not-found error for it.
    pub fn find_link_by_slug(&self, slug: &str) -> (r: Result<Link, LinkDbError>)
        requires
            self.wf(),
        ensures
            has_slug(self@, slug@) ==> r == Ok::<Link, LinkDbError>(
                self@[slug_index(self@, slug@)],
            ),
            !has_slug(self@, slug@) ==> r is Err && r->Err_0.is_not_found_for(slug@),
    {
        let key = slug.to_owned();
        match self.position_of(&key) {
            Some(i) => {
                proof {
                    lemma_slug_index_unique(self@, slug@, i as int);
                }
                Ok(self.links[i].copied())
            },
            None => Err(LinkDbError::not_found(key)),
        }
    }

    /// Stores `link` unless its slug is taken. The uniqueness of slugs is
    /// decided here, at insertion, whatever checks came before.
    pub fn create_link(&mut self, link: Link) -> (r: Result<Link, LinkDbError>)
        requires
            old(self).wf(),
        ensures
            final(self).wf(),
            has_slug(old(self)@, link.slug@) ==> final(self)@ == old(self)@ && r is Err
                && r->Err_0.is_conflict_for(link.slug@),
            !has_slug(old(self)@, link.slug@) ==> final(self)@ == with_link(old(self)@, link) && r
                == Ok::<Link, LinkDbError>(link),
            has_slug(final(self)@, link.slug@),
    {
        if self.position_of(&link.slug).is_some() {
            return Err(LinkDbError::Conflict { slug: link.slug });
        }
        let ghost at = link.created_at;
        proof {
            lemma_newer_count_splits(self@, at);
            lemma_with_link_keeps_table(self@, link);
        }
        let mut k: usize = 0;
        while k < self.links.len() && self.links[k].created_at > link.created_at
            invariant
                k <= self.links@.len(),
                forall|j: int| 0 <= j < k ==> (#[trigger] self.links@[j]).created_at > at,
                at == link.created_at,
            decreases self.links.len() - k,
        {
            k += 1;
        }
        proof {
            let c = newer_count(self@, at) as int;
            if (k as int) < c {
                assert(self@[k as int].created_at > at);
            }
            if c < k as int {
                assert(self@[c].created_at > at);
            }
        }
        let stored = link.copied();
        self.links.insert(k, stored);
        Ok(link)
    }

    /// Raises the visit count of the link with slug `slug` by one, in place.
    pub fn increment_visits(&mut self, slug: &str) -> (r: Result<(), LinkDbError>)
        requires
            old(self).wf(),
        ensures
            final(self).wf(),
            !has_slug(old(self)@, slug@) ==> final(self)@ == old(self)@ && r is Err
                && r->Err_0.is_not_found_for(slug@),
            has_slug(old(self)@, slug@) && visits_of(old(self)@, slug@) == u64::MAX
                ==> final(self)@ == old(self)@ && r is Err && r->Err_0.is_overflow_for(slug@),
            has_slug(old(self)@, slug@) && visits_of(old(self)@, slug@) < u64::MAX
                ==> final(self)@ == with_visit(old(self)@, slug@) && r is Ok
                && visits_of(final(self)@, slug@) == visits_of(old(self)@, slug@) + 1,
            has_slug(final(self)@, slug@) == has_slug(old(self)@, slug@),
    {
        let key = slug.to_owned();
        match self.position_of(&key) {
            None => Err(LinkDbError::not_found(key)),
            Some(i) => {
                proof {
                    lemma_slug_index_unique(self@, slug@, i as int);
                    lemma_with_visit_keeps_table(self@, slug@);
                }
                if self.links[i].visits == u64::MAX {
                    return Err(LinkDbError::VisitsOverflow { slug: key });
                }
                let old_link = self.links.remove(i);
                let raised = Link {
                    slug: old_link.slug,
                    url: old_link.url,
                    created_at: old_link.created_at,
                    visits: old_link.visits + 1,
                };
                self.links.insert(i, raised);
                proof {
                    assert(self@ =~= with_visit(old(self)@, slug@));
                }
                Ok(())
            },
        }
    }

    /// Removes the link with slug `slug`; exactly one link goes, or the
    /// not-found error comes back.
    pub fn delete_link_by_slug(&mut self, slug: &str) -> (r: Result<(), LinkDbError>)
        requires
            old(self).wf(),
        ensures
            final(self).wf(),
            !has_slug(old(self)@, slug@) ==> final(self)@ == old(self)@ && r is Err
                && r->Err_0.is_not_found_for(slug@),
            has_slug(old(self)@, slug@) ==> final(self)@ == without_slug(old(self)@, slug@) && r is Ok,
            !has_slug(final(self)@, slug@),
    {
        let key = slug.to_owned();
        match self.position_of(&key) {
            None => Err(LinkDbError::not_found(key)),
            Some(i) => {
                proof {
                    lemma_slug_index_unique(self@, slug@, i as int);
                    lemma_without_slug_drops(self@, slug@);
                    self@.remove_ensures(i as int);
                }
                let _gone = self.links.remove(i);
                proof {
                    let n = self@;
                    assert forall|a: int, b: int|
                        0 <= a < n.len() && 0 <= b < n.len() && a != b implies #[trigger] n[a].slug@
                        != #[trigger] n[b].slug@ by {
                        let oa = if a < i { a } else { a + 1 };
                        let ob = if b < i { b } else { b + 1 };
                        assert(n[a] == old(self)@[oa] && n[b] == old(self)@[ob]);
                    }
                    assert forall|a: int, b: int| 0 <= a < b < n.len() implies #[trigger] n[b].created_at
                        <= #[trigger] n[a].created_at by {
                        let oa = if a < i { a } else { a + 1 };
                        let ob = if b < i { b } else { b + 1 };
                        assert(n[a] == old(self)@[oa] && n[b] == old(self)@[ob]);
                    }
                }
                Ok(())
            },
        }
    }

    /// Number of stored links.
    pub fn count(&self) -> (r: u64)
        ensures
            r == self@.len(),
    {
        self.links.len() as u64
    }

    /// The links in listing order from index `offset`, at most `limit` of them.
    pub fn links_in_range(&self, offset: u64, limit: u64) -> (r: Vec<Link>)
        ensures
            r@ == window(self@, offset as int, limit as int),
    {
        let len: usize = self.links.len();
        let start: usize = if offset < len as u64 {
            offset as usize
        } else {
            len
        };
        let end: usize = if limit < (len - start) as u64 {
            start + limit as usize
        } else {
            len
        };
        let mut out: Vec<Link> = Vec::new();
        let mut i: usize = start;
        while i < end
            invariant
                start <= i <= end <= len,
                len == self@.len(),
                out@ == self@.subrange(start as int, i as int),
            decreases end - i,
        {
            out.push(self.links[i].copied());
            i += 1;
            proof {
                assert(out@ =~= self@.subrange(start as int, i as int));
            }
        }
        out
    }

    /// The links of page `page` (counted from 1) of `links_per_page` links
    /// each, newest first, and the number of pages.
    pub fn find_links_in_page(&self, page: u64, links_per_page: u64) -> (r: (Vec<Link>, u64))
        requires
            page >= 1,
            links_per_page >= 1,
        ensures
            r.0@ == window(
                self@,
                offset_of(page as int, links_per_page as int),
                links_per_page as int,
            ),
            r.1 == ceil_div(self@.len() as int, links_per_page as int),
    {
        let pages = paginate(page, links_per_page, self.count());
        let links = self.links_in_range(pages.offset, pages.limit);
        (links, pages.page_count)
    }
}

} // verus!
