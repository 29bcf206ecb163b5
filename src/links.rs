//! The link entity and the request and response shapes built around it.
use vstd::prelude::*;

verus! {

/// A short slug mapped to a target URL, with a visit counter.
#[derive(Clone, Debug, PartialEq, Eq)]
pub struct Link {
    /// Unique lookup key.
    pub slug: String,
    /// Redirect target, stored as given.
    pub url: String,
    /// Creation time, in milliseconds since the Unix epoch (UTC).
    pub created_at: i64,
    /// Number of successful redirects through this link.
    pub visits: u64,
}

impl Link {
    /// A field-by-field copy of this link.
    pub fn copied(&self) -> (r: Link)
        ensures
            r == *self,
    {
        Link {
            slug: self.slug.clone(),
            url: self.url.clone(),
            created_at: self.created_at,
            visits: self.visits,
        }
    }
}

/// Body of a request to shorten a URL, optionally under a chosen slug.
#[derive(Clone, Debug, PartialEq, Eq)]
pub struct LinkCreateRequest {
    /// Slug asked for; a random one is generated when absent.
    pub slug: Option<String>,
    /// URL to redirect to.
    pub url: String,
}

/// Answer to an existence check.
#[derive(Clone, Copy, Debug, PartialEq, Eq)]
pub struct LinkExists {
    /// Whether a link with the slug is stored.
    pub exists: bool,
}

/// One page of the link listing.
#[derive(Clone, Debug, PartialEq, Eq)]
pub struct LinksResponse {
    /// The page served, counted from 1.
    pub page: u64,
    /// Number of links on a full page.
    pub links_per_page: u64,
    /// Number of pages that cover all stored links.
    pub num_pages: u64,
    /// The links of the page, newest first.
    pub links: Vec<Link>,
}

} // verus!
