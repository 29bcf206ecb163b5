//! States of the web client's views while they wait on the link API.
use vstd::prelude::*;

use crate::errors::ServiceError;
use crate::links::LinksResponse;

verus! {

/// State of the link listing.
#[derive(Clone, Debug)]
pub enum ListLinksState {
    Success(LinksResponse),
    Error(ServiceError),
    Loading,
}

impl Default for ListLinksState {
    fn default() -> (r: ListLinksState)
        ensures
            r is Loading,
    {
        ListLinksState::Loading
    }
}

impl ListLinksState {
    /// The error shown, if the listing failed.
    #[must_use]
    pub fn get_error(&self) -> (r: Option<&ServiceError>)
        ensures
            self is Error ==> r is Some && *r->Some_0 == self->Error_0,
            !(self is Error) ==> r is None,
    {
        match self {
            ListLinksState::Error(e) => Some(e),
            _ => None,
        }
    }
}

/// State of the dialog that removes a link.
#[derive(Clone, Debug)]
pub enum RemoveLinkModalState {
    Error(ServiceError),
    Loading,
    Initial,
}

impl Default for RemoveLinkModalState {
    fn default() -> (r: RemoveLinkModalState)
        ensures
            r is Initial,
    {
        RemoveLinkModalState::Initial
    }
}

impl RemoveLinkModalState {
    /// Whether the removal is under way.
    #[must_use]
    pub fn is_loading(&self) -> (r: bool)
        ensures
            r == self is Loading,
    {
        match self {
            RemoveLinkModalState::Loading => true,
            _ => false,
        }
    }

    /// The error shown, if the removal failed.
    #[must_use]
    pub fn get_error(&self) -> (r: Option<&ServiceError>)
        ensures
            self is Error ==> r is Some && *r->Some_0 == self->Error_0,
            !(self is Error) ==> r is None,
    {
        match self {
            RemoveLinkModalState::Error(e) => Some(e),
            _ => None,
        }
    }
}

/// State of the form that shortens a URL.
#[derive(Clone, Debug)]
pub enum UrlShortenerState {
    Error(ServiceError),
    LinkExists,
    Loading,
    Initial,
}

impl Default for UrlShortenerState {
    fn default() -> (r: UrlShortenerState)
        ensures
            r is Initial,
    {
        UrlShortenerState::Initial
    }
}

impl UrlShortenerState {
    /// Whether a request is under way.
    #[must_use]
    pub fn is_loading(&self) -> (r: bool)
        ensures
            r == self is Loading,
    {
        match self {
            UrlShortenerState::Loading => true,
            _ => false,
        }
    }

    /// Whether the slug asked for is taken.
    #[must_use]
    pub fn is_link_exists(&self) -> (r: bool)
        ensures
            r == self is LinkExists,
    {
        match self {
            UrlShortenerState::LinkExists => true,
            _ => false,
        }
    }

    /// The error shown, if the request failed.
    #[must_use]
    pub fn get_error(&self) -> (r: Option<&ServiceError>)
        ensures
            self is Error ==> r is Some && *r->Some_0 == self->Error_0,
            !(self is Error) ==> r is None,
    {
        match self {
            UrlShortenerState::Error(e) => Some(e),
            _ => None,
        }
    }
}

/// State of the page that shows a newly created link.
#[derive(Clone, Debug)]
pub enum LinkResultState {
    Success { slug: String, url: String },
    Error(ServiceError),
    Loading,
}

impl Default for LinkResultState {
    fn default() -> (r: LinkResultState)
        ensures
            r is Loading,
    {
        LinkResultState::Loading
    }
}

} // verus!
