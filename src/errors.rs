//! Errors as callers see them: a title, an optional message and an HTTP status.
use vstd::prelude::*;

use crate::store::LinkDbError;

verus! {

/// HTTP status for a missing link.
pub const STATUS_NOT_FOUND: u16 = 404;

/// HTTP status for a slug that is already taken.
pub const STATUS_BAD_REQUEST: u16 = 400;

/// HTTP status for any failure below the registry.
pub const STATUS_INTERNAL_SERVER_ERROR: u16 = 500;

/// Error message returned to the user.
#[derive(Clone, Debug, PartialEq, Eq)]
pub struct ServiceError {
    /// The title of the error message.
    pub error: String,
    /// The description of the error.
    pub message: Option<String>,
    /// HTTP status returned.
    pub http_status: u16,
}

/// Status that a registry error maps to.
pub open spec fn status_for(e: LinkDbError) -> u16 {
    match e {
        LinkDbError::NotFound { .. } => STATUS_NOT_FOUND,
        LinkDbError::Conflict { .. } => STATUS_BAD_REQUEST,
        LinkDbError::VisitsOverflow { .. } => STATUS_INTERNAL_SERVER_ERROR,
    }
}

/// Title that a registry error maps to.
pub open spec fn title_for(e: LinkDbError) -> Seq<char> {
    match e {
        LinkDbError::NotFound { .. } => "Link not found"@,
        LinkDbError::Conflict { .. } => "Link already exists"@,
        LinkDbError::VisitsOverflow { .. } => "Internal server error"@,
    }
}

/// Message that a registry error maps to. Store failures carry none, so that
/// nothing of the store's internals reaches the caller.
pub open spec fn message_for(e: LinkDbError) -> Option<Seq<char>> {
    match e {
        LinkDbError::NotFound { slug } => Some("Link with slug "@ + slug@ + " not found"@),
        LinkDbError::Conflict { slug } => Some("Link with slug "@ + slug@ + " already exists"@),
        LinkDbError::VisitsOverflow { .. } => None,
    }
}

/// The view of an optional string.
pub open spec fn opt_view(s: Option<String>) -> Option<Seq<char>> {
    match s {
        Some(t) => Some(t@),
        None => None,
    }
}

impl ServiceError {
    /// The error the caller sees for a registry error: a missing link is 404, a
    /// taken slug is 400, anything else is a bare 500.
    pub fn from(value: LinkDbError) -> (r: ServiceError)
        ensures
            r.http_status == status_for(value),
            r.error@ == title_for(value),
            opt_view(r.message) == message_for(value),
    {
        match value {
            LinkDbError::NotFound { slug } => ServiceError {
                error: String::from_str("Link not found"),
                message: Some(
                    String::from_str("Link with slug ").concat(slug.as_str()).concat(" not found"),
                ),
                http_status: STATUS_NOT_FOUND,
            },
            LinkDbError::Conflict { slug } => ServiceError {
                error: String::from_str("Link already exists"),
                message: Some(
                    String::from_str("Link with slug ").concat(slug.as_str()).concat(
                        " already exists",
                    ),
                ),
                http_status: STATUS_BAD_REQUEST,
            },
            LinkDbError::VisitsOverflow { .. } => ServiceError {
                error: String::from_str("Internal server error"),
                message: None,
                http_status: STATUS_INTERNAL_SERVER_ERROR,
            },
        }
    }

    /// One line for logs and alerts: "Error `<title>`: <message>", with
    /// "<no message>" when there is none.
    pub fn display_text(&self) -> (r: String)
        ensures
            r@ == "Error `"@ + self.error@ + "`: "@ + match self.message {
                Some(m) => m@,
                None => "<no message>"@,
            },
    {
        let head = String::from_str("Error `").concat(self.error.as_str()).concat("`: ");
        match &self.message {
            Some(m) => head.concat(m.as_str()),
            None => head.concat("<no message>"),
        }
    }
}

} // verus!
