//! Link shortener core: slug allocation, an embedded link store, pagination
//! arithmetic and the link registry that ties them together.

pub mod pagination;
pub mod links;
pub mod slug;
pub mod store;
pub mod registry;
pub mod errors;
pub mod cli;
pub mod client;
pub mod auth;
pub mod page_nav;
pub mod view_state;
