use shrt::auth::HashedPassword;
use shrt::cli::{Cli, Command};
use shrt::errors::ServiceError;
use shrt::page_nav::{build_page_elements, PageElement};
use shrt::store::LinkDbError;
use shrt::view_state::{ListLinksState, RemoveLinkModalState, UrlShortenerState};

use PageElement::{Ellipsis, Page};

#[test]
fn cli_defaults_to_server() {
    assert_eq!(Cli { command: None }.command(), Command::RunServer);
    assert_eq!(Cli { command: Some(Command::CreateSuperuser) }.command(), Command::CreateSuperuser);
    assert_eq!(Command::default(), Command::RunServer);
}

#[test]
fn password_hash_round_trip() {
    let hash = HashedPassword::new_argon2("admin").unwrap();
    assert!(hash.str().starts_with('$'));
    assert!(hash.verify_password("admin").unwrap());
    assert!(!hash.verify_password("other").unwrap());
}

#[test]
fn page_elements_near_start() {
    assert_eq!(build_page_elements(1, 1), vec![Page(1)]);
    assert_eq!(build_page_elements(1, 10), vec![Page(1), Page(2), Page(3), Ellipsis, Page(10)]);
    assert_eq!(build_page_elements(2, 4), vec![Page(1), Page(2), Page(3), Page(4)]);
}

#[test]
fn page_elements_in_the_middle() {
    assert_eq!(
        build_page_elements(6, 12),
        vec![Page(1), Ellipsis, Page(4), Page(5), Page(6), Page(7), Page(8), Ellipsis, Page(12)]
    );
    assert_eq!(
        build_page_elements(7, 9),
        vec![Page(1), Ellipsis, Page(5), Page(6), Page(7), Page(8), Page(9)]
    );
    assert_eq!(build_page_elements(3, 6), vec![Page(1), Page(2), Page(3), Page(4), Page(5), Page(6)]);
}

#[test]
fn view_states() {
    let err = ServiceError::from(LinkDbError::NotFound { slug: "q".to_string() });
    let state = ListLinksState::Error(err);
    assert_eq!(state.get_error().unwrap().http_status, 404);
    assert!(ListLinksState::default().get_error().is_none());
    assert!(!RemoveLinkModalState::default().is_loading());
    assert!(RemoveLinkModalState::Loading.is_loading());
    assert!(UrlShortenerState::LinkExists.is_link_exists());
    assert!(!UrlShortenerState::default().is_loading());
    assert!(UrlShortenerState::Loading.get_error().is_none());
}
