//! The resource API's authorization handling and the public lookup by
//! login.

use ghoauth::fakehub::api_gh::{get_user_detail, get_user_detail_public, AuthHeader};
use ghoauth::fakehub::state::{FakehubState, User};
use ghoauth::fakehub::Error;

fn trained_state() -> FakehubState {
    let mut state = FakehubState::new();
    state
        .add_client_with_base("cid".to_string(), "csecret".to_string(), "http://127.0.0.1")
        .unwrap();
    state.add_user(
        1,
        User {
            login: "alice".to_string(),
            avatar_url: "https://github.com/avatar".to_string(),
            html_url: "https://github.com/alice".to_string(),
        },
    );
    state.push_token(1);
    state
}

#[test]
fn missing_header_is_unauthorized() {
    let state = trained_state();
    match get_user_detail(&state, &AuthHeader::Missing) {
        Err(Error::Unauthorized) => {},
        _ => panic!("a missing header must be unauthorized"),
    }
    assert_eq!(Error::Unauthorized.status_code(), 401);
    assert_eq!(Error::Unauthorized.message(), "Not authorized.");
}

#[test]
fn non_ascii_header_is_malformed() {
    let state = trained_state();
    match get_user_detail(&state, &AuthHeader::NotAscii) {
        Err(Error::InvalidHeader(name)) => {
            assert_eq!(name, "Authorization");
            let err = Error::InvalidHeader(name);
            assert_eq!(err.status_code(), 422);
            assert_eq!(err.message(), "Header Authorization contains an non-ASCII value");
        },
        _ => panic!("a non-ASCII header must be reported as malformed"),
    }
}

#[test]
fn header_without_token_prefix_is_unauthorized() {
    let state = trained_state();
    let header = AuthHeader::Value("Bearer token_1".to_string());
    match get_user_detail(&state, &header) {
        Err(Error::Unauthorized) => {},
        _ => panic!("a header without the token prefix must be unauthorized"),
    }
}

#[test]
fn unknown_token_is_unauthorized() {
    let state = trained_state();
    let header = AuthHeader::Value("token token_99".to_string());
    match get_user_detail(&state, &header) {
        Err(Error::Unauthorized) => {},
        _ => panic!("an unknown token must be unauthorized"),
    }
}

#[test]
fn valid_token_resolves_the_user() {
    let state = trained_state();
    let header = AuthHeader::Value("token token_1".to_string());
    let detail = get_user_detail(&state, &header).unwrap();
    assert_eq!(detail.id, 1);
    assert_eq!(detail.login, "alice");
    assert_eq!(detail.avatar_url, "https://github.com/avatar");
    assert_eq!(detail.html_url, "https://github.com/alice");
}

#[test]
fn token_of_unregistered_user_trips_the_defensive_check() {
    let mut state = trained_state();
    state.push_token(42);
    let header = AuthHeader::Value("token token_42".to_string());
    match get_user_detail(&state, &header) {
        Err(Error::NoSuchUserId(id)) => assert_eq!(id, 42),
        _ => panic!("a token of an unregistered user must trip the defensive check"),
    }
}

#[test]
fn public_lookup_finds_user_by_login() {
    let state = trained_state();
    let detail = get_user_detail_public(&state, "alice").unwrap();
    assert_eq!(detail.id, 1);
    assert_eq!(detail.login, "alice");
}

#[test]
fn public_lookup_reports_unknown_login() {
    let state = trained_state();
    match get_user_detail_public(&state, "bob") {
        Err(Error::NoSuchUserLogin(login)) => {
            assert_eq!(login, "bob");
            let err = Error::NoSuchUserLogin(login);
            assert_eq!(err.status_code(), 404);
            assert_eq!(err.message(), "No user with login bob exists.");
        },
        _ => panic!("an unknown login must be reported"),
    }
}
