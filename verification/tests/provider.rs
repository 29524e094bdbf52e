//! The provider state machine end to end: registration, code issuance,
//! token exchange and user-info resolution.

use ghoauth::fakehub::api_gh::{get_user_detail, AuthHeader};
use ghoauth::fakehub::gh::{exchange_code_for_token, ExchangeCodeForTokenResponse};
use ghoauth::fakehub::state::{FakehubState, User};
use ghoauth::fakehub::Error;

fn alice() -> User {
    User {
        login: "alice".to_string(),
        avatar_url: "https://github.com/avatar".to_string(),
        html_url: "https://github.com/alice".to_string(),
    }
}

fn trained_state() -> FakehubState {
    let mut state = FakehubState::new();
    state
        .add_client_with_base("cid".to_string(), "csecret".to_string(), "http://127.0.0.1")
        .unwrap();
    state.add_user(1, alice());
    state
}

#[test]
fn oauth_end_to_end() {
    let mut state = trained_state();

    let code = state.get_code(1).unwrap();
    assert_eq!(code, "token_1");

    let granted = exchange_code_for_token(&mut state, "cid", "csecret", &code);
    let token = match granted {
        ExchangeCodeForTokenResponse::Token(t) => t,
        _ => panic!("exchange should grant a token"),
    };
    assert_eq!(token.access_token, "token_1");
    assert_eq!(token.token_type, "bearer");
    assert_eq!(token.scope, "");

    let header = AuthHeader::Value(format!("token {}", token.access_token));
    let detail = get_user_detail(&state, &header).unwrap();
    assert_eq!(detail.id, 1);
    assert_eq!(detail.login, "alice");
    assert_eq!(detail.avatar_url, "https://github.com/avatar");
    assert_eq!(detail.html_url, "https://github.com/alice");
}

#[test]
fn code_redeems_at_most_once() {
    let mut state = trained_state();
    let code = state.get_code(1).unwrap();

    let first = exchange_code_for_token(&mut state, "cid", "csecret", &code);
    assert!(matches!(first, ExchangeCodeForTokenResponse::Token(_)));

    let second = exchange_code_for_token(&mut state, "cid", "csecret", &code);
    assert!(matches!(second, ExchangeCodeForTokenResponse::BadCode));
}

#[test]
fn bad_secret_fails_distinctly_from_bad_code() {
    let mut state = trained_state();
    let code = state.get_code(1).unwrap();

    let wrong_secret = exchange_code_for_token(&mut state, "cid", "wrong", &code);
    assert!(matches!(wrong_secret, ExchangeCodeForTokenResponse::BadClient));

    let unknown_client = exchange_code_for_token(&mut state, "nobody", "csecret", &code);
    assert!(matches!(unknown_client, ExchangeCodeForTokenResponse::BadClient));

    let bad_code = exchange_code_for_token(&mut state, "cid", "csecret", "token_99");
    assert!(matches!(bad_code, ExchangeCodeForTokenResponse::BadCode));
}

#[test]
fn get_code_rejects_unknown_user() {
    let mut state = trained_state();
    match state.get_code(7) {
        Err(Error::NoSuchUserId(id)) => {
            assert_eq!(id, 7);
        },
        _ => panic!("an unregistered user id must be rejected"),
    }
    let err = state.get_code(7).unwrap_err();
    assert_eq!(err.status_code(), 500);
    assert_eq!(err.message(), "No user with id 7 exists.");
}

#[test]
fn client_matches_compares_exactly() {
    let state = trained_state();
    assert!(state.client_matches("cid", "csecret"));
    assert!(!state.client_matches("cid", "csecre"));
    assert!(!state.client_matches("cid", "csecret "));
    assert!(!state.client_matches("unknown", "csecret"));
}

#[test]
fn pop_code_is_one_shot() {
    let mut state = trained_state();
    assert_eq!(state.pop_code("token_1"), None);
    state.get_code(1).unwrap();
    assert_eq!(state.pop_code("token_1"), Some(1));
    assert_eq!(state.pop_code("token_1"), None);
}

#[test]
fn push_token_stores_derived_token() {
    let mut state = trained_state();
    let token = state.push_token(1);
    assert_eq!(token, "token_1");
    assert_eq!(state.get_token_user("token_1"), Some(1));
    assert_eq!(state.get_token_user("token_2"), None);
}

#[test]
fn add_client_with_base_rejects_unparsable_base() {
    let mut state = FakehubState::new();
    match state.add_client_with_base("cid".to_string(), "csecret".to_string(), "not a url") {
        Err(Error::UrlParse(_)) => {},
        _ => panic!("an unparsable base must be rejected"),
    }
    assert!(state.get_client("cid").is_err());
}

#[test]
fn get_client_reports_unknown_id() {
    let state = trained_state();
    let client = state.get_client("cid").unwrap();
    assert_eq!(client.secret, "csecret");
    match state.get_client("nobody") {
        Err(Error::NoSuchClient(id)) => assert_eq!(id, "nobody"),
        _ => panic!("an unknown client id must be rejected"),
    }
}

#[test]
fn user_lookup_by_login_respects_registration_order() {
    let mut state = FakehubState::new();
    let mut first = alice();
    first.avatar_url = "https://github.com/first".to_string();
    let mut second = alice();
    second.avatar_url = "https://github.com/second".to_string();
    state.add_user(5, first);
    state.add_user(9, second);

    let (id, user) = state.get_user_by_login("alice").unwrap();
    assert_eq!(*id, 5);
    assert_eq!(user.avatar_url, "https://github.com/first");
    assert!(state.get_user_by_login("bob").is_none());
}

#[test]
fn add_user_overwrites_same_id() {
    let mut state = FakehubState::new();
    state.add_user(1, alice());
    let mut renamed = alice();
    renamed.login = "alicia".to_string();
    state.add_user(1, renamed);

    let user = state.find_user(1).unwrap();
    assert_eq!(user.login, "alicia");
    assert!(state.get_user_by_login("alice").is_none());
}

#[test]
fn user_roster_lists_users_in_order() {
    let mut state = FakehubState::new();
    state.add_user(2, alice());
    let mut bob = alice();
    bob.login = "bob".to_string();
    state.add_user(1, bob);

    let roster = state.user_roster();
    assert_eq!(roster.len(), 2);
    assert_eq!(roster[0], (2, "alice".to_string()));
    assert_eq!(roster[1], (1, "bob".to_string()));
}

#[test]
fn negative_user_ids_derive_codes_too() {
    let mut state = FakehubState::new();
    let mut user = alice();
    user.login = "negative".to_string();
    state.add_user(-3, user);
    assert_eq!(state.get_code(-3).unwrap(), "token_-3");
}
