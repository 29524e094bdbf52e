//! Redirect-URL validation, URL parsing, and the authorization endpoint's
//! redirect-with-code response.

use ghoauth::fakehub::gh::issue_code;
use ghoauth::fakehub::state::{Client, FakehubState, User};
use ghoauth::fakehub::Error;
use ghoauth::{parse_url, with_query_pair, UrlParts};

fn client_with_base(base: &str) -> Client {
    Client {
        secret: "csecret".to_string(),
        redirect_url: parse_url(base).unwrap(),
    }
}

fn trained_state(base: &str) -> FakehubState {
    let mut state = FakehubState::new();
    state
        .add_client_with_base("cid".to_string(), "csecret".to_string(), base)
        .unwrap();
    state.add_user(
        1,
        User {
            login: "alice".to_string(),
            avatar_url: "https://github.com/avatar".to_string(),
            html_url: "https://github.com/alice".to_string(),
        },
    );
    state
}

#[test]
fn parse_url_reads_host_path_and_text() {
    let parts: UrlParts = parse_url("http://example.com/app?x=1").unwrap();
    assert_eq!(parts.host, Some("example.com".to_string()));
    assert_eq!(parts.path, "/app");
    assert_eq!(parts.text, "http://example.com/app?x=1");

    let hostless = parse_url("mailto:alice@example.com").unwrap();
    assert_eq!(hostless.host, None);

    match parse_url("not a url") {
        Err(Error::UrlParse(_)) => {},
        _ => panic!("a relative string must fail to parse"),
    }
}

#[test]
fn with_query_pair_appends_to_the_query() {
    let appended = with_query_pair("http://example.com/app", "code", "token_1").unwrap();
    assert_eq!(appended, "http://example.com/app?code=token_1");

    let extended = with_query_pair("http://example.com/app?x=1", "code", "token_1").unwrap();
    assert_eq!(extended, "http://example.com/app?x=1&code=token_1");
}

#[test]
fn more_specific_candidate_is_accepted_verbatim() {
    let client = client_with_base("http://host/app");
    let candidate = parse_url("http://host/app/sub").unwrap();
    let accepted = client.check_redirect_url(&candidate).unwrap();
    assert_eq!(accepted.text, "http://host/app/sub");
    assert_eq!(accepted.host, Some("host".to_string()));
    assert_eq!(accepted.path, "/app/sub");
}

#[test]
fn candidate_on_another_host_is_rejected() {
    let client = client_with_base("http://host/app");
    let candidate = parse_url("http://elsewhere/app/sub").unwrap();
    match client.check_redirect_url(&candidate) {
        Err(Error::InvalidHost(base, got)) => {
            assert_eq!(base, "host");
            assert_eq!(got, "elsewhere");
            assert_eq!(Error::InvalidHost(base, got).status_code(), 403);
        },
        _ => panic!("a foreign host must be rejected"),
    }
}

#[test]
fn candidate_outside_base_path_is_rejected() {
    let client = client_with_base("http://host/app");
    let candidate = parse_url("http://host/other").unwrap();
    match client.check_redirect_url(&candidate) {
        Err(Error::InvalidBasePath(base, got)) => {
            assert_eq!(base, "/app");
            assert_eq!(got, "/other");
            assert_eq!(Error::InvalidBasePath(base, got).status_code(), 403);
        },
        _ => panic!("a path outside the base must be rejected"),
    }
}

#[test]
fn hostless_base_rejects_validation() {
    let client = client_with_base("mailto:alice@example.com");
    let candidate = parse_url("http://host/app").unwrap();
    match client.check_redirect_url(&candidate) {
        Err(Error::HostlessBase(base)) => {
            assert_eq!(base, "mailto:alice@example.com");
        },
        _ => panic!("a hostless base must be rejected"),
    }
}

#[test]
fn hostless_candidate_stays_on_base_host() {
    let client = client_with_base("http://host/app");
    let candidate = parse_url("mailto:box@host").unwrap();
    match client.check_redirect_url(&candidate) {
        Err(Error::InvalidBasePath(base, got)) => {
            assert_eq!(base, "/app");
            assert_eq!(got, "box@host");
        },
        _ => panic!("a mail path cannot extend the base path"),
    }
}

#[test]
fn issue_code_redirects_to_base_when_no_candidate_given() {
    let mut state = trained_state("http://127.0.0.1");
    let location = issue_code(&mut state, "cid", 1, None).unwrap();
    assert_eq!(location, "http://127.0.0.1/?code=token_1");
}

#[test]
fn issue_code_redirects_to_accepted_candidate() {
    let mut state = trained_state("http://127.0.0.1");
    let location = issue_code(&mut state, "cid", 1, Some("http://127.0.0.1/app")).unwrap();
    assert_eq!(location, "http://127.0.0.1/app?code=token_1");
}

#[test]
fn issue_code_rejects_unknown_client() {
    let mut state = trained_state("http://127.0.0.1");
    match issue_code(&mut state, "nobody", 1, None) {
        Err(Error::NoSuchClient(id)) => {
            assert_eq!(id, "nobody");
            assert_eq!(Error::NoSuchClient(id).status_code(), 401);
        },
        _ => panic!("an unknown client must be rejected"),
    }
}

#[test]
fn issue_code_rejects_unknown_user() {
    let mut state = trained_state("http://127.0.0.1");
    match issue_code(&mut state, "cid", 9, None) {
        Err(Error::NoSuchUserId(id)) => assert_eq!(id, 9),
        _ => panic!("an unknown user must be rejected"),
    }
}

#[test]
fn issue_code_rejects_unparsable_redirect() {
    let mut state = trained_state("http://127.0.0.1");
    match issue_code(&mut state, "cid", 1, Some("not a url")) {
        Err(e @ Error::UrlParse(_)) => {
            assert_eq!(e.status_code(), 422);
        },
        _ => panic!("an unparsable redirect must be rejected"),
    }
}

#[test]
fn issue_code_rejects_foreign_redirect_host() {
    let mut state = trained_state("http://127.0.0.1");
    match issue_code(&mut state, "cid", 1, Some("http://10.0.0.1/app")) {
        Err(Error::InvalidHost(base, got)) => {
            assert_eq!(base, "127.0.0.1");
            assert_eq!(got, "10.0.0.1");
        },
        _ => panic!("a foreign redirect host must be rejected"),
    }
}
