//! String helpers, diagnostic rendering, the client's authorization URL,
//! and port selection.

use ghoauth::fakehub::ports::select_port;
use ghoauth::fakehub::Error;
use ghoauth::{authorization_url, host_base_url, i64_string, str_eq, str_starts_with, u64_string};
use ghoauth::GetAccessTokenResponse;

#[test]
fn decimal_rendering() {
    assert_eq!(u64_string(0), "0");
    assert_eq!(u64_string(7), "7");
    assert_eq!(u64_string(12345), "12345");
    assert_eq!(i64_string(0), "0");
    assert_eq!(i64_string(42), "42");
    assert_eq!(i64_string(-42), "-42");
    assert_eq!(i64_string(i64::MIN), "-9223372036854775808");
    assert_eq!(i64_string(i64::MAX), "9223372036854775807");
}

#[test]
fn string_helpers() {
    assert!(str_eq("alice", "alice"));
    assert!(!str_eq("alice", "alicia"));
    assert!(str_starts_with("token token_1", "token "));
    assert!(!str_starts_with("Bearer x", "token "));
    assert!(!str_starts_with("tok", "token "));
    assert!(str_starts_with("anything", ""));
}

#[test]
fn authorization_url_names_the_client() {
    assert_eq!(
        authorization_url("https://github.com", "cid"),
        "https://github.com/login/oauth/authorize?client_id=cid"
    );
}

#[test]
fn host_base_url_names_host_and_port() {
    assert_eq!(host_base_url("127.0.0.1", 3050), "http://127.0.0.1:3050");
}

#[test]
fn token_grant_debug_text_redacts_the_token() {
    let grant = GetAccessTokenResponse {
        access_token: "token_1".to_string(),
        token_type: "bearer".to_string(),
        scope: "".to_string(),
    };
    let text = grant.redacted();
    assert_eq!(
        text,
        "GetAccessTokenResponse { access_token: REDACTED, token_type: bearer, scope:  }"
    );
    assert!(!text.contains("token_1"));
}

#[test]
fn error_messages_and_statuses() {
    let port = Error::NoAvailablePorts(3050);
    assert_eq!(port.message(), "No free port available, tried from 3050 upward.");
    assert_eq!(port.status_code(), 500);

    let http = Error::Http(Some(404), "reason".to_string());
    assert_eq!(http.message(), "Remote responded with status code Some(404) with reason reason");
    assert_eq!(http.status_code(), 500);

    let http_none = Error::Http(None, "down".to_string());
    assert_eq!(http_none.message(), "Remote responded with status code None with reason down");

    let parse = Error::UrlParse("junk".to_string());
    assert_eq!(parse.message(), "Failed to parse URL junk");
    assert_eq!(parse.status_code(), 422);

    let host = Error::InvalidHost("host".to_string(), "elsewhere".to_string());
    assert_eq!(host.message(), "Host elsewhere does not match base of host");

    let path = Error::InvalidBasePath("/app".to_string(), "/other".to_string());
    assert_eq!(path.message(), "Path /other does not match base of /app");

    let base = Error::HostlessBase("mailto:a@b".to_string());
    assert_eq!(base.message(), "Base redirect url mailto:a@b has no host");
    assert_eq!(base.status_code(), 500);

    let client = Error::NoSuchClient("nobody".to_string());
    assert_eq!(client.message(), "No client with id nobody in Fakehub");
}

#[test]
fn client_error_messages() {
    let creation = ghoauth::Error::ClientCreation("builder broke".to_string());
    assert_eq!(creation.message(), "builder broke");

    let http = ghoauth::Error::Http(Some(500), "server fell over".to_string());
    assert_eq!(
        http.message(),
        "Remote responded with status code Some(500) with reason server fell over"
    );

    let decode = ghoauth::Error::Decode("bad json".to_string());
    assert_eq!(decode.message(), "bad json");
}

#[test]
fn selected_port_is_at_or_above_the_start() {
    let port = select_port(49152).unwrap();
    assert!(port >= 49152);
}
