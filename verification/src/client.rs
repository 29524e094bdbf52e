//! The computed part of the provider client: building the URL a user is
//! sent to in order to start the login flow. The HTTP calls themselves live
//! outside the library.

use vstd::prelude::*;

use crate::text::{decimal_chars_nat, u64_string};

verus! {

/// The characters of the authorization URL for a given base and client id.
pub open spec fn spec_authorization_url(base_url: Seq<char>, client_id: Seq<char>) -> Seq<char> {
    base_url + "/login/oauth/authorize?client_id="@ + client_id
}

/// The URL to send a user to in order to start the login flow: the
/// authorization endpoint under `base_url`, naming the client.
pub fn authorization_url(base_url: &str, client_id: &str) -> (url: String)
    ensures
        url@ == spec_authorization_url(base_url@, client_id@),
{
    let mut url = base_url.to_owned();
    url.append("/login/oauth/authorize?client_id=");
    url.append(client_id);
    url
}

/// The characters of a plain HTTP base URL for a host and port.
pub open spec fn spec_host_base_url(host: Seq<char>, port: u16) -> Seq<char> {
    "http://"@ + host + ":"@ + decimal_chars_nat(port as nat)
}

/// The base URL a mock server is reached under: `http://<host>:<port>`.
pub fn host_base_url(host: &str, port: u16) -> (url: String)
    ensures
        url@ == spec_host_base_url(host@, port),
{
    let mut url = String::from_str("http://");
    url.append(host);
    url.append(":");
    url.append(u64_string(port as u64).as_str());
    url
}

} // verus!
