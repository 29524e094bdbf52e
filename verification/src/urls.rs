//! URLs as the redirect logic reads them: an optional host, a path, and the
//! full serialization. Parsing and query-string editing are entrusted to the
//! `url` crate; everything that decides on the parts is verified.

use vstd::prelude::*;

use crate::fakehub::error::Error;

verus! {

/// What the redirect rules read of a URL: its host (absent for URLs that
/// cannot be a base), its percent-encoded path, and its full serialization.
#[derive(Debug)]
pub struct UrlParts {
    pub host: Option<String>,
    pub path: String,
    pub text: String,
}

/// The mathematical value of a [`UrlParts`].
pub struct UrlView {
    pub host: Option<Seq<char>>,
    pub path: Seq<char>,
    pub text: Seq<char>,
}

impl View for UrlParts {
    type V = UrlView;

    open spec fn view(&self) -> UrlView {
        UrlView {
            host: match self.host {
                Some(h) => Some(h@),
                None => None,
            },
            path: self.path@,
            text: self.text@,
        }
    }
}

impl Clone for UrlParts {
    fn clone(&self) -> (r: Self)
        ensures
            r == *self,
    {
        UrlParts {
            host: match &self.host {
                Some(h) => Some(h.clone()),
                None => None,
            },
            path: self.path.clone(),
            text: self.text.clone(),
        }
    }
}

/// Whether the `url` crate parses this string as an absolute URL.
pub uninterp spec fn url_parses(s: Seq<char>) -> bool;

/// The host the `url` crate reads out of this string, if any.
pub uninterp spec fn url_host(s: Seq<char>) -> Option<Seq<char>>;

/// The path the `url` crate reads out of this string.
pub uninterp spec fn url_path(s: Seq<char>) -> Seq<char>;

/// The serialization the `url` crate gives back for this string.
pub uninterp spec fn url_text(s: Seq<char>) -> Seq<char>;

/// The serialization after appending one `key=value` query pair.
pub uninterp spec fn url_with_query_pair(s: Seq<char>, key: Seq<char>, value: Seq<char>) -> Seq<
    char,
>;

/// The parts a successful parse of this string yields.
pub open spec fn spec_parsed_url(s: Seq<char>) -> UrlView {
    UrlView { host: url_host(s), path: url_path(s), text: url_text(s) }
}

/// Relies on `url::Url::parse` and the accessors `host_str`, `path` and
/// `as_str`: whether the parse succeeds, and the host, path and
/// serialization it yields, are functions of the input alone. The last
/// clause — a serialization parses back — is the crate's own invariant: its
/// `check_invariants` parses `self.as_str()` and asserts an identical
/// serialization. The error case carries the parse error's display text.
#[verifier::external_body]
fn url_parse_parts(s: &str) -> (r: Result<UrlParts, String>)
    ensures
        r is Ok <==> url_parses(s@),
        r matches Ok(p) ==> p@.host == url_host(s@),
        r matches Ok(p) ==> p@.path == url_path(s@),
        r matches Ok(p) ==> p@.text == url_text(s@),
        r matches Ok(p) ==> url_parses(p@.text),
{
    match url::Url::parse(s) {
        Ok(u) => Ok(UrlParts {
            host: u.host_str().map(|h| h.to_string()),
            path: u.path().to_string(),
            text: u.as_str().to_string(),
        }),
        Err(e) => Err(format!("{}", e)),
    }
}

/// Relies on `url::Url::query_pairs_mut` (after `url::Url::parse`): the
/// serialization with one `key=value` pair appended to the query is a
/// function of the arguments alone; a string that does not parse yields
/// nothing.
#[verifier::external_body]
fn url_append_query_pair(url: &str, key: &str, value: &str) -> (r: Option<String>)
    ensures
        r is Some <==> url_parses(url@),
        r matches Some(t) ==> t@ == url_with_query_pair(url@, key@, value@),
{
    match url::Url::parse(url) {
        Ok(mut u) => {
            u.query_pairs_mut().append_pair(key, value);
            Some(u.as_str().to_string())
        },
        Err(_) => None,
    }
}

/// Parses an absolute URL into the parts the redirect rules read, or reports
/// the input that failed to parse. The serialization of a successful parse
/// parses back.
pub fn parse_url(s: &str) -> (r: Result<UrlParts, Error>)
    ensures
        r is Ok <==> url_parses(s@),
        r matches Ok(p) ==> p@ == spec_parsed_url(s@),
        r matches Ok(p) ==> url_parses(p@.text),
        r matches Err(e) ==> e@ is UrlParse,
{
    match url_parse_parts(s) {
        Ok(p) => Ok(p),
        Err(m) => Err(Error::UrlParse(m)),
    }
}

/// Appends one `key=value` pair to the URL's query, or reports the URL if it
/// does not parse back.
pub fn with_query_pair(url: &str, key: &str, value: &str) -> (r: Result<String, Error>)
    ensures
        r is Ok <==> url_parses(url@),
        r matches Ok(t) ==> t@ == url_with_query_pair(url@, key@, value@),
        r matches Err(e) ==> e@ == crate::fakehub::error::ErrorV::UrlParse(url@),
{
    match url_append_query_pair(url, key, value) {
        Some(t) => Ok(t),
        None => Err(Error::UrlParse(url.to_owned())),
    }
}

} // verus!
