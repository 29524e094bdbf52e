//! The mock provider's error taxonomy, with its mapping to HTTP status
//! codes and its diagnostic message for each variant.

use vstd::prelude::*;

use crate::text::{decimal_chars, decimal_chars_nat, i64_string, u64_string};

verus! {

/// Everything that can go wrong inside the mock provider, plus the
/// client-side failures it can absorb from the real client.
#[derive(Debug)]
pub enum Error {
    NoAvailablePorts(u16),
    NoSuchUserId(i64),
    NoSuchUserLogin(String),
    UrlParse(String),
    AuthUrlMissingClientId,
    Unauthorized,
    NoSuchClient(String),
    HostlessBase(String),
    InvalidHost(String, String),
    InvalidHeader(String),
    InvalidBasePath(String, String),
    ClientCreation(String),
    Http(Option<u16>, String),
    Decode(String),
    OtherHttp(String),
}

/// The mathematical value of an [`Error`]: the same variants over character
/// sequences.
pub enum ErrorV {
    NoAvailablePorts(u16),
    NoSuchUserId(i64),
    NoSuchUserLogin(Seq<char>),
    UrlParse(Seq<char>),
    AuthUrlMissingClientId,
    Unauthorized,
    NoSuchClient(Seq<char>),
    HostlessBase(Seq<char>),
    InvalidHost(Seq<char>, Seq<char>),
    InvalidHeader(Seq<char>),
    InvalidBasePath(Seq<char>, Seq<char>),
    ClientCreation(Seq<char>),
    Http(Option<u16>, Seq<char>),
    Decode(Seq<char>),
    OtherHttp(Seq<char>),
}

impl View for Error {
    type V = ErrorV;

    open spec fn view(&self) -> ErrorV {
        match self {
            Error::NoAvailablePorts(p) => ErrorV::NoAvailablePorts(*p),
            Error::NoSuchUserId(id) => ErrorV::NoSuchUserId(*id),
            Error::NoSuchUserLogin(l) => ErrorV::NoSuchUserLogin(l@),
            Error::UrlParse(s) => ErrorV::UrlParse(s@),
            Error::AuthUrlMissingClientId => ErrorV::AuthUrlMissingClientId,
            Error::Unauthorized => ErrorV::Unauthorized,
            Error::NoSuchClient(id) => ErrorV::NoSuchClient(id@),
            Error::HostlessBase(u) => ErrorV::HostlessBase(u@),
            Error::InvalidHost(b, h) => ErrorV::InvalidHost(b@, h@),
            Error::InvalidHeader(h) => ErrorV::InvalidHeader(h@),
            Error::InvalidBasePath(b, p) => ErrorV::InvalidBasePath(b@, p@),
            Error::ClientCreation(s) => ErrorV::ClientCreation(s@),
            Error::Http(c, s) => ErrorV::Http(*c, s@),
            Error::Decode(s) => ErrorV::Decode(s@),
            Error::OtherHttp(s) => ErrorV::OtherHttp(s@),
        }
    }
}

impl ErrorV {
    /// The status-code table: server errors for port exhaustion and the
    /// defensive user-id lookup, not-found for an unknown login, unauthorized
    /// for credential failures, forbidden for redirect mismatches, and
    /// unprocessable-entity for malformed input.
    pub open spec fn spec_status_code(self) -> u16 {
        match self {
            ErrorV::NoAvailablePorts(_) => 500,
            ErrorV::NoSuchUserId(_) => 500,
            ErrorV::NoSuchUserLogin(_) => 404,
            ErrorV::UrlParse(_) => 422,
            ErrorV::AuthUrlMissingClientId => 422,
            ErrorV::Unauthorized => 401,
            ErrorV::NoSuchClient(_) => 401,
            ErrorV::HostlessBase(_) => 500,
            ErrorV::InvalidHost(_, _) => 403,
            ErrorV::InvalidHeader(_) => 422,
            ErrorV::InvalidBasePath(_, _) => 403,
            ErrorV::ClientCreation(_) => 500,
            ErrorV::Http(_, _) => 500,
            ErrorV::Decode(_) => 500,
            ErrorV::OtherHttp(_) => 500,
        }
    }

    /// The diagnostic text of each variant. Secrets and tokens never appear
    /// in it: no variant carries one.
    pub open spec fn spec_message(self) -> Seq<char> {
        match self {
            ErrorV::NoAvailablePorts(p) => "No free port available, tried from "@
                + decimal_chars_nat(p as nat) + " upward."@,
            ErrorV::NoSuchUserId(id) => "No user with id "@ + decimal_chars(id as int)
                + " exists."@,
            ErrorV::NoSuchUserLogin(l) => "No user with login "@ + l + " exists."@,
            ErrorV::UrlParse(s) => "Failed to parse URL "@ + s,
            ErrorV::AuthUrlMissingClientId => "Authentication URL is missing a client id"@,
            ErrorV::Unauthorized => "Not authorized."@,
            ErrorV::NoSuchClient(id) => "No client with id "@ + id + " in Fakehub"@,
            ErrorV::HostlessBase(u) => "Base redirect url "@ + u + " has no host"@,
            ErrorV::InvalidHost(b, h) => "Host "@ + h + " does not match base of "@ + b,
            ErrorV::InvalidHeader(h) => "Header "@ + h + " contains an non-ASCII value"@,
            ErrorV::InvalidBasePath(b, p) => "Path "@ + p + " does not match base of "@ + b,
            ErrorV::ClientCreation(s) => s,
            ErrorV::Http(c, s) => "Remote responded with status code "@ + (match c {
                Some(n) => "Some("@ + decimal_chars_nat(n as nat) + ")"@,
                None => "None"@,
            }) + " with reason "@ + s,
            ErrorV::Decode(s) => s,
            ErrorV::OtherHttp(s) => s,
        }
    }
}

impl Error {
    /// The HTTP status this error answers with.
    pub fn status_code(&self) -> (code: u16)
        ensures
            code == self@.spec_status_code(),
    {
        match self {
            Error::NoAvailablePorts(_) => 500,
            Error::NoSuchUserId(_) => 500,
            Error::NoSuchUserLogin(_) => 404,
            Error::UrlParse(_) => 422,
            Error::AuthUrlMissingClientId => 422,
            Error::Unauthorized => 401,
            Error::NoSuchClient(_) => 401,
            Error::HostlessBase(_) => 500,
            Error::InvalidHost(_, _) => 403,
            Error::InvalidHeader(_) => 422,
            Error::InvalidBasePath(_, _) => 403,
            Error::ClientCreation(_) => 500,
            Error::Http(_, _) => 500,
            Error::Decode(_) => 500,
            Error::OtherHttp(_) => 500,
        }
    }

    /// The diagnostic text of this error.
    pub fn message(&self) -> (m: String)
        ensures
            m@ == self@.spec_message(),
    {
        match self {
            Error::NoAvailablePorts(p) => {
                let mut s = String::from_str("No free port available, tried from ");
                s.append(u64_string(*p as u64).as_str());
                s.append(" upward.");
                s
            },
            Error::NoSuchUserId(id) => {
                let mut s = String::from_str("No user with id ");
                s.append(i64_string(*id).as_str());
                s.append(" exists.");
                s
            },
            Error::NoSuchUserLogin(l) => {
                let mut s = String::from_str("No user with login ");
                s.append(l.as_str());
                s.append(" exists.");
                s
            },
            Error::UrlParse(u) => {
                let mut s = String::from_str("Failed to parse URL ");
                s.append(u.as_str());
                s
            },
            Error::AuthUrlMissingClientId => String::from_str(
                "Authentication URL is missing a client id",
            ),
            Error::Unauthorized => String::from_str("Not authorized."),
            Error::NoSuchClient(id) => {
                let mut s = String::from_str("No client with id ");
                s.append(id.as_str());
                s.append(" in Fakehub");
                s
            },
            Error::HostlessBase(u) => {
                let mut s = String::from_str("Base redirect url ");
                s.append(u.as_str());
                s.append(" has no host");
                s
            },
            Error::InvalidHost(b, h) => {
                let mut s = String::from_str("Host ");
                s.append(h.as_str());
                s.append(" does not match base of ");
                s.append(b.as_str());
                s
            },
            Error::InvalidHeader(h) => {
                let mut s = String::from_str("Header ");
                s.append(h.as_str());
                s.append(" contains an non-ASCII value");
                s
            },
            Error::InvalidBasePath(b, p) => {
                let mut s = String::from_str("Path ");
                s.append(p.as_str());
                s.append(" does not match base of ");
                s.append(b.as_str());
                s
            },
            Error::ClientCreation(s) => s.clone(),
            Error::Http(c, reason) => {
                let mut s = String::from_str("Remote responded with status code ");
                match c {
                    Some(n) => {
                        s.append("Some(");
                        s.append(u64_string(*n as u64).as_str());
                        s.append(")");
                    },
                    None => {
                        s.append("None");
                    },
                }
                s.append(" with reason ");
                s.append(reason.as_str());
                s
            },
            Error::Decode(s) => s.clone(),
            Error::OtherHttp(s) => s.clone(),
        }
    }
}

impl From<crate::error::Error> for Error {
    /// The client-side failures carried over into the mock's taxonomy.
    fn from(value: crate::error::Error) -> (r: Self) {
        match value {
            crate::error::Error::ClientCreation(reason) => Self::ClientCreation(reason),
            crate::error::Error::Http(code, reason) => Self::Http(code, reason),
            crate::error::Error::Decode(reason) => Self::Decode(reason),
            crate::error::Error::OtherHttp(reason) => Self::OtherHttp(reason),
        }
    }
}

impl vstd::std_specs::convert::FromSpecImpl<crate::error::Error> for Error {
    open spec fn obeys_from_spec() -> bool {
        true
    }

    open spec fn from_spec(value: crate::error::Error) -> Self {
        match value {
            crate::error::Error::ClientCreation(reason) => Self::ClientCreation(reason),
            crate::error::Error::Http(code, reason) => Self::Http(code, reason),
            crate::error::Error::Decode(reason) => Self::Decode(reason),
            crate::error::Error::OtherHttp(reason) => Self::OtherHttp(reason),
        }
    }
}

} // verus!
