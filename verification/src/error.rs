//! The client-side error taxonomy: what a caller of the provider client can
//! see. Each call makes exactly one attempt and surfaces its failure as one
//! of these variants, never retrying.

use vstd::prelude::*;

use crate::text::{decimal_chars_nat, u64_string};

verus! {

/// A failure while talking to the provider: building the HTTP client, a
/// non-success status (with the code when one was received), a body that
/// did not decode, or any other transport failure.
#[derive(Debug)]
pub enum Error {
    ClientCreation(String),
    Http(Option<u16>, String),
    Decode(String),
    OtherHttp(String),
}

/// The mathematical value of an [`Error`].
pub enum ClientErrorV {
    ClientCreation(Seq<char>),
    Http(Option<u16>, Seq<char>),
    Decode(Seq<char>),
    OtherHttp(Seq<char>),
}

impl View for Error {
    type V = ClientErrorV;

    open spec fn view(&self) -> ClientErrorV {
        match self {
            Error::ClientCreation(s) => ClientErrorV::ClientCreation(s@),
            Error::Http(c, s) => ClientErrorV::Http(*c, s@),
            Error::Decode(s) => ClientErrorV::Decode(s@),
            Error::OtherHttp(s) => ClientErrorV::OtherHttp(s@),
        }
    }
}

impl ClientErrorV {
    /// The diagnostic text of each variant. No variant carries a secret or
    /// a token.
    pub open spec fn spec_message(self) -> Seq<char> {
        match self {
            ClientErrorV::ClientCreation(s) => s,
            ClientErrorV::Http(c, s) => "Remote responded with status code "@ + (match c {
                Some(n) => "Some("@ + decimal_chars_nat(n as nat) + ")"@,
                None => "None"@,
            }) + " with reason "@ + s,
            ClientErrorV::Decode(s) => s,
            ClientErrorV::OtherHttp(s) => s,
        }
    }
}

impl Error {
    /// The diagnostic text of this error.
    pub fn message(&self) -> (m: String)
        ensures
            m@ == self@.spec_message(),
    {
        match self {
            Error::ClientCreation(s) => s.clone(),
            Error::Http(c, reason) => {
                let mut s = String::from_str("Remote responded with status code ");
                match c {
                    Some(n) => {
                        s.append("Some(");
                        s.append(u64_string(*n as u64).as_str());
                        s.append(")");
                    },
                    None => {
                        s.append("None");
                    },
                }
                s.append(" with reason ");
                s.append(reason.as_str());
                s
            },
            Error::Decode(s) => s.clone(),
            Error::OtherHttp(s) => s.clone(),
        }
    }
}

} // verus!
