//! The decision logic of the mock authorization server's endpoints: issuing
//! a login code behind a redirect, and exchanging a code for an access
//! token. The HTTP plumbing around these functions lives outside the
//! library.

use vstd::prelude::*;

use crate::fakehub::error::{Error, ErrorV};
use crate::fakehub::state::{
    spec_check_redirect, token_chars, ClientV, FakehubState, StateView,
};
use crate::urls::{
    parse_url, spec_parsed_url, url_parses, url_with_query_pair, with_query_pair, UrlView,
};

verus! {

/// What the token endpoint answers: a token grant, or one of two distinct
/// failure signals — bad client credentials, or a bad (unknown or already
/// redeemed) code.
pub enum ExchangeCodeForTokenResponse {
    Token(TokenResponse),
    BadClient,
    BadCode,
}

/// The token grant's body: the access token, an empty scope, and the fixed
/// `bearer` token type.
pub struct TokenResponse {
    pub access_token: String,
    pub scope: String,
    pub token_type: String,
}

/// The mathematical value of a [`TokenResponse`].
pub struct TokenResponseV {
    pub access_token: Seq<char>,
    pub scope: Seq<char>,
    pub token_type: Seq<char>,
}

/// The mathematical value of an [`ExchangeCodeForTokenResponse`].
pub enum ExchangeV {
    Token(TokenResponseV),
    BadClient,
    BadCode,
}

impl View for TokenResponse {
    type V = TokenResponseV;

    open spec fn view(&self) -> TokenResponseV {
        TokenResponseV {
            access_token: self.access_token@,
            scope: self.scope@,
            token_type: self.token_type@,
        }
    }
}

impl View for ExchangeCodeForTokenResponse {
    type V = ExchangeV;

    open spec fn view(&self) -> ExchangeV {
        match self {
            ExchangeCodeForTokenResponse::Token(t) => ExchangeV::Token(t@),
            ExchangeCodeForTokenResponse::BadClient => ExchangeV::BadClient,
            ExchangeCodeForTokenResponse::BadCode => ExchangeV::BadCode,
        }
    }
}

/// What a token exchange does to the store and answers: bad credentials
/// change nothing; with good credentials the code is consumed either way,
/// and a known code is answered with a token derived from its user.
pub open spec fn spec_exchange(
    s: StateView,
    client_id: Seq<char>,
    client_secret: Seq<char>,
    code: Seq<char>,
) -> (StateView, ExchangeV) {
    if !s.client_ok(client_id, client_secret) {
        (s, ExchangeV::BadClient)
    } else if !s.codes.contains_key(code) {
        (s.without_code(code), ExchangeV::BadCode)
    } else {
        let user_id = s.codes[code];
        let token = token_chars(user_id as int);
        (
            s.without_code(code).with_token(token, user_id),
            ExchangeV::Token(
                TokenResponseV { access_token: token, scope: Seq::empty(), token_type: "bearer"@ },
            ),
        )
    }
}

/// The token endpoint: validates the client credential pair, then redeems
/// the code (consuming it), then issues and stores a token for the code's
/// user.
pub fn exchange_code_for_token(
    state: &mut FakehubState,
    client_id: &str,
    client_secret: &str,
    code: &str,
) -> (r: ExchangeCodeForTokenResponse)
    requires
        old(state).wf(),
    ensures
        final(state).wf(),
        (final(state)@, r@) == spec_exchange(old(state)@, client_id@, client_secret@, code@),
{
    if !state.client_matches(client_id, client_secret) {
        return ExchangeCodeForTokenResponse::BadClient;
    }
    let user_id = match state.pop_code(code) {
        Some(user_id) => user_id,
        None => {
            return ExchangeCodeForTokenResponse::BadCode;
        },
    };
    let token = state.push_token(user_id);
    ExchangeCodeForTokenResponse::Token(
        TokenResponse {
            access_token: token,
            scope: String::new(),
            token_type: String::from_str("bearer"),
        },
    )
}

/// The redirect URL the authorization endpoint will use for a client: the
/// registered base when no candidate is supplied, otherwise the candidate,
/// validated against the base.
pub open spec fn spec_chosen_redirect(client: ClientV, redirect: Option<Seq<char>>) -> Result<
    UrlView,
    ErrorV,
> {
    match redirect {
        None => Ok(client.redirect_url),
        Some(ru) => spec_check_redirect(client.redirect_url, spec_parsed_url(ru)),
    }
}

/// The authorization endpoint: looks the client up, validates or derives the
/// redirect URL, issues a code for the user, and answers with the redirect
/// location — the chosen URL unmodified except for `code=<issued code>`
/// appended to its query. The location is owed whenever the inputs pass:
/// both a stored base and an accepted candidate parse back.
pub fn issue_code(
    state: &mut FakehubState,
    client_id: &str,
    user_id: i64,
    redirect_uri: Option<&str>,
) -> (r: Result<String, Error>)
    requires
        old(state).wf(),
    ensures
        final(state).wf(),
        ({
            let s0 = old(state)@;
            let redirect = match redirect_uri {
                Some(ru) => Some(ru@),
                None => None::<Seq<char>>,
            };
            if redirect matches Some(ru) && !url_parses(ru) {
                r matches Err(e) && e@ is UrlParse && final(state)@ == s0
            } else if !s0.clients.contains_key(client_id@) {
                r matches Err(e) && e@ == ErrorV::NoSuchClient(client_id@) && final(state)@ == s0
            } else {
                match spec_chosen_redirect(s0.clients[client_id@], redirect) {
                    Err(ev) => r matches Err(x) && x@ == ev && final(state)@ == s0,
                    Ok(chosen) => if !s0.has_user(user_id) {
                        r matches Err(e) && e@ == ErrorV::NoSuchUserId(user_id) && final(state)@
                            == s0
                    } else {
                        r matches Ok(loc) && loc@ == url_with_query_pair(
                            chosen.text,
                            "code"@,
                            token_chars(user_id as int),
                        ) && final(state)@ == s0.with_code(token_chars(user_id as int), user_id)
                    },
                }
            }
        }),
{
    let parsed = match redirect_uri {
        Some(ru) => match parse_url(ru) {
            Ok(p) => Some(p),
            Err(e) => {
                return Err(e);
            },
        },
        None => None,
    };
    let redirect = {
        let client = match state.get_client(client_id) {
            Ok(c) => c,
            Err(e) => {
                return Err(e);
            },
        };
        match &parsed {
            Some(p) => match client.check_redirect_url(p) {
                Ok(u) => u,
                Err(e) => {
                    return Err(e);
                },
            },
            None => client.redirect_url.clone(),
        }
    };
    let code = match state.get_code(user_id) {
        Ok(c) => c,
        Err(e) => {
            return Err(e);
        },
    };
    match with_query_pair(redirect.text.as_str(), "code", code.as_str()) {
        Ok(location) => Ok(location),
        Err(e) => Err(e),
    }
}

} // verus!
