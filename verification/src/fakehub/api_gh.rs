//! The decision logic of the mock resource API: resolving an `Authorization`
//! header to a user record, and the public lookup by login. The HTTP
//! plumbing around these functions lives outside the library.

use vstd::prelude::*;

use crate::fakehub::error::{Error, ErrorV};
use crate::fakehub::state::{FakehubState, StateView};
use crate::shapes::{UserDetailResponse, UserDetailV};
use crate::text::str_starts_with;

verus! {

/// The `Authorization` header as the endpoint sees it: absent, present but
/// not decodable as ASCII text, or its text.
pub enum AuthHeader {
    Missing,
    NotAscii,
    Value(String),
}

/// The mathematical value of an [`AuthHeader`].
pub enum AuthHeaderV {
    Missing,
    NotAscii,
    Value(Seq<char>),
}

impl View for AuthHeader {
    type V = AuthHeaderV;

    open spec fn view(&self) -> AuthHeaderV {
        match self {
            AuthHeader::Missing => AuthHeaderV::Missing,
            AuthHeader::NotAscii => AuthHeaderV::NotAscii,
            AuthHeader::Value(s) => AuthHeaderV::Value(s@),
        }
    }
}

/// What the authenticated user-info endpoint answers for a store and a
/// header: a missing header, a header without the `token ` prefix, and an
/// unknown token are all unauthorized; a non-ASCII header is rejected as
/// malformed; a token of an unregistered user trips the defensive check;
/// otherwise the token's user is reported.
pub open spec fn spec_user_detail(s: StateView, auth: AuthHeaderV) -> Result<UserDetailV, ErrorV> {
    match auth {
        AuthHeaderV::Missing => Err(ErrorV::Unauthorized),
        AuthHeaderV::NotAscii => Err(ErrorV::InvalidHeader("Authorization"@)),
        AuthHeaderV::Value(h) => {
            if !"token "@.is_prefix_of(h) {
                Err(ErrorV::Unauthorized)
            } else {
                let token = h.skip("token "@.len() as int);
                if !s.tokens.contains_key(token) {
                    Err(ErrorV::Unauthorized)
                } else {
                    let user_id = s.tokens[token];
                    if !s.has_user(user_id) {
                        Err(ErrorV::NoSuchUserId(user_id))
                    } else {
                        let u = s.user_of(user_id);
                        Ok(
                            UserDetailV {
                                id: user_id,
                                login: u.login,
                                avatar_url: u.avatar_url,
                                html_url: u.html_url,
                            },
                        )
                    }
                }
            }
        },
    }
}

/// The authenticated user-info endpoint: strips `token ` off the
/// `Authorization` header, resolves the token to a user id, and reports that
/// user's record.
pub fn get_user_detail(state: &FakehubState, authorization: &AuthHeader) -> (r: Result<
    UserDetailResponse,
    Error,
>)
    requires
        state.wf(),
    ensures
        match r {
            Ok(d) => spec_user_detail(state@, authorization@) == Ok::<UserDetailV, ErrorV>(d@),
            Err(e) => spec_user_detail(state@, authorization@) == Err::<UserDetailV, ErrorV>(e@),
        },
{
    let h = match authorization {
        AuthHeader::Missing => {
            return Err(Error::Unauthorized);
        },
        AuthHeader::NotAscii => {
            return Err(Error::InvalidHeader(String::from_str("Authorization")));
        },
        AuthHeader::Value(h) => h,
    };
    if !str_starts_with(h.as_str(), "token ") {
        return Err(Error::Unauthorized);
    }
    proof {
        reveal_strlit("token ");
    }
    let n = h.as_str().unicode_len();
    let token = h.as_str().substring_char(6, n);
    proof {
        assert(token@ =~= h@.skip("token "@.len() as int));
    }
    let user_id = match state.get_token_user(token) {
        Some(user_id) => user_id,
        None => {
            return Err(Error::Unauthorized);
        },
    };
    match state.find_user(user_id) {
        Some(u) => Ok(
            UserDetailResponse {
                id: user_id,
                login: u.login.clone(),
                avatar_url: u.avatar_url.clone(),
                html_url: u.html_url.clone(),
            },
        ),
        None => Err(Error::NoSuchUserId(user_id)),
    }
}

/// What the public lookup answers: the first user with the login, in
/// registration order, or a not-found error naming the login.
pub open spec fn spec_user_detail_public(s: StateView, login: Seq<char>) -> Result<
    UserDetailV,
    ErrorV,
> {
    match s.find_login(login) {
        Some((user_id, u)) => Ok(
            UserDetailV {
                id: user_id,
                login: u.login,
                avatar_url: u.avatar_url,
                html_url: u.html_url,
            },
        ),
        None => Err(ErrorV::NoSuchUserLogin(login)),
    }
}

/// The public user-info endpoint: looks a user up by login, with no
/// authentication.
pub fn get_user_detail_public(state: &FakehubState, login: &str) -> (r: Result<
    UserDetailResponse,
    Error,
>)
    ensures
        match r {
            Ok(d) => spec_user_detail_public(state@, login@) == Ok::<UserDetailV, ErrorV>(d@),
            Err(e) => spec_user_detail_public(state@, login@) == Err::<UserDetailV, ErrorV>(e@),
        },
{
    match state.get_user_by_login(login) {
        Some((user_id, u)) => Ok(
            UserDetailResponse {
                id: *user_id,
                login: u.login.clone(),
                avatar_url: u.avatar_url.clone(),
                html_url: u.html_url.clone(),
            },
        ),
        None => Err(Error::NoSuchUserLogin(login.to_owned())),
    }
}

} // verus!
