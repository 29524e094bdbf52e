//! The response shapes the provider answers with: a token grant and a user
//! record. These are the fixed wire contracts the client maps responses
//! onto.

use vstd::prelude::*;

verus! {

/// A successful token exchange: the access token, its type, and the granted
/// scope.
pub struct GetAccessTokenResponse {
    pub access_token: String,
    pub token_type: String,
    pub scope: String,
}

/// The mathematical value of a [`GetAccessTokenResponse`].
pub struct AccessTokenV {
    pub access_token: Seq<char>,
    pub token_type: Seq<char>,
    pub scope: Seq<char>,
}

impl View for GetAccessTokenResponse {
    type V = AccessTokenV;

    open spec fn view(&self) -> AccessTokenV {
        AccessTokenV {
            access_token: self.access_token@,
            token_type: self.token_type@,
            scope: self.scope@,
        }
    }
}

/// The diagnostic text of a token grant with the access token left out.
pub open spec fn spec_redacted_access_token(v: AccessTokenV) -> Seq<char> {
    "GetAccessTokenResponse { access_token: REDACTED, token_type: "@ + v.token_type + ", scope: "@
        + v.scope + " }"@
}

impl GetAccessTokenResponse {
    /// A printable form of this response. The access token must never reach
    /// a log, so it is redacted here.
    pub fn redacted(&self) -> (m: String)
        ensures
            m@ == spec_redacted_access_token(self@),
    {
        let mut s = String::from_str(
            "GetAccessTokenResponse { access_token: REDACTED, token_type: ",
        );
        s.append(self.token_type.as_str());
        s.append(", scope: ");
        s.append(self.scope.as_str());
        s.append(" }");
        s
    }
}

/// The user record the provider reports: the durable numeric id, the login
/// handle, and the avatar and profile URLs.
#[derive(Debug)]
pub struct UserDetailResponse {
    pub id: i64,
    pub login: String,
    pub avatar_url: String,
    pub html_url: String,
}

/// The mathematical value of a [`UserDetailResponse`].
pub struct UserDetailV {
    pub id: i64,
    pub login: Seq<char>,
    pub avatar_url: Seq<char>,
    pub html_url: Seq<char>,
}

impl View for UserDetailResponse {
    type V = UserDetailV;

    open spec fn view(&self) -> UserDetailV {
        UserDetailV {
            id: self.id,
            login: self.login@,
            avatar_url: self.avatar_url@,
            html_url: self.html_url@,
        }
    }
}

} // verus!
