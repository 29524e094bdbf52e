//! What the provider's operations guarantee in combination: a code obtained
//! for a registered user exchanges into a token that resolves back to that
//! user, a code redeems at most once, and the token endpoint's two failure
//! signals are distinct.

use vstd::prelude::*;

use crate::fakehub::api_gh::{spec_user_detail, AuthHeaderV};
use crate::fakehub::error::ErrorV;
use crate::fakehub::gh::{spec_exchange, ExchangeV};
use crate::fakehub::state::{token_chars, StateView};
use crate::shapes::UserDetailV;

verus! {

/// For any store, any registered user and any registered client: issuing a
/// code for the user, exchanging it with the client's own credentials, and
/// presenting the resulting token to the user-info endpoint yields exactly
/// that user's id, login, avatar URL and profile URL.
pub proof fn lemma_login_round_trip(s0: StateView, client_id: Seq<char>, user_id: i64)
    requires
        s0.clients.contains_key(client_id),
        s0.has_user(user_id),
    ensures
        ({
            let code = token_chars(user_id as int);
            let s1 = s0.with_code(code, user_id);
            let (s2, granted) = spec_exchange(
                s1,
                client_id,
                s0.clients[client_id].secret,
                code,
            );
            granted matches ExchangeV::Token(t) && t.access_token == code && t.token_type
                == "bearer"@ && t.scope == Seq::<char>::empty() && spec_user_detail(
                s2,
                AuthHeaderV::Value("token "@ + t.access_token),
            ) == Ok::<UserDetailV, ErrorV>(
                UserDetailV {
                    id: user_id,
                    login: s0.user_of(user_id).login,
                    avatar_url: s0.user_of(user_id).avatar_url,
                    html_url: s0.user_of(user_id).html_url,
                },
            )
        }),
{
    let code = token_chars(user_id as int);
    let s1 = s0.with_code(code, user_id);
    let secret = s0.clients[client_id].secret;
    assert(s1.client_ok(client_id, secret));
    assert(s1.codes.contains_key(code) && s1.codes[code] == user_id);
    let (s2, granted) = spec_exchange(s1, client_id, secret, code);
    let header = "token "@ + code;
    assert("token "@.is_prefix_of(header)) by {
        assert(header.subrange(0, "token "@.len() as int) =~= "token "@);
    }
    assert(header.skip("token "@.len() as int) =~= code);
    assert(s2.tokens.contains_key(code) && s2.tokens[code] == user_id);
    assert(s2.users == s0.users);
    assert(s2.has_user(user_id));
}

/// A code is valid for at most one redemption: once an exchange has granted
/// a token for a code, a further exchange of the same code answers the
/// bad-code signal, whatever order the store's lock serialized the attempts
/// in.
pub proof fn lemma_code_one_shot(
    s0: StateView,
    client_id: Seq<char>,
    client_secret: Seq<char>,
    code: Seq<char>,
)
    ensures
        ({
            let (s1, first) = spec_exchange(s0, client_id, client_secret, code);
            first matches ExchangeV::Token(_) ==> spec_exchange(
                s1,
                client_id,
                client_secret,
                code,
            ).1 == ExchangeV::BadCode
        }),
{
    let (s1, first) = spec_exchange(s0, client_id, client_secret, code);
    if first matches ExchangeV::Token(_) {
        assert(s1.clients == s0.clients);
        assert(s1.client_ok(client_id, client_secret));
        assert(!s1.codes.contains_key(code));
    }
}

/// A bad client credential pair and a bad code fail with two different
/// signals: wrong or unknown credentials answer bad-client, and with good
/// credentials an unknown or already redeemed code answers bad-code.
pub proof fn lemma_exchange_failure_signals(
    s: StateView,
    client_id: Seq<char>,
    client_secret: Seq<char>,
    code: Seq<char>,
)
    ensures
        !s.client_ok(client_id, client_secret) ==> spec_exchange(
            s,
            client_id,
            client_secret,
            code,
        ).1 == ExchangeV::BadClient,
        s.client_ok(client_id, client_secret) && !s.codes.contains_key(code) ==> spec_exchange(
            s,
            client_id,
            client_secret,
            code,
        ).1 == ExchangeV::BadCode,
{
}

} // verus!
