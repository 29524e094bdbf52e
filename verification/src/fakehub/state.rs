//! The mock provider's in-memory store: registered clients and users,
//! issued login codes and access tokens, with the issuance, redemption and
//! redirect-validation rules. Each table is an association list with unique
//! keys, viewed as a mathematical map (users keep registration order, which
//! lookup by login respects).

use vstd::prelude::*;

use crate::fakehub::error::{Error, ErrorV};
use crate::kv::{
    kv_map, kv_unique, lemma_kv_map_contains, lemma_kv_map_index, lemma_kv_map_push,
    lemma_kv_map_update,
};
use crate::text::{decimal_chars, i64_string, str_eq, str_starts_with};
use crate::urls::{parse_url, spec_parsed_url, url_parses, UrlParts, UrlView};

verus! {

/// A registered OAuth consumer application: its secret, compared exactly on
/// token exchange, and the redirect base URL it was registered with.
pub struct Client {
    pub secret: String,
    pub redirect_url: UrlParts,
}

/// A fixture for a person who can log in.
#[derive(Debug)]
pub struct User {
    pub login: String,
    pub avatar_url: String,
    pub html_url: String,
}

/// The mathematical value of a [`Client`].
pub struct ClientV {
    pub secret: Seq<char>,
    pub redirect_url: UrlView,
}

/// The mathematical value of a [`User`].
pub struct UserV {
    pub login: Seq<char>,
    pub avatar_url: Seq<char>,
    pub html_url: Seq<char>,
}

impl View for Client {
    type V = ClientV;

    open spec fn view(&self) -> ClientV {
        ClientV { secret: self.secret@, redirect_url: self.redirect_url@ }
    }
}

impl View for User {
    type V = UserV;

    open spec fn view(&self) -> UserV {
        UserV { login: self.login@, avatar_url: self.avatar_url@, html_url: self.html_url@ }
    }
}

impl Clone for User {
    fn clone(&self) -> (r: Self)
        ensures
            r == *self,
    {
        User {
            login: self.login.clone(),
            avatar_url: self.avatar_url.clone(),
            html_url: self.html_url.clone(),
        }
    }
}

impl Clone for Client {
    fn clone(&self) -> (r: Self)
        ensures
            r == *self,
    {
        Client { secret: self.secret.clone(), redirect_url: self.redirect_url.clone() }
    }
}

/// The string a code or token derives from: `token_` followed by the user id
/// in decimal.
pub open spec fn token_chars(user_id: int) -> Seq<char> {
    "token_"@ + decimal_chars(user_id)
}

/// The entries of a string-keyed table, as key characters and value views.
pub open spec fn client_entries(s: Seq<(String, Client)>) -> Seq<(Seq<char>, ClientV)> {
    s.map_values(|p: (String, Client)| (p.0@, p.1@))
}

/// The entries of a code or token table, as key characters and user ids.
pub open spec fn code_entries(s: Seq<(String, i64)>) -> Seq<(Seq<char>, i64)> {
    s.map_values(|p: (String, i64)| (p.0@, p.1))
}

/// The user table, as ids and user views, in registration order.
pub open spec fn user_entries(s: Seq<(i64, User)>) -> Seq<(i64, UserV)> {
    s.map_values(|p: (i64, User)| (p.0, p.1@))
}

/// The first user whose login matches, in registration order.
pub open spec fn find_login_in(s: Seq<(i64, UserV)>, login: Seq<char>) -> Option<(i64, UserV)>
    decreases s.len(),
{
    if s.len() == 0 {
        None
    } else if s.first().1.login == login {
        Some(s.first())
    } else {
        find_login_in(s.drop_first(), login)
    }
}

/// The mathematical value of the whole store.
#[verifier::ext_equal]
pub struct StateView {
    pub users: Seq<(i64, UserV)>,
    pub clients: Map<Seq<char>, ClientV>,
    pub codes: Map<Seq<char>, i64>,
    pub tokens: Map<Seq<char>, i64>,
}

impl StateView {
    /// Whether a user with this id is registered.
    pub open spec fn has_user(self, user_id: i64) -> bool {
        exists|i: int| 0 <= i < self.users.len() && self.users[i].0 == user_id
    }

    /// The index of the user with this id.
    pub open spec fn user_index(self, user_id: i64) -> int {
        choose|i: int| 0 <= i < self.users.len() && self.users[i].0 == user_id
    }

    /// The user registered under this id.
    pub open spec fn user_of(self, user_id: i64) -> UserV {
        self.users[self.user_index(user_id)].1
    }

    /// The first user with this login, in registration order.
    pub open spec fn find_login(self, login: Seq<char>) -> Option<(i64, UserV)> {
        find_login_in(self.users, login)
    }

    /// Whether a client with this id is registered and holds this secret.
    pub open spec fn client_ok(self, client_id: Seq<char>, secret: Seq<char>) -> bool {
        self.clients.contains_key(client_id) && self.clients[client_id].secret == secret
    }

    /// The store after registering (or overwriting) a user.
    pub open spec fn with_user(self, user_id: i64, user: UserV) -> StateView {
        StateView {
            users: if self.has_user(user_id) {
                self.users.update(self.user_index(user_id), (user_id, user))
            } else {
                self.users.push((user_id, user))
            },
            ..self
        }
    }

    /// The store after registering (or overwriting) a client.
    pub open spec fn with_client(self, client_id: Seq<char>, client: ClientV) -> StateView {
        StateView { clients: self.clients.insert(client_id, client), ..self }
    }

    /// The store after issuing a code for a user.
    pub open spec fn with_code(self, code: Seq<char>, user_id: i64) -> StateView {
        StateView { codes: self.codes.insert(code, user_id), ..self }
    }

    /// The store after consuming a code.
    pub open spec fn without_code(self, code: Seq<char>) -> StateView {
        StateView { codes: self.codes.remove(code), ..self }
    }

    /// The store after issuing a token for a user.
    pub open spec fn with_token(self, token: Seq<char>, user_id: i64) -> StateView {
        StateView { tokens: self.tokens.insert(token, user_id), ..self }
    }
}

/// The shared in-memory store of all mock identity data.
pub struct FakehubState {
    users: Vec<(i64, User)>,
    clients: Vec<(String, Client)>,
    issued_codes: Vec<(String, i64)>,
    tokens: Vec<(String, i64)>,
}

impl View for FakehubState {
    type V = StateView;

    closed spec fn view(&self) -> StateView {
        StateView {
            users: user_entries(self.users@),
            clients: kv_map(client_entries(self.clients@)),
            codes: kv_map(code_entries(self.issued_codes@)),
            tokens: kv_map(code_entries(self.tokens@)),
        }
    }
}

/// Finds the entry with this id in an id-keyed table.
fn find_id<V>(entries: &Vec<(i64, V)>, key: i64) -> (r: Option<usize>)
    ensures
        match r {
            Some(i) => i < entries@.len() && entries@[i as int].0 == key,
            None => forall|i: int| 0 <= i < entries@.len() ==> entries@[i].0 != key,
        },
{
    let mut i: usize = 0;
    while i < entries.len()
        invariant
            i <= entries@.len(),
            forall|j: int| 0 <= j < i ==> entries@[j].0 != key,
        decreases entries@.len() - i,
    {
        if entries[i].0 == key {
            return Some(i);
        }
        i += 1;
    }
    None
}

/// Finds the first entry with this login in the user table.
fn find_login_index(entries: &Vec<(i64, User)>, login: &str) -> (r: Option<usize>)
    ensures
        match r {
            Some(i) => i < entries@.len() && entries@[i as int].1.login@ == login@ && forall|j: int|
                0 <= j < i ==> entries@[j].1.login@ != login@,
            None => forall|i: int| 0 <= i < entries@.len() ==> entries@[i].1.login@ != login@,
        },
{
    let mut i: usize = 0;
    while i < entries.len()
        invariant
            i <= entries@.len(),
            forall|j: int| 0 <= j < i ==> entries@[j].1.login@ != login@,
        decreases entries@.len() - i,
    {
        if str_eq(entries[i].1.login.as_str(), login) {
            return Some(i);
        }
        i += 1;
    }
    None
}

/// A first match at an index is what the order-respecting lookup returns.
proof fn lemma_find_login_first(s: Seq<(i64, UserV)>, login: Seq<char>, i: int)
    requires
        0 <= i < s.len(),
        s[i].1.login == login,
        forall|j: int| 0 <= j < i ==> s[j].1.login != login,
    ensures
        find_login_in(s, login) == Some(s[i]),
    decreases i,
{
    if i == 0 {
    } else {
        assert(forall|j: int| 0 <= j < i - 1 ==> s.drop_first()[j].1.login != login);
        lemma_find_login_first(s.drop_first(), login, i - 1);
    }
}

/// With no match anywhere, the order-respecting lookup returns nothing.
proof fn lemma_find_login_none(s: Seq<(i64, UserV)>, login: Seq<char>)
    requires
        forall|j: int| 0 <= j < s.len() ==> s[j].1.login != login,
    ensures
        find_login_in(s, login) is None,
    decreases s.len(),
{
    if s.len() > 0 {
        assert(forall|j: int| 0 <= j < s.len() - 1 ==> s.drop_first()[j].1.login != login);
        lemma_find_login_none(s.drop_first(), login);
    }
}

/// Finds the entry with this key in a string-keyed table.
fn find_key<V>(entries: &Vec<(String, V)>, key: &str) -> (r: Option<usize>)
    ensures
        match r {
            Some(i) => i < entries@.len() && entries@[i as int].0@ == key@,
            None => forall|i: int| 0 <= i < entries@.len() ==> entries@[i].0@ != key@,
        },
{
    let mut i: usize = 0;
    while i < entries.len()
        invariant
            i <= entries@.len(),
            forall|j: int| 0 <= j < i ==> entries@[j].0@ != key@,
        decreases entries@.len() - i,
    {
        if str_eq(entries[i].0.as_str(), key) {
            return Some(i);
        }
        i += 1;
    }
    None
}

/// Inserts or replaces one entry of a code or token table, keeping keys
/// unique.
fn upsert_code_entry(entries: &mut Vec<(String, i64)>, key: String, value: i64)
    requires
        kv_unique(code_entries(old(entries)@)),
    ensures
        kv_unique(code_entries(final(entries)@)),
        kv_map(code_entries(final(entries)@)) == kv_map(code_entries(old(entries)@)).insert(
            key@,
            value,
        ),
{
    match find_key(entries, key.as_str()) {
        Some(i) => {
            let ghost s = code_entries(entries@);
            entries[i] = (key, value);
            proof {
                lemma_kv_map_update(s, i as int, value);
                assert(code_entries(entries@) =~= s.update(i as int, (s[i as int].0, value)));
            }
        },
        None => {
            let ghost s = code_entries(entries@);
            let ghost k = key@;
            entries.push((key, value));
            proof {
                lemma_kv_map_push(s, k, value);
                assert(code_entries(entries@) =~= s.push((k, value)));
            }
        },
    }
}

impl FakehubState {
    /// The representation keeps every table's keys unique, and every stored
    /// client's redirect base is the serialization of a parsed URL, so it
    /// parses back.
    pub closed spec fn wf(self) -> bool {
        &&& kv_unique(user_entries(self.users@))
        &&& kv_unique(client_entries(self.clients@))
        &&& kv_unique(code_entries(self.issued_codes@))
        &&& kv_unique(code_entries(self.tokens@))
        &&& forall|i: int|
            0 <= i < self.clients@.len() ==> url_parses(
                #[trigger] self.clients@[i].1.redirect_url.text@,
            )
    }

    /// An empty store: no clients, users, codes or tokens.
    pub fn new() -> (s: Self)
        ensures
            s.wf(),
            s@.users == Seq::<(i64, UserV)>::empty(),
            s@.clients == Map::<Seq<char>, ClientV>::empty(),
            s@.codes == Map::<Seq<char>, i64>::empty(),
            s@.tokens == Map::<Seq<char>, i64>::empty(),
    {
        let s = FakehubState {
            users: Vec::new(),
            clients: Vec::new(),
            issued_codes: Vec::new(),
            tokens: Vec::new(),
        };
        proof {
            assert(user_entries(s.users@) =~= Seq::<(i64, UserV)>::empty());
            assert(client_entries(s.clients@) =~= Seq::<(Seq<char>, ClientV)>::empty());
            assert(code_entries(s.issued_codes@) =~= Seq::<(Seq<char>, i64)>::empty());
            assert(code_entries(s.tokens@) =~= Seq::<(Seq<char>, i64)>::empty());
        }
        s
    }

    /// Registers (or overwrites) a user fixture under an id.
    pub fn add_user(&mut self, user_id: i64, user: User)
        requires
            old(self).wf(),
        ensures
            final(self).wf(),
            final(self)@ == old(self)@.with_user(user_id, user@),
    {
        let ghost s = user_entries(self.users@);
        let ghost uv = user@;
        match find_id(&self.users, user_id) {
            Some(i) => {
                proof {
                    assert(s[i as int].0 == user_id);
                    assert(old(self)@.users[i as int].0 == user_id);
                    assert(old(self)@.has_user(user_id));
                    assert(old(self)@.user_index(user_id) == i as int) by {
                        let w = old(self)@.user_index(user_id);
                        assert(s[w].0 == user_id && s[i as int].0 == user_id);
                        assert(kv_unique(s));
                    }
                }
                self.users[i] = (user_id, user);
                proof {
                    assert(user_entries(self.users@) =~= s.update(i as int, (user_id, uv)));
                    assert(kv_unique(user_entries(self.users@)));
                    assert(final(self)@ =~= old(self)@.with_user(user_id, uv));
                }
            },
            None => {
                proof {
                    assert(forall|j: int| 0 <= j < s.len() ==> s[j].0 != user_id);
                    assert(!old(self)@.has_user(user_id));
                }
                self.users.push((user_id, user));
                proof {
                    assert(user_entries(self.users@) =~= s.push((user_id, uv)));
                    assert(kv_unique(user_entries(self.users@)));
                    assert(final(self)@ =~= old(self)@.with_user(user_id, uv));
                }
            },
        }
    }

    /// Registers (or overwrites) a client under an id. The client's redirect
    /// base must be the serialization of a parsed URL, as [`parse_url`]
    /// yields it; [`Self::add_client_with_base`] establishes that from a raw
    /// string.
    pub fn add_client(&mut self, client_id: String, client: Client)
        requires
            old(self).wf(),
            url_parses(client.redirect_url@.text),
        ensures
            final(self).wf(),
            final(self)@ == old(self)@.with_client(client_id@, client@),
    {
        let ghost s = client_entries(self.clients@);
        let ghost k = client_id@;
        let ghost cv = client@;
        match find_key(&self.clients, client_id.as_str()) {
            Some(i) => {
                self.clients[i] = (client_id, client);
                proof {
                    lemma_kv_map_update(s, i as int, cv);
                    assert(client_entries(self.clients@) =~= s.update(
                        i as int,
                        (s[i as int].0, cv),
                    ));
                    assert(final(self)@ =~= old(self)@.with_client(k, cv));
                }
            },
            None => {
                self.clients.push((client_id, client));
                proof {
                    lemma_kv_map_push(s, k, cv);
                    assert(client_entries(self.clients@) =~= s.push((k, cv)));
                    assert(final(self)@ =~= old(self)@.with_client(k, cv));
                }
            },
        }
    }

    /// Registers (or overwrites) a client from its id, secret and redirect
    /// base URL; a base that does not parse is rejected and the store is
    /// unchanged.
    pub fn add_client_with_base(
        &mut self,
        client_id: String,
        client_secret: String,
        base: &str,
    ) -> (r: Result<(), Error>)
        requires
            old(self).wf(),
        ensures
            final(self).wf(),
            match r {
                Ok(_) => url_parses(base@) && final(self)@ == old(self)@.with_client(
                    client_id@,
                    ClientV { secret: client_secret@, redirect_url: spec_parsed_url(base@) },
                ),
                Err(e) => !url_parses(base@) && e@ is UrlParse && final(self)@ == old(self)@,
            },
    {
        match parse_url(base) {
            Ok(parts) => {
                self.add_client(client_id, Client { secret: client_secret, redirect_url: parts });
                Ok(())
            },
            Err(e) => Err(e),
        }
    }

    /// Looks a client up by id; an unknown id is reported as such. A client
    /// handed out carries a redirect base that parses back.
    pub fn get_client(&self, client_id: &str) -> (r: Result<&Client, Error>)
        requires
            self.wf(),
        ensures
            match r {
                Ok(c) => self@.clients.contains_key(client_id@) && c@ == self@.clients[client_id@]
                    && url_parses(c@.redirect_url.text),
                Err(e) => !self@.clients.contains_key(client_id@) && e@ == ErrorV::NoSuchClient(
                    client_id@,
                ),
            },
    {
        proof {
            lemma_kv_map_contains(client_entries(self.clients@), client_id@);
        }
        match find_key(&self.clients, client_id) {
            Some(i) => {
                proof {
                    lemma_kv_map_index(client_entries(self.clients@), i as int);
                }
                Ok(&self.clients[i].1)
            },
            None => Err(Error::NoSuchClient(client_id.to_owned())),
        }
    }

    /// Issues a login code for a registered user: the code derives from the
    /// user id and overwrites any prior entry under the same string. An
    /// unregistered id is rejected and the store is unchanged.
    pub fn get_code(&mut self, user_id: i64) -> (r: Result<String, Error>)
        requires
            old(self).wf(),
        ensures
            final(self).wf(),
            match r {
                Ok(code) => old(self)@.has_user(user_id) && code@ == token_chars(user_id as int)
                    && final(self)@ == old(self)@.with_code(token_chars(user_id as int), user_id),
                Err(e) => !old(self)@.has_user(user_id) && e@ == ErrorV::NoSuchUserId(user_id)
                    && final(self)@ == old(self)@,
            },
    {
        if self.find_user(user_id).is_none() {
            return Err(Error::NoSuchUserId(user_id));
        }
        let issued_code = token_string(user_id);
        upsert_code_entry(&mut self.issued_codes, issued_code.clone(), user_id);
        proof {
            assert(final(self)@ =~= old(self)@.with_code(token_chars(user_id as int), user_id));
        }
        Ok(issued_code)
    }

    /// Whether a client with this id exists and holds this secret; an
    /// unknown id is simply false.
    pub fn client_matches(&self, client_id: &str, client_secret: &str) -> (r: bool)
        requires
            self.wf(),
        ensures
            r == self@.client_ok(client_id@, client_secret@),
    {
        proof {
            lemma_kv_map_contains(client_entries(self.clients@), client_id@);
        }
        match find_key(&self.clients, client_id) {
            Some(i) => {
                proof {
                    lemma_kv_map_index(client_entries(self.clients@), i as int);
                }
                str_eq(self.clients[i].1.secret.as_str(), client_secret)
            },
            None => false,
        }
    }

    /// Consumes a code: removes it and returns the user id it mapped to, or
    /// nothing if it was never issued or already redeemed.
    pub fn pop_code(&mut self, code: &str) -> (r: Option<i64>)
        requires
            old(self).wf(),
        ensures
            final(self).wf(),
            r == if old(self)@.codes.contains_key(code@) {
                Some(old(self)@.codes[code@])
            } else {
                None::<i64>
            },
            final(self)@ == old(self)@.without_code(code@),
    {
        let ghost s = code_entries(self.issued_codes@);
        proof {
            lemma_kv_map_contains(s, code@);
        }
        match find_key(&self.issued_codes, code) {
            Some(i) => {
                proof {
                    lemma_kv_map_index(s, i as int);
                }
                let entry = self.issued_codes.remove(i);
                proof {
                    crate::kv::lemma_kv_map_remove(s, i as int);
                    assert(code_entries(self.issued_codes@) =~= s.remove(i as int));
                    assert(final(self)@ =~= old(self)@.without_code(code@));
                }
                Some(entry.1)
            },
            None => {
                proof {
                    assert(final(self)@.codes =~= old(self)@.codes.remove(code@));
                    assert(final(self)@ =~= old(self)@.without_code(code@));
                }
                None
            },
        }
    }

    /// Issues (or re-issues) the token for a user id and stores it. The
    /// token derives from the id; no existence check is made at this layer.
    pub fn push_token(&mut self, user_id: i64) -> (r: String)
        requires
            old(self).wf(),
        ensures
            final(self).wf(),
            r@ == token_chars(user_id as int),
            final(self)@ == old(self)@.with_token(token_chars(user_id as int), user_id),
    {
        let issued_token = token_string(user_id);
        upsert_code_entry(&mut self.tokens, issued_token.clone(), user_id);
        proof {
            assert(final(self)@ =~= old(self)@.with_token(token_chars(user_id as int), user_id));
        }
        issued_token
    }

    /// The user id an access token resolves to, if the token was issued.
    /// Tokens are read, never removed.
    pub fn get_token_user(&self, token: &str) -> (r: Option<i64>)
        requires
            self.wf(),
        ensures
            r == if self@.tokens.contains_key(token@) {
                Some(self@.tokens[token@])
            } else {
                None::<i64>
            },
    {
        proof {
            lemma_kv_map_contains(code_entries(self.tokens@), token@);
        }
        match find_key(&self.tokens, token) {
            Some(i) => {
                proof {
                    lemma_kv_map_index(code_entries(self.tokens@), i as int);
                }
                Some(self.tokens[i].1)
            },
            None => None,
        }
    }

    /// The first user with this login, in registration order.
    pub fn get_user_by_login(&self, login: &str) -> (r: Option<(&i64, &User)>)
        ensures
            match r {
                Some((id, u)) => self@.find_login(login@) == Some((*id, u@)),
                None => self@.find_login(login@) is None,
            },
    {
        let ghost s = user_entries(self.users@);
        match find_login_index(&self.users, login) {
            Some(i) => {
                proof {
                    lemma_find_login_first(s, login@, i as int);
                }
                let p = &self.users[i];
                Some((&p.0, &p.1))
            },
            None => {
                proof {
                    lemma_find_login_none(s, login@);
                }
                None
            },
        }
    }

    /// The user registered under this id, if any.
    pub fn find_user(&self, user_id: i64) -> (r: Option<&User>)
        requires
            self.wf(),
        ensures
            match r {
                Some(u) => self@.has_user(user_id) && u@ == self@.user_of(user_id),
                None => !self@.has_user(user_id),
            },
    {
        let ghost s = user_entries(self.users@);
        match find_id(&self.users, user_id) {
            Some(i) => {
                proof {
                    assert(s[i as int].0 == user_id);
                    assert(self@.users[i as int].0 == user_id);
                    assert(self@.has_user(user_id));
                    assert(self@.user_index(user_id) == i as int) by {
                        let w = self@.user_index(user_id);
                        assert(s[w].0 == user_id && s[i as int].0 == user_id);
                        assert(kv_unique(s));
                    }
                }
                Some(&self.users[i].1)
            },
            None => {
                proof {
                    assert(forall|j: int| 0 <= j < s.len() ==> s[j].0 != user_id);
                }
                None
            },
        }
    }

    /// The registered users as id and login pairs, in registration order:
    /// what the login form lists.
    pub fn user_roster(&self) -> (r: Vec<(i64, String)>)
        ensures
            r@.len() == self@.users.len(),
            forall|i: int|
                0 <= i < r@.len() ==> r@[i].0 == self@.users[i].0 && r@[i].1@
                    == self@.users[i].1.login,
    {
        let mut roster: Vec<(i64, String)> = Vec::new();
        let mut i: usize = 0;
        while i < self.users.len()
            invariant
                i <= self.users@.len(),
                roster@.len() == i,
                forall|j: int|
                    0 <= j < i ==> roster@[j].0 == user_entries(self.users@)[j].0 && roster@[j].1@
                        == user_entries(self.users@)[j].1.login,
            decreases self.users@.len() - i,
        {
            let p = &self.users[i];
            roster.push((p.0, p.1.login.clone()));
            i += 1;
        }
        roster
    }
}

/// The `token_` string a code or token is derived from.
fn token_string(user_id: i64) -> (s: String)
    ensures
        s@ == token_chars(user_id as int),
{
    let mut s = String::from_str("token_");
    s.append(i64_string(user_id).as_str());
    s
}

/// What redirect validation decides for a base and a candidate: a hostless
/// base is rejected; a candidate naming a different host is rejected; a
/// candidate whose path does not extend the base's path is rejected; any
/// other candidate is accepted verbatim.
pub open spec fn spec_check_redirect(base: UrlView, candidate: UrlView) -> Result<UrlView, ErrorV> {
    match base.host {
        None => Err(ErrorV::HostlessBase(base.text)),
        Some(base_host) => {
            if candidate.host matches Some(h) && h != base_host {
                Err(ErrorV::InvalidHost(base_host, match candidate.host {
                    Some(h) => h,
                    None => Seq::empty(),
                }))
            } else if !base.path.is_prefix_of(candidate.path) {
                Err(ErrorV::InvalidBasePath(base.path, candidate.path))
            } else {
                Ok(candidate)
            }
        },
    }
}

impl Client {
    /// Validates a requested redirect URL against this client's registered
    /// base, accepting the candidate verbatim when it stays on the base's
    /// host and under its path.
    pub fn check_redirect_url(&self, redirect_url: &UrlParts) -> (r: Result<UrlParts, Error>)
        ensures
            match spec_check_redirect(self.redirect_url@, redirect_url@) {
                Ok(u) => r matches Ok(p) && p == *redirect_url && p@ == u,
                Err(e) => r matches Err(x) && x@ == e,
            },
    {
        match &self.redirect_url.host {
            None => {
                return Err(Error::HostlessBase(self.redirect_url.text.clone()));
            },
            Some(base_host) => {
                if let Some(redirect_host) = &redirect_url.host {
                    if !str_eq(redirect_host.as_str(), base_host.as_str()) {
                        return Err(
                            Error::InvalidHost(base_host.clone(), redirect_host.clone()),
                        );
                    }
                }
            },
        }
        if !str_starts_with(redirect_url.path.as_str(), self.redirect_url.path.as_str()) {
            return Err(
                Error::InvalidBasePath(self.redirect_url.path.clone(), redirect_url.path.clone()),
            );
        }
        Ok(redirect_url.clone())
    }
}

} // verus!
