//! Logging in to the server through its single sign-on: the login address, the code that the
//! browser brings back, and what the token exchange and a session refresh leave behind.
use vstd::prelude::*;
use crate::app::{App, AppAction, AppState, AuthExchangeResponse};
use crate::dialogs::{ApiBody, ApiBodyView, ApiCall, ApiCallView, BodyValue, BodyValueView, HttpMethod};
use crate::k8s_model::{opt_str_view, pairs_view};
use crate::task::last_value;
use crate::text::{chars_of, concat_str, is_ws, is_ws_exec, owned, substring};
use crate::version::{first_index_of, lemma_first_index_of};

verus! {

/// What urlencoding's `encode` writes for a text: every UTF-8 byte percent-encoded except
/// ASCII letters, digits and `-`, `_`, `.`, `~`.
pub uninterp spec fn url_encoded(s: Seq<char>) -> Seq<char>;

/// Whether `c` is one of the characters that `encode` leaves as they are.
pub open spec fn url_unreserved(c: char) -> bool {
    ||| ('0' <= c && c <= '9')
    ||| ('A' <= c && c <= 'Z')
    ||| ('a' <= c && c <= 'z')
    ||| c == '-' || c == '_' || c == '.' || c == '~'
}

/// An upper-case hexadecimal digit.
pub open spec fn hex_upper(d: int) -> char {
    if d < 10 {
        ((d + 48) as u32) as char
    } else {
        ((d + 55) as u32) as char
    }
}

/// `encode` on a text of ASCII characters: each unreserved character stays, every other is
/// written as `%` and its two upper-case hexadecimal digits.
pub open spec fn ascii_url_encoded(s: Seq<char>) -> Seq<char>
    decreases s.len(),
{
    if s.len() == 0 {
        s
    } else {
        let c = s[0];
        let head = if url_unreserved(c) {
            seq![c]
        } else {
            seq!['%', hex_upper((c as int) / 16), hex_upper((c as int) % 16)]
        };
        head + ascii_url_encoded(s.drop_first())
    }
}

/// urlencoding's `encode`; named `url_encoded`, and on ASCII text it is `ascii_url_encoded`
/// as the crate's documentation describes it.
#[verifier::external_body]
fn encode_url_component(s: &str) -> (r: String)
    ensures
        r@ == url_encoded(s@),
        (forall|i: int| 0 <= i < s@.len() ==> (s@[i] as int) < 128) ==> r@ == ascii_url_encoded(s@),
{
    urlencoding::encode(s).into_owned()
}

/// serde_urlencoded's reading of a query string as its name and value pairs (split at `&`
/// and the first `=`, `+` and percent escapes decoded), in order; `None` when it refuses it.
pub uninterp spec fn form_pairs(query: Seq<char>) -> Option<Seq<(Seq<char>, Seq<char>)>>;

/// serde_urlencoded's `from_str` into name and value pairs; named `form_pairs`.
#[verifier::external_body]
fn read_form_pairs(query: &str) -> (r: Option<Vec<(String, String)>>)
    ensures
        match form_pairs(query@) {
            Some(p) => r is Some && pairs_view(r->0@) == p,
            None => r is None,
        },
{
    serde_urlencoded::from_str::<Vec<(String, String)>>(query).ok()
}

/// Where the browser is sent back after the login.
pub open spec fn callback_url() -> Seq<char> {
    "http://localhost:8080/callback"@
}

/// The page that starts the login on the server at `url`, with the callback address
/// encoded as a query value.
pub open spec fn login_url(url: Seq<char>) -> Seq<char> {
    url + "/api/v1/auth/login?callback_url="@ + url_encoded(callback_url())
}

/// `s` without its leading white space.
pub open spec fn skip_ws(s: Seq<char>) -> Seq<char>
    decreases s.len(),
{
    if s.len() > 0 && is_ws(s[0]) {
        skip_ws(s.drop_first())
    } else {
        s
    }
}

/// The leading characters of `s` up to white space.
pub open spec fn word(s: Seq<char>) -> Seq<char>
    decreases s.len(),
{
    if s.len() > 0 && !is_ws(s[0]) {
        seq![s[0]] + word(s.drop_first())
    } else {
        Seq::empty()
    }
}

/// The second white-space-separated word of `s` (the path of an HTTP request line).
pub open spec fn second_word(s: Seq<char>) -> Option<Seq<char>> {
    let a = skip_ws(s);
    if a.len() == 0 {
        None
    } else {
        let b = skip_ws(a.skip(word(a).len() as int));
        if b.len() == 0 {
            None
        } else {
            Some(word(b))
        }
    }
}

/// The part of a path after its first `?`, up to a second `?`; `None` without a `?`.
pub open spec fn query_of(path: Seq<char>) -> Option<Seq<char>> {
    let q = first_index_of(path, '?');
    if q >= path.len() {
        None
    } else {
        let rest = path.skip(q + 1int);
        Some(rest.take(first_index_of(rest, '?') as int))
    }
}

/// The value of the last `code` parameter of a query.
pub open spec fn last_code(pairs: Seq<(Seq<char>, Seq<char>)>) -> Option<Seq<char>>
    decreases pairs.len(),
{
    if pairs.len() == 0 {
        None
    } else if pairs.last().0 == "code"@ {
        Some(pairs.last().1)
    } else {
        last_code(pairs.drop_last())
    }
}

/// The authorization code that the browser's request to the callback carries: the `code`
/// parameter (the last one, when there are several) of the query of the request's path.
pub open spec fn callback_code_of(request: Seq<char>) -> Option<Seq<char>> {
    match second_word(request) {
        Some(path) => match query_of(path) {
            Some(q) => match form_pairs(q) {
                Some(p) => last_code(p),
                None => None,
            },
            None => None,
        },
        None => None,
    }
}

fn skip_ws_from(v: &Vec<char>, i: usize) -> (j: usize)
    requires
        i <= v@.len(),
    ensures
        i <= j <= v@.len(),
        skip_ws(v@.skip(i as int)) == v@.skip(j as int),
{
    let mut j = i;
    while j < v.len() && is_ws_exec(v[j])
        invariant
            i <= j <= v@.len(),
            skip_ws(v@.skip(i as int)) == skip_ws(v@.skip(j as int)),
        decreases v@.len() - j,
    {
        assert(v@.skip(j as int).drop_first() =~= v@.skip(j + 1));
        j = j + 1;
    }
    j
}

fn word_end_from(v: &Vec<char>, i: usize) -> (j: usize)
    requires
        i <= v@.len(),
    ensures
        i <= j <= v@.len(),
        word(v@.skip(i as int)) == v@.subrange(i as int, j as int),
        word(v@.skip(i as int)).len() == j - i,
{
    let mut j = i;
    while j < v.len() && !is_ws_exec(v[j])
        invariant
            i <= j <= v@.len(),
            word(v@.skip(i as int)) == v@.subrange(i as int, j as int) + word(v@.skip(j as int)),
        decreases v@.len() - j,
    {
        assert(v@.skip(j as int).drop_first() =~= v@.skip(j + 1));
        assert(v@.subrange(i as int, j as int) + seq![v@[j as int]] =~= v@.subrange(i as int, j + 1));
        j = j + 1;
    }
    assert(v@.subrange(i as int, j as int) + Seq::<char>::empty() =~= v@.subrange(i as int, j as int));
    j
}

fn last_code_exec(pairs: &Vec<(String, String)>) -> (r: Option<String>)
    ensures
        opt_str_view(r) == last_code(pairs_view(pairs@)),
{
    let mut found: Option<String> = None;
    let mut i: usize = 0;
    while i < pairs.len()
        invariant
            i <= pairs@.len(),
            opt_str_view(found) == last_code(pairs_view(pairs@.take(i as int))),
        decreases pairs@.len() - i,
    {
        let ghost t = pairs_view(pairs@.take(i + 1));
        assert(t.drop_last() =~= pairs_view(pairs@.take(i as int)));
        assert(t.last() == (pairs@[i as int].0@, pairs@[i as int].1@));
        let code = owned("code");
        proof {
            reveal_strlit("code");
        }
        if pairs[i].0 == code {
            found = Some(pairs[i].1.clone());
        }
        i = i + 1;
    }
    assert(pairs@.take(pairs@.len() as int) =~= pairs@);
    found
}

/// The authorization code of the browser's request to the callback, as `callback_code_of`
/// says.
pub fn callback_code(request: &str) -> (r: Option<String>)
    ensures
        opt_str_view(r) == callback_code_of(request@),
{
    let v = chars_of(request);
    let a = skip_ws_from(&v, 0);
    assert(v@.skip(0) =~= v@);
    if a == v.len() {
        return None;
    }
    let a_end = word_end_from(&v, a);
    let b = skip_ws_from(&v, a_end);
    proof {
        assert(v@.skip(a as int).skip(word(v@.skip(a as int)).len() as int) =~= v@.skip(a_end as int));
    }
    if b == v.len() {
        return None;
    }
    let b_end = word_end_from(&v, b);
    let path_s = substring(&v, b, b_end);
    let path = chars_of(path_s.as_str());
    let mut q: usize = 0;
    while q < path.len() && path[q] != '?'
        invariant
            q <= path@.len(),
            forall|j: int| 0 <= j < q ==> path@[j] != '?',
        decreases path@.len() - q,
    {
        q = q + 1;
    }
    proof {
        lemma_first_index_of(path@, '?', q as int);
    }
    if q == path.len() {
        return None;
    }
    let mut e: usize = q + 1;
    while e < path.len() && path[e] != '?'
        invariant
            q + 1 <= e <= path@.len(),
            forall|j: int| q + 1 <= j < e ==> path@[j] != '?',
        decreases path@.len() - e,
    {
        e = e + 1;
    }
    let ghost rest = path@.skip(q + 1);
    proof {
        assert forall|j: int| 0 <= j < e - (q + 1) implies rest[j] != '?' by {
            assert(rest[j] == path@[q + 1 + j]);
        }
        if e < path@.len() {
            assert(rest[e - (q + 1)] == path@[e as int]);
        }
        lemma_first_index_of(rest, '?', e - (q + 1));
        assert(rest.take(e - (q + 1)) =~= path@.subrange(q + 1, e as int));
    }
    let query = substring(&path, q + 1, e);
    match read_form_pairs(query.as_str()) {
        Some(p) => last_code_exec(&p),
        None => None,
    }
}

/// The request that trades an authorization code for tokens.
pub fn exchange_request(code: String) -> (r: ApiCall)
    ensures
        r@ == (ApiCallView {
            method: HttpMethod::Post,
            path: "/api/v1/auth/exchange"@,
            body: ApiBodyView::Fields(seq![
                ("sso_token"@, BodyValueView::Text(code@)),
                ("callback_url"@, BodyValueView::Text(callback_url())),
            ]),
        }),
{
    let body = vec![(owned("sso_token"), BodyValue::Text(code)), (owned("callback_url"), BodyValue::Text(owned("http://localhost:8080/callback")))];
    let r = ApiCall { method: HttpMethod::Post, path: owned("/api/v1/auth/exchange"), body: ApiBody::Fields(body) };
    assert(crate::dialogs::fields_view(body@) =~= seq![
        ("sso_token"@, BodyValueView::Text(code@)),
        ("callback_url"@, BodyValueView::Text(callback_url())),
    ]);
    r
}

/// How the server answered a token exchange or refresh.
pub enum TokenReply {
    /// The request did not reach it (the error as text).
    RequestFailed(String),
    /// It refused (the HTTP status as text).
    Refused(String),
    /// It accepted, with the tokens when its answer could be read.
    Accepted(Option<AuthExchangeResponse>),
}

/// What a token exchange after the login leads to: the tokens, or the message of the
/// failed login.
pub open spec fn login_outcome(reply: TokenReply) -> Result<(Seq<char>, Option<Seq<char>>), Seq<char>> {
    match reply {
        TokenReply::RequestFailed(e) => Err("Request failed: "@ + e@),
        TokenReply::Refused(s) => Err("Token exchange failed: "@ + s@),
        TokenReply::Accepted(None) => Err("Failed to parse token response"@),
        TokenReply::Accepted(Some(t)) => Ok((t.access_token@, opt_str_view(t.refresh_token))),
    }
}

/// The actions that follow a login: listen for runs and load every list.
pub open spec fn after_login_actions() -> Seq<AppAction> {
    seq![
        AppAction::ListenForWorkflows,
        AppAction::RefreshRuns,
        AppAction::RefreshConnections,
        AppAction::RefreshWebhooks,
        AppAction::RefreshEventRules,
        AppAction::RefreshCronWorkflows,
    ]
}

impl App {
    /// Starts a login: the UI waits for the browser, the error is cleared, and the address
    /// to open in the browser is handed back.
    pub fn begin_login(&mut self) -> (r: String)
        ensures
            r@ == login_url(old(self).url@),
            *final(self) == (App { state: AppState::LoggingIn, error: None, ..*old(self) }),
    {
        self.state = AppState::LoggingIn;
        self.error = None;
        let enc = encode_url_component("http://localhost:8080/callback");
        let base = concat_str(self.url.as_str(), "/api/v1/auth/login?callback_url=");
        concat_str(base.as_str(), enc.as_str())
    }

    /// The login succeeded with these tokens: the UI is logged in with them, the error is
    /// cleared, and the lists are loaded.
    pub fn login_succeeded(&mut self, token: String, refresh_token: Option<String>) -> (acts: Vec<AppAction>)
        ensures
            *final(self) == (App {
                token: Some(token),
                refresh_token: refresh_token,
                state: AppState::LoggedIn,
                error: None,
                ..*old(self)
            }),
            acts@ == after_login_actions(),
    {
        self.token = Some(token);
        self.refresh_token = refresh_token;
        self.state = AppState::LoggedIn;
        self.error = None;
        let acts = vec![
            AppAction::ListenForWorkflows,
            AppAction::RefreshRuns,
            AppAction::RefreshConnections,
            AppAction::RefreshWebhooks,
            AppAction::RefreshEventRules,
            AppAction::RefreshCronWorkflows,
        ];
        assert(acts@ =~= after_login_actions());
        acts
    }

    /// The login failed: the UI is logged out and shows why.
    pub fn login_failed(&mut self, message: String)
        ensures
            *final(self) == (App { state: AppState::LoggedOut, error: Some(message), ..*old(self) }),
    {
        self.state = AppState::LoggedOut;
        self.error = Some(message);
    }

    /// The token exchange after a login came back: on success the UI logs in (and the lists
    /// are loaded), otherwise it is logged out and shows `login_outcome`'s message.
    pub fn login_exchanged(&mut self, reply: TokenReply) -> (acts: Vec<AppAction>)
        ensures
            match login_outcome(reply) {
                Ok((access, refresh)) => final(self).token matches Some(t) && t@ == access
                    && opt_str_view(final(self).refresh_token) == refresh && *final(self) == (App {
                    token: final(self).token,
                    refresh_token: final(self).refresh_token,
                    state: AppState::LoggedIn,
                    error: None,
                    ..*old(self)
                }) && acts@ == after_login_actions(),
                Err(m) => opt_str_view(final(self).error) == Some(m) && *final(self) == (App {
                    state: AppState::LoggedOut,
                    error: final(self).error,
                    ..*old(self)
                }) && acts@.len() == 0,
            },
    {
        match reply {
            TokenReply::RequestFailed(e) => {
                self.login_failed(concat_str("Request failed: ", e.as_str()));
                Vec::new()
            },
            TokenReply::Refused(s) => {
                self.login_failed(concat_str("Token exchange failed: ", s.as_str()));
                Vec::new()
            },
            TokenReply::Accepted(None) => {
                self.login_failed(owned("Failed to parse token response"));
                Vec::new()
            },
            TokenReply::Accepted(Some(t)) => self.login_succeeded(t.access_token, t.refresh_token),
        }
    }

    /// The request that trades the refresh token for new tokens; `None` without one.
    pub fn refresh_request(&self) -> (r: Option<ApiCall>)
        ensures
            match self.refresh_token {
                Some(t) => r is Some && r->0@ == (ApiCallView {
                    method: HttpMethod::Post,
                    path: "/api/v1/auth/refresh"@,
                    body: ApiBodyView::Fields(seq![("refresh_token"@, BodyValueView::Text(t@))]),
                }),
                None => r is None,
            },
    {
        match &self.refresh_token {
            Some(t) => {
                let body = vec![(owned("refresh_token"), BodyValue::Text(t.clone()))];
                assert(crate::dialogs::fields_view(body@) =~= seq![("refresh_token"@, BodyValueView::Text(t@))]);
                Some(ApiCall { method: HttpMethod::Post, path: owned("/api/v1/auth/refresh"), body: ApiBody::Fields(body) })
            },
            None => None,
        }
    }

    /// The server said the token expired: with a refresh token the session is to be
    /// refreshed; without one the UI forgets its tokens and is logged out.
    pub fn token_expired(&mut self) -> (acts: Vec<AppAction>)
        ensures
            old(self).refresh_token is Some ==> *final(self) == *old(self) && acts@ == seq![AppAction::RefreshSession],
            old(self).refresh_token is None ==> *final(self) == (App {
                token: None,
                refresh_token: None,
                state: AppState::LoggedOut,
                ..*old(self)
            }) && acts@.len() == 0,
    {
        if self.refresh_token.is_some() {
            let acts = vec![AppAction::RefreshSession];
            assert(acts@ =~= seq![AppAction::RefreshSession]);
            acts
        } else {
            self.token = None;
            self.refresh_token = None;
            self.state = AppState::LoggedOut;
            Vec::new()
        }
    }

    /// The session refresh came back. Accepted with tokens: the new access token (and the
    /// new refresh token, when one came) are kept, the UI is logged in, listens for runs
    /// again and watches the shown run again. Refused: both tokens are forgotten and the UI
    /// is logged out. Not sent, or accepted without readable tokens: the UI is logged out
    /// and keeps its tokens.
    pub fn session_refreshed(&mut self, reply: TokenReply) -> (acts: Vec<AppAction>)
        ensures
            match reply {
                TokenReply::Accepted(Some(t)) => {
                    &&& *final(self) == (App {
                        token: Some(t.access_token),
                        refresh_token: if t.refresh_token is Some { t.refresh_token } else { old(self).refresh_token },
                        state: AppState::LoggedIn,
                        ..*old(self)
                    })
                    &&& acts@ == match old(self).selected_run {
                        Some(r) => seq![AppAction::ListenForWorkflows, AppAction::StartWatching { id: r.detail.id }],
                        None => seq![AppAction::ListenForWorkflows],
                    }
                },
                TokenReply::Refused(_) => *final(self) == (App {
                    token: None,
                    refresh_token: None,
                    state: AppState::LoggedOut,
                    ..*old(self)
                }) && acts@.len() == 0,
                _ => *final(self) == (App { state: AppState::LoggedOut, ..*old(self) }) && acts@.len() == 0,
            },
    {
        match reply {
            TokenReply::Accepted(Some(t)) => {
                self.token = Some(t.access_token);
                if t.refresh_token.is_some() {
                    self.refresh_token = t.refresh_token;
                }
                self.state = AppState::LoggedIn;
                let mut acts = vec![AppAction::ListenForWorkflows];
                match &self.selected_run {
                    Some(r) => acts.push(AppAction::StartWatching { id: r.detail.id }),
                    None => {},
                }
                assert(acts@ =~= match old(self).selected_run {
                    Some(r) => seq![AppAction::ListenForWorkflows, AppAction::StartWatching { id: r.detail.id }],
                    None => seq![AppAction::ListenForWorkflows],
                });
                acts
            },
            TokenReply::Refused(_) => {
                self.token = None;
                self.refresh_token = None;
                self.state = AppState::LoggedOut;
                Vec::new()
            },
            _ => {
                self.state = AppState::LoggedOut;
                Vec::new()
            },
        }
    }
}

} // verus!
