//! The OAuth2 client-credentials token cache: a per-provider store for the
//! current bearer token, the decision of when a cached token may be served,
//! and the interpretation of the token endpoint's reply.
//!
//! The store itself is single-threaded data. A process that serves
//! concurrent callers wraps one `TokenCacheEntry` per provider in a
//! mutual-exclusion lock and holds that lock across the whole
//! check-then-maybe-refresh sequence; the functions here are the decisions
//! taken under the lock, and `serve_all` below is the model of callers
//! serialized by it.

use vstd::prelude::*;

use crate::json::JsonValue;
use crate::json::json_of;
use crate::json::parse_json;

verus! {

/// Why a token could not be obtained.
#[derive(Debug, Clone, PartialEq, Eq)]
pub enum AuthError {
    /// Credentials were missing or unusable before any request was made.
    ConfigError(String),
    /// The acquisition call failed, or its reply could not be read; the
    /// message carries the underlying cause.
    FetchFailed(String),
}

/// A provider's client id and secret, immutable for the process lifetime.
#[derive(Debug, Clone)]
pub struct Credential {
    pub client_id: String,
    pub client_secret: String,
}

/// A bearer token together with the absolute instant it was issued and the
/// lifetime in seconds the provider granted it.
#[derive(Debug)]
pub struct Token {
    pub bearer_value: String,
    pub issued_at: u64,
    pub lifetime: i64,
}

impl Token {
    /// The first instant at which this token is no longer valid.
    pub open spec fn spec_expires_at(self) -> int {
        self.issued_at + self.lifetime
    }

    /// A token is valid strictly before `issued_at + lifetime`; a zero or
    /// negative lifetime therefore means it is already expired.
    pub open spec fn spec_valid_at(self, now: u64) -> bool {
        (now as int) < self.spec_expires_at()
    }

    /// Decides validity at `now`, exactly as `spec_valid_at` states.
    pub fn valid_at(&self, now: u64) -> (r: bool)
        ensures
            r == self.spec_valid_at(now),
    {
        (now as i128) < (self.issued_at as i128) + (self.lifetime as i128)
    }
}

/// What a cache entry holds, reduced to plain values: the bearer's
/// characters, the instant of issue, and the granted lifetime.
pub open spec fn cache_live(m: Option<(Seq<char>, u64, i64)>, now: u64) -> bool {
    match m {
        Some(t) => (now as int) < t.1 + t.2,
        None => false,
    }
}

/// The bearer a cache model holds (the empty sequence when it holds none).
pub open spec fn cache_bearer(m: Option<(Seq<char>, u64, i64)>) -> Seq<char> {
    match m {
        Some(t) => t.0,
        None => Seq::empty(),
    }
}

/// The store for one provider's current token: at most one live token at a
/// time, replaced wholesale on refresh and never mutated in place.
#[derive(Debug)]
pub struct TokenCacheEntry {
    pub token: Option<Token>,
}

impl TokenCacheEntry {
    /// The entry as plain values; every contract below speaks over this.
    pub open spec fn model(self) -> Option<(Seq<char>, u64, i64)> {
        match self.token {
            Some(t) => Some((t.bearer_value@, t.issued_at, t.lifetime)),
            None => None,
        }
    }

    /// Whether a cached token exists and is valid at `now`.
    pub open spec fn has_live(self, now: u64) -> bool {
        cache_live(self.model(), now)
    }

    /// A fresh entry holds no token, so the first caller must refresh.
    pub fn new() -> (r: Self)
        ensures
            r.model() is None,
    {
        TokenCacheEntry { token: None }
    }

    /// Serves the cached bearer value exactly when a live token is held;
    /// a miss is the caller's signal to perform one acquisition call.
    pub fn get_cached(&self, now: u64) -> (r: Option<String>)
        ensures
            match r {
                Some(b) => self.has_live(now) && b@ == cache_bearer(self.model()),
                None => !self.has_live(now),
            },
    {
        match &self.token {
            Some(t) => {
                if t.valid_at(now) {
                    Some(t.bearer_value.clone())
                } else {
                    None
                }
            },
            None => None,
        }
    }

    /// Installs a freshly acquired token, replacing whatever was held.
    pub fn install(&mut self, bearer: String, now: u64, lifetime: i64)
        ensures
            final(self).model() == Some((bearer@, now, lifetime)),
    {
        self.token = Some(Token { bearer_value: bearer, issued_at: now, lifetime });
    }

    /// Discards the held token. The I/O half calls this when a provider
    /// rejects the bearer (HTTP 401 or 403): the cached token is then
    /// stale whatever its lifetime says, and since the entry afterwards
    /// holds nothing, the next `get_token` is forced to refresh rather
    /// than reuse it.
    pub fn invalidate(&mut self)
        ensures
            final(self).model() is None,
    {
        self.token = None;
    }

    /// Reads the token endpoint's reply and installs the token it carries.
    ///
    /// On any failure — an error status, a body that is not JSON, or a body
    /// missing `access_token` or `expires_in` — nothing is installed: the
    /// previous state, including a previously cached valid token, is left
    /// untouched, and the caller gets `AuthError::FetchFailed`.
    pub fn apply_refresh_response(&mut self, now: u64, status: u16, body: &str) -> (r: Result<
        String,
        AuthError,
    >)
        ensures
            match r {
                Ok(bearer) => {
                    &&& status == 200
                    &&& json_of(body@) matches Some(j) && token_reply_of(j) matches Some(rep)
                        && bearer@ == rep.0 && final(self).model() == Some((rep.0, now, rep.1))
                },
                Err(e) => {
                    &&& *final(self) == *old(self)
                    &&& e matches AuthError::FetchFailed(_)
                    &&& (status != 200 || match json_of(body@) {
                        Some(j) => token_reply_of(j) is None,
                        None => true,
                    })
                },
            },
    {
        if status != 200 {
            return Err(AuthError::FetchFailed(String::from_str(
                "token endpoint replied with an error status",
            )));
        }
        match parse_json(body) {
            None => Err(AuthError::FetchFailed(String::from_str(
                "token endpoint reply is not JSON",
            ))),
            Some(j) => {
                let resp = SpotifyAuthResponse::from_json(&j);
                match resp.reply() {
                    None => Err(AuthError::FetchFailed(String::from_str(
                        "token endpoint reply carries no usable token",
                    ))),
                    Some(p) => {
                        let (bearer, expires_in) = p;
                        let out = bearer.clone();
                        self.install(bearer, now, expires_in);
                        Ok(out)
                    },
                }
            },
        }
    }
}

/// The access token a client-credentials reply carries, when it is a JSON
/// object whose `access_token` member is a string.
pub open spec fn access_token_of(j: JsonValue) -> Option<Seq<char>> {
    match j.spec_get("access_token"@) {
        Some(JsonValue::Str(s)) => Some(s@),
        _ => None,
    }
}

/// The lifetime in seconds a client-credentials reply grants, when its
/// `expires_in` member is an integer.
pub open spec fn expires_in_of(j: JsonValue) -> Option<i64> {
    match j.spec_get("expires_in"@) {
        Some(JsonValue::Int(n)) => Some(n),
        _ => None,
    }
}

/// What a token endpoint reply means: a bearer value and a lifetime, owed
/// exactly when both required members are present with the right shapes
/// (`token_type` and any other member are ignored).
pub open spec fn token_reply_of(j: JsonValue) -> Option<(Seq<char>, i64)> {
    match (access_token_of(j), expires_in_of(j)) {
        (Some(s), Some(n)) => Some((s, n)),
        _ => None,
    }
}

/// The token endpoint's reply in its wire shape, each field still optional:
/// the intermediate stage before absence is collapsed into a fetch failure.
#[derive(Debug)]
pub struct SpotifyAuthResponse {
    pub access_token: Option<String>,
    pub expires_in: Option<i64>,
}

impl SpotifyAuthResponse {
    /// Both fields combined, owed exactly when both are present.
    pub open spec fn spec_reply(self) -> Option<(Seq<char>, i64)> {
        match (self.access_token, self.expires_in) {
            (Some(s), Some(n)) => Some((s@, n)),
            _ => None,
        }
    }

    /// An empty reply: a blank token that expired at the epoch, so that a
    /// first `get_token` call always refreshes.
    pub fn new() -> (r: Self)
        ensures
            r.access_token matches Some(s) && s@ == Seq::<char>::empty(),
            r.expires_in == Some(0i64),
    {
        SpotifyAuthResponse { access_token: Some(String::new()), expires_in: Some(0) }
    }

    /// Reads the two consumed members out of a parsed reply body.
    pub fn from_json(j: &JsonValue) -> (r: Self)
        ensures
            r.access_token.deep_view() == access_token_of(*j),
            r.expires_in == expires_in_of(*j),
    {
        let access_token = match j.get("access_token") {
            Some(JsonValue::Str(s)) => Some(s.clone()),
            _ => None,
        };
        let expires_in = match j.get("expires_in") {
            Some(JsonValue::Int(n)) => Some(*n),
            _ => None,
        };
        SpotifyAuthResponse { access_token, expires_in }
    }

    /// Collapses the optional stage: the reply's content, or nothing.
    pub fn reply(self) -> (r: Option<(String, i64)>)
        ensures
            match r {
                Some(p) => self.spec_reply() == Some((p.0@, p.1)),
                None => self.spec_reply() is None,
            },
    {
        match (self.access_token, self.expires_in) {
            (Some(s), Some(n)) => Some((s, n)),
            _ => None,
        }
    }
}

/// The form parameters of the client-credentials exchange, exactly as the
/// token endpoint expects them.
pub fn token_request_params(cred: &Credential) -> (r: Vec<(String, String)>)
    ensures
        r@.len() == 3,
        r@[0].0@ == "grant_type"@ && r@[0].1@ == "client_credentials"@,
        r@[1].0@ == "client_id"@ && r@[1].1@ == cred.client_id@,
        r@[2].0@ == "client_secret"@ && r@[2].1@ == cred.client_secret@,
{
    vec![
        (String::from_str("grant_type"), String::from_str("client_credentials")),
        (String::from_str("client_id"), cred.client_id.clone()),
        (String::from_str("client_secret"), cred.client_secret.clone()),
    ]
}

/// What a `get_token` caller must do next, decided under the cache's
/// lock: use the cached bearer, or perform one acquisition call with
/// exactly these form parameters and install its reply.
#[derive(Debug)]
pub enum TokenStep {
    Cached(String),
    Refresh(Vec<(String, String)>),
}

/// One `get_token` call against a cache in state `m` at instant `now`,
/// when a refresh would install bearer `fresh.0` with lifetime `fresh.1`:
/// the state after the call, the bearer the caller observes, and the
/// number of acquisition calls it makes.
pub open spec fn serve_one(
    m: Option<(Seq<char>, u64, i64)>,
    now: u64,
    fresh: (Seq<char>, i64),
) -> (Option<(Seq<char>, u64, i64)>, Seq<char>, nat) {
    if cache_live(m, now) {
        (m, cache_bearer(m), 0)
    } else {
        (Some((fresh.0, now, fresh.1)), fresh.0, 1)
    }
}

/// `n` callers served one after the other — the order the cache's lock
/// imposes — all at instant `now`: the final state, the bearers observed
/// in order, and the total number of acquisition calls.
pub open spec fn serve_all(
    m: Option<(Seq<char>, u64, i64)>,
    now: u64,
    fresh: (Seq<char>, i64),
    n: nat,
) -> (Option<(Seq<char>, u64, i64)>, Seq<Seq<char>>, nat)
    decreases n,
{
    if n == 0 {
        (m, Seq::empty(), 0)
    } else {
        let first = serve_one(m, now, fresh);
        let rest = serve_all(first.0, now, fresh, (n - 1) as nat);
        (rest.0, seq![first.1] + rest.1, first.2 + rest.2)
    }
}

/// Callers that find a live token are all served the cached bearer, make
/// no acquisition call, and leave the cache as it was.
pub proof fn lemma_served_from_cache(
    m: Option<(Seq<char>, u64, i64)>,
    now: u64,
    fresh: (Seq<char>, i64),
    n: nat,
)
    requires
        cache_live(m, now),
    ensures
        serve_all(m, now, fresh, n).0 == m,
        serve_all(m, now, fresh, n).1 =~= Seq::new(n, |i: int| cache_bearer(m)),
        serve_all(m, now, fresh, n).2 == 0,
    decreases n,
{
    if n > 0 {
        lemma_served_from_cache(m, now, fresh, (n - 1) as nat);
    }
}

/// Single-flight refresh: when `n` callers arrive at instant `now` and the
/// cache holds no live token, exactly one acquisition call is made, and
/// every one of the `n` callers observes the freshly installed bearer.
///
/// The granted lifetime must be positive: a zero or negative lifetime is
/// already expired on arrival — the expiry edge case demands a refresh on
/// the next call — so each serialized caller then acquires again, and
/// exactly-one-call cannot hold of such a grant.
pub proof fn lemma_single_flight(
    m: Option<(Seq<char>, u64, i64)>,
    now: u64,
    fresh: (Seq<char>, i64),
    n: nat,
)
    requires
        !cache_live(m, now),
        fresh.1 > 0,
        n >= 1,
    ensures
        serve_all(m, now, fresh, n).0 == Some((fresh.0, now, fresh.1)),
        serve_all(m, now, fresh, n).1 =~= Seq::new(n, |i: int| fresh.0),
        serve_all(m, now, fresh, n).2 == 1,
{
    let installed = Some((fresh.0, now, fresh.1));
    assert(cache_live(installed, now));
    lemma_served_from_cache(installed, now, fresh, (n - 1) as nat);
    assert(serve_all(m, now, fresh, n).1 =~= seq![fresh.0] + Seq::new(
        (n - 1) as nat,
        |i: int| fresh.0,
    ));
}

/// Expiry boundary: while `now` is strictly before `issued_at + lifetime`
/// the cached bearer is served with no acquisition call; from that instant
/// on a call triggers exactly one refresh.
pub proof fn lemma_expiry_boundary(
    e: TokenCacheEntry,
    now_before: u64,
    now_after: u64,
    fresh: (Seq<char>, i64),
)
    requires
        e.model() matches Some(t) && (now_before as int) < t.1 + t.2 && (now_after as int) >= t.1
            + t.2,
    ensures
        e.has_live(now_before),
        !e.has_live(now_after),
        serve_one(e.model(), now_before, fresh) == (e.model(), cache_bearer(e.model()), 0nat),
        serve_one(e.model(), now_after, fresh).2 == 1,
{
}

} // verus!
