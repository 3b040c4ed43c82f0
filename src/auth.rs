use vstd::prelude::*;

use crate::requests::{
    AuthMode, BuildError, EndpointCall, TumblrHttpRequest, TumblrRequestBuilder, header_text_ok,
    parses_as_url,
};

verus! {

/// The OAuth2 application credentials, fixed for the life of a process.
#[derive(Debug)]
pub struct Credentials {
    pub client_id: String,
    pub client_secret: String,
    pub redirect_uri: Option<String>,
}

/// The current tokens; `expires_at` is an absolute instant in seconds since
/// the Unix epoch.
#[derive(Debug)]
pub struct TokenState {
    pub access_token: String,
    pub refresh_token: Option<String>,
    pub expires_at: u64,
}

/// What the OAuth provider hands back for an authorization or a refresh:
/// `expires_in` is the reported lifetime in seconds, if it reported one.
#[derive(Debug)]
pub struct TokenGrant {
    pub access_token: String,
    pub refresh_token: Option<String>,
    pub expires_in: Option<u64>,
}

/// The snapshot of a client that the cache file holds.
#[derive(Debug)]
pub struct PersistedClient {
    pub credentials: Credentials,
    pub token: TokenState,
}

/// What reading the cache file gave.
#[derive(Debug)]
pub enum CacheRead {
    /// No file at the path.
    Missing,
    /// The file exists but could not be read.
    Unreadable(String),
    /// The file was read but does not hold a client snapshot.
    Corrupt(String),
    Parsed(PersistedClient),
}

#[derive(Debug)]
pub enum AuthError {
    /// The token expired and there is nothing to refresh it with.
    NoRefreshToken,
    /// The provider refused the authorization or the refresh.
    ProviderRejected(String),
}

#[derive(Debug)]
pub enum PersistenceError {
    NotFound,
    Io(String),
    Parse(String),
}

/// The failure of one request, by source.
#[derive(Debug)]
pub enum ClientError {
    Transport(String),
    Auth(AuthError),
    Persistence(PersistenceError),
    Build(BuildError),
    /// The body did not match the response envelope; the body is kept.
    Deserialize { message: String, body: String },
}

/// The instant at which a token granted at `now` stops being valid; a grant
/// that reports no lifetime never expires, and the sum saturates.
pub open spec fn expiry_after(now: u64, lifetime: Option<u64>) -> u64 {
    match lifetime {
        Some(l) => if now + l > u64::MAX { u64::MAX } else { (now + l) as u64 },
        None => u64::MAX,
    }
}

pub open spec fn token_expired(t: TokenState, now: u64) -> bool {
    now >= t.expires_at
}

/// The token state that a grant received at `now` yields; a refresh token
/// the grant does not replace is kept.
pub open spec fn granted_token(g: TokenGrant, kept_refresh: Option<String>, now: u64) -> TokenState {
    TokenState {
        access_token: g.access_token,
        refresh_token: match g.refresh_token {
            Some(r) => Some(r),
            None => kept_refresh,
        },
        expires_at: expiry_after(now, g.expires_in),
    }
}

/// The outcome of loading the cache file.
pub open spec fn load_result(read: CacheRead) -> Result<PersistedClient, PersistenceError> {
    match read {
        CacheRead::Missing => Err(PersistenceError::NotFound),
        CacheRead::Unreadable(m) => Err(PersistenceError::Io(m)),
        CacheRead::Corrupt(m) => Err(PersistenceError::Parse(m)),
        CacheRead::Parsed(p) => Ok(p),
    }
}

impl TokenState {
    /// Expiry is `now >= expires_at`.
    pub fn is_expired(&self, now: u64) -> (r: bool)
        ensures
            r == token_expired(*self, now),
    {
        now >= self.expires_at
    }
}

fn clone_opt(o: &Option<String>) -> (r: Option<String>)
    ensures
        r == *o,
{
    match o {
        Some(s) => Some(s.clone()),
        None => None,
    }
}

fn expiry_from(now: u64, lifetime: Option<u64>) -> (r: u64)
    ensures
        r == expiry_after(now, lifetime),
{
    match lifetime {
        Some(l) => now.saturating_add(l),
        None => u64::MAX,
    }
}

fn token_from_grant(g: TokenGrant, kept_refresh: Option<String>, now: u64) -> (r: TokenState)
    ensures
        r == granted_token(g, kept_refresh, now),
{
    let expires_at = expiry_from(now, g.expires_in);
    let refresh_token = match g.refresh_token {
        Some(r) => Some(r),
        None => kept_refresh,
    };
    TokenState { access_token: g.access_token, refresh_token, expires_at }
}

/// Classifies what reading the cache file gave: a missing file is
/// `NotFound`, distinct from a file that could not be read or parsed.
pub fn load(read: CacheRead) -> (r: Result<PersistedClient, PersistenceError>)
    ensures
        r == load_result(read),
        read is Missing <==> r matches Err(PersistenceError::NotFound),
{
    match read {
        CacheRead::Missing => Err(PersistenceError::NotFound),
        CacheRead::Unreadable(m) => Err(PersistenceError::Io(m)),
        CacheRead::Corrupt(m) => Err(PersistenceError::Parse(m)),
        CacheRead::Parsed(p) => Ok(p),
    }
}

/// The next step of `load_or_authorize`.
#[derive(Debug)]
pub enum LoadStep {
    /// The cache held a client; use it as it is, valid or expired.
    Ready(TumblrClient),
    /// There is no cache file: run the authorization exchange once with
    /// these credentials and finish with `TumblrClient::authorize`.
    Authorize(Credentials),
    /// The cache exists but could not be used; this is surfaced, never
    /// papered over by a fresh authorization.
    Failed(PersistenceError),
}

/// Whether the cached tokens need a refresh before the next request.
#[derive(Debug)]
pub enum RefreshStep {
    /// The access token is still valid.
    Fresh,
    /// The access token expired: exchange this refresh token.
    Refresh(String),
    Failed(AuthError),
}

/// The next step of sending one request.
#[derive(Debug)]
pub enum SendAction {
    /// Exchange this refresh token, then call `after_refresh`.
    Refresh(String),
    /// Execute this request on the transport, then call `after_dispatch`.
    Dispatch(TumblrHttpRequest),
    /// The request failed before it reached the transport.
    Finish(ClientError),
}

/// The build outcome that a send action carries.
pub open spec fn build_of(a: SendAction) -> Result<TumblrHttpRequest, BuildError> {
    match a {
        SendAction::Dispatch(req) => Ok(req),
        SendAction::Finish(ClientError::Build(e)) => Err(e),
        _ => Err(BuildError::InvalidUrl),
    }
}

/// A send action that comes from building the request.
pub open spec fn from_build(a: SendAction) -> bool {
    a is Dispatch || a matches SendAction::Finish(ClientError::Build(_))
}

/// `r` is what building `call` gives with these credentials and tokens:
/// the URL is checked first, then a bearer token; an `ApiKey` endpoint gets
/// the client id as its one query parameter and no bearer token, an
/// `OAuthBearer` endpoint the access token as bearer and no query.
pub open spec fn built_for(
    credentials: Credentials,
    token: TokenState,
    call: EndpointCall,
    r: Result<TumblrHttpRequest, BuildError>,
) -> bool {
    if !parses_as_url(call.url@) {
        r == Err::<TumblrHttpRequest, BuildError>(BuildError::InvalidUrl)
    } else if call.auth == AuthMode::OAuthBearer && !header_text_ok(token.access_token@) {
        r == Err::<TumblrHttpRequest, BuildError>(BuildError::InvalidHeaderValue)
    } else {
        &&& r matches Ok(req)
        &&& req.method == call.method
        &&& req.url == call.url
        &&& req.body == call.json_body
        &&& call.json_body is Some ==> (req.content_type matches Some(t) && t@ == "application/json"@)
        &&& call.json_body is None ==> req.content_type is None
        &&& match call.auth {
            AuthMode::ApiKey => {
                &&& req.query@.len() == 1
                &&& req.query@[0].0@ == "api_key"@
                &&& req.query@[0].1 == credentials.client_id
                &&& req.bearer_token is None
            },
            AuthMode::OAuthBearer => {
                &&& req.query@.len() == 0
                &&& req.bearer_token == Some(token.access_token)
            },
        }
    }
}

/// An authenticated client: credentials and the tokens they produced.
#[derive(Debug)]
pub struct TumblrClient {
    credentials: Credentials,
    token: TokenState,
}

pub open spec fn load_step(read: CacheRead, credentials: Credentials) -> LoadStep {
    match read {
        CacheRead::Missing => LoadStep::Authorize(credentials),
        CacheRead::Unreadable(m) => LoadStep::Failed(PersistenceError::Io(m)),
        CacheRead::Corrupt(m) => LoadStep::Failed(PersistenceError::Parse(m)),
        CacheRead::Parsed(p) => LoadStep::Ready(TumblrClient::restored(p)),
    }
}

fn clone_credentials(c: &Credentials) -> (r: Credentials)
    ensures
        r == *c,
{
    Credentials {
        client_id: c.client_id.clone(),
        client_secret: c.client_secret.clone(),
        redirect_uri: clone_opt(&c.redirect_uri),
    }
}

fn clone_token(t: &TokenState) -> (r: TokenState)
    ensures
        r == *t,
{
    TokenState {
        access_token: t.access_token.clone(),
        refresh_token: clone_opt(&t.refresh_token),
        expires_at: t.expires_at,
    }
}

impl TumblrClient {
    pub closed spec fn credentials(&self) -> Credentials {
        self.credentials
    }

    pub closed spec fn token(&self) -> TokenState {
        self.token
    }

    /// The client that a snapshot describes.
    pub closed spec fn restored(p: PersistedClient) -> TumblrClient {
        TumblrClient { credentials: p.credentials, token: p.token }
    }

    /// The client after an authorization whose outcome was `outcome`.
    pub closed spec fn authorized(
        credentials: Credentials,
        outcome: Result<TokenGrant, String>,
        now: u64,
    ) -> Result<TumblrClient, AuthError> {
        match outcome {
            Ok(g) => Ok(TumblrClient { credentials, token: granted_token(g, None, now) }),
            Err(m) => Err(AuthError::ProviderRejected(m)),
        }
    }

    pub open spec fn snapshot(&self) -> PersistedClient {
        PersistedClient { credentials: self.credentials(), token: self.token() }
    }

    /// Finishes the authorization exchange: the provider's grant received at
    /// `now` becomes the client's tokens; a refusal is surfaced.
    pub fn authorize(credentials: Credentials, outcome: Result<TokenGrant, String>, now: u64) -> (r:
        Result<Self, AuthError>)
        ensures
            r == Self::authorized(credentials, outcome, now),
            r matches Ok(c) ==> c.credentials() == credentials,
            r matches Ok(c) ==> outcome matches Ok(g) && c.token() == granted_token(g, None, now),
            r is Err <==> outcome is Err,
    {
        match outcome {
            Ok(g) => Ok(TumblrClient { credentials, token: token_from_grant(g, None, now) }),
            Err(m) => Err(AuthError::ProviderRejected(m)),
        }
    }

    /// The first step of `load_or_authorize`, from what reading the cache
    /// file gave.
    pub fn load_or_authorize(read: CacheRead, credentials: Credentials) -> (r: LoadStep)
        ensures
            r == load_step(read, credentials),
    {
        match load(read) {
            Ok(p) => LoadStep::Ready(Self::from_persisted(p)),
            Err(PersistenceError::NotFound) => LoadStep::Authorize(credentials),
            Err(e) => LoadStep::Failed(e),
        }
    }

    pub fn from_persisted(p: PersistedClient) -> (r: Self)
        ensures
            r == Self::restored(p),
            r.credentials() == p.credentials,
            r.token() == p.token,
    {
        TumblrClient { credentials: p.credentials, token: p.token }
    }

    /// The snapshot to write to the cache file.
    pub fn to_persisted(&self) -> (r: PersistedClient)
        ensures
            r == self.snapshot(),
    {
        PersistedClient {
            credentials: clone_credentials(&self.credentials),
            token: clone_token(&self.token),
        }
    }

    pub fn access_token(&self) -> (r: &String)
        ensures
            *r == self.token().access_token,
    {
        &self.token.access_token
    }

    pub fn expires_at(&self) -> (r: u64)
        ensures
            r == self.token().expires_at,
    {
        self.token.expires_at
    }

    pub fn is_expired(&self, now: u64) -> (r: bool)
        ensures
            r == token_expired(self.token(), now),
    {
        self.token.is_expired(now)
    }

    /// Decides whether a refresh is due: none while the token is valid; with
    /// an expired token, the refresh token to exchange, or `NoRefreshToken`.
    pub fn refresh_step(&self, now: u64) -> (r: RefreshStep)
        ensures
            !token_expired(self.token(), now) ==> r is Fresh,
            token_expired(self.token(), now) ==> match self.token().refresh_token {
                Some(t) => r == RefreshStep::Refresh(t),
                None => r matches RefreshStep::Failed(AuthError::NoRefreshToken),
            },
    {
        if !self.token.is_expired(now) {
            RefreshStep::Fresh
        } else {
            match &self.token.refresh_token {
                Some(t) => RefreshStep::Refresh(t.clone()),
                None => RefreshStep::Failed(AuthError::NoRefreshToken),
            }
        }
    }

    /// Takes in the outcome of a refresh exchange made at `now`: a grant
    /// replaces the tokens (keeping the refresh token unless a new one came),
    /// a refusal leaves them as they were.
    pub fn apply_refresh(&mut self, outcome: Result<TokenGrant, String>, now: u64) -> (r: Result<
        (),
        AuthError,
    >)
        ensures
            final(self).credentials() == old(self).credentials(),
            match outcome {
                Ok(g) => {
                    &&& r is Ok
                    &&& final(self).token() == granted_token(g, old(self).token().refresh_token, now)
                },
                Err(m) => {
                    &&& r == Err::<(), AuthError>(AuthError::ProviderRejected(m))
                    &&& final(self).token() == old(self).token()
                },
            },
    {
        match outcome {
            Ok(g) => {
                let kept = clone_opt(&self.token.refresh_token);
                self.token = token_from_grant(g, kept, now);
                Ok(())
            },
            Err(m) => Err(AuthError::ProviderRejected(m)),
        }
    }

    /// Builds the request for `call` with the current credentials, attaching
    /// them as the endpoint's auth mode says.
    pub fn build_request(&self, call: &EndpointCall) -> (r: Result<TumblrHttpRequest, BuildError>)
        ensures
            built_for(self.credentials(), self.token(), *call, r),
    {
        let mut builder = TumblrRequestBuilder::new(call.method, call.url.clone());
        match &call.json_body {
            Some(b) => {
                builder = builder.json(b.clone());
            },
            None => {},
        }
        builder = match call.auth {
            AuthMode::ApiKey => builder.auth_by_key(&self.credentials.client_id),
            AuthMode::OAuthBearer => builder.auth_by_oauth(&self.token.access_token),
        };
        let r = builder.build();
        proof {
            if r is Ok && call.auth == AuthMode::ApiKey {
                let q = r->Ok_0.query@;
                assert(q =~= seq![q.last()]);
            }
        }
        r
    }

    /// The first step of sending `call` at `now`: an expired token is never
    /// used; it is refreshed first, or the send fails with `NoRefreshToken`
    /// when there is nothing to refresh it with.
    pub fn begin_send(&self, call: &EndpointCall, now: u64) -> (r: SendAction)
        ensures
            token_expired(self.token(), now) ==> match self.token().refresh_token {
                Some(t) => r == SendAction::Refresh(t),
                None => r matches SendAction::Finish(ClientError::Auth(AuthError::NoRefreshToken)),
            },
            !token_expired(self.token(), now) ==> from_build(r) && built_for(
                self.credentials(),
                self.token(),
                *call,
                build_of(r),
            ),
    {
        match self.refresh_step(now) {
            RefreshStep::Fresh => Self::dispatch_or_fail(self.build_request(call)),
            RefreshStep::Refresh(t) => SendAction::Refresh(t),
            RefreshStep::Failed(e) => SendAction::Finish(ClientError::Auth(e)),
        }
    }

    /// The step after the refresh exchange: with a grant the request is built
    /// with the new access token; a refusal ends the send. No second refresh
    /// is ever asked for.
    pub fn after_refresh(
        &mut self,
        call: &EndpointCall,
        outcome: Result<TokenGrant, String>,
        now: u64,
    ) -> (r: SendAction)
        ensures
            final(self).credentials() == old(self).credentials(),
            r !is Refresh,
            match outcome {
                Ok(g) => {
                    &&& final(self).token() == granted_token(g, old(self).token().refresh_token, now)
                    &&& from_build(r)
                    &&& built_for(final(self).credentials(), final(self).token(), *call, build_of(r))
                },
                Err(m) => {
                    &&& final(self).token() == old(self).token()
                    &&& r == SendAction::Finish(
                        ClientError::Auth(AuthError::ProviderRejected(m)),
                    )
                },
            },
    {
        match self.apply_refresh(outcome, now) {
            Ok(()) => Self::dispatch_or_fail(self.build_request(call)),
            Err(e) => SendAction::Finish(ClientError::Auth(e)),
        }
    }

    fn dispatch_or_fail(b: Result<TumblrHttpRequest, BuildError>) -> (r: SendAction)
        ensures
            from_build(r),
            build_of(r) == b,
    {
        match b {
            Ok(req) => SendAction::Dispatch(req),
            Err(e) => SendAction::Finish(ClientError::Build(e)),
        }
    }
}

/// The last step of an untyped send: the transport's body, or its failure.
pub fn after_dispatch(outcome: Result<String, String>) -> (r: Result<String, ClientError>)
    ensures
        match outcome {
            Ok(body) => r == Ok::<String, ClientError>(body),
            Err(m) => r == Err::<String, ClientError>(ClientError::Transport(m)),
        },
{
    match outcome {
        Ok(body) => Ok(body),
        Err(m) => Err(ClientError::Transport(m)),
    }
}

/// A snapshot read back from the cache gives the same client: loading what
/// was saved succeeds, and restoring it reproduces the credentials and the
/// tokens, expiry instant included.
pub proof fn lemma_persist_round_trip(c: TumblrClient)
    ensures
        load_result(CacheRead::Parsed(c.snapshot())) == Ok::<PersistedClient, PersistenceError>(
            c.snapshot(),
        ),
        TumblrClient::restored(c.snapshot()) == c,
        TumblrClient::restored(c.snapshot()).snapshot() == c.snapshot(),
{
}

/// Loading from a path with no file yields `NotFound`, and nothing else does.
pub proof fn lemma_missing_file_is_not_found(read: CacheRead)
    ensures
        (read is Missing) <==> (load_result(read) matches Err(PersistenceError::NotFound)),
{
}

/// With no cache file, `load_or_authorize` asks for exactly one
/// authorization, with the caller's credentials; its grant yields a client
/// whose snapshot holds those credentials and the granted tokens, and which
/// restores from that snapshot unchanged.
pub proof fn lemma_missing_cache_authorizes_once(credentials: Credentials, grant: TokenGrant, now: u64)
    ensures
        load_step(CacheRead::Missing, credentials) == LoadStep::Authorize(credentials),
        TumblrClient::authorized(credentials, Ok(grant), now) matches Ok(c) && {
            &&& c.snapshot() == (PersistedClient {
                credentials,
                token: granted_token(grant, None, now),
            })
            &&& TumblrClient::restored(c.snapshot()) == c
        },
{
}

/// A grant with a positive lifetime, or none, is valid at the instant it was
/// received.
pub proof fn lemma_fresh_grant_is_valid(grant: TokenGrant, kept_refresh: Option<String>, now: u64)
    requires
        now < u64::MAX,
        grant.expires_in matches Some(l) ==> l > 0,
    ensures
        !token_expired(granted_token(grant, kept_refresh, now), now),
        granted_token(grant, kept_refresh, now).access_token == grant.access_token,
        grant.expires_in is Some && now + grant.expires_in->Some_0 <= u64::MAX ==> granted_token(
            grant,
            kept_refresh,
            now,
        ).expires_at == now + grant.expires_in->Some_0,
{
}

/// Refreshing an expired token replaces it before any use: the new state
/// holds the provider's access token, expires the reported lifetime after
/// `now`, is valid at `now`, and keeps the old refresh token unless the
/// provider sent a new one.
pub proof fn lemma_refresh_replaces_stale_token(old: TokenState, grant: TokenGrant, now: u64)
    requires
        token_expired(old, now),
        old.refresh_token is Some,
        grant.expires_in is Some,
        grant.expires_in->Some_0 > 0,
        now + grant.expires_in->Some_0 <= u64::MAX,
    ensures
        ({
            let t = granted_token(grant, old.refresh_token, now);
            &&& t.access_token == grant.access_token
            &&& t.expires_at == now + grant.expires_in->Some_0
            &&& !token_expired(t, now)
            &&& t.refresh_token is Some
            &&& grant.refresh_token is None ==> t.refresh_token == old.refresh_token
        }),
{
}

/// With no cache file, the one authorization gives a client that is valid
/// at `now`; saving its snapshot and loading it back gives the same client,
/// still valid, with the same access token, so no refresh is due.
pub proof fn lemma_authorized_client_survives_cache(credentials: Credentials, grant: TokenGrant, now: u64)
    requires
        now < u64::MAX,
        grant.expires_in matches Some(l) ==> l > 0,
    ensures
        load_step(CacheRead::Missing, credentials) == LoadStep::Authorize(credentials),
        TumblrClient::authorized(credentials, Ok(grant), now) matches Ok(c) && {
            &&& !token_expired(c.token(), now)
            &&& load_result(CacheRead::Parsed(c.snapshot())) matches Ok(p) && {
                &&& TumblrClient::restored(p) == c
                &&& TumblrClient::restored(p).token().access_token == grant.access_token
                &&& !token_expired(TumblrClient::restored(p).token(), now)
            }
        },
{
    lemma_fresh_grant_is_valid(grant, None, now);
}

/// Building succeeds whenever reqwest takes the URL and, for a bearer
/// endpoint, the access token can stand in a header.
pub proof fn lemma_build_succeeds(
    credentials: Credentials,
    token: TokenState,
    call: EndpointCall,
    r: Result<TumblrHttpRequest, BuildError>,
)
    requires
        built_for(credentials, token, call, r),
        parses_as_url(call.url@),
        call.auth == AuthMode::OAuthBearer ==> header_text_ok(token.access_token@),
    ensures
        r is Ok,
        r->Ok_0.method == call.method,
        r->Ok_0.url == call.url,
        r->Ok_0.body == call.json_body,
{
}

/// An `ApiKey` endpoint's request carries the client id as `api_key` and no
/// bearer credential; an `OAuthBearer` endpoint's carries the access token as
/// bearer and no `api_key`.
pub proof fn lemma_auth_mode_attachment(
    credentials: Credentials,
    token: TokenState,
    call: EndpointCall,
    r: Result<TumblrHttpRequest, BuildError>,
)
    requires
        built_for(credentials, token, call, r),
        r is Ok,
    ensures
        call.auth == AuthMode::ApiKey ==> {
            &&& r->Ok_0.has_query("api_key"@, credentials.client_id@)
            &&& r->Ok_0.bearer_token is None
        },
        call.auth == AuthMode::OAuthBearer ==> {
            &&& !r->Ok_0.has_api_key()
            &&& r->Ok_0.bearer_token == Some(token.access_token)
        },
{
    let req = r->Ok_0;
    if call.auth == AuthMode::ApiKey {
        assert(req.query@[0].0@ == "api_key"@);
    }
}

} // verus!
