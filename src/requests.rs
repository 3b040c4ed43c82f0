use vstd::prelude::*;

verus! {

/// The HTTP methods the platform's endpoints use.
#[derive(Debug, Clone, Copy, PartialEq, Eq, Structural)]
pub enum HttpMethod {
    Get,
    Post,
    Delete,
}

/// How an endpoint attaches credentials to its request.
#[derive(Debug, Clone, Copy, PartialEq, Eq, Structural)]
pub enum AuthMode {
    /// The client id is sent as the `api_key` query parameter.
    ApiKey,
    /// The access token is sent as a bearer credential.
    OAuthBearer,
}

/// Why a request could not be finalized.
#[derive(Debug, Clone, Copy, PartialEq, Eq, Structural)]
pub enum BuildError {
    InvalidUrl,
    InvalidHeaderValue,
}

/// A byte that an HTTP header value may hold, lifted to characters: every
/// character outside ASCII is encoded in bytes of 128 and above, all accepted.
pub open spec fn header_char_ok(c: char) -> bool {
    c == '\t' || (c as u32 >= 32 && c as u32 != 127)
}

pub open spec fn header_text_ok(s: Seq<char>) -> bool {
    forall|i: int| 0 <= i < s.len() ==> #[trigger] header_char_ok(s[i])
}

/// Whether reqwest takes `s` as the URL of a request: the URL parser accepts
/// it and the URL has a host.
pub uninterp spec fn parses_as_url(s: Seq<char>) -> bool;

/// Relies on reqwest's URL conversion for a string (into_url.rs): the url
/// crate's Url::parse must accept `s`, and the URL must have a host
/// (Url::has_host); otherwise reqwest refuses to build the request.
#[verifier::external_body]
fn url_parses(s: &str) -> (r: bool)
    ensures
        r == parses_as_url(s@),
{
    match reqwest::Url::parse(s) {
        Ok(u) => u.has_host(),
        Err(_) => false,
    }
}

/// Relies on reqwest::header::HeaderValue::from_str, which accepts a text
/// exactly when each of its bytes is a tab, or at least 32 and not 127.
#[verifier::external_body]
fn header_value_ok(s: &str) -> (r: bool)
    ensures
        r == header_text_ok(s@),
{
    reqwest::header::HeaderValue::from_str(s).is_ok()
}

/// The name of the query parameter that carries the client id.
pub fn api_key_param() -> (r: String)
    ensures
        r@ == "api_key"@,
{
    "api_key".to_owned()
}

/// The content type of a JSON body.
pub fn json_content_type() -> (r: String)
    ensures
        r@ == "application/json"@,
{
    "application/json".to_owned()
}

/// A fully built request, ready to hand to a transport.
#[derive(Debug)]
pub struct TumblrHttpRequest {
    pub method: HttpMethod,
    pub url: String,
    /// Query parameters, in the order they were added.
    pub query: Vec<(String, String)>,
    pub content_type: Option<String>,
    pub body: Option<String>,
    /// The token sent in the `Authorization: Bearer` header, if any.
    pub bearer_token: Option<String>,
}

impl TumblrHttpRequest {
    /// The request carries the query parameter `key` with value `value`.
    pub open spec fn has_query(&self, key: Seq<char>, value: Seq<char>) -> bool {
        exists|i: int| 0 <= i < self.query@.len()
            && (#[trigger] self.query@[i]).0@ == key && self.query@[i].1@ == value
    }

    /// The request carries the `api_key` query parameter, with any value.
    pub open spec fn has_api_key(&self) -> bool {
        exists|i: int| 0 <= i < self.query@.len() && (#[trigger] self.query@[i]).0@ == "api_key"@
    }
}

/// Assembles a request step by step; `build` validates it.
#[derive(Debug)]
pub struct TumblrRequestBuilder {
    request: TumblrHttpRequest,
}

impl TumblrRequestBuilder {
    /// The request as assembled so far.
    pub closed spec fn pending(&self) -> TumblrHttpRequest {
        self.request
    }

    pub fn new(method: HttpMethod, url: String) -> (r: Self)
        ensures
            r.pending().method == method,
            r.pending().url == url,
            r.pending().query@ == Seq::<(String, String)>::empty(),
            r.pending().content_type is None,
            r.pending().body is None,
            r.pending().bearer_token is None,
    {
        TumblrRequestBuilder {
            request: TumblrHttpRequest {
                method,
                url,
                query: Vec::new(),
                content_type: None,
                body: None,
                bearer_token: None,
            },
        }
    }

    /// Sets a JSON body and its content type, replacing any earlier body.
    pub fn json(self, json: String) -> (r: Self)
        ensures
            r.pending().method == self.pending().method,
            r.pending().url == self.pending().url,
            r.pending().query == self.pending().query,
            r.pending().bearer_token == self.pending().bearer_token,
            r.pending().content_type matches Some(t) && t@ == "application/json"@,
            r.pending().body == Some(json),
    {
        let mut request = self.request;
        request.content_type = Some(json_content_type());
        request.body = Some(json);
        TumblrRequestBuilder { request }
    }

    /// Appends the client id as the `api_key` query parameter.
    pub fn auth_by_key(self, key: &String) -> (r: Self)
        ensures
            r.pending().method == self.pending().method,
            r.pending().url == self.pending().url,
            r.pending().content_type == self.pending().content_type,
            r.pending().body == self.pending().body,
            r.pending().bearer_token == self.pending().bearer_token,
            r.pending().query@.len() == self.pending().query@.len() + 1,
            r.pending().query@.drop_last() == self.pending().query@,
            r.pending().query@.last().0@ == "api_key"@,
            r.pending().query@.last().1 == *key,
    {
        let mut request = self.request;
        request.query.push((api_key_param(), key.clone()));
        TumblrRequestBuilder { request }
    }

    /// Sets the access token as the bearer credential.
    pub fn auth_by_oauth(self, token: &String) -> (r: Self)
        ensures
            r.pending().method == self.pending().method,
            r.pending().url == self.pending().url,
            r.pending().query == self.pending().query,
            r.pending().content_type == self.pending().content_type,
            r.pending().body == self.pending().body,
            r.pending().bearer_token == Some(*token),
    {
        let mut request = self.request;
        request.bearer_token = Some(token.clone());
        TumblrRequestBuilder { request }
    }

    /// Finalizes the request: fails on a URL that reqwest refuses (one the
    /// parser rejects, or one without a host), or on a
    /// bearer token that cannot stand in a header.
    pub fn build(self) -> (r: Result<TumblrHttpRequest, BuildError>)
        ensures
            !parses_as_url(self.pending().url@) ==> r == Err::<TumblrHttpRequest, BuildError>(
                BuildError::InvalidUrl,
            ),
            parses_as_url(self.pending().url@) ==> match self.pending().bearer_token {
                Some(t) if !header_text_ok(t@) => r == Err::<TumblrHttpRequest, BuildError>(
                    BuildError::InvalidHeaderValue,
                ),
                _ => r == Ok::<TumblrHttpRequest, BuildError>(self.pending()),
            },
    {
        if !url_parses(self.request.url.as_str()) {
            return Err(BuildError::InvalidUrl);
        }
        let ok = match &self.request.bearer_token {
            Some(t) => header_value_ok(t.as_str()),
            None => true,
        };
        if !ok {
            return Err(BuildError::InvalidHeaderValue);
        }
        Ok(self.request)
    }
}

/// The `meta` part of the platform's response envelope.
#[derive(Debug)]
pub struct TumblrResponseMeta {
    pub status: u16,
    pub msg: String,
}

/// The platform's uniform response envelope around an endpoint's payload.
#[derive(Debug)]
pub struct TumblrResponse<T> {
    pub meta: TumblrResponseMeta,
    pub response: T,
}

/// What an endpoint contributes to its request: the method, the URL, an
/// optional JSON body and the way credentials are attached.
#[derive(Debug)]
pub struct EndpointCall {
    pub method: HttpMethod,
    pub url: String,
    pub json_body: Option<String>,
    pub auth: AuthMode,
}

} // verus!
