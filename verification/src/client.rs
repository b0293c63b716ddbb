//! The client builder, the request options it settles on, and the client.

use vstd::prelude::*;

use crate::base_url::{parse_base_url, request_base, request_base_url, url_parse};
use crate::config::{
    default_timeout, ClientConfig, Timeout, DEFAULT_BASE_URL, DEFAULT_TIMEOUT_SECS,
    HEADER_AUTHORIZATION, HEADER_NMEM_API_KEY, QUERY_NMEM_API_KEY,
};
use crate::query::{query_with, set_query_value};
use crate::credentials::{
    api_key_header_value, as_token, bearer_header_text, bearer_header_value, bearer_scheme,
    header_text_ok, header_value, key_setting, normalize_required_key, normalized_token, HeaderText,
};
use crate::error::{describes, BuildFailure, ClientError};
use crate::text::{opt_str_view, opt_view};

verus! {

/// The request options that a client applies to every request.
pub struct AuthView {
    /// The text of the `Authorization` header, when one is sent.
    pub authorization: Option<Seq<char>>,
    /// The value of the `Authorization` header, when one is sent.
    pub authorization_value: Option<reqwest::header::HeaderValue>,
    /// The text of the `X-NMEM-API-Key` header, when one is sent.
    pub api_key_header: Option<Seq<char>>,
    /// The value of the `X-NMEM-API-Key` header, when one is sent.
    pub api_key_header_value: Option<reqwest::header::HeaderValue>,
    /// The value of the `nmem_api_key` query parameter, when one is sent.
    pub query_api_key: Option<Seq<char>>,
}

/// Extra request options carried by the client: the authentication headers
/// (each text with the header value built from it) and the query API key.
#[derive(Clone, Debug, Default)]
pub struct ClientState {
    bearer_token: Option<HeaderText>,
    header_api_key: Option<HeaderText>,
    query_api_key: Option<String>,
}

/// The text of an optional header.
pub open spec fn header_text_view(h: Option<HeaderText>) -> Option<Seq<char>> {
    match h {
        Some(p) => Some(p.0@),
        None => None,
    }
}

/// The value of an optional header.
pub open spec fn header_value_view(h: Option<HeaderText>) -> Option<reqwest::header::HeaderValue> {
    match h {
        Some(p) => Some(p.1),
        None => None,
    }
}

/// The header value built from an optional header text.
pub open spec fn opt_header_value(t: Option<Seq<char>>) -> Option<reqwest::header::HeaderValue> {
    match t {
        Some(text) => Some(header_value(text)),
        None => None,
    }
}

impl View for ClientState {
    type V = AuthView;

    closed spec fn view(&self) -> AuthView {
        AuthView {
            authorization: header_text_view(self.bearer_token),
            authorization_value: header_value_view(self.bearer_token),
            api_key_header: header_text_view(self.header_api_key),
            api_key_header_value: header_value_view(self.header_api_key),
            query_api_key: opt_view(self.query_api_key),
        }
    }
}

fn header_as_str(h: &Option<HeaderText>) -> (r: Option<&str>)
    ensures
        opt_str_view(r) == header_text_view(*h),
{
    match h {
        Some(p) => Some(p.0.as_str()),
        None => None,
    }
}

fn header_as_value(h: &Option<HeaderText>) -> (r: Option<&reqwest::header::HeaderValue>)
    ensures
        r is Some == h is Some,
        r matches Some(v) ==> header_value_view(*h) == Some(*v),
{
    match h {
        Some(p) => Some(&p.1),
        None => None,
    }
}

fn opt_as_str(s: &Option<String>) -> (r: Option<&str>)
    ensures
        opt_str_view(r) == opt_view(*s),
{
    match s {
        Some(t) => Some(t.as_str()),
        None => None,
    }
}

/// A header name and the value to send under it.
pub type RequestHeader<'a> = (&'static str, &'a reqwest::header::HeaderValue);

/// The names and values of a list of request headers.
pub open spec fn request_headers_view<'a>(hs: Seq<RequestHeader<'a>>) -> Seq<
    (Seq<char>, reqwest::header::HeaderValue),
> {
    hs.map_values(|h: RequestHeader<'a>| (h.0@, *h.1))
}

/// The headers that every request carries: `Authorization` with the bearer
/// value when there is one, then `X-NMEM-API-Key` with the API key value
/// when there is one.
pub open spec fn auth_headers(auth: AuthView) -> Seq<(Seq<char>, reqwest::header::HeaderValue)> {
    (match auth.authorization_value {
        Some(v) => seq![(HEADER_AUTHORIZATION@, v)],
        None => Seq::empty(),
    }) + (match auth.api_key_header_value {
        Some(v) => seq![(HEADER_NMEM_API_KEY@, v)],
        None => Seq::empty(),
    })
}

/// The query that a request whose query was `query` carries: with a query
/// API key, `nmem_api_key` is set to it; without one, the query is left as
/// it is (`None`).
pub open spec fn auth_query(auth: AuthView, query: Option<Seq<char>>) -> Option<Seq<char>> {
    match auth.query_api_key {
        Some(key) => Some(query_with(query, QUERY_NMEM_API_KEY@, key)),
        None => None,
    }
}

impl ClientState {
    /// What the client puts on an outgoing request whose URL query is
    /// `query`: the headers to insert, in order, and the new query, when
    /// the query changes.
    pub fn request_options(&self, query: Option<&str>) -> (r: (Vec<RequestHeader<'_>>, Option<String>))
        ensures
            request_headers_view(r.0@) == auth_headers(self@),
            opt_view(r.1) == auth_query(self@, opt_str_view(query)),
            self@.query_api_key is None ==> r.1 is None,
            self@.query_api_key is Some ==> r.1 is Some && r.1->0@ == query_with(
                opt_str_view(query),
                QUERY_NMEM_API_KEY@,
                self@.query_api_key->0,
            ),
            r.0@.len() == (if self@.authorization_value is Some { 1int } else { 0int }) + (
            if self@.api_key_header_value is Some {
                1int
            } else {
                0int
            }),
            self@.authorization_value is Some ==> r.0@[0].0@ == HEADER_AUTHORIZATION@ && *r.0@[0].1
                == self@.authorization_value->0,
            self@.api_key_header_value is Some ==> r.0@.last().0@ == HEADER_NMEM_API_KEY@
                && *r.0@.last().1 == self@.api_key_header_value->0,
    {
        let mut headers: Vec<RequestHeader<'_>> = Vec::new();
        if let Some(p) = &self.bearer_token {
            headers.push((HEADER_AUTHORIZATION, &p.1));
        }
        if let Some(p) = &self.header_api_key {
            headers.push((HEADER_NMEM_API_KEY, &p.1));
        }
        assert(request_headers_view(headers@) =~= auth_headers(self@));
        let new_query = match &self.query_api_key {
            Some(key) => Some(set_query_value(query, QUERY_NMEM_API_KEY, key.as_str())),
            None => None,
        };
        (headers, new_query)
    }

    /// The `Authorization` header text, such as `Bearer nmem_xxxx`.
    pub fn bearer_token(&self) -> (r: Option<&str>)
        ensures
            opt_str_view(r) == self@.authorization,
    {
        header_as_str(&self.bearer_token)
    }

    /// The `Authorization` header value, built from the text that
    /// `bearer_token` returns.
    pub fn bearer_header(&self) -> (r: Option<&reqwest::header::HeaderValue>)
        ensures
            r is Some == self@.authorization_value is Some,
            r matches Some(v) ==> self@.authorization_value == Some(*v),
    {
        header_as_value(&self.bearer_token)
    }

    /// The `X-NMEM-API-Key` header text.
    pub fn header_api_key(&self) -> (r: Option<&str>)
        ensures
            opt_str_view(r) == self@.api_key_header,
    {
        header_as_str(&self.header_api_key)
    }

    /// The `X-NMEM-API-Key` header value, built from the text that
    /// `header_api_key` returns.
    pub fn api_key_header(&self) -> (r: Option<&reqwest::header::HeaderValue>)
        ensures
            r is Some == self@.api_key_header_value is Some,
            r matches Some(v) ==> self@.api_key_header_value == Some(*v),
    {
        header_as_value(&self.header_api_key)
    }

    /// The value of the `nmem_api_key` query parameter.
    pub fn query_api_key(&self) -> (r: Option<&str>)
        ensures
            opt_str_view(r) == self@.query_api_key,
    {
        opt_as_str(&self.query_api_key)
    }
}

/// What a client builder holds.
pub struct BuilderView<H> {
    /// The base URL as configured, not yet parsed.
    pub base_url: Seq<char>,
    /// The request timeout of the default HTTP client.
    pub timeout: Timeout,
    /// The token for the `Authorization` header, as configured.
    pub bearer_token: Option<Seq<char>>,
    /// The key for the `X-NMEM-API-Key` header, as configured.
    pub header_api_key: Option<Seq<char>>,
    /// The key for the `nmem_api_key` query parameter, as configured.
    pub query_api_key: Option<Seq<char>>,
    /// The caller's HTTP client, when one was given.
    pub http_client: Option<H>,
}

/// Builder for [`Client`]; `H` is the HTTP client type that sends the
/// requests.
#[derive(Clone, Debug)]
pub struct ClientBuilder<H> {
    base_url: String,
    timeout: Timeout,
    bearer_token: Option<String>,
    header_api_key: Option<String>,
    query_api_key: Option<String>,
    http_client: Option<H>,
}

impl<H> View for ClientBuilder<H> {
    type V = BuilderView<H>;

    closed spec fn view(&self) -> BuilderView<H> {
        BuilderView {
            base_url: self.base_url@,
            timeout: self.timeout,
            bearer_token: opt_view(self.bearer_token),
            header_api_key: opt_view(self.header_api_key),
            query_api_key: opt_view(self.query_api_key),
            http_client: self.http_client,
        }
    }
}

/// A fresh builder: the local base URL, a 30 second timeout and no
/// credentials.
pub open spec fn default_settings<H>() -> BuilderView<H> {
    BuilderView {
        base_url: DEFAULT_BASE_URL@,
        timeout: default_timeout(),
        bearer_token: None,
        header_api_key: None,
        query_api_key: None,
        http_client: None,
    }
}

/// `b` with its base URL replaced.
pub open spec fn with_base_url<H>(b: BuilderView<H>, url: Seq<char>) -> BuilderView<H> {
    BuilderView { base_url: url, ..b }
}

/// `b` with its timeout replaced.
pub open spec fn with_timeout<H>(b: BuilderView<H>, timeout: Timeout) -> BuilderView<H> {
    BuilderView { timeout, ..b }
}

/// `b` with its bearer token replaced.
pub open spec fn with_bearer_token<H>(b: BuilderView<H>, token: Seq<char>) -> BuilderView<H> {
    BuilderView { bearer_token: Some(token), ..b }
}

/// `b` with an API key that is sent in both header forms.
pub open spec fn with_api_key<H>(b: BuilderView<H>, key: Seq<char>) -> BuilderView<H> {
    BuilderView { bearer_token: Some(key), header_api_key: Some(key), ..b }
}

/// `b` with an API key that is sent as a query parameter.
pub open spec fn with_api_key_query<H>(b: BuilderView<H>, key: Seq<char>) -> BuilderView<H> {
    BuilderView { query_api_key: Some(key), ..b }
}

/// `b` with the caller's HTTP client.
pub open spec fn with_http_client<H>(b: BuilderView<H>, client: H) -> BuilderView<H> {
    BuilderView { http_client: Some(client), ..b }
}

/// `b` once the environment values are applied: a non-empty API URL
/// replaces the base URL, a non-empty API key is sent in both header forms.
pub open spec fn with_env<H>(
    b: BuilderView<H>,
    api_url: Option<Seq<char>>,
    api_key: Option<Seq<char>>,
) -> BuilderView<H> {
    let b1 = if api_url is Some && api_url->0.len() > 0 {
        with_base_url(b, api_url->0)
    } else {
        b
    };
    if api_key is Some && api_key->0.len() > 0 {
        with_api_key(b1, api_key->0)
    } else {
        b1
    }
}

/// `b` once a config file's values are applied: a non-empty `apiUrl`
/// replaces the base URL, a non-empty `apiKey` is sent in both header forms.
pub open spec fn with_config<H>(b: BuilderView<H>, config: Option<ClientConfig>) -> BuilderView<H> {
    match config {
        Some(c) => with_env(b, Some(c.api_url@), Some(c.api_key@)),
        None => b,
    }
}

/// What an optional configured key turns into, or why it is refused.
pub open spec fn optional_setting(
    key: Option<Seq<char>>,
    kind: &'static str,
    header: Option<&'static str>,
    text_of: spec_fn(Seq<char>) -> Seq<char>,
) -> Result<Option<Seq<char>>, BuildFailure> {
    match key {
        None => Ok(None),
        Some(k) => match key_setting(k, kind, header, text_of) {
            Ok(t) => Ok(Some(t)),
            Err(f) => Err(f),
        },
    }
}

/// The base URL serialization and request options that a builder settles
/// on, or the first reason, in the order the builder checks them, why it
/// cannot.
pub open spec fn prepared_settings<H>(b: BuilderView<H>) -> Result<(Seq<char>, AuthView), BuildFailure> {
    match url_parse(b.base_url) {
        Err(e) => Err(BuildFailure::BadUrl(e)),
        Ok((serialization, query)) => if query is Some {
            Err(BuildFailure::UrlHasQuery)
        } else {
            match optional_setting(
                b.bearer_token,
                "bearer token",
                Some("Authorization"),
                |t| bearer_header_text(t),
            ) {
                Err(f) => Err(f),
                Ok(authorization) => match optional_setting(
                    b.header_api_key,
                    "API key",
                    Some("X-NMEM-API-Key"),
                    |t| as_token(t),
                ) {
                    Err(f) => Err(f),
                    Ok(api_key_header) => match optional_setting(
                        b.query_api_key,
                        "query API key",
                        None,
                        |t| as_token(t),
                    ) {
                        Err(f) => Err(f),
                        Ok(query_api_key) => Ok(
                            (
                                serialization,
                                AuthView {
                                    authorization,
                                    authorization_value: opt_header_value(authorization),
                                    api_key_header,
                                    api_key_header_value: opt_header_value(api_key_header),
                                    query_api_key,
                                },
                            ),
                        ),
                    },
                },
            }
        },
    }
}

/// Whether `r` is what preparing the settings of `b` gives.
pub open spec fn prepare_outcome<H>(
    b: BuilderView<H>,
    r: Result<(String, ClientState), ClientError>,
) -> bool {
    match prepared_settings(b) {
        Ok((serialization, auth)) => r matches Ok((s, st)) && s@ == serialization && st@ == auth,
        Err(f) => r matches Err(e) && describes(e, f, b.base_url),
    }
}

/// What a client holds.
pub struct ClientView<H> {
    /// The serialization of the parsed base URL.
    pub base_url: Seq<char>,
    /// The base URL that request paths are appended to.
    pub request_base: Seq<char>,
    /// The request options applied to every request.
    pub auth: AuthView,
    /// The HTTP client that sends the requests.
    pub http_client: H,
}

/// High-level Nowledge Mem client; `H` is the HTTP client type that sends
/// the requests.
#[derive(Clone, Debug)]
pub struct Client<H> {
    base_url: String,
    baseurl: String,
    http_client: H,
    inner: ClientState,
}

impl<H> View for Client<H> {
    type V = ClientView<H>;

    closed spec fn view(&self) -> ClientView<H> {
        ClientView {
            base_url: self.base_url@,
            request_base: self.baseurl@,
            auth: self.inner@,
            http_client: self.http_client,
        }
    }
}

/// Whether `r` is what building a client from `b` gives. Where `b` names
/// no HTTP client, making the default one may fail on the machine; that
/// failure is the only one left open.
pub open spec fn build_outcome<H>(b: BuilderView<H>, r: Result<Client<H>, ClientError>) -> bool {
    match prepared_settings(b) {
        Err(f) => r matches Err(e) && describes(e, f, b.base_url),
        Ok((serialization, auth)) => match r {
            Ok(c) => {
                &&& c@.base_url == serialization
                &&& c@.request_base == request_base(serialization)
                &&& c@.auth == auth
                &&& b.http_client matches Some(h) ==> c@.http_client == h
            },
            Err(e) => b.http_client is None && e is BuildHttpClient,
        },
    }
}

/// Where `b` names no HTTP client and its settings are valid, the client
/// holds what `make` gave for `b`'s timeout, or the error reports what
/// `make` failed with.
pub open spec fn made_by<H, F: FnOnce(Timeout) -> Result<H, reqwest::Error>>(
    b: BuilderView<H>,
    make: F,
    r: Result<Client<H>, ClientError>,
) -> bool {
    b.http_client is None && prepared_settings(b) is Ok ==> match r {
        Ok(c) => make.ensures((b.timeout,), Ok::<H, reqwest::Error>(c@.http_client)),
        Err(ClientError::BuildHttpClient(e)) => make.ensures(
            (b.timeout,),
            Err::<H, reqwest::Error>(e),
        ),
        Err(_) => false,
    }
}

/// Turns an optional bearer token into its header text.
fn optional_bearer(token: &Option<String>) -> (r: Result<Option<HeaderText>, ClientError>)
    ensures
        optional_header_outcome(
            r,
            optional_setting(
                opt_view(*token),
                "bearer token",
                Some("Authorization"),
                |t| bearer_header_text(t),
            ),
        ),
{
    match token {
        None => Ok(None),
        Some(t) => {
            let text = bearer_header_value(t.as_str())?;
            Ok(Some(text))
        },
    }
}

/// Turns an optional API key into its header text.
fn optional_api_key_header(key: &Option<String>) -> (r: Result<Option<HeaderText>, ClientError>)
    ensures
        optional_header_outcome(
            r,
            optional_setting(opt_view(*key), "API key", Some("X-NMEM-API-Key"), |t| as_token(t)),
        ),
{
    match key {
        None => Ok(None),
        Some(k) => {
            let text = api_key_header_value(k.as_str())?;
            Ok(Some(text))
        },
    }
}

/// Normalizes an optional query API key.
fn optional_query_key(key: &Option<String>) -> (r: Result<Option<String>, ClientError>)
    ensures
        optional_outcome(
            r,
            optional_setting(opt_view(*key), "query API key", None, |t| as_token(t)),
        ),
{
    match key {
        None => Ok(None),
        Some(k) => {
            let text = normalize_required_key(k.as_str(), "query API key")?;
            Ok(Some(text))
        },
    }
}

/// Whether `r` matches the outcome `expected` of an optional header.
pub open spec fn optional_header_outcome(
    r: Result<Option<HeaderText>, ClientError>,
    expected: Result<Option<Seq<char>>, BuildFailure>,
) -> bool {
    match expected {
        Ok(t) => r matches Ok(v) && header_text_view(v) == t && header_value_view(v)
            == opt_header_value(t),
        Err(f) => r matches Err(e) && describes(e, f, Seq::empty()),
    }
}

/// Whether `r` matches the outcome `expected` of an optional setting.
pub open spec fn optional_outcome(
    r: Result<Option<String>, ClientError>,
    expected: Result<Option<Seq<char>>, BuildFailure>,
) -> bool {
    match expected {
        Ok(t) => r matches Ok(v) && opt_view(v) == t,
        Err(f) => r matches Err(e) && describes(e, f, Seq::empty()),
    }
}

impl<H> Default for ClientBuilder<H> {
    fn default() -> (r: Self)
        ensures
            r@ == default_settings::<H>(),
    {
        ClientBuilder {
            base_url: String::from_str(DEFAULT_BASE_URL),
            timeout: Timeout { secs: DEFAULT_TIMEOUT_SECS, nanos: 0 },
            bearer_token: None,
            header_api_key: None,
            query_api_key: None,
            http_client: None,
        }
    }
}

impl<H> ClientBuilder<H> {
    /// Override the default base URL.
    pub fn base_url(self, value: &str) -> (r: Self)
        ensures
            r@ == with_base_url(self@, value@),
            r@.base_url == value@,
            r@.timeout == self@.timeout,
            r@.bearer_token == self@.bearer_token,
            r@.header_api_key == self@.header_api_key,
            r@.query_api_key == self@.query_api_key,
            r@.http_client == self@.http_client,
    {
        ClientBuilder { base_url: String::from_str(value), ..self }
    }

    /// Override the HTTP request timeout used by the default HTTP client.
    pub fn timeout(self, value: Timeout) -> (r: Self)
        ensures
            r@ == with_timeout(self@, value),
            r@.timeout == value,
            r@.base_url == self@.base_url,
            r@.bearer_token == self@.bearer_token,
            r@.header_api_key == self@.header_api_key,
            r@.query_api_key == self@.query_api_key,
            r@.http_client == self@.http_client,
    {
        ClientBuilder { timeout: value, ..self }
    }

    /// Use a caller-provided HTTP client. Authentication and query options
    /// are still applied to each request.
    pub fn http_client(self, value: H) -> (r: Self)
        ensures
            r@ == with_http_client(self@, value),
            r@.http_client == Some(value),
            r@.base_url == self@.base_url,
            r@.timeout == self@.timeout,
            r@.bearer_token == self@.bearer_token,
            r@.header_api_key == self@.header_api_key,
            r@.query_api_key == self@.query_api_key,
    {
        ClientBuilder { http_client: Some(value), ..self }
    }

    /// Send `Authorization: Bearer ...` on every request.
    pub fn bearer_token(self, value: &str) -> (r: Self)
        ensures
            r@ == with_bearer_token(self@, value@),
            r@.bearer_token == Some(value@),
            r@.base_url == self@.base_url,
            r@.timeout == self@.timeout,
            r@.header_api_key == self@.header_api_key,
            r@.query_api_key == self@.query_api_key,
            r@.http_client == self@.http_client,
    {
        ClientBuilder { bearer_token: Some(String::from_str(value)), ..self }
    }

    /// Send the Nowledge Mem API key using both supported header forms.
    pub fn api_key(self, value: &str) -> (r: Self)
        ensures
            r@ == with_api_key(self@, value@),
            r@.bearer_token == Some(value@),
            r@.header_api_key == Some(value@),
            r@.base_url == self@.base_url,
            r@.timeout == self@.timeout,
            r@.query_api_key == self@.query_api_key,
            r@.http_client == self@.http_client,
    {
        ClientBuilder {
            bearer_token: Some(String::from_str(value)),
            header_api_key: Some(String::from_str(value)),
            ..self
        }
    }

    /// Send `nmem_api_key=...` on every request, for clients or proxies
    /// that strip custom headers.
    pub fn api_key_query(self, value: &str) -> (r: Self)
        ensures
            r@ == with_api_key_query(self@, value@),
            r@.query_api_key == Some(value@),
            r@.base_url == self@.base_url,
            r@.timeout == self@.timeout,
            r@.bearer_token == self@.bearer_token,
            r@.header_api_key == self@.header_api_key,
            r@.http_client == self@.http_client,
    {
        ClientBuilder { query_api_key: Some(String::from_str(value)), ..self }
    }

    /// Apply the values of `NMEM_API_URL` and `NMEM_API_KEY`, as read from
    /// the environment (`None` where a variable is unset or not Unicode).
    pub fn apply_env(self, api_url: Option<String>, api_key: Option<String>) -> (r: Self)
        ensures
            r@ == with_env(self@, opt_view(api_url), opt_view(api_key)),
            api_url is Some && api_url->0@.len() > 0 ==> r@.base_url == api_url->0@,
            !(api_url is Some && api_url->0@.len() > 0) ==> r@.base_url == self@.base_url,
            api_key is Some && api_key->0@.len() > 0 ==> r@.bearer_token == Some(api_key->0@)
                && r@.header_api_key == Some(api_key->0@),
            !(api_key is Some && api_key->0@.len() > 0) ==> r@.bearer_token == self@.bearer_token
                && r@.header_api_key == self@.header_api_key,
            r@.timeout == self@.timeout,
            r@.query_api_key == self@.query_api_key,
            r@.http_client == self@.http_client,
    {
        let mut b = self;
        if let Some(url) = api_url {
            if url.as_str().unicode_len() > 0 {
                b = b.base_url(url.as_str());
            }
        }
        if let Some(key) = api_key {
            if key.as_str().unicode_len() > 0 {
                b = b.api_key(key.as_str());
            }
        }
        b
    }

    /// Apply the values of the shared config file, when there is one:
    /// non-empty values replace the builder's.
    pub fn apply_config(self, config: Option<ClientConfig>) -> (r: Self)
        ensures
            r@ == with_config(self@, config),
            config is None ==> r@ == self@,
            config is Some && config->0.api_url@.len() > 0 ==> r@.base_url == config->0.api_url@,
            !(config is Some && config->0.api_url@.len() > 0) ==> r@.base_url == self@.base_url,
            config is Some && config->0.api_key@.len() > 0 ==> r@.bearer_token == Some(
                config->0.api_key@,
            ) && r@.header_api_key == Some(config->0.api_key@),
            !(config is Some && config->0.api_key@.len() > 0) ==> r@.bearer_token
                == self@.bearer_token && r@.header_api_key == self@.header_api_key,
            r@.timeout == self@.timeout,
            r@.query_api_key == self@.query_api_key,
            r@.http_client == self@.http_client,
    {
        match config {
            Some(c) => self.apply_env(Some(c.api_url), Some(c.api_key)),
            None => self,
        }
    }

    /// Validate the base URL and the credentials: the parsed base URL's
    /// serialization and the request options, or the first error.
    pub fn prepare(&self) -> (r: Result<(String, ClientState), ClientError>)
        ensures
            prepare_outcome(self@, r),
    {
        let base_url = parse_base_url(self.base_url.as_str())?;
        let bearer_token = optional_bearer(&self.bearer_token)?;
        let header_api_key = optional_api_key_header(&self.header_api_key)?;
        let query_api_key = optional_query_key(&self.query_api_key)?;
        Ok((base_url, ClientState { bearer_token, header_api_key, query_api_key }))
    }

    /// Build the client. Where no HTTP client was given, the default one is
    /// made by `make_http_client` from the configured timeout.
    pub fn build<F: FnOnce(Timeout) -> Result<H, reqwest::Error>>(
        self,
        make_http_client: F,
    ) -> (r: Result<Client<H>, ClientError>)
        requires
            make_http_client.requires((self@.timeout,)),
        ensures
            build_outcome(self@, r),
            made_by(self@, make_http_client, r),
    {
        let (base_url, state) = self.prepare()?;
        let http_client = match self.http_client {
            Some(client) => client,
            None => match make_http_client(self.timeout) {
                Ok(client) => client,
                Err(e) => return Err(ClientError::BuildHttpClient(e)),
            },
        };
        let baseurl = request_base_url(base_url.as_str());
        Ok(Client { base_url, baseurl, http_client, inner: state })
    }
}

impl<H> Client<H> {
    /// Create a client targeting the local Nowledge Mem API.
    pub fn new<F: FnOnce(Timeout) -> Result<H, reqwest::Error>>(
        make_http_client: F,
    ) -> (r: Result<Self, ClientError>)
        requires
            make_http_client.requires((default_timeout(),)),
        ensures
            build_outcome(default_settings::<H>(), r),
            made_by(default_settings::<H>(), make_http_client, r),
    {
        Self::builder().build(make_http_client)
    }

    /// Start configuring a client.
    pub fn builder() -> (r: ClientBuilder<H>)
        ensures
            r@ == default_settings::<H>(),
    {
        ClientBuilder::default()
    }

    /// Create a client for a remote deployment; the API key is sent as both
    /// `Authorization: Bearer ...` and `X-NMEM-API-Key: ...`.
    pub fn remote<F: FnOnce(Timeout) -> Result<H, reqwest::Error>>(
        base_url: &str,
        api_key: &str,
        make_http_client: F,
    ) -> (r: Result<Self, ClientError>)
        requires
            make_http_client.requires((default_timeout(),)),
        ensures
            build_outcome(with_api_key(with_base_url(default_settings::<H>(), base_url@), api_key@), r),
            made_by(
                with_api_key(with_base_url(default_settings::<H>(), base_url@), api_key@),
                make_http_client,
                r,
            ),
    {
        Self::builder().base_url(base_url).api_key(api_key).build(make_http_client)
    }

    /// Create a client from the values of `NMEM_API_URL` and `NMEM_API_KEY`.
    pub fn from_env<F: FnOnce(Timeout) -> Result<H, reqwest::Error>>(
        api_url: Option<String>,
        api_key: Option<String>,
        make_http_client: F,
    ) -> (r: Result<Self, ClientError>)
        requires
            make_http_client.requires((default_timeout(),)),
        ensures
            build_outcome(with_env(default_settings::<H>(), opt_view(api_url), opt_view(api_key)), r),
            made_by(
                with_env(default_settings::<H>(), opt_view(api_url), opt_view(api_key)),
                make_http_client,
                r,
            ),
    {
        Self::builder().apply_env(api_url, api_key).build(make_http_client)
    }

    /// Create a client from the shared config file's values, when there is
    /// a file, with the environment values overriding them.
    pub fn from_config<F: FnOnce(Timeout) -> Result<H, reqwest::Error>>(
        config: Option<ClientConfig>,
        api_url: Option<String>,
        api_key: Option<String>,
        make_http_client: F,
    ) -> (r: Result<Self, ClientError>)
        requires
            make_http_client.requires((default_timeout(),)),
        ensures
            build_outcome(
                with_env(
                    with_config(default_settings::<H>(), config),
                    opt_view(api_url),
                    opt_view(api_key),
                ),
                r,
            ),
            made_by(
                with_env(
                    with_config(default_settings::<H>(), config),
                    opt_view(api_url),
                    opt_view(api_key),
                ),
                make_http_client,
                r,
            ),
            config is None && api_url is None && api_key is None ==> build_outcome(
                default_settings::<H>(),
                r,
            ),
    {
        proof {
            lemma_absent_settings_change_nothing(default_settings::<H>());
        }
        Self::builder().apply_config(config).apply_env(api_url, api_key).build(make_http_client)
    }

    /// Return the configured base URL.
    pub fn base_url(&self) -> (r: &str)
        ensures
            r@ == self@.base_url,
    {
        self.base_url.as_str()
    }

    /// The base URL that request paths are appended to.
    pub fn baseurl(&self) -> (r: &str)
        ensures
            r@ == self@.request_base,
    {
        self.baseurl.as_str()
    }

    /// The HTTP client that sends the requests.
    pub fn http_client(&self) -> (r: &H)
        ensures
            *r == self@.http_client,
    {
        &self.http_client
    }

    /// The request options applied to every request.
    pub fn state(&self) -> (r: &ClientState)
        ensures
            r@ == self@.auth,
    {
        &self.inner
    }
}

/// Environment values override the config file: a non-empty `NMEM_API_URL`
/// becomes the base URL and a non-empty `NMEM_API_KEY` the key of both
/// headers, whatever the file holds; where the environment leaves a value
/// out, a non-empty file value is used.
pub proof fn lemma_env_overrides_config<H>(
    b: BuilderView<H>,
    config: Option<ClientConfig>,
    api_url: Option<Seq<char>>,
    api_key: Option<Seq<char>>,
)
    ensures
        ({
            let r = with_env(with_config(b, config), api_url, api_key);
            let env_url = api_url is Some && api_url->0.len() > 0;
            let env_key = api_key is Some && api_key->0.len() > 0;
            &&& env_url ==> r.base_url == api_url->0
            &&& env_key ==> r.bearer_token == Some(api_key->0) && r.header_api_key == Some(
                api_key->0,
            )
            &&& (!env_url && config is Some && config->0.api_url@.len() > 0) ==> r.base_url
                == config->0.api_url@
            &&& (!env_key && config is Some && config->0.api_key@.len() > 0) ==> r.bearer_token
                == Some(config->0.api_key@) && r.header_api_key == Some(config->0.api_key@)
            &&& r.query_api_key == b.query_api_key
            &&& r.http_client == b.http_client
            &&& r.timeout == b.timeout
        }),
{
}

/// A client built with an API key sends it in both header forms:
/// `Authorization: Bearer <token>` and `X-NMEM-API-Key: <token>`, with the
/// same normalized token.
pub proof fn lemma_api_key_sends_both_headers<H>(b: BuilderView<H>, key: Seq<char>)
    requires
        prepared_settings(with_api_key(b, key)) is Ok,
    ensures
        ({
            let auth = prepared_settings(with_api_key(b, key))->Ok_0.1;
            &&& auth.authorization == Some(bearer_scheme() + normalized_token(key))
            &&& auth.authorization_value == Some(
                header_value(bearer_scheme() + normalized_token(key)),
            )
            &&& auth.api_key_header_value == Some(header_value(normalized_token(key)))
            &&& auth.api_key_header == Some(normalized_token(key))
        }),
{
}

/// A base URL with a query is refused, and a built client's base URL is
/// the serialization of a URL without a query.
pub proof fn lemma_base_url_has_no_query<H>(b: BuilderView<H>)
    requires
        url_parse(b.base_url) is Ok,
    ensures
        url_parse(b.base_url)->Ok_0.1 is Some ==> prepared_settings(b)
            == Err::<(Seq<char>, AuthView), BuildFailure>(BuildFailure::UrlHasQuery),
        prepared_settings(b) is Ok ==> url_parse(b.base_url) == Ok::<
            (Seq<char>, Option<Seq<char>>),
            url::ParseError,
        >((prepared_settings(b)->Ok_0.0, None)),
{
}

/// The header texts that a builder settles on are always valid HTTP header
/// values, and none of the keys it settles on is empty.
pub proof fn lemma_prepared_headers_are_valid<H>(b: BuilderView<H>)
    requires
        prepared_settings(b) is Ok,
    ensures
        ({
            let auth = prepared_settings(b)->Ok_0.1;
            &&& auth.authorization is Some ==> header_text_ok(auth.authorization->0)
            &&& auth.api_key_header is Some ==> header_text_ok(auth.api_key_header->0)
                && auth.api_key_header->0.len() > 0
            &&& auth.query_api_key is Some ==> auth.query_api_key->0.len() > 0
        }),
{
}

/// Every request of a client built with an API key carries it in both
/// header forms, `Authorization` first.
pub proof fn lemma_requests_carry_api_key<H>(b: BuilderView<H>, key: Seq<char>)
    requires
        prepared_settings(with_api_key(b, key)) is Ok,
    ensures
        auth_headers(prepared_settings(with_api_key(b, key))->Ok_0.1) == seq![
            (HEADER_AUTHORIZATION@, header_value(bearer_scheme() + normalized_token(key))),
            (HEADER_NMEM_API_KEY@, header_value(normalized_token(key))),
        ],
{
    let auth = prepared_settings(with_api_key(b, key))->Ok_0.1;
    assert(auth_headers(auth) =~= seq![
        (HEADER_AUTHORIZATION@, header_value(bearer_scheme() + normalized_token(key))),
        (HEADER_NMEM_API_KEY@, header_value(normalized_token(key))),
    ]);
}

/// Every request of a client built with a query API key has `nmem_api_key`
/// set to the normalized key in its query, whatever query it had.
pub proof fn lemma_requests_carry_query_key<H>(
    b: BuilderView<H>,
    key: Seq<char>,
    query: Option<Seq<char>>,
)
    requires
        prepared_settings(with_api_key_query(b, key)) is Ok,
    ensures
        auth_query(prepared_settings(with_api_key_query(b, key))->Ok_0.1, query) == Some(
            query_with(query, QUERY_NMEM_API_KEY@, normalized_token(key)),
        ),
{
}

/// Setting the timeout changes the timeout and nothing else: the base URL,
/// the credentials, the query key and the HTTP client stay as they were.
pub proof fn lemma_timeout_changes_only_timeout<H>(b: BuilderView<H>, timeout: Timeout)
    ensures
        with_timeout(b, timeout).timeout == timeout,
        with_timeout(b, timeout).base_url == b.base_url,
        with_timeout(b, timeout).bearer_token == b.bearer_token,
        with_timeout(b, timeout).header_api_key == b.header_api_key,
        with_timeout(b, timeout).query_api_key == b.query_api_key,
        with_timeout(b, timeout).http_client == b.http_client,
        prepared_settings(with_timeout(b, timeout)) == prepared_settings(b),
{
}

/// An absent config file and unset environment variables leave a builder
/// as it is, so a client made from neither is the default local client.
pub proof fn lemma_absent_settings_change_nothing<H>(b: BuilderView<H>)
    ensures
        with_config(b, None) == b,
        with_env(b, None, None) == b,
        with_env(b, Some(Seq::empty()), Some(Seq::empty())) == b,
{
}

/// A client without a query API key never touches the request's query,
/// whatever headers it sends.
pub proof fn lemma_no_query_key_keeps_query(auth: AuthView, query: Option<Seq<char>>)
    ensures
        auth.query_api_key is None <==> auth_query(auth, query) is None,
        auth_query(auth, query) matches Some(q) ==> q == query_with(
            query,
            QUERY_NMEM_API_KEY@,
            auth.query_api_key->0,
        ),
{
}

} // verus!
