//! The client, and the requests it prepares.

use vstd::prelude::*;
use crate::config::Config;
use crate::query::QueryParam;
use crate::transport::HttpClient;

verus! {

/// The path prefix of version 1 of the Consul HTTP API.
pub open spec fn api_prefix() -> Seq<char> {
    "/v1"@
}

/// The Consul API client: its configuration and the HTTP client built from it.
pub struct Client {
    pub(crate) cfg: Config,
    pub(crate) http: HttpClient,
    pub(crate) prefix: String,
}

/// What a client stands for: the token it sends and the agent it talks to.
pub struct ClientView {
    pub token: Seq<char>,
    pub address: Seq<char>,
}

impl ClientView {
    /// Where every path of the API is appended: the agent's address followed
    /// by the API prefix.
    pub open spec fn base_url(self) -> Seq<char> {
        self.address + api_prefix()
    }
}

impl View for Client {
    type V = ClientView;

    closed spec fn view(&self) -> ClientView {
        ClientView { token: self.cfg.token@, address: self.cfg.address@ }
    }
}

/// Why a client could not be built.
#[derive(Debug)]
pub enum ClientError {
    /// The HTTP client library could not set up its client.
    Http(reqwest::Error),
}

/// The request methods the API uses.
#[derive(Clone, Copy, Debug, PartialEq, Eq, Structural)]
pub enum HttpMethod {
    Get,
    Put,
    Post,
    Delete,
}

/// The body a request carries: none, the bytes given by the caller, or the
/// JSON encoding of the value given by the caller (sent with the
/// `application/json` content type).
#[derive(Debug, PartialEq, Eq)]
pub enum RequestBody {
    Empty,
    Raw(Vec<u8>),
    Json,
}

/// The model of a request body.
pub enum BodyView {
    Empty,
    Raw(Seq<u8>),
    Json,
}

impl View for RequestBody {
    type V = BodyView;

    open spec fn view(&self) -> BodyView {
        match self {
            RequestBody::Empty => BodyView::Empty,
            RequestBody::Raw(b) => BodyView::Raw(b@),
            RequestBody::Json => BodyView::Json,
        }
    }
}

/// A request ready to be sent: the method, the full URL without the query
/// string, the query parameters in order (each name and text, to be
/// URL-encoded into the query string), and the body.
#[derive(Debug, PartialEq, Eq)]
pub struct PreparedRequest {
    pub method: HttpMethod,
    pub url: String,
    pub query: Vec<QueryParam>,
    pub body: RequestBody,
}

/// Only `PUT` and `POST` requests carry a body.
pub open spec fn carries_body(method: HttpMethod) -> bool {
    method == HttpMethod::Put || method == HttpMethod::Post
}

/// The body of a request with `method`, given the raw bytes the call may
/// have: a `PUT` or `POST` sends the raw bytes when there are any and the JSON
/// value otherwise; every other method sends nothing.
pub open spec fn body_for(method: HttpMethod, raw: Option<Seq<u8>>) -> BodyView {
    if carries_body(method) {
        match raw {
            Some(b) => BodyView::Raw(b),
            None => BodyView::Json,
        }
    } else {
        BodyView::Empty
    }
}

/// The model of an optional byte buffer.
pub open spec fn bytes_view(raw: Option<Vec<u8>>) -> Option<Seq<u8>> {
    match raw {
        Some(b) => Some(b@),
        None => None,
    }
}

/// Only `PUT` and `POST` requests carry a body, and one that is given raw
/// bytes sends exactly those bytes.
pub proof fn lemma_body_rules(method: HttpMethod, raw: Option<Seq<u8>>)
    ensures
        (body_for(method, raw) == BodyView::Empty) <==> !carries_body(method),
        carries_body(method) && raw is Some ==> body_for(method, raw) == BodyView::Raw(raw->0),
        carries_body(method) && raw is None ==> body_for(method, raw) == BodyView::Json,
{
}

/// Chooses the body of a request with `method`: see `body_for`.
pub fn request_body(method: HttpMethod, raw_body: Option<Vec<u8>>) -> (r: RequestBody)
    ensures
        r@ == body_for(method, bytes_view(raw_body)),
{
    match method {
        HttpMethod::Put | HttpMethod::Post => match raw_body {
            Some(b) => RequestBody::Raw(b),
            None => RequestBody::Json,
        },
        _ => RequestBody::Empty,
    }
}

impl Client {
    #[verifier::type_invariant]
    closed spec fn prefix_is_api_v1(self) -> bool {
        self.prefix@ == api_prefix()
    }

    /// The HTTP client that sends this client's requests.
    pub closed spec fn http_client(&self) -> reqwest::Client {
        self.http.client()
    }

    /// The headers sent with every request, by lower-case name.
    pub closed spec fn default_headers(&self) -> Map<Seq<char>, Seq<u8>> {
        self.http.default_headers()
    }

    /// The proxies requests go through, in the order they were given.
    pub closed spec fn proxies(&self) -> Seq<reqwest::Proxy> {
        self.http.proxies()
    }

    /// Whether requests also go through the proxies of the system settings.
    pub closed spec fn uses_system_proxy(&self) -> bool {
        self.http.uses_system_proxy()
    }

    /// Makes the client from its configuration and the outcome of setting up
    /// the HTTP client: the client on success, with the API prefix; the HTTP
    /// library's error otherwise.
    pub fn assemble(cfg: Config, http: Result<HttpClient, reqwest::Error>) -> (r: Result<
        Client,
        ClientError,
    >)
        ensures
            http is Ok <==> r is Ok,
            r matches Ok(c) ==> {
                &&& c@.token == cfg.token@
                &&& c@.address == cfg.address@
                &&& c.http_client() == http->Ok_0.client()
                &&& c.default_headers() == http->Ok_0.default_headers()
                &&& c.proxies() == http->Ok_0.proxies()
                &&& c.uses_system_proxy() == http->Ok_0.uses_system_proxy()
            },
            r matches Err(ClientError::Http(e)) ==> http == Err::<HttpClient, reqwest::Error>(e),
    {
        match http {
            Ok(h) => Ok(Client { cfg, http: h, prefix: String::from_str("/v1") }),
            Err(e) => Err(ClientError::Http(e)),
        }
    }

    /// The configuration this client was built with.
    pub fn config(&self) -> (r: &Config)
        ensures
            r.token@ == self@.token,
            r.address@ == self@.address,
    {
        &self.cfg
    }

    /// The HTTP client that sends this client's requests.
    pub fn http(&self) -> (r: &reqwest::Client)
        ensures
            *r == self.http_client(),
    {
        self.http.reqwest_client()
    }

    /// Prepares a request to the API: the URL is the agent's address, the
    /// API prefix and `path`, in that order; the query parameters are
    /// `query`; the body is chosen by `request_body`.
    pub fn prepare_request(
        &self,
        method: HttpMethod,
        path: &str,
        query: Vec<QueryParam>,
        raw_body: Option<Vec<u8>>,
    ) -> (r: PreparedRequest)
        ensures
            r.method == method,
            r.url@ == self@.base_url() + path@,
            r.query == query,
            r.body@ == body_for(method, bytes_view(raw_body)),
    {
        proof {
            use_type_invariant(self);
        }
        let mut url = self.cfg.address.clone();
        url.append(self.prefix.as_str());
        url.append(path);
        PreparedRequest { method, url, query, body: request_body(method, raw_body) }
    }
}

} // verus!
