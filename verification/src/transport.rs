//! The HTTP client library underneath: its types as Verus sees them, and the
//! few calls into it that building a client makes.

use vstd::prelude::*;
use reqwest::Client as ReqwestClient;
use reqwest::ClientBuilder as ReqwestClientBuilder;

verus! {

#[verifier::external_type_specification]
#[verifier::external_body]
pub struct ExReqwestClient(ReqwestClient);

#[verifier::external_type_specification]
#[verifier::external_body]
pub struct ExReqwestClientBuilder(ReqwestClientBuilder);

#[verifier::external_type_specification]
#[verifier::external_body]
pub struct ExProxy(reqwest::Proxy);

#[verifier::external_type_specification]
#[verifier::external_body]
pub struct ExHttpError(reqwest::Error);

#[verifier::external_type_specification]
#[verifier::external_body]
pub struct ExHeaderValue(reqwest::header::HeaderValue);

#[verifier::external_type_specification]
#[verifier::external_body]
pub struct ExInvalidHeaderValue(reqwest::header::InvalidHeaderValue);

#[verifier::external_type_specification]
#[verifier::external_body]
pub struct ExHeaderName(reqwest::header::HeaderName);

#[verifier::external_type_specification]
#[verifier::external_body]
pub struct ExInvalidHeaderName(reqwest::header::InvalidHeaderName);

/// A byte that may appear in an HTTP header value: a visible character, a
/// space, a tab, or any byte of 128 and above; not a control byte and not DEL.
pub open spec fn is_header_value_byte(b: u8) -> bool {
    (b >= 32 && b != 127) || b == 9
}

/// Every byte of `bytes` may appear in an HTTP header value.
pub open spec fn is_header_value(bytes: Seq<u8>) -> bool {
    forall|i: int| 0 <= i < bytes.len() ==> is_header_value_byte(#[trigger] bytes[i])
}

/// A character that may appear in an HTTP header name (an RFC 7230 token
/// character): a letter, a digit, or one of ``!#$%&'*+-.^_`|~``.
pub open spec fn is_header_name_char(c: char) -> bool {
    ||| 'a' <= c <= 'z'
    ||| 'A' <= c <= 'Z'
    ||| '0' <= c <= '9'
    ||| c == '!' || c == '#' || c == '$' || c == '%' || c == '&' || c == '\''
    ||| c == '*' || c == '+' || c == '-' || c == '.' || c == '^' || c == '_'
    ||| c == '`' || c == '|' || c == '~'
}

/// The longest header name the HTTP types accept.
pub open spec fn max_header_name_len() -> nat {
    65535
}

/// A valid HTTP header name: not empty, not too long, only token characters.
pub open spec fn is_header_name(s: Seq<char>) -> bool {
    &&& 1 <= s.len() <= max_header_name_len()
    &&& forall|i: int| 0 <= i < s.len() ==> is_header_name_char(#[trigger] s[i])
}

/// `c` with an upper-case ASCII letter turned into lower case.
pub open spec fn ascii_lower(c: char) -> char {
    if 'A' <= c <= 'Z' {
        ((c as u32) + 32) as char
    } else {
        c
    }
}

/// `s` with every upper-case ASCII letter turned into lower case.
pub open spec fn ascii_lowercase(s: Seq<char>) -> Seq<char> {
    Seq::new(s.len(), |i: int| ascii_lower(s[i]))
}

/// The headers a `reqwest` client builder starts with: `accept: */*`.
pub open spec fn initial_default_headers() -> Map<Seq<char>, Seq<u8>> {
    Map::<Seq<char>, Seq<u8>>::empty().insert("accept"@, seq![42u8, 47u8, 42u8])
}

/// An HTTP header name, with the text it stands for (always lower case).
pub struct HeaderKey {
    pub(crate) name: reqwest::header::HeaderName,
    pub(crate) text: Ghost<Seq<char>>,
}

impl HeaderKey {
    /// The name, in lower case.
    pub closed spec fn text(&self) -> Seq<char> {
        self.text@
    }
}

/// An HTTP header value, with the bytes it holds.
pub struct HeaderText {
    pub(crate) value: reqwest::header::HeaderValue,
    pub(crate) bytes: Ghost<Seq<u8>>,
}

impl HeaderText {
    /// The bytes of the value.
    pub closed spec fn bytes(&self) -> Seq<u8> {
        self.bytes@
    }
}

/// The setup of an HTTP client being built: the `reqwest` builder, and what
/// it has been configured with so far: the headers it sends with every
/// request (by lower-case name), the proxies it was given in order, whether
/// it still falls back to the system's proxy settings, and whether a
/// builder call has stored an error that building will report.
pub struct HttpSetup {
    pub(crate) builder: reqwest::ClientBuilder,
    pub(crate) headers: Ghost<Map<Seq<char>, Seq<u8>>>,
    pub(crate) proxies: Ghost<Seq<reqwest::Proxy>>,
    pub(crate) system_proxy: Ghost<bool>,
    pub(crate) stored_error: Ghost<bool>,
}

impl HttpSetup {
    /// The headers the client will send with every request.
    pub closed spec fn default_headers(&self) -> Map<Seq<char>, Seq<u8>> {
        self.headers@
    }

    /// The proxies the client will use, in the order they were given.
    pub closed spec fn proxies(&self) -> Seq<reqwest::Proxy> {
        self.proxies@
    }

    /// Whether the client will use the proxies of the system settings.
    pub closed spec fn uses_system_proxy(&self) -> bool {
        self.system_proxy@
    }

    /// Whether a builder call has stored an error.
    pub closed spec fn has_stored_error(&self) -> bool {
        self.stored_error@
    }
}

/// A built HTTP client, with the headers it sends with every request, the
/// proxies it uses and whether it uses the system's proxy settings.
pub struct HttpClient {
    pub(crate) client: reqwest::Client,
    pub(crate) headers: Ghost<Map<Seq<char>, Seq<u8>>>,
    pub(crate) proxies: Ghost<Seq<reqwest::Proxy>>,
    pub(crate) system_proxy: Ghost<bool>,
}

impl HttpClient {
    /// The `reqwest` client.
    pub closed spec fn client(&self) -> reqwest::Client {
        self.client
    }

    /// The headers the client sends with every request.
    pub closed spec fn default_headers(&self) -> Map<Seq<char>, Seq<u8>> {
        self.headers@
    }

    /// The proxies the client uses, in the order they were given.
    pub closed spec fn proxies(&self) -> Seq<reqwest::Proxy> {
        self.proxies@
    }

    /// Whether the client uses the proxies of the system settings.
    pub closed spec fn uses_system_proxy(&self) -> bool {
        self.system_proxy@
    }

    /// The `reqwest` client.
    pub fn reqwest_client(&self) -> (r: &reqwest::Client)
        ensures
            *r == self.client(),
    {
        &self.client
    }
}

/// Calls `HeaderName::from_bytes` on the bytes of `s`. Its source maps every
/// byte through a table that keeps token characters (turning upper-case
/// letters into lower case) and rejects every other byte, and rejects an
/// empty name and one longer than 65535 bytes. So it succeeds exactly on a
/// valid header name, and the name is `s` in lower case. (A character beyond
/// ASCII is encoded in bytes of 128 and above, which the table rejects.)
#[verifier::external_body]
pub(crate) fn header_name_from_str(s: &str) -> (r: Result<
    HeaderKey,
    reqwest::header::InvalidHeaderName,
>)
    ensures
        r is Ok <==> is_header_name(s@),
        r matches Ok(k) ==> k.text() == ascii_lowercase(s@),
{
    match reqwest::header::HeaderName::from_bytes(s.as_bytes()) {
        Ok(name) => Ok(HeaderKey { name, text: Ghost(ascii_lowercase(s@)) }),
        Err(e) => Err(e),
    }
}

/// Calls `HeaderValue::from_str`. Its source checks every byte of the UTF-8
/// encoding of the string and fails exactly when one of them is a control
/// byte other than tab, or DEL; otherwise the value holds those bytes.
#[verifier::external_body]
pub(crate) fn header_value_from_str(s: &str) -> (r: Result<
    HeaderText,
    reqwest::header::InvalidHeaderValue,
>)
    ensures
        r is Ok <==> is_header_value(vstd::utf8::encode_utf8(s@)),
        r matches Ok(t) ==> t.bytes() == vstd::utf8::encode_utf8(s@),
{
    match reqwest::header::HeaderValue::from_str(s) {
        Ok(value) => Ok(HeaderText { value, bytes: Ghost(vstd::utf8::encode_utf8(s@)) }),
        Err(e) => Err(e),
    }
}

/// Calls `reqwest::ClientBuilder::new`. Its source starts the builder with
/// the one default header `accept: */*`, no proxies, the use of the
/// system's proxy settings switched on, and no stored error.
#[verifier::external_body]
pub(crate) fn http_setup_new() -> (r: HttpSetup)
    ensures
        r.default_headers() == initial_default_headers(),
        r.proxies() == Seq::<reqwest::Proxy>::empty(),
        r.uses_system_proxy(),
        !r.has_stored_error(),
{
    HttpSetup {
        builder: ReqwestClientBuilder::new(),
        headers: Ghost(initial_default_headers()),
        proxies: Ghost(Seq::empty()),
        system_proxy: Ghost(true),
        stored_error: Ghost(false),
    }
}

/// Calls `reqwest::ClientBuilder::default_headers` with a header map that
/// holds the one entry `key: value`. Its source inserts each entry of the
/// map into the builder's default headers, replacing any earlier value of
/// the same name; the proxies are left as they were, and it stores no error.
#[verifier::external_body]
pub(crate) fn http_setup_default_header(setup: HttpSetup, key: HeaderKey, value: HeaderText) -> (r:
    HttpSetup)
    ensures
        r.default_headers() == setup.default_headers().insert(key.text(), value.bytes()),
        r.proxies() == setup.proxies(),
        r.uses_system_proxy() == setup.uses_system_proxy(),
        r.has_stored_error() == setup.has_stored_error(),
{
    let model = Ghost(setup.headers@.insert(key.text@, value.bytes@));
    let mut headers = reqwest::header::HeaderMap::new();
    headers.insert(key.name, value.value);
    HttpSetup {
        builder: setup.builder.default_headers(headers),
        headers: model,
        proxies: setup.proxies,
        system_proxy: setup.system_proxy,
        stored_error: setup.stored_error,
    }
}

/// Calls `reqwest::ClientBuilder::proxy`. Its source adds the proxy after
/// those already given and switches off the use of the system's proxy
/// settings; the default headers are left as they were, and it stores no
/// error.
#[verifier::external_body]
pub(crate) fn http_setup_proxy(setup: HttpSetup, proxy: reqwest::Proxy) -> (r: HttpSetup)
    ensures
        r.default_headers() == setup.default_headers(),
        r.proxies() == setup.proxies().push(proxy),
        !r.uses_system_proxy(),
        r.has_stored_error() == setup.has_stored_error(),
{
    HttpSetup {
        headers: setup.headers,
        proxies: Ghost(setup.proxies@.push(proxy)),
        system_proxy: Ghost(false),
        stored_error: setup.stored_error,
        builder: setup.builder.proxy(proxy),
    }
}

/// Calls `reqwest::ClientBuilder::build`. With the features this crate
/// enables (no TLS backend, no HTTP/3, no alternative resolver), its source
/// fails only by reporting an error that an earlier builder call stored;
/// every other failing path needs one of those features. A client it builds
/// keeps the builder's default headers and proxies.
#[verifier::external_body]
pub(crate) fn http_setup_build(setup: HttpSetup) -> (r: Result<HttpClient, reqwest::Error>)
    ensures
        r is Ok <==> !setup.has_stored_error(),
        r matches Ok(c) ==> c.default_headers() == setup.default_headers() && c.proxies()
            == setup.proxies() && c.uses_system_proxy() == setup.uses_system_proxy(),
{
    match setup.builder.build() {
        Ok(client) => Ok(HttpClient {
            client,
            headers: setup.headers,
            proxies: setup.proxies,
            system_proxy: setup.system_proxy,
        }),
        Err(e) => Err(e),
    }
}

} // verus!
