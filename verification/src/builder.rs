//! Building a client from its configuration.

use vstd::prelude::*;
use crate::client::{Client, ClientError};
use crate::config::Config;
use crate::transport::{
    ascii_lowercase, header_name_from_str, header_value_from_str, http_setup_build,
    http_setup_default_header, http_setup_new, http_setup_proxy, initial_default_headers,
    is_header_name, is_header_value, is_header_value_byte,
};

verus! {

/// The `Authorization` header a client sends for `token`: none for an empty
/// token, else `Bearer ` followed by the token.
pub open spec fn authorization_for(token: Seq<char>) -> Option<Seq<char>> {
    if token.len() == 0 {
        None
    } else {
        Some("Bearer "@ + token)
    }
}

/// The header for `token`, if there is one, is a valid HTTP header value.
pub open spec fn authorization_is_sendable(token: Seq<char>) -> bool {
    match authorization_for(token) {
        Some(a) => is_header_value(vstd::utf8::encode_utf8(a)),
        None => true,
    }
}

/// The name of the header that carries the token.
pub open spec fn authorization_header_name() -> Seq<char> {
    "authorization"@
}

/// The headers a client for `token` sends with every request: those the
/// HTTP client starts with (`accept: */*`) and, for a non-empty token, the
/// `authorization` header with the UTF-8 bytes of `authorization_for(token)`.
pub open spec fn default_headers_for(token: Seq<char>) -> Map<Seq<char>, Seq<u8>> {
    match authorization_for(token) {
        Some(a) => initial_default_headers().insert(
            authorization_header_name(),
            vstd::utf8::encode_utf8(a),
        ),
        None => initial_default_headers(),
    }
}

/// What a client sends for its token: every client sends `accept: */*`;
/// a client with a non-empty token also sends `authorization` with the bytes
/// of `Bearer ` followed by the token, and one with an empty token sends no
/// `authorization` header at all.
pub proof fn lemma_default_headers_of_token(token: Seq<char>)
    ensures
        default_headers_for(token).contains_key("accept"@),
        default_headers_for(token)["accept"@] == seq![42u8, 47u8, 42u8],
        default_headers_for(token).contains_key(authorization_header_name()) <==> token.len() > 0,
        token.len() > 0 ==> default_headers_for(token)[authorization_header_name()]
            == vstd::utf8::encode_utf8("Bearer "@ + token),
        default_headers_for(token).dom().len() == if token.len() > 0 {
            2nat
        } else {
            1nat
        },
{
    reveal_strlit("accept");
    reveal_strlit("authorization");
    assert("accept"@.len() != authorization_header_name().len());
    assert(initial_default_headers().dom() =~= set!["accept"@]);
    if token.len() > 0 {
        assert(default_headers_for(token).dom() =~= set!["accept"@, authorization_header_name()]);
    }
}

/// A visible ASCII character or a space.
pub open spec fn is_visible_ascii(c: char) -> bool {
    ' ' <= c <= '~'
}

/// A client sends an `Authorization` header exactly when its token is not
/// empty; the header is `Bearer ` followed by the token, so the token can be
/// read back from it.
pub proof fn lemma_authorization_carries_token(token: Seq<char>)
    ensures
        authorization_for(token) is Some <==> token.len() > 0,
        authorization_for(token) matches Some(a) ==> a.len() == token.len() + 7 && a.subrange(
            7,
            a.len() as int,
        ) == token,
{
    reveal_strlit("Bearer ");
    if token.len() > 0 {
        let a = "Bearer "@ + token;
        assert(a.subrange(7, a.len() as int) =~= token);
    }
}

/// A token made of visible ASCII characters (such as the UUIDs that Consul
/// issues) can always be sent, so a client can be built for it.
pub proof fn lemma_visible_ascii_token_is_sendable(token: Seq<char>)
    requires
        forall|i: int| 0 <= i < token.len() ==> is_visible_ascii(#[trigger] token[i]),
    ensures
        authorization_is_sendable(token),
{
    reveal_strlit("Bearer ");
    if token.len() > 0 {
        let a = "Bearer "@ + token;
        assert forall|i: int| 0 <= i < a.len() implies is_visible_ascii(#[trigger] a[i]) by {
            if i >= 7 {
                assert(a[i] == token[i - 7]);
            }
        }
        assert(vstd::utf8::is_ascii_chars(a));
        vstd::utf8::is_ascii_chars_encode_utf8(a);
        let bytes = vstd::utf8::encode_utf8(a);
        assert forall|i: int| 0 <= i < bytes.len() implies is_header_value_byte(#[trigger] bytes[i]) by {
            assert(is_visible_ascii(a[i]));
            assert(a[i] as u8 == bytes[i]);
        }
    }
}

/// Collects the configuration and proxies of a client before it is built.
pub struct ClientBuilder {
    cfg: Config,
    proxies: Vec<reqwest::Proxy>,
}

/// What a builder holds: the configuration and the proxies, in the order in
/// which they were added.
pub struct ClientBuilderView {
    pub token: Seq<char>,
    pub address: Seq<char>,
    pub proxies: Seq<reqwest::Proxy>,
}

impl View for ClientBuilder {
    type V = ClientBuilderView;

    closed spec fn view(&self) -> ClientBuilderView {
        ClientBuilderView {
            token: self.cfg.token@,
            address: self.cfg.address@,
            proxies: self.proxies@,
        }
    }
}

impl ClientBuilder {
    /// A builder for `cfg`, with no proxies.
    pub fn new(cfg: Config) -> (r: ClientBuilder)
        ensures
            r@.token == cfg.token@,
            r@.address == cfg.address@,
            r@.proxies == Seq::<reqwest::Proxy>::empty(),
    {
        ClientBuilder { cfg, proxies: Vec::new() }
    }

    /// Adds a proxy after those already added.
    pub fn with_proxy(self, proxy: reqwest::Proxy) -> (r: ClientBuilder)
        ensures
            r@.token == self@.token,
            r@.address == self@.address,
            r@.proxies == self@.proxies.push(proxy),
    {
        let mut b = self;
        b.proxies.push(proxy);
        b
    }

    /// The `Authorization` header value this builder's client will send.
    pub fn authorization(&self) -> (r: Option<String>)
        ensures
            r.deep_view() == authorization_for(self@.token),
    {
        if self.cfg.token.as_str().is_empty() {
            None
        } else {
            let mut a = String::from_str("Bearer ");
            a.append(self.cfg.token.as_str());
            Some(a)
        }
    }

    /// Whether the `Authorization` header, if any, is a valid header value;
    /// `build` requires it.
    pub fn has_sendable_authorization(&self) -> (r: bool)
        ensures
            r == authorization_is_sendable(self@.token),
    {
        match self.authorization() {
            Some(a) => header_value_from_str(a.as_str()).is_ok(),
            None => true,
        }
    }

    /// Builds the client. Its HTTP client sends the headers of
    /// `default_headers_for` with every request (so `authorization:
    /// Bearer <token>` for a non-empty token, and no such header for an empty
    /// one) and uses the proxies in the order in which they were added; with
    /// no proxy added it uses the system's proxy settings. The client keeps
    /// the configuration. Building always succeeds on the inputs it accepts.
    pub fn build(self) -> (r: Result<Client, ClientError>)
        requires
            authorization_is_sendable(self@.token),
        ensures
            r is Ok,
            r matches Ok(c) ==> {
                &&& c@.token == self@.token
                &&& c@.address == self@.address
                &&& c.default_headers() == default_headers_for(self@.token)
                &&& c.proxies() == self@.proxies
                &&& c.uses_system_proxy() == (self@.proxies.len() == 0)
            },
    {
        let auth = self.authorization();
        let ghost token = self@.token;
        let ghost added = self@.proxies;
        let ClientBuilder { cfg, proxies } = self;
        let mut setup = http_setup_new();
        match auth {
            Some(a) => {
                proof {
                    reveal_strlit("authorization");
                    assert(is_header_name("authorization"@));
                    assert(ascii_lowercase("authorization"@) =~= "authorization"@);
                }
                let key = match header_name_from_str("authorization") {
                    Ok(k) => k,
                    Err(_) => {
                        proof {
                            assert(false);
                        }
                        return Client::assemble(cfg, http_setup_build(setup));
                    },
                };
                let value = match header_value_from_str(a.as_str()) {
                    Ok(v) => v,
                    Err(_) => {
                        proof {
                            assert(false);
                        }
                        return Client::assemble(cfg, http_setup_build(setup));
                    },
                };
                setup = http_setup_default_header(setup, key, value);
            },
            None => {},
        }
        assert(setup.default_headers() == default_headers_for(token));
        assert(added.take(0) =~= Seq::<reqwest::Proxy>::empty());
        for p in it: proxies
            invariant
                it.seq() == added,
                setup.default_headers() == default_headers_for(token),
                setup.proxies() == added.take(it.index() as int),
                setup.uses_system_proxy() == (it.index() == 0),
                !setup.has_stored_error(),
        {
            assert(added.take(it.index() as int).push(p) =~= added.take(it.index() + 1));
            setup = http_setup_proxy(setup, p);
        }
        assert(added.take(added.len() as int) =~= added);
        let built = http_setup_build(setup);
        Client::assemble(cfg, built)
    }
}

impl Client {
    /// A client for `cfg` with no proxies: see `ClientBuilder::build`.
    pub fn new(cfg: Config) -> (c: Client)
        requires
            authorization_is_sendable(cfg.token@),
        ensures
            c@.token == cfg.token@,
            c@.address == cfg.address@,
            c.default_headers() == default_headers_for(cfg.token@),
            c.proxies() == Seq::<reqwest::Proxy>::empty(),
            c.uses_system_proxy(),
    {
        match ClientBuilder::new(cfg).build() {
            Ok(c) => c,
            Err(_) => vstd::pervasive::unreached(),
        }
    }
}

} // verus!
