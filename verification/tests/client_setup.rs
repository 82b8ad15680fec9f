use consul_api::{read_env_or_default, Client, ClientBuilder, Config};

fn local_config(token: &str) -> Config {
    Config { token: token.to_string(), address: "http://127.0.0.1:8500".to_string() }
}

#[test]
fn create_client() {
    let _ = Client::new(Config::from_env(None, None));
}

#[test]
fn from_env_uses_defaults_when_nothing_is_set() {
    let cfg = Config::from_env(None, None);
    assert_eq!(cfg.token, "");
    assert_eq!(cfg.address, "http://127.0.0.1:8500");
}

#[test]
fn from_env_uses_the_values_found() {
    let cfg = Config::from_env(Some("secret".to_string()), Some("http://consul:8500".to_string()));
    assert_eq!(cfg.token, "secret");
    assert_eq!(cfg.address, "http://consul:8500");
}

#[test]
fn from_env_keeps_an_empty_value_that_is_set() {
    let cfg = Config::from_env(Some(String::new()), Some(String::new()));
    assert_eq!(cfg.token, "");
    assert_eq!(cfg.address, "");
}

#[test]
fn read_env_or_default_prefers_the_found_value() {
    assert_eq!(read_env_or_default(Some("x".to_string()), "d"), "x");
    assert_eq!(read_env_or_default(None, "d"), "d");
}

#[test]
fn no_authorization_for_an_empty_token() {
    let b = ClientBuilder::new(local_config(""));
    assert_eq!(b.authorization(), None);
    assert!(b.has_sendable_authorization());
}

#[test]
fn bearer_authorization_for_a_token() {
    let b = ClientBuilder::new(local_config("b1gs33cr3t"));
    assert_eq!(b.authorization(), Some("Bearer b1gs33cr3t".to_string()));
    assert!(b.has_sendable_authorization());
}

#[test]
fn a_token_with_a_control_character_cannot_be_sent() {
    assert!(!ClientBuilder::new(local_config("abc\ndef")).has_sendable_authorization());
    assert!(!ClientBuilder::new(local_config("abc\u{7f}")).has_sendable_authorization());
}

#[test]
fn a_token_with_tab_or_non_ascii_can_be_sent() {
    assert!(ClientBuilder::new(local_config("abc\tdef")).has_sendable_authorization());
    assert!(ClientBuilder::new(local_config("jeton-é")).has_sendable_authorization());
}

#[test]
fn build_keeps_the_configuration() {
    let client = ClientBuilder::new(local_config("t0ken")).build().ok().expect("client");
    assert_eq!(client.config().token, "t0ken");
    assert_eq!(client.config().address, "http://127.0.0.1:8500");
}

#[test]
fn build_with_proxies() {
    let p1 = reqwest::Proxy::http("http://127.0.0.1:3128").unwrap();
    let p2 = reqwest::Proxy::all("http://127.0.0.1:3129").unwrap();
    let client = ClientBuilder::new(local_config("")).with_proxy(p1).with_proxy(p2).build();
    assert!(client.is_ok());
}

#[test]
fn client_new_keeps_the_configuration() {
    let c = Client::new(local_config("abc"));
    assert_eq!(c.config().token, "abc");
    assert_eq!(c.config().address, "http://127.0.0.1:8500");
}

#[test]
fn build_always_succeeds_on_a_sendable_token() {
    for token in ["", "abc", "b1gs33cr3t", "jeton-é", "a\tb"] {
        let b = ClientBuilder::new(local_config(token));
        assert!(b.has_sendable_authorization());
        assert!(b.build().is_ok());
    }
}

#[test]
fn a_built_client_prepares_requests_below_its_address() {
    let c = ClientBuilder::new(local_config("abc")).build().ok().expect("client");
    let r = c.prepare_request(consul_api::HttpMethod::Get, "/status/peers", vec![], None);
    assert_eq!(r.url, "http://127.0.0.1:8500/v1/status/peers");
}
