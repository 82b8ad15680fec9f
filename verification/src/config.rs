use vstd::prelude::*;

verus! {

/// The address used when none is configured: a local agent on Consul's
/// default HTTP port.
pub open spec fn default_address() -> Seq<char> {
    "http://127.0.0.1:8500"@
}

/// What a looked-up setting gives: the value when there is one, else the default.
pub open spec fn setting_or_default(found: Option<Seq<char>>, default: Seq<char>) -> Seq<char> {
    match found {
        Some(v) => v,
        None => default,
    }
}

/// The connection settings of a client: the ACL token sent with every
/// request (empty for none) and the base address of the agent.
pub struct Config {
    pub token: String,
    pub address: String,
}

/// Returns the value of a setting that was looked up, or `default` when the
/// setting was not there.
pub fn read_env_or_default(found: Option<String>, default: &str) -> (r: String)
    ensures
        r@ == setting_or_default(found.deep_view(), default@),
{
    match found {
        Some(v) => v,
        None => default.to_owned(),
    }
}

impl Config {
    /// Builds the configuration from the settings found in the environment:
    /// `token` and `address` are what the lookups of the token and the
    /// address gave (`None` where the variable is not set). A missing token
    /// means no token; a missing address means a local agent.
    pub fn from_env(token: Option<String>, address: Option<String>) -> (r: Config)
        ensures
            r.token@ == setting_or_default(token.deep_view(), Seq::<char>::empty()),
            r.address@ == setting_or_default(address.deep_view(), default_address()),
    {
        let t = read_env_or_default(token, "");
        let a = read_env_or_default(address, "http://127.0.0.1:8500");
        proof {
            reveal_strlit("");
        }
        Config { token: t, address: a }
    }
}

} // verus!
