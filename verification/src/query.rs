//! The query parameters and bodies of the API's calls.
//!
//! Each `Option` field is sent as a query parameter when it is `Some` and
//! left out when it is `None`; the parameters come in the order of the
//! fields. Identifiers that name the object of a call (`check_id`,
//! `service_id`) go into the path, not into the query. A flag is sent as
//! `true` or `false`, a number in decimal.

use std::collections::HashMap;
use vstd::prelude::*;

verus! {

/// A query parameter: its name and its text.
pub type QueryParam = (String, String);

/// The decimal digit of `d` (for `d` below 10).
pub open spec fn digit_char(d: nat) -> char {
    if d == 0 { '0' } else if d == 1 { '1' } else if d == 2 { '2' } else if d == 3 { '3' }
    else if d == 4 { '4' } else if d == 5 { '5' } else if d == 6 { '6' } else if d == 7 { '7' }
    else if d == 8 { '8' } else { '9' }
}

/// The decimal text of `n`, without leading zeros.
pub open spec fn decimal_text(n: nat) -> Seq<char>
    decreases n,
{
    if n < 10 {
        seq![digit_char(n)]
    } else {
        decimal_text(n / 10).push(digit_char(n % 10))
    }
}

/// A decimal digit character.
pub open spec fn is_digit(c: char) -> bool {
    '0' <= c <= '9'
}

/// The number a decimal text stands for.
pub open spec fn decimal_value(s: Seq<char>) -> int
    decreases s.len(),
{
    if s.len() == 0 {
        0
    } else {
        decimal_value(s.drop_last()) * 10 + ((s.last() as int) - ('0' as int))
    }
}

/// The decimal text of a number is made of digits, reads back as the number,
/// and has no leading zero.
pub proof fn lemma_decimal_text(n: nat)
    ensures
        decimal_text(n).len() >= 1,
        forall|i: int| 0 <= i < decimal_text(n).len() ==> is_digit(#[trigger] decimal_text(n)[i]),
        decimal_value(decimal_text(n)) == n,
        n > 0 ==> decimal_text(n)[0] != '0',
    decreases n,
{
    let d = n % 10;
    assert((digit_char(d) as int) - ('0' as int) == d);
    if n < 10 {
        assert(decimal_text(n).drop_last() =~= Seq::<char>::empty());
        assert(decimal_value(Seq::<char>::empty()) == 0);
        assert(decimal_value(decimal_text(n)) == n);
    } else {
        lemma_decimal_text(n / 10);
        let s = decimal_text(n);
        let prefix = decimal_text(n / 10);
        assert(s == prefix.push(digit_char(n % 10)));
        assert(s.drop_last() =~= prefix);
        assert(decimal_value(s) == decimal_value(prefix) * 10 + d);
        assert(n == (n / 10) * 10 + d);
        assert(s[0] == prefix[0]);
        assert forall|i: int| 0 <= i < s.len() implies is_digit(#[trigger] s[i]) by {
            if i < prefix.len() {
                assert(s[i] == prefix[i]);
            }
        }
    }
}

/// The text of a flag.
pub open spec fn bool_text(b: bool) -> Seq<char> {
    if b {
        "true"@
    } else {
        "false"@
    }
}

/// A flag is sent as the word `true` or the word `false`.
pub proof fn lemma_bool_text()
    ensures
        bool_text(true) =~= seq!['t', 'r', 'u', 'e'],
        bool_text(false) =~= seq!['f', 'a', 'l', 's', 'e'],
{
    reveal_strlit("true");
    reveal_strlit("false");
}

/// The parameter `name` with the text `value`, or none when there is no value.
pub open spec fn text_param(name: Seq<char>, value: Option<Seq<char>>) -> Seq<(Seq<char>, Seq<char>)> {
    match value {
        Some(v) => seq![(name, v)],
        None => Seq::empty(),
    }
}

/// The parameter `name` with the flag `value`, or none when there is no value.
pub open spec fn flag_param(name: Seq<char>, value: Option<bool>) -> Seq<(Seq<char>, Seq<char>)> {
    match value {
        Some(b) => seq![(name, bool_text(b))],
        None => Seq::empty(),
    }
}

/// The parameter `name` with the number `value`, or none when there is no value.
pub open spec fn number_param(name: Seq<char>, value: Option<u64>) -> Seq<(Seq<char>, Seq<char>)> {
    match value {
        Some(n) => seq![(name, decimal_text(n as nat))],
        None => Seq::empty(),
    }
}

/// The text a flag parameter takes, if any.
pub open spec fn flag_value(value: Option<bool>) -> Option<Seq<char>> {
    match value {
        Some(b) => Some(bool_text(b)),
        None => None,
    }
}

/// The text a number parameter takes, if any.
pub open spec fn number_value(value: Option<u64>) -> Option<Seq<char>> {
    match value {
        Some(n) => Some(decimal_text(n as nat)),
        None => None,
    }
}

/// The parameters `params` send `name` with the text `v` when `value` is
/// `Some(v)`, and do not send `name` at all when `value` is `None`.
pub open spec fn carries(
    params: Seq<(Seq<char>, Seq<char>)>,
    name: Seq<char>,
    value: Option<Seq<char>>,
) -> bool {
    match value {
        Some(v) => exists|i: int| 0 <= i < params.len() && #[trigger] params[i] == (name, v),
        None => forall|i: int| 0 <= i < params.len() ==> (#[trigger] params[i]).0 != name,
    }
}

/// Every parameter in `params` has one of the `names`, and no name is sent
/// twice.
pub open spec fn only_once_among(params: Seq<(Seq<char>, Seq<char>)>, names: Seq<Seq<char>>) -> bool {
    &&& forall|i: int| 0 <= i < params.len() ==> names.contains(#[trigger] params[i].0)
    &&& forall|i: int, j: int|
        0 <= i < j < params.len() ==> (#[trigger] params[i]).0 != (#[trigger] params[j]).0
}

/// The parameters of the first `k` of the `names`, each with its value, in order.
pub open spec fn params_upto(
    names: Seq<Seq<char>>,
    values: Seq<Option<Seq<char>>>,
    k: nat,
) -> Seq<(Seq<char>, Seq<char>)>
    decreases k,
{
    if k == 0 {
        Seq::empty()
    } else {
        params_upto(names, values, (k - 1) as nat) + text_param(names[k - 1], values[k - 1])
    }
}

/// Sending the first `k` of a list of distinct names, each with its optional
/// value: every name is sent with its value exactly when it has one, and
/// nothing else is sent.
proof fn lemma_params_upto(names: Seq<Seq<char>>, values: Seq<Option<Seq<char>>>, k: nat)
    requires
        names.len() == values.len(),
        k <= names.len(),
        names.no_duplicates(),
    ensures
        forall|i: int| 0 <= i < k ==> carries(params_upto(names, values, k), #[trigger] names[i], values[i]),
        forall|p: int|
            0 <= p < params_upto(names, values, k).len() ==> exists|i: int|
                0 <= i < k && #[trigger] params_upto(names, values, k)[p].0 == names[i],
        forall|p: int, q: int|
            0 <= p < q < params_upto(names, values, k).len() ==> (#[trigger] params_upto(
                names,
                values,
                k,
            )[p]).0 != (#[trigger] params_upto(names, values, k)[q]).0,
    decreases k,
{
    if k > 0 {
        let k1 = (k - 1) as nat;
        lemma_params_upto(names, values, k1);
        let prev = params_upto(names, values, k1);
        let seg = text_param(names[k - 1], values[k - 1]);
        let all = params_upto(names, values, k);
        assert(all == prev + seg);
        // names of the earlier parameters are among the first k - 1 names
        assert forall|p: int| 0 <= p < prev.len() implies (#[trigger] prev[p]).0 != names[k - 1] by {
            let i = choose|i: int| 0 <= i < k1 && prev[p].0 == names[i];
            assert(names[i] != names[k - 1]);
        }
        assert forall|i: int| 0 <= i < k implies carries(all, #[trigger] names[i], values[i]) by {
            if i < k - 1 {
                assert(carries(prev, names[i], values[i]));
                match values[i] {
                    Some(v) => {
                        let j = choose|j: int| 0 <= j < prev.len() && #[trigger] prev[j] == (names[i], v);
                        assert(all[j] == prev[j]);
                    },
                    None => {
                        assert forall|p: int| 0 <= p < all.len() implies (#[trigger] all[p]).0 != names[i] by {
                            if p < prev.len() {
                                assert(all[p] == prev[p]);
                            } else {
                                assert(names[k - 1] != names[i]);
                            }
                        }
                    },
                }
            } else {
                match values[i] {
                    Some(v) => {
                        assert(all[prev.len() as int] == (names[i], v));
                    },
                    None => {
                        assert(all =~= prev);
                        assert forall|p: int| 0 <= p < all.len() implies (#[trigger] all[p]).0 != names[i] by {
                            assert(all[p] == prev[p]);
                        }
                    },
                }
            }
        }
        assert forall|p: int| 0 <= p < all.len() implies exists|i: int|
            0 <= i < k && #[trigger] all[p].0 == names[i] by {
            if p < prev.len() {
                assert(all[p] == prev[p]);
                let i = choose|i: int| 0 <= i < k1 && prev[p].0 == names[i];
                assert(0 <= i < k && all[p].0 == names[i]);
            } else {
                assert(all[p].0 == names[k - 1]);
            }
        }
        assert forall|p: int, q: int| 0 <= p < q < all.len() implies (#[trigger] all[p]).0 != (
        #[trigger] all[q]).0 by {
            if q < prev.len() {
                assert(all[p] == prev[p] && all[q] == prev[q]);
            } else if p < prev.len() {
                assert(all[p] == prev[p]);
                assert(all[q].0 == names[k - 1]);
            }
        }
    }
}

/// The parameters of a query with the `names`, in order, and the `values`
/// they take.
pub open spec fn query_with(names: Seq<Seq<char>>, values: Seq<Option<Seq<char>>>) -> Seq<(Seq<char>, Seq<char>)> {
    params_upto(names, values, names.len())
}

/// The law of a query: with distinct `names`, every name is sent with its
/// value exactly when it has one, nothing else is sent, and no name twice.
proof fn lemma_query_with(names: Seq<Seq<char>>, values: Seq<Option<Seq<char>>>)
    requires
        names.len() == values.len(),
        names.no_duplicates(),
    ensures
        forall|i: int| 0 <= i < names.len() ==> carries(query_with(names, values), #[trigger] names[i], values[i]),
        only_once_among(query_with(names, values), names),
{
    lemma_params_upto(names, values, names.len());
    let ps = query_with(names, values);
    assert forall|p: int| 0 <= p < ps.len() implies names.contains(#[trigger] ps[p].0) by {
        let i = choose|i: int| 0 <= i < names.len() && ps[p].0 == names[i];
    }
}

/// The text of one decimal digit.
fn digit_str(d: u64) -> (r: &'static str)
    requires
        d < 10,
    ensures
        r@ == seq![digit_char(d as nat)],
{
    proof {
        reveal_strlit("0");
        reveal_strlit("1");
        reveal_strlit("2");
        reveal_strlit("3");
        reveal_strlit("4");
        reveal_strlit("5");
        reveal_strlit("6");
        reveal_strlit("7");
        reveal_strlit("8");
        reveal_strlit("9");
    }
    if d == 0 { "0" } else if d == 1 { "1" } else if d == 2 { "2" } else if d == 3 { "3" }
    else if d == 4 { "4" } else if d == 5 { "5" } else if d == 6 { "6" } else if d == 7 { "7" }
    else if d == 8 { "8" } else { "9" }
}

/// The decimal text of `n`.
pub fn decimal_string(n: u64) -> (r: String)
    ensures
        r@ == decimal_text(n as nat),
        r@.len() >= 1,
        forall|i: int| 0 <= i < r@.len() ==> is_digit(#[trigger] r@[i]),
        decimal_value(r@) == n,
        n > 0 ==> r@[0] != '0',
    decreases n,
{
    proof {
        lemma_decimal_text(n as nat);
    }
    let mut s = if n < 10 {
        String::new()
    } else {
        decimal_string(n / 10)
    };
    s.append(digit_str(n % 10));
    s
}

/// The text of a flag: `true` or `false`.
pub fn bool_string(b: bool) -> (r: String)
    ensures
        r@ == bool_text(b),
        b ==> r@ =~= seq!['t', 'r', 'u', 'e'],
        !b ==> r@ =~= seq!['f', 'a', 'l', 's', 'e'],
{
    proof {
        lemma_bool_text();
    }
    if b {
        String::from_str("true")
    } else {
        String::from_str("false")
    }
}

fn push_param(params: &mut Vec<QueryParam>, name: &str, value: String)
    ensures
        final(params).deep_view() == old(params).deep_view() + seq![(name@, value@)],
{
    params.push((name.to_owned(), value));
    assert(final(params).deep_view() =~= old(params).deep_view() + seq![(name@, value@)]);
}

fn push_text(params: &mut Vec<QueryParam>, name: &str, value: &Option<String>)
    ensures
        final(params).deep_view() == old(params).deep_view() + text_param(name@, value.deep_view()),
{
    match value {
        Some(v) => push_param(params, name, v.clone()),
        None => {
            assert(old(params).deep_view() + text_param(name@, value.deep_view()) =~= old(params).deep_view());
        },
    }
}

fn push_flag(params: &mut Vec<QueryParam>, name: &str, value: Option<bool>)
    ensures
        final(params).deep_view() == old(params).deep_view() + flag_param(name@, value),
{
    match value {
        Some(b) => push_param(params, name, bool_string(b)),
        None => {
            assert(old(params).deep_view() + flag_param(name@, value) =~= old(params).deep_view());
        },
    }
}

fn push_number(params: &mut Vec<QueryParam>, name: &str, value: Option<u64>)
    ensures
        final(params).deep_view() == old(params).deep_view() + number_param(name@, value),
{
    match value {
        Some(n) => push_param(params, name, decimal_string(n)),
        None => {
            assert(old(params).deep_view() + number_param(name@, value) =~= old(params).deep_view());
        },
    }
}

/// Query of the calls that accept a filter expression.
#[derive(Debug, Default)]
pub struct FilterRequestQuery {
    pub filter: Option<String>,
}

/// Query of `agent_check_deregister`; `check_id` goes into the path.
#[derive(Debug, Default)]
pub struct DeregisterCheckRequestQuery {
    pub check_id: String,
}

/// Query of the TTL check calls; `check_id` goes into the path.
#[derive(Debug, Default)]
pub struct AgentTTLCheckRequestQuery {
    pub check_id: String,
    pub note: Option<String>,
}

/// Query of `agent_check_update`; `check_id` goes into the path.
#[derive(Debug, Default)]
pub struct AgentTTLCheckUpdateRequestQuery {
    pub check_id: String,
}

/// Body of `agent_check_update`, sent as JSON with the keys `Status` and
/// `Output`.
#[derive(Debug, Default)]
pub struct AgentTTLCheckUpdateRequestBody {
    pub status: Option<String>,
    pub output: Option<String>,
}

/// Query of `agent_service_configuration`; `service_id` goes into the path.
#[derive(Debug, Default)]
pub struct ServiceConfigurationRequestQuery {
    pub service_id: String,
}

/// Query of `agent_get_service_health_by_name`.
#[derive(Debug, Default)]
pub struct LocalServiceHealthByNameRequestQuery {}

/// Query of `agent_get_service_health_by_id`.
#[derive(Debug, Default)]
pub struct LocalServiceHealthByIDRequestQuery {}

/// Query of `agent_register_service`.
#[derive(Debug, Default)]
pub struct RegisterServiceRequestQuery {
    /// Missing health checks from the request will be deleted from the agent.
    /// Using this parameter allows to idempotently register a service and
    /// its checks without having to manually deregister checks. Sent as
    /// `replace-existing-checks`.
    pub replace_existing_checks: Option<String>,
}

/// Query of `agent_deregister_service`.
#[derive(Debug, Default)]
pub struct DeregisterServiceRequestQuery {}

/// Query of `agent_enable_maintenance_mode`; `service_id` goes into the
/// path, `enable` is always sent.
#[derive(Debug, Default)]
pub struct EnableMaintenanceModeRequestQuery {
    pub service_id: String,
    /// Specifies whether to enable or disable maintenance mode.
    pub enable: bool,
    /// Specifies a text string explaining the reason for placing the node
    /// into maintenance mode. If no reason is provided, a default value is
    /// used instead.
    pub reason: Option<String>,
}

/// Query of `agent_connect_authorize`.
#[derive(Debug, Default)]
pub struct ConnectAuthorizeRequestQuery {}

/// Answer of `agent_connect_authorize`, read from the JSON keys
/// `Authorized` and `Reason`.
#[derive(Debug, Default)]
pub struct ConnectAuthorizeRequestReply {
    /// True if authorized, false if not
    pub authorized: bool,
    /// Reason for the Authorized value (whether true or false)
    pub reason: String,
}

/// Query of `kv_read_key`.
#[derive(Debug, Default)]
pub struct KVReadKeyQuery {
    /// Specifies the datacenter to query.
    pub dc: Option<String>,
    /// Treat the key as a prefix instead of a literal match.
    pub recurse: Option<bool>,
    /// Answer with the raw value of the key, without encoding or metadata.
    pub raw: Option<bool>,
    /// Answer with the keys only; implies recurse.
    pub keys: Option<bool>,
    /// Separator that limits the prefix of the keys returned.
    pub separator: Option<String>,
}

/// Query of `kv_create_or_update_key`.
#[derive(Debug, Default)]
pub struct KVCreateOrUpdateKeyQuery {
    /// Specifies the datacenter to query.
    pub dc: Option<String>,
    /// An unsigned value stored with the key.
    pub flags: Option<u64>,
    /// Check-And-Set index: 0 puts the key only if it does not exist.
    pub cas: Option<u64>,
    /// Session ID of a lock acquisition.
    pub acquire: Option<String>,
    /// Session ID of a lock release.
    pub release: Option<String>,
}

/// Query of `kv_delete_key`.
#[derive(Debug, Default)]
pub struct KVDeleteKeyQuery {
    /// Specifies the datacenter to query.
    pub dc: Option<String>,
    /// Delete all keys that have the key as prefix.
    pub recurse: Option<bool>,
    /// Check-And-Set index: the key is deleted only if it matches.
    pub cas: Option<u64>,
}

/// Query of `catalog_register_entity`.
#[derive(Debug, Default)]
pub struct CatalogRegisterEntityQuery {}

/// Query of `catalog_deregister_entity`.
#[derive(Debug, Default)]
pub struct CatalogDeregisterEntityQuery {}

/// Query of `catalog_list_services`; `node_meta` is sent as `node-meta`.
#[derive(Debug, Default)]
pub struct CatalogListServicesQuery {
    pub dc: Option<String>,
    pub node_meta: Option<String>,
    pub filter: Option<String>,
}

/// Query of the catalog calls that list nodes of a service; `node_meta` is
/// sent as `node-meta`.
#[derive(Debug, Default)]
pub struct CatalogListNodesForServiceQuery {
    pub dc: Option<String>,
    pub tag: Option<String>,
    pub near: Option<String>,
    pub node_meta: Option<String>,
    pub filter: Option<String>,
}

/// Query of `catalog_node_services`.
#[derive(Debug, Default)]
pub struct CatalogNodeServicesQuery {
    pub dc: Option<String>,
    pub filter: Option<String>,
}

/// Query of `catalog_gateway_services`.
#[derive(Debug, Default)]
pub struct CatalogGatewayServicesQuery {
    pub dc: Option<String>,
}

/// Query of `event_fire`.
#[derive(Debug, Default)]
pub struct EventFireQuery {
    pub dc: Option<String>,
    pub node: Option<String>,
    pub service: Option<String>,
    pub tag: Option<String>,
}

/// Query of `event_list`.
#[derive(Debug, Default)]
pub struct EventListQuery {
    pub name: Option<String>,
    pub node: Option<String>,
    pub service: Option<String>,
    pub tag: Option<String>,
}

/// Query of `health_list_nodes`.
#[derive(Debug, Default)]
pub struct HealthListNodesQuery {
    pub dc: Option<String>,
    pub filter: Option<String>,
}

/// Query of `health_list_services`; `node_meta` is sent as `node-meta`.
#[derive(Debug, Default)]
pub struct HealthListServicesQuery {
    pub dc: Option<String>,
    pub near: Option<String>,
    pub node_meta: Option<String>,
    pub filter: Option<String>,
}

/// Query of the health calls that list service instances; `node_meta` is
/// sent as `node-meta`.
#[derive(Debug, Default)]
pub struct HealthListServiceInstancesQuery {
    pub dc: Option<String>,
    pub near: Option<String>,
    pub tag: Option<String>,
    pub node_meta: Option<String>,
    pub passing: Option<bool>,
    pub filter: Option<String>,
    pub peer: Option<String>,
}

/// Query of `health_list_state`; `node_meta` is sent as `node-meta`.
#[derive(Debug, Default)]
pub struct HealthListStateQuery {
    pub dc: Option<String>,
    pub near: Option<String>,
    pub node_meta: Option<String>,
    pub filter: Option<String>,
}

/// A link to an ACL policy or role, by ID and name (JSON keys `ID`, `Name`).
#[derive(Debug, Default)]
pub struct ACLLink {
    pub id: String,
    pub name: String,
}

/// The default ACL policies and roles of a namespace (JSON keys
/// `PolicyDefaults`, `RoleDefaults`).
#[derive(Debug, Default)]
pub struct NamespaceACLConfig {
    pub policy_defaults: Vec<ACLLink>,
    pub role_defaults: Vec<ACLLink>,
}

/// Body of `namespace_create` (Consul Enterprise), sent as JSON with the keys
/// `Name`, `Description`, `ACLs`, `Meta` and `Partition`; the optional ones
/// are left out when `None`.
#[derive(Debug, Default)]
pub struct NamespaceCreateBody {
    /// The namespace's name. This field must be a valid DNS hostname label.
    pub name: String,
    /// Free form namespaces description.
    pub description: Option<String>,
    pub acls: Option<NamespaceACLConfig>,
    pub meta: Option<HashMap<String, String>>,
    pub partition: Option<String>,
}

/// A namespace as the agent describes it (Consul Enterprise), read from the
/// JSON keys `Name`, `Description`, `ACLs`, `Meta`, `CreateIndex` and
/// `ModifyIndex`.
#[derive(Debug, Default)]
pub struct NamespaceDetail {
    /// The namespace's name.
    pub name: String,
    /// Free form namespaces description.
    pub description: Option<String>,
    pub acls: Option<NamespaceACLConfig>,
    pub meta: Option<HashMap<String, String>>,
    pub create_index: u64,
    pub modify_index: u64,
}

/// Query of `namespace_read` (Consul Enterprise).
#[derive(Debug, Default)]
pub struct NamespaceReadQuery {
    pub partition: Option<String>,
}

/// Body of `namespace_update` (Consul Enterprise), sent as JSON with the keys
/// `Name`, `Description`, `ACLs`, `Meta` and `Partition`; the optional ones
/// are left out when `None`.
#[derive(Debug, Default)]
pub struct NamespaceUpdateBody {
    /// If specified, this field must be an exact match with the name path
    /// parameter.
    pub name: Option<String>,
    /// Free form namespaces description.
    pub description: Option<String>,
    pub acls: Option<NamespaceACLConfig>,
    pub meta: Option<HashMap<String, String>>,
    pub partition: Option<String>,
}

/// Query of the status calls.
#[derive(Debug, Default)]
pub struct StatusQuery {
    pub dc: Option<String>,
}

impl FilterRequestQuery {
    /// The query parameters of this query.
    pub open spec fn params(&self) -> Seq<(Seq<char>, Seq<char>)> {
        text_param("filter"@, self.filter.deep_view())
    }

    /// The query parameters of this query, in order.
    pub fn query_params(&self) -> (r: Vec<QueryParam>)
        ensures
            r.deep_view() == self.params(),
            carries(r.deep_view(), "filter"@, self.filter.deep_view()),
            only_once_among(r.deep_view(), seq!["filter"@]),
    {
        let mut p: Vec<QueryParam> = Vec::new();
        push_text(&mut p, "filter", &self.filter);
        assert(p.deep_view() =~= self.params());
        proof {
            lemma_filter_request_query_params(*self);
        }
        p
    }
}

/// The query of `FilterRequestQuery` sends `filter` each under its own name exactly
/// when it is set (a flag as `true` or `false`, a number in decimal), and
/// nothing else.
pub proof fn lemma_filter_request_query_params(q: FilterRequestQuery)
    ensures
        carries(q.params(), "filter"@, q.filter.deep_view()),
        only_once_among(q.params(), seq!["filter"@]),
{
    reveal_strlit("filter");
    let names = seq!["filter"@];
    let values = seq![q.filter.deep_view()];
    assert(names.no_duplicates());
    assert(q.params() =~= query_with(names, values)) by {
        reveal_with_fuel(params_upto, 2);
    }
    lemma_query_with(names, values);
    assert(carries(query_with(names, values), names[0], values[0]));
}

impl DeregisterCheckRequestQuery {
    /// The query parameters of this query.
    pub open spec fn params(&self) -> Seq<(Seq<char>, Seq<char>)> {
        Seq::empty()
    }

    /// The query parameters of this query, in order.
    pub fn query_params(&self) -> (r: Vec<QueryParam>)
        ensures
            r.deep_view() == self.params(),
            only_once_among(r.deep_view(), Seq::<Seq<char>>::empty()),
    {
        let mut p: Vec<QueryParam> = Vec::new();
        assert(p.deep_view() =~= self.params());
        proof {
            lemma_deregister_check_request_query_params(*self);
        }
        p
    }
}

/// The query of `DeregisterCheckRequestQuery` sends no parameter: `check_id` goes into the path.
pub proof fn lemma_deregister_check_request_query_params(q: DeregisterCheckRequestQuery)
    ensures
        only_once_among(q.params(), Seq::<Seq<char>>::empty()),
{
}

impl AgentTTLCheckRequestQuery {
    /// The query parameters of this query.
    pub open spec fn params(&self) -> Seq<(Seq<char>, Seq<char>)> {
        text_param("note"@, self.note.deep_view())
    }

    /// The query parameters of this query, in order.
    pub fn query_params(&self) -> (r: Vec<QueryParam>)
        ensures
            r.deep_view() == self.params(),
            carries(r.deep_view(), "note"@, self.note.deep_view()),
            only_once_among(r.deep_view(), seq!["note"@]),
    {
        let mut p: Vec<QueryParam> = Vec::new();
        push_text(&mut p, "note", &self.note);
        assert(p.deep_view() =~= self.params());
        proof {
            lemma_agent_ttl_check_request_query_params(*self);
        }
        p
    }
}

/// The query of `AgentTTLCheckRequestQuery` sends `note` each under its own name exactly
/// when it is set (a flag as `true` or `false`, a number in decimal), and
/// nothing else; `check_id` goes into the path, not the query.
pub proof fn lemma_agent_ttl_check_request_query_params(q: AgentTTLCheckRequestQuery)
    ensures
        carries(q.params(), "note"@, q.note.deep_view()),
        only_once_among(q.params(), seq!["note"@]),
{
    reveal_strlit("note");
    let names = seq!["note"@];
    let values = seq![q.note.deep_view()];
    assert(names.no_duplicates());
    assert(q.params() =~= query_with(names, values)) by {
        reveal_with_fuel(params_upto, 2);
    }
    lemma_query_with(names, values);
    assert(carries(query_with(names, values), names[0], values[0]));
}

impl AgentTTLCheckUpdateRequestQuery {
    /// The query parameters of this query.
    pub open spec fn params(&self) -> Seq<(Seq<char>, Seq<char>)> {
        Seq::empty()
    }

    /// The query parameters of this query, in order.
    pub fn query_params(&self) -> (r: Vec<QueryParam>)
        ensures
            r.deep_view() == self.params(),
            only_once_among(r.deep_view(), Seq::<Seq<char>>::empty()),
    {
        let mut p: Vec<QueryParam> = Vec::new();
        assert(p.deep_view() =~= self.params());
        proof {
            lemma_agent_ttl_check_update_request_query_params(*self);
        }
        p
    }
}

/// The query of `AgentTTLCheckUpdateRequestQuery` sends no parameter: `check_id` goes into the path.
pub proof fn lemma_agent_ttl_check_update_request_query_params(q: AgentTTLCheckUpdateRequestQuery)
    ensures
        only_once_among(q.params(), Seq::<Seq<char>>::empty()),
{
}

impl ServiceConfigurationRequestQuery {
    /// The query parameters of this query.
    pub open spec fn params(&self) -> Seq<(Seq<char>, Seq<char>)> {
        Seq::empty()
    }

    /// The query parameters of this query, in order.
    pub fn query_params(&self) -> (r: Vec<QueryParam>)
        ensures
            r.deep_view() == self.params(),
            only_once_among(r.deep_view(), Seq::<Seq<char>>::empty()),
    {
        let mut p: Vec<QueryParam> = Vec::new();
        assert(p.deep_view() =~= self.params());
        proof {
            lemma_service_configuration_request_query_params(*self);
        }
        p
    }
}

/// The query of `ServiceConfigurationRequestQuery` sends no parameter: `service_id` goes into the path.
pub proof fn lemma_service_configuration_request_query_params(q: ServiceConfigurationRequestQuery)
    ensures
        only_once_among(q.params(), Seq::<Seq<char>>::empty()),
{
}

impl LocalServiceHealthByNameRequestQuery {
    /// The query parameters of this query.
    pub open spec fn params(&self) -> Seq<(Seq<char>, Seq<char>)> {
        Seq::empty()
    }

    /// The query parameters of this query, in order.
    pub fn query_params(&self) -> (r: Vec<QueryParam>)
        ensures
            r.deep_view() == self.params(),
            only_once_among(r.deep_view(), Seq::<Seq<char>>::empty()),
    {
        let mut p: Vec<QueryParam> = Vec::new();
        assert(p.deep_view() =~= self.params());
        proof {
            lemma_local_service_health_by_name_request_query_params(*self);
        }
        p
    }
}

/// The query of `LocalServiceHealthByNameRequestQuery` sends no parameter.
pub proof fn lemma_local_service_health_by_name_request_query_params(q: LocalServiceHealthByNameRequestQuery)
    ensures
        only_once_among(q.params(), Seq::<Seq<char>>::empty()),
{
}

impl LocalServiceHealthByIDRequestQuery {
    /// The query parameters of this query.
    pub open spec fn params(&self) -> Seq<(Seq<char>, Seq<char>)> {
        Seq::empty()
    }

    /// The query parameters of this query, in order.
    pub fn query_params(&self) -> (r: Vec<QueryParam>)
        ensures
            r.deep_view() == self.params(),
            only_once_among(r.deep_view(), Seq::<Seq<char>>::empty()),
    {
        let mut p: Vec<QueryParam> = Vec::new();
        assert(p.deep_view() =~= self.params());
        proof {
            lemma_local_service_health_by_id_request_query_params(*self);
        }
        p
    }
}

/// The query of `LocalServiceHealthByIDRequestQuery` sends no parameter.
pub proof fn lemma_local_service_health_by_id_request_query_params(q: LocalServiceHealthByIDRequestQuery)
    ensures
        only_once_among(q.params(), Seq::<Seq<char>>::empty()),
{
}

impl RegisterServiceRequestQuery {
    /// The query parameters of this query.
    pub open spec fn params(&self) -> Seq<(Seq<char>, Seq<char>)> {
        text_param("replace-existing-checks"@, self.replace_existing_checks.deep_view())
    }

    /// The query parameters of this query, in order.
    pub fn query_params(&self) -> (r: Vec<QueryParam>)
        ensures
            r.deep_view() == self.params(),
            carries(r.deep_view(), "replace-existing-checks"@, self.replace_existing_checks.deep_view()),
            only_once_among(r.deep_view(), seq!["replace-existing-checks"@]),
    {
        let mut p: Vec<QueryParam> = Vec::new();
        push_text(&mut p, "replace-existing-checks", &self.replace_existing_checks);
        assert(p.deep_view() =~= self.params());
        proof {
            lemma_register_service_request_query_params(*self);
        }
        p
    }
}

/// The query of `RegisterServiceRequestQuery` sends `replace-existing-checks` each under its own name exactly
/// when it is set (a flag as `true` or `false`, a number in decimal), and
/// nothing else.
pub proof fn lemma_register_service_request_query_params(q: RegisterServiceRequestQuery)
    ensures
        carries(q.params(), "replace-existing-checks"@, q.replace_existing_checks.deep_view()),
        only_once_among(q.params(), seq!["replace-existing-checks"@]),
{
    reveal_strlit("replace-existing-checks");
    let names = seq!["replace-existing-checks"@];
    let values = seq![q.replace_existing_checks.deep_view()];
    assert(names.no_duplicates());
    assert(q.params() =~= query_with(names, values)) by {
        reveal_with_fuel(params_upto, 2);
    }
    lemma_query_with(names, values);
    assert(carries(query_with(names, values), names[0], values[0]));
}

impl DeregisterServiceRequestQuery {
    /// The query parameters of this query.
    pub open spec fn params(&self) -> Seq<(Seq<char>, Seq<char>)> {
        Seq::empty()
    }

    /// The query parameters of this query, in order.
    pub fn query_params(&self) -> (r: Vec<QueryParam>)
        ensures
            r.deep_view() == self.params(),
            only_once_among(r.deep_view(), Seq::<Seq<char>>::empty()),
    {
        let mut p: Vec<QueryParam> = Vec::new();
        assert(p.deep_view() =~= self.params());
        proof {
            lemma_deregister_service_request_query_params(*self);
        }
        p
    }
}

/// The query of `DeregisterServiceRequestQuery` sends no parameter.
pub proof fn lemma_deregister_service_request_query_params(q: DeregisterServiceRequestQuery)
    ensures
        only_once_among(q.params(), Seq::<Seq<char>>::empty()),
{
}

impl EnableMaintenanceModeRequestQuery {
    /// The query parameters of this query.
    pub open spec fn params(&self) -> Seq<(Seq<char>, Seq<char>)> {
        seq![("enable"@, bool_text(self.enable))]
            + text_param("reason"@, self.reason.deep_view())
    }

    /// The query parameters of this query, in order.
    pub fn query_params(&self) -> (r: Vec<QueryParam>)
        ensures
            r.deep_view() == self.params(),
            carries(r.deep_view(), "enable"@, Some(bool_text(self.enable))),
            carries(r.deep_view(), "reason"@, self.reason.deep_view()),
            only_once_among(r.deep_view(), seq!["enable"@, "reason"@]),
    {
        let mut p: Vec<QueryParam> = Vec::new();
        push_param(&mut p, "enable", bool_string(self.enable));
        push_text(&mut p, "reason", &self.reason);
        assert(p.deep_view() =~= self.params());
        proof {
            lemma_enable_maintenance_mode_request_query_params(*self);
        }
        p
    }
}

/// The query of `EnableMaintenanceModeRequestQuery` sends `enable`, `reason` each under its own name exactly
/// when it is set (a flag as `true` or `false`, a number in decimal), and
/// nothing else; `service_id` goes into the path, not the query.
pub proof fn lemma_enable_maintenance_mode_request_query_params(q: EnableMaintenanceModeRequestQuery)
    ensures
        carries(q.params(), "enable"@, Some(bool_text(q.enable))),
        carries(q.params(), "reason"@, q.reason.deep_view()),
        only_once_among(q.params(), seq!["enable"@, "reason"@]),
{
    reveal_strlit("enable");
    reveal_strlit("reason");
    let names = seq!["enable"@, "reason"@];
    let values = seq![Some(bool_text(q.enable)), q.reason.deep_view()];
    assert(names[0][0] != names[1][0]);
    assert(names.no_duplicates());
    assert(q.params() =~= query_with(names, values)) by {
        reveal_with_fuel(params_upto, 3);
    }
    lemma_query_with(names, values);
    assert(carries(query_with(names, values), names[0], values[0]));
    assert(carries(query_with(names, values), names[1], values[1]));
}

impl ConnectAuthorizeRequestQuery {
    /// The query parameters of this query.
    pub open spec fn params(&self) -> Seq<(Seq<char>, Seq<char>)> {
        Seq::empty()
    }

    /// The query parameters of this query, in order.
    pub fn query_params(&self) -> (r: Vec<QueryParam>)
        ensures
            r.deep_view() == self.params(),
            only_once_among(r.deep_view(), Seq::<Seq<char>>::empty()),
    {
        let mut p: Vec<QueryParam> = Vec::new();
        assert(p.deep_view() =~= self.params());
        proof {
            lemma_connect_authorize_request_query_params(*self);
        }
        p
    }
}

/// The query of `ConnectAuthorizeRequestQuery` sends no parameter.
pub proof fn lemma_connect_authorize_request_query_params(q: ConnectAuthorizeRequestQuery)
    ensures
        only_once_among(q.params(), Seq::<Seq<char>>::empty()),
{
}

impl KVReadKeyQuery {
    /// The query parameters of this query.
    pub open spec fn params(&self) -> Seq<(Seq<char>, Seq<char>)> {
        text_param("dc"@, self.dc.deep_view())
            + flag_param("recurse"@, self.recurse)
            + flag_param("raw"@, self.raw)
            + flag_param("keys"@, self.keys)
            + text_param("separator"@, self.separator.deep_view())
    }

    /// The query parameters of this query, in order.
    pub fn query_params(&self) -> (r: Vec<QueryParam>)
        ensures
            r.deep_view() == self.params(),
            carries(r.deep_view(), "dc"@, self.dc.deep_view()),
            carries(r.deep_view(), "recurse"@, flag_value(self.recurse)),
            carries(r.deep_view(), "raw"@, flag_value(self.raw)),
            carries(r.deep_view(), "keys"@, flag_value(self.keys)),
            carries(r.deep_view(), "separator"@, self.separator.deep_view()),
            only_once_among(r.deep_view(), seq!["dc"@, "recurse"@, "raw"@, "keys"@, "separator"@]),
    {
        let mut p: Vec<QueryParam> = Vec::new();
        push_text(&mut p, "dc", &self.dc);
        push_flag(&mut p, "recurse", self.recurse);
        push_flag(&mut p, "raw", self.raw);
        push_flag(&mut p, "keys", self.keys);
        push_text(&mut p, "separator", &self.separator);
        assert(p.deep_view() =~= self.params());
        proof {
            lemma_kv_read_key_query_params(*self);
        }
        p
    }
}

/// The query of `KVReadKeyQuery` sends `dc`, `recurse`, `raw`, `keys`, `separator` each under its own name exactly
/// when it is set (a flag as `true` or `false`, a number in decimal), and
/// nothing else.
pub proof fn lemma_kv_read_key_query_params(q: KVReadKeyQuery)
    ensures
        carries(q.params(), "dc"@, q.dc.deep_view()),
        carries(q.params(), "recurse"@, flag_value(q.recurse)),
        carries(q.params(), "raw"@, flag_value(q.raw)),
        carries(q.params(), "keys"@, flag_value(q.keys)),
        carries(q.params(), "separator"@, q.separator.deep_view()),
        only_once_among(q.params(), seq!["dc"@, "recurse"@, "raw"@, "keys"@, "separator"@]),
{
    reveal_strlit("dc");
    reveal_strlit("recurse");
    reveal_strlit("raw");
    reveal_strlit("keys");
    reveal_strlit("separator");
    let names = seq!["dc"@, "recurse"@, "raw"@, "keys"@, "separator"@];
    let values = seq![q.dc.deep_view(), flag_value(q.recurse), flag_value(q.raw), flag_value(q.keys), q.separator.deep_view()];
    assert(names[0].len() != names[1].len());
    assert(names[0].len() != names[2].len());
    assert(names[0].len() != names[3].len());
    assert(names[0].len() != names[4].len());
    assert(names[1].len() != names[2].len());
    assert(names[1].len() != names[3].len());
    assert(names[1].len() != names[4].len());
    assert(names[2].len() != names[3].len());
    assert(names[2].len() != names[4].len());
    assert(names[3].len() != names[4].len());
    assert(names.no_duplicates());
    assert(q.params() =~= query_with(names, values)) by {
        reveal_with_fuel(params_upto, 6);
    }
    lemma_query_with(names, values);
    assert(carries(query_with(names, values), names[0], values[0]));
    assert(carries(query_with(names, values), names[1], values[1]));
    assert(carries(query_with(names, values), names[2], values[2]));
    assert(carries(query_with(names, values), names[3], values[3]));
    assert(carries(query_with(names, values), names[4], values[4]));
}

impl KVCreateOrUpdateKeyQuery {
    /// The query parameters of this query.
    pub open spec fn params(&self) -> Seq<(Seq<char>, Seq<char>)> {
        text_param("dc"@, self.dc.deep_view())
            + number_param("flags"@, self.flags)
            + number_param("cas"@, self.cas)
            + text_param("acquire"@, self.acquire.deep_view())
            + text_param("release"@, self.release.deep_view())
    }

    /// The query parameters of this query, in order.
    pub fn query_params(&self) -> (r: Vec<QueryParam>)
        ensures
            r.deep_view() == self.params(),
            carries(r.deep_view(), "dc"@, self.dc.deep_view()),
            carries(r.deep_view(), "flags"@, number_value(self.flags)),
            carries(r.deep_view(), "cas"@, number_value(self.cas)),
            carries(r.deep_view(), "acquire"@, self.acquire.deep_view()),
            carries(r.deep_view(), "release"@, self.release.deep_view()),
            only_once_among(r.deep_view(), seq!["dc"@, "flags"@, "cas"@, "acquire"@, "release"@]),
    {
        let mut p: Vec<QueryParam> = Vec::new();
        push_text(&mut p, "dc", &self.dc);
        push_number(&mut p, "flags", self.flags);
        push_number(&mut p, "cas", self.cas);
        push_text(&mut p, "acquire", &self.acquire);
        push_text(&mut p, "release", &self.release);
        assert(p.deep_view() =~= self.params());
        proof {
            lemma_kv_create_or_update_key_query_params(*self);
        }
        p
    }
}

/// The query of `KVCreateOrUpdateKeyQuery` sends `dc`, `flags`, `cas`, `acquire`, `release` each under its own name exactly
/// when it is set (a flag as `true` or `false`, a number in decimal), and
/// nothing else.
pub proof fn lemma_kv_create_or_update_key_query_params(q: KVCreateOrUpdateKeyQuery)
    ensures
        carries(q.params(), "dc"@, q.dc.deep_view()),
        carries(q.params(), "flags"@, number_value(q.flags)),
        carries(q.params(), "cas"@, number_value(q.cas)),
        carries(q.params(), "acquire"@, q.acquire.deep_view()),
        carries(q.params(), "release"@, q.release.deep_view()),
        only_once_among(q.params(), seq!["dc"@, "flags"@, "cas"@, "acquire"@, "release"@]),
{
    reveal_strlit("dc");
    reveal_strlit("flags");
    reveal_strlit("cas");
    reveal_strlit("acquire");
    reveal_strlit("release");
    let names = seq!["dc"@, "flags"@, "cas"@, "acquire"@, "release"@];
    let values = seq![q.dc.deep_view(), number_value(q.flags), number_value(q.cas), q.acquire.deep_view(), q.release.deep_view()];
    assert(names[0].len() != names[1].len());
    assert(names[0].len() != names[2].len());
    assert(names[0].len() != names[3].len());
    assert(names[0].len() != names[4].len());
    assert(names[1].len() != names[2].len());
    assert(names[1].len() != names[3].len());
    assert(names[1].len() != names[4].len());
    assert(names[2].len() != names[3].len());
    assert(names[2].len() != names[4].len());
    assert(names[3][0] != names[4][0]);
    assert(names.no_duplicates());
    assert(q.params() =~= query_with(names, values)) by {
        reveal_with_fuel(params_upto, 6);
    }
    lemma_query_with(names, values);
    assert(carries(query_with(names, values), names[0], values[0]));
    assert(carries(query_with(names, values), names[1], values[1]));
    assert(carries(query_with(names, values), names[2], values[2]));
    assert(carries(query_with(names, values), names[3], values[3]));
    assert(carries(query_with(names, values), names[4], values[4]));
}

impl KVDeleteKeyQuery {
    /// The query parameters of this query.
    pub open spec fn params(&self) -> Seq<(Seq<char>, Seq<char>)> {
        text_param("dc"@, self.dc.deep_view())
            + flag_param("recurse"@, self.recurse)
            + number_param("cas"@, self.cas)
    }

    /// The query parameters of this query, in order.
    pub fn query_params(&self) -> (r: Vec<QueryParam>)
        ensures
            r.deep_view() == self.params(),
            carries(r.deep_view(), "dc"@, self.dc.deep_view()),
            carries(r.deep_view(), "recurse"@, flag_value(self.recurse)),
            carries(r.deep_view(), "cas"@, number_value(self.cas)),
            only_once_among(r.deep_view(), seq!["dc"@, "recurse"@, "cas"@]),
    {
        let mut p: Vec<QueryParam> = Vec::new();
        push_text(&mut p, "dc", &self.dc);
        push_flag(&mut p, "recurse", self.recurse);
        push_number(&mut p, "cas", self.cas);
        assert(p.deep_view() =~= self.params());
        proof {
            lemma_kv_delete_key_query_params(*self);
        }
        p
    }
}

/// The query of `KVDeleteKeyQuery` sends `dc`, `recurse`, `cas` each under its own name exactly
/// when it is set (a flag as `true` or `false`, a number in decimal), and
/// nothing else.
pub proof fn lemma_kv_delete_key_query_params(q: KVDeleteKeyQuery)
    ensures
        carries(q.params(), "dc"@, q.dc.deep_view()),
        carries(q.params(), "recurse"@, flag_value(q.recurse)),
        carries(q.params(), "cas"@, number_value(q.cas)),
        only_once_among(q.params(), seq!["dc"@, "recurse"@, "cas"@]),
{
    reveal_strlit("dc");
    reveal_strlit("recurse");
    reveal_strlit("cas");
    let names = seq!["dc"@, "recurse"@, "cas"@];
    let values = seq![q.dc.deep_view(), flag_value(q.recurse), number_value(q.cas)];
    assert(names[0].len() != names[1].len());
    assert(names[0].len() != names[2].len());
    assert(names[1].len() != names[2].len());
    assert(names.no_duplicates());
    assert(q.params() =~= query_with(names, values)) by {
        reveal_with_fuel(params_upto, 4);
    }
    lemma_query_with(names, values);
    assert(carries(query_with(names, values), names[0], values[0]));
    assert(carries(query_with(names, values), names[1], values[1]));
    assert(carries(query_with(names, values), names[2], values[2]));
}

impl CatalogRegisterEntityQuery {
    /// The query parameters of this query.
    pub open spec fn params(&self) -> Seq<(Seq<char>, Seq<char>)> {
        Seq::empty()
    }

    /// The query parameters of this query, in order.
    pub fn query_params(&self) -> (r: Vec<QueryParam>)
        ensures
            r.deep_view() == self.params(),
            only_once_among(r.deep_view(), Seq::<Seq<char>>::empty()),
    {
        let mut p: Vec<QueryParam> = Vec::new();
        assert(p.deep_view() =~= self.params());
        proof {
            lemma_catalog_register_entity_query_params(*self);
        }
        p
    }
}

/// The query of `CatalogRegisterEntityQuery` sends no parameter.
pub proof fn lemma_catalog_register_entity_query_params(q: CatalogRegisterEntityQuery)
    ensures
        only_once_among(q.params(), Seq::<Seq<char>>::empty()),
{
}

impl CatalogDeregisterEntityQuery {
    /// The query parameters of this query.
    pub open spec fn params(&self) -> Seq<(Seq<char>, Seq<char>)> {
        Seq::empty()
    }

    /// The query parameters of this query, in order.
    pub fn query_params(&self) -> (r: Vec<QueryParam>)
        ensures
            r.deep_view() == self.params(),
            only_once_among(r.deep_view(), Seq::<Seq<char>>::empty()),
    {
        let mut p: Vec<QueryParam> = Vec::new();
        assert(p.deep_view() =~= self.params());
        proof {
            lemma_catalog_deregister_entity_query_params(*self);
        }
        p
    }
}

/// The query of `CatalogDeregisterEntityQuery` sends no parameter.
pub proof fn lemma_catalog_deregister_entity_query_params(q: CatalogDeregisterEntityQuery)
    ensures
        only_once_among(q.params(), Seq::<Seq<char>>::empty()),
{
}

impl CatalogListServicesQuery {
    /// The query parameters of this query.
    pub open spec fn params(&self) -> Seq<(Seq<char>, Seq<char>)> {
        text_param("dc"@, self.dc.deep_view())
            + text_param("node-meta"@, self.node_meta.deep_view())
            + text_param("filter"@, self.filter.deep_view())
    }

    /// The query parameters of this query, in order.
    pub fn query_params(&self) -> (r: Vec<QueryParam>)
        ensures
            r.deep_view() == self.params(),
            carries(r.deep_view(), "dc"@, self.dc.deep_view()),
            carries(r.deep_view(), "node-meta"@, self.node_meta.deep_view()),
            carries(r.deep_view(), "filter"@, self.filter.deep_view()),
            only_once_among(r.deep_view(), seq!["dc"@, "node-meta"@, "filter"@]),
    {
        let mut p: Vec<QueryParam> = Vec::new();
        push_text(&mut p, "dc", &self.dc);
        push_text(&mut p, "node-meta", &self.node_meta);
        push_text(&mut p, "filter", &self.filter);
        assert(p.deep_view() =~= self.params());
        proof {
            lemma_catalog_list_services_query_params(*self);
        }
        p
    }
}

/// The query of `CatalogListServicesQuery` sends `dc`, `node-meta`, `filter` each under its own name exactly
/// when it is set (a flag as `true` or `false`, a number in decimal), and
/// nothing else.
pub proof fn lemma_catalog_list_services_query_params(q: CatalogListServicesQuery)
    ensures
        carries(q.params(), "dc"@, q.dc.deep_view()),
        carries(q.params(), "node-meta"@, q.node_meta.deep_view()),
        carries(q.params(), "filter"@, q.filter.deep_view()),
        only_once_among(q.params(), seq!["dc"@, "node-meta"@, "filter"@]),
{
    reveal_strlit("dc");
    reveal_strlit("node-meta");
    reveal_strlit("filter");
    let names = seq!["dc"@, "node-meta"@, "filter"@];
    let values = seq![q.dc.deep_view(), q.node_meta.deep_view(), q.filter.deep_view()];
    assert(names[0].len() != names[1].len());
    assert(names[0].len() != names[2].len());
    assert(names[1].len() != names[2].len());
    assert(names.no_duplicates());
    assert(q.params() =~= query_with(names, values)) by {
        reveal_with_fuel(params_upto, 4);
    }
    lemma_query_with(names, values);
    assert(carries(query_with(names, values), names[0], values[0]));
    assert(carries(query_with(names, values), names[1], values[1]));
    assert(carries(query_with(names, values), names[2], values[2]));
}

impl CatalogListNodesForServiceQuery {
    /// The query parameters of this query.
    pub open spec fn params(&self) -> Seq<(Seq<char>, Seq<char>)> {
        text_param("dc"@, self.dc.deep_view())
            + text_param("tag"@, self.tag.deep_view())
            + text_param("near"@, self.near.deep_view())
            + text_param("node-meta"@, self.node_meta.deep_view())
            + text_param("filter"@, self.filter.deep_view())
    }

    /// The query parameters of this query, in order.
    pub fn query_params(&self) -> (r: Vec<QueryParam>)
        ensures
            r.deep_view() == self.params(),
            carries(r.deep_view(), "dc"@, self.dc.deep_view()),
            carries(r.deep_view(), "tag"@, self.tag.deep_view()),
            carries(r.deep_view(), "near"@, self.near.deep_view()),
            carries(r.deep_view(), "node-meta"@, self.node_meta.deep_view()),
            carries(r.deep_view(), "filter"@, self.filter.deep_view()),
            only_once_among(r.deep_view(), seq!["dc"@, "tag"@, "near"@, "node-meta"@, "filter"@]),
    {
        let mut p: Vec<QueryParam> = Vec::new();
        push_text(&mut p, "dc", &self.dc);
        push_text(&mut p, "tag", &self.tag);
        push_text(&mut p, "near", &self.near);
        push_text(&mut p, "node-meta", &self.node_meta);
        push_text(&mut p, "filter", &self.filter);
        assert(p.deep_view() =~= self.params());
        proof {
            lemma_catalog_list_nodes_for_service_query_params(*self);
        }
        p
    }
}

/// The query of `CatalogListNodesForServiceQuery` sends `dc`, `tag`, `near`, `node-meta`, `filter` each under its own name exactly
/// when it is set (a flag as `true` or `false`, a number in decimal), and
/// nothing else.
pub proof fn lemma_catalog_list_nodes_for_service_query_params(q: CatalogListNodesForServiceQuery)
    ensures
        carries(q.params(), "dc"@, q.dc.deep_view()),
        carries(q.params(), "tag"@, q.tag.deep_view()),
        carries(q.params(), "near"@, q.near.deep_view()),
        carries(q.params(), "node-meta"@, q.node_meta.deep_view()),
        carries(q.params(), "filter"@, q.filter.deep_view()),
        only_once_among(q.params(), seq!["dc"@, "tag"@, "near"@, "node-meta"@, "filter"@]),
{
    reveal_strlit("dc");
    reveal_strlit("tag");
    reveal_strlit("near");
    reveal_strlit("node-meta");
    reveal_strlit("filter");
    let names = seq!["dc"@, "tag"@, "near"@, "node-meta"@, "filter"@];
    let values = seq![q.dc.deep_view(), q.tag.deep_view(), q.near.deep_view(), q.node_meta.deep_view(), q.filter.deep_view()];
    assert(names[0].len() != names[1].len());
    assert(names[0].len() != names[2].len());
    assert(names[0].len() != names[3].len());
    assert(names[0].len() != names[4].len());
    assert(names[1].len() != names[2].len());
    assert(names[1].len() != names[3].len());
    assert(names[1].len() != names[4].len());
    assert(names[2].len() != names[3].len());
    assert(names[2].len() != names[4].len());
    assert(names[3].len() != names[4].len());
    assert(names.no_duplicates());
    assert(q.params() =~= query_with(names, values)) by {
        reveal_with_fuel(params_upto, 6);
    }
    lemma_query_with(names, values);
    assert(carries(query_with(names, values), names[0], values[0]));
    assert(carries(query_with(names, values), names[1], values[1]));
    assert(carries(query_with(names, values), names[2], values[2]));
    assert(carries(query_with(names, values), names[3], values[3]));
    assert(carries(query_with(names, values), names[4], values[4]));
}

impl CatalogNodeServicesQuery {
    /// The query parameters of this query.
    pub open spec fn params(&self) -> Seq<(Seq<char>, Seq<char>)> {
        text_param("dc"@, self.dc.deep_view())
            + text_param("filter"@, self.filter.deep_view())
    }

    /// The query parameters of this query, in order.
    pub fn query_params(&self) -> (r: Vec<QueryParam>)
        ensures
            r.deep_view() == self.params(),
            carries(r.deep_view(), "dc"@, self.dc.deep_view()),
            carries(r.deep_view(), "filter"@, self.filter.deep_view()),
            only_once_among(r.deep_view(), seq!["dc"@, "filter"@]),
    {
        let mut p: Vec<QueryParam> = Vec::new();
        push_text(&mut p, "dc", &self.dc);
        push_text(&mut p, "filter", &self.filter);
        assert(p.deep_view() =~= self.params());
        proof {
            lemma_catalog_node_services_query_params(*self);
        }
        p
    }
}

/// The query of `CatalogNodeServicesQuery` sends `dc`, `filter` each under its own name exactly
/// when it is set (a flag as `true` or `false`, a number in decimal), and
/// nothing else.
pub proof fn lemma_catalog_node_services_query_params(q: CatalogNodeServicesQuery)
    ensures
        carries(q.params(), "dc"@, q.dc.deep_view()),
        carries(q.params(), "filter"@, q.filter.deep_view()),
        only_once_among(q.params(), seq!["dc"@, "filter"@]),
{
    reveal_strlit("dc");
    reveal_strlit("filter");
    let names = seq!["dc"@, "filter"@];
    let values = seq![q.dc.deep_view(), q.filter.deep_view()];
    assert(names[0].len() != names[1].len());
    assert(names.no_duplicates());
    assert(q.params() =~= query_with(names, values)) by {
        reveal_with_fuel(params_upto, 3);
    }
    lemma_query_with(names, values);
    assert(carries(query_with(names, values), names[0], values[0]));
    assert(carries(query_with(names, values), names[1], values[1]));
}

impl CatalogGatewayServicesQuery {
    /// The query parameters of this query.
    pub open spec fn params(&self) -> Seq<(Seq<char>, Seq<char>)> {
        text_param("dc"@, self.dc.deep_view())
    }

    /// The query parameters of this query, in order.
    pub fn query_params(&self) -> (r: Vec<QueryParam>)
        ensures
            r.deep_view() == self.params(),
            carries(r.deep_view(), "dc"@, self.dc.deep_view()),
            only_once_among(r.deep_view(), seq!["dc"@]),
    {
        let mut p: Vec<QueryParam> = Vec::new();
        push_text(&mut p, "dc", &self.dc);
        assert(p.deep_view() =~= self.params());
        proof {
            lemma_catalog_gateway_services_query_params(*self);
        }
        p
    }
}

/// The query of `CatalogGatewayServicesQuery` sends `dc` each under its own name exactly
/// when it is set (a flag as `true` or `false`, a number in decimal), and
/// nothing else.
pub proof fn lemma_catalog_gateway_services_query_params(q: CatalogGatewayServicesQuery)
    ensures
        carries(q.params(), "dc"@, q.dc.deep_view()),
        only_once_among(q.params(), seq!["dc"@]),
{
    reveal_strlit("dc");
    let names = seq!["dc"@];
    let values = seq![q.dc.deep_view()];
    assert(names.no_duplicates());
    assert(q.params() =~= query_with(names, values)) by {
        reveal_with_fuel(params_upto, 2);
    }
    lemma_query_with(names, values);
    assert(carries(query_with(names, values), names[0], values[0]));
}

impl EventFireQuery {
    /// The query parameters of this query.
    pub open spec fn params(&self) -> Seq<(Seq<char>, Seq<char>)> {
        text_param("dc"@, self.dc.deep_view())
            + text_param("node"@, self.node.deep_view())
            + text_param("service"@, self.service.deep_view())
            + text_param("tag"@, self.tag.deep_view())
    }

    /// The query parameters of this query, in order.
    pub fn query_params(&self) -> (r: Vec<QueryParam>)
        ensures
            r.deep_view() == self.params(),
            carries(r.deep_view(), "dc"@, self.dc.deep_view()),
            carries(r.deep_view(), "node"@, self.node.deep_view()),
            carries(r.deep_view(), "service"@, self.service.deep_view()),
            carries(r.deep_view(), "tag"@, self.tag.deep_view()),
            only_once_among(r.deep_view(), seq!["dc"@, "node"@, "service"@, "tag"@]),
    {
        let mut p: Vec<QueryParam> = Vec::new();
        push_text(&mut p, "dc", &self.dc);
        push_text(&mut p, "node", &self.node);
        push_text(&mut p, "service", &self.service);
        push_text(&mut p, "tag", &self.tag);
        assert(p.deep_view() =~= self.params());
        proof {
            lemma_event_fire_query_params(*self);
        }
        p
    }
}

/// The query of `EventFireQuery` sends `dc`, `node`, `service`, `tag` each under its own name exactly
/// when it is set (a flag as `true` or `false`, a number in decimal), and
/// nothing else.
pub proof fn lemma_event_fire_query_params(q: EventFireQuery)
    ensures
        carries(q.params(), "dc"@, q.dc.deep_view()),
        carries(q.params(), "node"@, q.node.deep_view()),
        carries(q.params(), "service"@, q.service.deep_view()),
        carries(q.params(), "tag"@, q.tag.deep_view()),
        only_once_among(q.params(), seq!["dc"@, "node"@, "service"@, "tag"@]),
{
    reveal_strlit("dc");
    reveal_strlit("node");
    reveal_strlit("service");
    reveal_strlit("tag");
    let names = seq!["dc"@, "node"@, "service"@, "tag"@];
    let values = seq![q.dc.deep_view(), q.node.deep_view(), q.service.deep_view(), q.tag.deep_view()];
    assert(names[0].len() != names[1].len());
    assert(names[0].len() != names[2].len());
    assert(names[0].len() != names[3].len());
    assert(names[1].len() != names[2].len());
    assert(names[1].len() != names[3].len());
    assert(names[2].len() != names[3].len());
    assert(names.no_duplicates());
    assert(q.params() =~= query_with(names, values)) by {
        reveal_with_fuel(params_upto, 5);
    }
    lemma_query_with(names, values);
    assert(carries(query_with(names, values), names[0], values[0]));
    assert(carries(query_with(names, values), names[1], values[1]));
    assert(carries(query_with(names, values), names[2], values[2]));
    assert(carries(query_with(names, values), names[3], values[3]));
}

impl EventListQuery {
    /// The query parameters of this query.
    pub open spec fn params(&self) -> Seq<(Seq<char>, Seq<char>)> {
        text_param("name"@, self.name.deep_view())
            + text_param("node"@, self.node.deep_view())
            + text_param("service"@, self.service.deep_view())
            + text_param("tag"@, self.tag.deep_view())
    }

    /// The query parameters of this query, in order.
    pub fn query_params(&self) -> (r: Vec<QueryParam>)
        ensures
            r.deep_view() == self.params(),
            carries(r.deep_view(), "name"@, self.name.deep_view()),
            carries(r.deep_view(), "node"@, self.node.deep_view()),
            carries(r.deep_view(), "service"@, self.service.deep_view()),
            carries(r.deep_view(), "tag"@, self.tag.deep_view()),
            only_once_among(r.deep_view(), seq!["name"@, "node"@, "service"@, "tag"@]),
    {
        let mut p: Vec<QueryParam> = Vec::new();
        push_text(&mut p, "name", &self.name);
        push_text(&mut p, "node", &self.node);
        push_text(&mut p, "service", &self.service);
        push_text(&mut p, "tag", &self.tag);
        assert(p.deep_view() =~= self.params());
        proof {
            lemma_event_list_query_params(*self);
        }
        p
    }
}

/// The query of `EventListQuery` sends `name`, `node`, `service`, `tag` each under its own name exactly
/// when it is set (a flag as `true` or `false`, a number in decimal), and
/// nothing else.
pub proof fn lemma_event_list_query_params(q: EventListQuery)
    ensures
        carries(q.params(), "name"@, q.name.deep_view()),
        carries(q.params(), "node"@, q.node.deep_view()),
        carries(q.params(), "service"@, q.service.deep_view()),
        carries(q.params(), "tag"@, q.tag.deep_view()),
        only_once_among(q.params(), seq!["name"@, "node"@, "service"@, "tag"@]),
{
    reveal_strlit("name");
    reveal_strlit("node");
    reveal_strlit("service");
    reveal_strlit("tag");
    let names = seq!["name"@, "node"@, "service"@, "tag"@];
    let values = seq![q.name.deep_view(), q.node.deep_view(), q.service.deep_view(), q.tag.deep_view()];
    assert(names[0][1] != names[1][1]);
    assert(names[0].len() != names[2].len());
    assert(names[0].len() != names[3].len());
    assert(names[1].len() != names[2].len());
    assert(names[1].len() != names[3].len());
    assert(names[2].len() != names[3].len());
    assert(names.no_duplicates());
    assert(q.params() =~= query_with(names, values)) by {
        reveal_with_fuel(params_upto, 5);
    }
    lemma_query_with(names, values);
    assert(carries(query_with(names, values), names[0], values[0]));
    assert(carries(query_with(names, values), names[1], values[1]));
    assert(carries(query_with(names, values), names[2], values[2]));
    assert(carries(query_with(names, values), names[3], values[3]));
}

impl HealthListNodesQuery {
    /// The query parameters of this query.
    pub open spec fn params(&self) -> Seq<(Seq<char>, Seq<char>)> {
        text_param("dc"@, self.dc.deep_view())
            + text_param("filter"@, self.filter.deep_view())
    }

    /// The query parameters of this query, in order.
    pub fn query_params(&self) -> (r: Vec<QueryParam>)
        ensures
            r.deep_view() == self.params(),
            carries(r.deep_view(), "dc"@, self.dc.deep_view()),
            carries(r.deep_view(), "filter"@, self.filter.deep_view()),
            only_once_among(r.deep_view(), seq!["dc"@, "filter"@]),
    {
        let mut p: Vec<QueryParam> = Vec::new();
        push_text(&mut p, "dc", &self.dc);
        push_text(&mut p, "filter", &self.filter);
        assert(p.deep_view() =~= self.params());
        proof {
            lemma_health_list_nodes_query_params(*self);
        }
        p
    }
}

/// The query of `HealthListNodesQuery` sends `dc`, `filter` each under its own name exactly
/// when it is set (a flag as `true` or `false`, a number in decimal), and
/// nothing else.
pub proof fn lemma_health_list_nodes_query_params(q: HealthListNodesQuery)
    ensures
        carries(q.params(), "dc"@, q.dc.deep_view()),
        carries(q.params(), "filter"@, q.filter.deep_view()),
        only_once_among(q.params(), seq!["dc"@, "filter"@]),
{
    reveal_strlit("dc");
    reveal_strlit("filter");
    let names = seq!["dc"@, "filter"@];
    let values = seq![q.dc.deep_view(), q.filter.deep_view()];
    assert(names[0].len() != names[1].len());
    assert(names.no_duplicates());
    assert(q.params() =~= query_with(names, values)) by {
        reveal_with_fuel(params_upto, 3);
    }
    lemma_query_with(names, values);
    assert(carries(query_with(names, values), names[0], values[0]));
    assert(carries(query_with(names, values), names[1], values[1]));
}

impl HealthListServicesQuery {
    /// The query parameters of this query.
    pub open spec fn params(&self) -> Seq<(Seq<char>, Seq<char>)> {
        text_param("dc"@, self.dc.deep_view())
            + text_param("near"@, self.near.deep_view())
            + text_param("node-meta"@, self.node_meta.deep_view())
            + text_param("filter"@, self.filter.deep_view())
    }

    /// The query parameters of this query, in order.
    pub fn query_params(&self) -> (r: Vec<QueryParam>)
        ensures
            r.deep_view() == self.params(),
            carries(r.deep_view(), "dc"@, self.dc.deep_view()),
            carries(r.deep_view(), "near"@, self.near.deep_view()),
            carries(r.deep_view(), "node-meta"@, self.node_meta.deep_view()),
            carries(r.deep_view(), "filter"@, self.filter.deep_view()),
            only_once_among(r.deep_view(), seq!["dc"@, "near"@, "node-meta"@, "filter"@]),
    {
        let mut p: Vec<QueryParam> = Vec::new();
        push_text(&mut p, "dc", &self.dc);
        push_text(&mut p, "near", &self.near);
        push_text(&mut p, "node-meta", &self.node_meta);
        push_text(&mut p, "filter", &self.filter);
        assert(p.deep_view() =~= self.params());
        proof {
            lemma_health_list_services_query_params(*self);
        }
        p
    }
}

/// The query of `HealthListServicesQuery` sends `dc`, `near`, `node-meta`, `filter` each under its own name exactly
/// when it is set (a flag as `true` or `false`, a number in decimal), and
/// nothing else.
pub proof fn lemma_health_list_services_query_params(q: HealthListServicesQuery)
    ensures
        carries(q.params(), "dc"@, q.dc.deep_view()),
        carries(q.params(), "near"@, q.near.deep_view()),
        carries(q.params(), "node-meta"@, q.node_meta.deep_view()),
        carries(q.params(), "filter"@, q.filter.deep_view()),
        only_once_among(q.params(), seq!["dc"@, "near"@, "node-meta"@, "filter"@]),
{
    reveal_strlit("dc");
    reveal_strlit("near");
    reveal_strlit("node-meta");
    reveal_strlit("filter");
    let names = seq!["dc"@, "near"@, "node-meta"@, "filter"@];
    let values = seq![q.dc.deep_view(), q.near.deep_view(), q.node_meta.deep_view(), q.filter.deep_view()];
    assert(names[0].len() != names[1].len());
    assert(names[0].len() != names[2].len());
    assert(names[0].len() != names[3].len());
    assert(names[1].len() != names[2].len());
    assert(names[1].len() != names[3].len());
    assert(names[2].len() != names[3].len());
    assert(names.no_duplicates());
    assert(q.params() =~= query_with(names, values)) by {
        reveal_with_fuel(params_upto, 5);
    }
    lemma_query_with(names, values);
    assert(carries(query_with(names, values), names[0], values[0]));
    assert(carries(query_with(names, values), names[1], values[1]));
    assert(carries(query_with(names, values), names[2], values[2]));
    assert(carries(query_with(names, values), names[3], values[3]));
}

impl HealthListServiceInstancesQuery {
    /// The query parameters of this query.
    pub open spec fn params(&self) -> Seq<(Seq<char>, Seq<char>)> {
        text_param("dc"@, self.dc.deep_view())
            + text_param("near"@, self.near.deep_view())
            + text_param("tag"@, self.tag.deep_view())
            + text_param("node-meta"@, self.node_meta.deep_view())
            + flag_param("passing"@, self.passing)
            + text_param("filter"@, self.filter.deep_view())
            + text_param("peer"@, self.peer.deep_view())
    }

    /// The query parameters of this query, in order.
    pub fn query_params(&self) -> (r: Vec<QueryParam>)
        ensures
            r.deep_view() == self.params(),
            carries(r.deep_view(), "dc"@, self.dc.deep_view()),
            carries(r.deep_view(), "near"@, self.near.deep_view()),
            carries(r.deep_view(), "tag"@, self.tag.deep_view()),
            carries(r.deep_view(), "node-meta"@, self.node_meta.deep_view()),
            carries(r.deep_view(), "passing"@, flag_value(self.passing)),
            carries(r.deep_view(), "filter"@, self.filter.deep_view()),
            carries(r.deep_view(), "peer"@, self.peer.deep_view()),
            only_once_among(r.deep_view(), seq!["dc"@, "near"@, "tag"@, "node-meta"@, "passing"@, "filter"@, "peer"@]),
    {
        let mut p: Vec<QueryParam> = Vec::new();
        push_text(&mut p, "dc", &self.dc);
        push_text(&mut p, "near", &self.near);
        push_text(&mut p, "tag", &self.tag);
        push_text(&mut p, "node-meta", &self.node_meta);
        push_flag(&mut p, "passing", self.passing);
        push_text(&mut p, "filter", &self.filter);
        push_text(&mut p, "peer", &self.peer);
        assert(p.deep_view() =~= self.params());
        proof {
            lemma_health_list_service_instances_query_params(*self);
        }
        p
    }
}

/// The query of `HealthListServiceInstancesQuery` sends `dc`, `near`, `tag`, `node-meta`, `passing`, `filter`, `peer` each under its own name exactly
/// when it is set (a flag as `true` or `false`, a number in decimal), and
/// nothing else.
pub proof fn lemma_health_list_service_instances_query_params(q: HealthListServiceInstancesQuery)
    ensures
        carries(q.params(), "dc"@, q.dc.deep_view()),
        carries(q.params(), "near"@, q.near.deep_view()),
        carries(q.params(), "tag"@, q.tag.deep_view()),
        carries(q.params(), "node-meta"@, q.node_meta.deep_view()),
        carries(q.params(), "passing"@, flag_value(q.passing)),
        carries(q.params(), "filter"@, q.filter.deep_view()),
        carries(q.params(), "peer"@, q.peer.deep_view()),
        only_once_among(q.params(), seq!["dc"@, "near"@, "tag"@, "node-meta"@, "passing"@, "filter"@, "peer"@]),
{
    reveal_strlit("dc");
    reveal_strlit("near");
    reveal_strlit("tag");
    reveal_strlit("node-meta");
    reveal_strlit("passing");
    reveal_strlit("filter");
    reveal_strlit("peer");
    let names = seq!["dc"@, "near"@, "tag"@, "node-meta"@, "passing"@, "filter"@, "peer"@];
    let values = seq![q.dc.deep_view(), q.near.deep_view(), q.tag.deep_view(), q.node_meta.deep_view(), flag_value(q.passing), q.filter.deep_view(), q.peer.deep_view()];
    assert(names[0].len() != names[1].len());
    assert(names[0].len() != names[2].len());
    assert(names[0].len() != names[3].len());
    assert(names[0].len() != names[4].len());
    assert(names[0].len() != names[5].len());
    assert(names[0].len() != names[6].len());
    assert(names[1].len() != names[2].len());
    assert(names[1].len() != names[3].len());
    assert(names[1].len() != names[4].len());
    assert(names[1].len() != names[5].len());
    assert(names[1][0] != names[6][0]);
    assert(names[2].len() != names[3].len());
    assert(names[2].len() != names[4].len());
    assert(names[2].len() != names[5].len());
    assert(names[2].len() != names[6].len());
    assert(names[3].len() != names[4].len());
    assert(names[3].len() != names[5].len());
    assert(names[3].len() != names[6].len());
    assert(names[4].len() != names[5].len());
    assert(names[4].len() != names[6].len());
    assert(names[5].len() != names[6].len());
    assert(names.no_duplicates());
    assert(q.params() =~= query_with(names, values)) by {
        reveal_with_fuel(params_upto, 8);
    }
    lemma_query_with(names, values);
    assert(carries(query_with(names, values), names[0], values[0]));
    assert(carries(query_with(names, values), names[1], values[1]));
    assert(carries(query_with(names, values), names[2], values[2]));
    assert(carries(query_with(names, values), names[3], values[3]));
    assert(carries(query_with(names, values), names[4], values[4]));
    assert(carries(query_with(names, values), names[5], values[5]));
    assert(carries(query_with(names, values), names[6], values[6]));
}

impl HealthListStateQuery {
    /// The query parameters of this query.
    pub open spec fn params(&self) -> Seq<(Seq<char>, Seq<char>)> {
        text_param("dc"@, self.dc.deep_view())
            + text_param("near"@, self.near.deep_view())
            + text_param("node-meta"@, self.node_meta.deep_view())
            + text_param("filter"@, self.filter.deep_view())
    }

    /// The query parameters of this query, in order.
    pub fn query_params(&self) -> (r: Vec<QueryParam>)
        ensures
            r.deep_view() == self.params(),
            carries(r.deep_view(), "dc"@, self.dc.deep_view()),
            carries(r.deep_view(), "near"@, self.near.deep_view()),
            carries(r.deep_view(), "node-meta"@, self.node_meta.deep_view()),
            carries(r.deep_view(), "filter"@, self.filter.deep_view()),
            only_once_among(r.deep_view(), seq!["dc"@, "near"@, "node-meta"@, "filter"@]),
    {
        let mut p: Vec<QueryParam> = Vec::new();
        push_text(&mut p, "dc", &self.dc);
        push_text(&mut p, "near", &self.near);
        push_text(&mut p, "node-meta", &self.node_meta);
        push_text(&mut p, "filter", &self.filter);
        assert(p.deep_view() =~= self.params());
        proof {
            lemma_health_list_state_query_params(*self);
        }
        p
    }
}

/// The query of `HealthListStateQuery` sends `dc`, `near`, `node-meta`, `filter` each under its own name exactly
/// when it is set (a flag as `true` or `false`, a number in decimal), and
/// nothing else.
pub proof fn lemma_health_list_state_query_params(q: HealthListStateQuery)
    ensures
        carries(q.params(), "dc"@, q.dc.deep_view()),
        carries(q.params(), "near"@, q.near.deep_view()),
        carries(q.params(), "node-meta"@, q.node_meta.deep_view()),
        carries(q.params(), "filter"@, q.filter.deep_view()),
        only_once_among(q.params(), seq!["dc"@, "near"@, "node-meta"@, "filter"@]),
{
    reveal_strlit("dc");
    reveal_strlit("near");
    reveal_strlit("node-meta");
    reveal_strlit("filter");
    let names = seq!["dc"@, "near"@, "node-meta"@, "filter"@];
    let values = seq![q.dc.deep_view(), q.near.deep_view(), q.node_meta.deep_view(), q.filter.deep_view()];
    assert(names[0].len() != names[1].len());
    assert(names[0].len() != names[2].len());
    assert(names[0].len() != names[3].len());
    assert(names[1].len() != names[2].len());
    assert(names[1].len() != names[3].len());
    assert(names[2].len() != names[3].len());
    assert(names.no_duplicates());
    assert(q.params() =~= query_with(names, values)) by {
        reveal_with_fuel(params_upto, 5);
    }
    lemma_query_with(names, values);
    assert(carries(query_with(names, values), names[0], values[0]));
    assert(carries(query_with(names, values), names[1], values[1]));
    assert(carries(query_with(names, values), names[2], values[2]));
    assert(carries(query_with(names, values), names[3], values[3]));
}

impl StatusQuery {
    /// The query parameters of this query.
    pub open spec fn params(&self) -> Seq<(Seq<char>, Seq<char>)> {
        text_param("dc"@, self.dc.deep_view())
    }

    /// The query parameters of this query, in order.
    pub fn query_params(&self) -> (r: Vec<QueryParam>)
        ensures
            r.deep_view() == self.params(),
            carries(r.deep_view(), "dc"@, self.dc.deep_view()),
            only_once_among(r.deep_view(), seq!["dc"@]),
    {
        let mut p: Vec<QueryParam> = Vec::new();
        push_text(&mut p, "dc", &self.dc);
        assert(p.deep_view() =~= self.params());
        proof {
            lemma_status_query_params(*self);
        }
        p
    }
}

/// The query of `StatusQuery` sends `dc` each under its own name exactly
/// when it is set (a flag as `true` or `false`, a number in decimal), and
/// nothing else.
pub proof fn lemma_status_query_params(q: StatusQuery)
    ensures
        carries(q.params(), "dc"@, q.dc.deep_view()),
        only_once_among(q.params(), seq!["dc"@]),
{
    reveal_strlit("dc");
    let names = seq!["dc"@];
    let values = seq![q.dc.deep_view()];
    assert(names.no_duplicates());
    assert(q.params() =~= query_with(names, values)) by {
        reveal_with_fuel(params_upto, 2);
    }
    lemma_query_with(names, values);
    assert(carries(query_with(names, values), names[0], values[0]));
}

impl NamespaceReadQuery {
    /// The query parameters of this query.
    pub open spec fn params(&self) -> Seq<(Seq<char>, Seq<char>)> {
        text_param("partition"@, self.partition.deep_view())
    }

    /// The query parameters of this query, in order.
    pub fn query_params(&self) -> (r: Vec<QueryParam>)
        ensures
            r.deep_view() == self.params(),
            carries(r.deep_view(), "partition"@, self.partition.deep_view()),
            only_once_among(r.deep_view(), seq!["partition"@]),
    {
        let mut p: Vec<QueryParam> = Vec::new();
        push_text(&mut p, "partition", &self.partition);
        assert(p.deep_view() =~= self.params());
        proof {
            lemma_namespace_read_query_params(*self);
        }
        p
    }
}

/// The query of `NamespaceReadQuery` sends `partition` each under its own name exactly
/// when it is set (a flag as `true` or `false`, a number in decimal), and
/// nothing else.
pub proof fn lemma_namespace_read_query_params(q: NamespaceReadQuery)
    ensures
        carries(q.params(), "partition"@, q.partition.deep_view()),
        only_once_among(q.params(), seq!["partition"@]),
{
    reveal_strlit("partition");
    let names = seq!["partition"@];
    let values = seq![q.partition.deep_view()];
    assert(names.no_duplicates());
    assert(q.params() =~= query_with(names, values)) by {
        reveal_with_fuel(params_upto, 2);
    }
    lemma_query_with(names, values);
    assert(carries(query_with(names, values), names[0], values[0]));
}

} // verus!
