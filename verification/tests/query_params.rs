use consul_api::{
    bool_string, decimal_string, AgentTTLCheckRequestQuery, CatalogListServicesQuery,
    EnableMaintenanceModeRequestQuery, FilterRequestQuery, HealthListServiceInstancesQuery,
    KVDeleteKeyQuery, LocalServiceHealthByNameRequestQuery, NamespaceReadQuery,
    RegisterServiceRequestQuery, ServiceConfigurationRequestQuery,
};

fn pairs(v: &[(&str, &str)]) -> Vec<(String, String)> {
    v.iter().map(|(k, x)| (k.to_string(), x.to_string())).collect()
}

#[test]
fn numbers_are_decimal() {
    assert_eq!(decimal_string(0), "0");
    assert_eq!(decimal_string(7), "7");
    assert_eq!(decimal_string(10), "10");
    assert_eq!(decimal_string(8500), "8500");
    assert_eq!(decimal_string(u64::MAX), "18446744073709551615");
}

#[test]
fn flags_are_true_or_false() {
    assert_eq!(bool_string(true), "true");
    assert_eq!(bool_string(false), "false");
}

#[test]
fn none_fields_are_left_out() {
    assert_eq!(FilterRequestQuery::default().query_params(), pairs(&[]));
    assert_eq!(CatalogListServicesQuery::default().query_params(), pairs(&[]));
    assert_eq!(LocalServiceHealthByNameRequestQuery::default().query_params(), pairs(&[]));
}

#[test]
fn renamed_fields_use_the_api_names() {
    let q = CatalogListServicesQuery {
        dc: Some("dc1".to_string()),
        node_meta: Some("env:prod".to_string()),
        filter: Some("Service == web".to_string()),
    };
    assert_eq!(q.query_params(), pairs(&[("dc", "dc1"), ("node-meta", "env:prod"), ("filter", "Service == web")]));
    let q = RegisterServiceRequestQuery { replace_existing_checks: Some("true".to_string()) };
    assert_eq!(q.query_params(), pairs(&[("replace-existing-checks", "true")]));
}

#[test]
fn path_identifiers_stay_out_of_the_query() {
    let q = AgentTTLCheckRequestQuery { check_id: "ttl-1".to_string(), note: Some("ok".to_string()) };
    assert_eq!(q.query_params(), pairs(&[("note", "ok")]));
    let q = ServiceConfigurationRequestQuery { service_id: "web-1".to_string() };
    assert_eq!(q.query_params(), pairs(&[]));
    let q = EnableMaintenanceModeRequestQuery {
        service_id: "test-service-maintenance-12345".to_string(),
        enable: true,
        reason: Some("Testing maintenance mode".to_string()),
    };
    assert_eq!(q.query_params(), pairs(&[("enable", "true"), ("reason", "Testing maintenance mode")]));
}

#[test]
fn flags_and_numbers_in_queries() {
    let q = KVDeleteKeyQuery { dc: None, recurse: Some(true), cas: Some(17) };
    assert_eq!(q.query_params(), pairs(&[("recurse", "true"), ("cas", "17")]));
    let q = HealthListServiceInstancesQuery { passing: Some(false), peer: Some("p".to_string()), ..Default::default() };
    assert_eq!(q.query_params(), pairs(&[("passing", "false"), ("peer", "p")]));
    let q = NamespaceReadQuery { partition: Some("default".to_string()) };
    assert_eq!(q.query_params(), pairs(&[("partition", "default")]));
}
