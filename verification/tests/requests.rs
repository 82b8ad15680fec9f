use consul_api::{
    request_body, AgentTTLCheckRequestQuery, AgentTTLCheckUpdateRequestQuery,
    CatalogDeregisterEntityQuery, CatalogGatewayServicesQuery, CatalogListNodesForServiceQuery,
    CatalogListServicesQuery, CatalogNodeServicesQuery, CatalogRegisterEntityQuery, Client,
    Config, ConnectAuthorizeRequestQuery, DeregisterCheckRequestQuery,
    DeregisterServiceRequestQuery, EnableMaintenanceModeRequestQuery, EventFireQuery,
    EventListQuery, FilterRequestQuery, HealthListNodesQuery, HealthListServiceInstancesQuery,
    HealthListServicesQuery, HealthListStateQuery, HttpMethod, KVCreateOrUpdateKeyQuery,
    KVDeleteKeyQuery, KVReadKeyQuery, LocalServiceHealthByIDRequestQuery,
    LocalServiceHealthByNameRequestQuery, NamespaceReadQuery, RegisterServiceRequestQuery,
    RequestBody, ServiceConfigurationRequestQuery, StatusQuery,
};

fn client() -> Client {
    Client::new(Config { token: String::new(), address: "http://127.0.0.1:8500".to_string() })
}

const BASE: &str = "http://127.0.0.1:8500/v1";

#[test]
fn prepare_request_joins_address_prefix_and_path() {
    let c = Client::new(Config { token: String::new(), address: "https://consul.example:8501".to_string() });
    let r = c.prepare_request(HttpMethod::Get, "/status/leader", vec![], None);
    assert_eq!(r.url, "https://consul.example:8501/v1/status/leader");
    assert_eq!(r.method, HttpMethod::Get);
    assert_eq!(r.body, RequestBody::Empty);
}

#[test]
fn only_put_and_post_carry_a_body() {
    assert_eq!(request_body(HttpMethod::Get, Some(vec![1, 2])), RequestBody::Empty);
    assert_eq!(request_body(HttpMethod::Delete, Some(vec![1, 2])), RequestBody::Empty);
    assert_eq!(request_body(HttpMethod::Delete, None), RequestBody::Empty);
    assert_eq!(request_body(HttpMethod::Put, Some(vec![1, 2])), RequestBody::Raw(vec![1, 2]));
    assert_eq!(request_body(HttpMethod::Post, Some(vec![])), RequestBody::Raw(vec![]));
    assert_eq!(request_body(HttpMethod::Put, None), RequestBody::Json);
    assert_eq!(request_body(HttpMethod::Post, None), RequestBody::Json);
}

#[test]
fn agent_requests() {
    let c = client();
    let r = c.agent_checks_request(&FilterRequestQuery::default());
    assert_eq!((r.method, r.url.as_str(), &r.body), (HttpMethod::Get, format!("{BASE}/agent/checks").as_str(), &RequestBody::Empty));
    let r = c.agent_check_register_request();
    assert_eq!((r.method, r.url, r.body), (HttpMethod::Put, format!("{BASE}/agent/check/register"), RequestBody::Json));
    let q = DeregisterCheckRequestQuery { check_id: "test-check-12345".to_string() };
    let r = c.agent_check_deregister_request(&q);
    assert_eq!((r.method, r.url, r.body), (HttpMethod::Put, format!("{BASE}/agent/check/deregister/test-check-12345"), RequestBody::Json));
    let q = AgentTTLCheckRequestQuery { check_id: "ttl-1".to_string(), note: None };
    assert_eq!(c.agent_check_pass_request(&q).url, format!("{BASE}/agent/check/pass/ttl-1"));
    assert_eq!(c.agent_check_warn_request(&q).url, format!("{BASE}/agent/check/warn/ttl-1"));
    assert_eq!(c.agent_check_fail_request(&q).url, format!("{BASE}/agent/check/fail/ttl-1"));
    let q = AgentTTLCheckUpdateRequestQuery { check_id: "ttl-2".to_string() };
    assert_eq!(c.agent_check_update_request(&q).url, format!("{BASE}/agent/check/update/ttl-2"));
    assert_eq!(c.agent_services_request(&FilterRequestQuery::default()).url, format!("{BASE}/agent/services"));
    let q = ServiceConfigurationRequestQuery { service_id: "web-1".to_string() };
    let r = c.agent_service_configuration_request(&q);
    assert_eq!((r.method, r.url, r.body), (HttpMethod::Get, format!("{BASE}/agent/service/web-1"), RequestBody::Empty));
    assert_eq!(c.agent_get_service_health_by_name_request("consul", &LocalServiceHealthByNameRequestQuery::default()).url, format!("{BASE}/agent/health/service/name/consul"));
    assert_eq!(c.agent_get_service_health_by_id_request("web-1", &LocalServiceHealthByIDRequestQuery::default()).url, format!("{BASE}/agent/health/service/id/web-1"));
    assert_eq!(c.agent_register_service_request(&RegisterServiceRequestQuery::default()).url, format!("{BASE}/agent/service/register"));
    let r = c.agent_deregister_service_request("web-1", &DeregisterServiceRequestQuery::default());
    assert_eq!((r.method, r.url), (HttpMethod::Put, format!("{BASE}/agent/service/deregister/web-1")));
    let q = EnableMaintenanceModeRequestQuery { service_id: "web-1".to_string(), enable: true, reason: None };
    assert_eq!(c.agent_enable_maintenance_mode_request(&q).url, format!("{BASE}/agent/service/maintenance/web-1"));
    let r = c.agent_connect_authorize_request(&ConnectAuthorizeRequestQuery::default());
    assert_eq!((r.method, r.url, r.body), (HttpMethod::Post, format!("{BASE}/agent/connect/authorize"), RequestBody::Json));
}

#[test]
fn catalog_requests() {
    let c = client();
    let r = c.catalog_register_entity_request(&CatalogRegisterEntityQuery::default());
    assert_eq!((r.method, r.url, r.body), (HttpMethod::Put, format!("{BASE}/catalog/register"), RequestBody::Json));
    assert_eq!(c.catalog_deregister_entity_request(&CatalogDeregisterEntityQuery::default()).url, format!("{BASE}/catalog/deregister"));
    assert_eq!(c.catalog_list_datacenters_request().url, format!("{BASE}/catalog/datacenters"));
    assert_eq!(c.catalog_list_nodes_request().url, format!("{BASE}/catalog/nodes"));
    assert_eq!(c.catalog_list_services_request(&CatalogListServicesQuery::default()).url, format!("{BASE}/catalog/services"));
    assert_eq!(c.catalog_list_nodes_for_service_request("consul", &CatalogListNodesForServiceQuery::default()).url, format!("{BASE}/catalog/service/consul"));
    assert_eq!(c.catalog_list_nodes_for_mesh_capable_service_request("consul", &CatalogListNodesForServiceQuery::default()).url, format!("{BASE}/catalog/connect/consul"));
    assert_eq!(c.catalog_node_services_request("node-1", &CatalogNodeServicesQuery::default()).url, format!("{BASE}/catalog/node/node-1"));
    let r = c.catalog_gateway_services_request("gw", &CatalogGatewayServicesQuery::default());
    assert_eq!((r.method, r.url, r.body), (HttpMethod::Get, format!("{BASE}/catalog/gateway-services/gw"), RequestBody::Empty));
}

#[test]
fn event_requests() {
    let c = client();
    let r = c.event_fire_request("test-event-12345", None, &EventFireQuery::default());
    assert_eq!((r.method, r.url, r.body), (HttpMethod::Put, format!("{BASE}/event/fire/test-event-12345"), RequestBody::Json));
    let r = c.event_fire_request("deploy", Some(b"{\"version\": \"1.0.0\"}".to_vec()), &EventFireQuery::default());
    assert_eq!(r.body, RequestBody::Raw(b"{\"version\": \"1.0.0\"}".to_vec()));
    let r = c.event_list_request(&EventListQuery::default());
    assert_eq!((r.method, r.url, r.body), (HttpMethod::Get, format!("{BASE}/event/list"), RequestBody::Empty));
}

#[test]
fn health_requests() {
    let c = client();
    assert_eq!(c.health_list_nodes_request("consul", &HealthListNodesQuery::default()).url, format!("{BASE}/health/node/consul"));
    assert_eq!(c.health_list_services_request("consul", &HealthListServicesQuery::default()).url, format!("{BASE}/health/checks/consul"));
    assert_eq!(c.health_list_service_instances_request("web", &HealthListServiceInstancesQuery::default()).url, format!("{BASE}/health/service/web"));
    assert_eq!(c.health_list_service_instances_for_mesh_capable_request("web", &HealthListServiceInstancesQuery::default()).url, format!("{BASE}/health/connect/web"));
    assert_eq!(c.health_list_service_instances_for_ingress_gateways_request("web", &HealthListServiceInstancesQuery::default()).url, format!("{BASE}/health/ingress/web"));
    let r = c.health_list_state_request("passing", &HealthListStateQuery::default());
    assert_eq!((r.method, r.url, r.body), (HttpMethod::Get, format!("{BASE}/health/state/passing"), RequestBody::Empty));
}

#[test]
fn kv_requests() {
    let c = client();
    let r = c.kv_create_or_update_key_request("test-integration-key", b"test-value".to_vec(), &KVCreateOrUpdateKeyQuery::default());
    assert_eq!((r.method, r.url, r.body), (HttpMethod::Put, format!("{BASE}/kv/test-integration-key"), RequestBody::Raw(b"test-value".to_vec())));
    let r = c.kv_create_or_update_key_request("empty", vec![], &KVCreateOrUpdateKeyQuery::default());
    assert_eq!(r.body, RequestBody::Raw(vec![]));
    let r = c.kv_read_key_request("my-app/config", &KVReadKeyQuery::default());
    assert_eq!((r.method, r.url, r.body), (HttpMethod::Get, format!("{BASE}/kv/my-app/config"), RequestBody::Empty));
    let r = c.kv_delete_key_request("my-app/config", &KVDeleteKeyQuery::default());
    assert_eq!((r.method, r.url, r.body), (HttpMethod::Delete, format!("{BASE}/kv/my-app/config"), RequestBody::Empty));
}

#[test]
fn status_requests() {
    let c = client();
    assert_eq!(c.status_leader_request(&StatusQuery::default()).url, format!("{BASE}/status/leader"));
    assert_eq!(c.status_peers_request(&StatusQuery::default()).url, format!("{BASE}/status/peers"));
}

#[test]
fn namespace_requests() {
    let c = client();
    let r = c.namespace_create_request();
    assert_eq!((r.method, r.url, r.body), (HttpMethod::Put, format!("{BASE}/namespace"), RequestBody::Json));
    let r = c.namespace_read_request("team-a", &NamespaceReadQuery::default());
    assert_eq!((r.method, r.url, r.body), (HttpMethod::Get, format!("{BASE}/namespace/team-a"), RequestBody::Empty));
    let r = c.namespace_update_request("team-a");
    assert_eq!((r.method, r.url, r.body), (HttpMethod::Put, format!("{BASE}/namespace/team-a"), RequestBody::Json));
}

fn pairs(v: &[(&str, &str)]) -> Vec<(String, String)> {
    v.iter().map(|(k, x)| (k.to_string(), x.to_string())).collect()
}

#[test]
fn requests_carry_their_query_parameters() {
    let c = client();
    let q = KVReadKeyQuery { raw: Some(true), ..Default::default() };
    assert_eq!(c.kv_read_key_request("k", &q).query, pairs(&[("raw", "true")]));
    let q = KVCreateOrUpdateKeyQuery { dc: Some("dc1".to_string()), flags: Some(42), cas: Some(0), ..Default::default() };
    assert_eq!(c.kv_create_or_update_key_request("k", vec![], &q).query, pairs(&[("dc", "dc1"), ("flags", "42"), ("cas", "0")]));
    let q = DeregisterCheckRequestQuery { check_id: "test-check-12345".to_string() };
    assert_eq!(c.agent_check_deregister_request(&q).query, pairs(&[]));
    let q = EnableMaintenanceModeRequestQuery { service_id: "web-1".to_string(), enable: false, reason: None };
    assert_eq!(c.agent_enable_maintenance_mode_request(&q).query, pairs(&[("enable", "false")]));
    assert_eq!(c.catalog_list_datacenters_request().query, pairs(&[]));
    assert_eq!(c.status_leader_request(&StatusQuery::default()).query, pairs(&[]));
}
