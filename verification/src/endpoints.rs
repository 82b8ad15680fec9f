//! The request of each call of the API.
//!
//! Every call is one request: a method and a path below the API prefix,
//! where an identifier named by the call (a check, a service, a node, a key)
//! is appended to the path as it is. A `PUT` or `POST` sends the call's value
//! as the JSON body unless it sends raw bytes; a call that has no value of its
//! own sends the JSON `null`.

use vstd::prelude::*;
use crate::client::{body_for, bytes_view, BodyView, Client, HttpMethod, PreparedRequest};
use crate::query::{
    AgentTTLCheckRequestQuery, AgentTTLCheckUpdateRequestQuery, CatalogDeregisterEntityQuery,
    CatalogGatewayServicesQuery, CatalogListNodesForServiceQuery, CatalogListServicesQuery,
    CatalogNodeServicesQuery, CatalogRegisterEntityQuery, ConnectAuthorizeRequestQuery,
    DeregisterCheckRequestQuery, DeregisterServiceRequestQuery, EnableMaintenanceModeRequestQuery,
    EventFireQuery, EventListQuery, FilterRequestQuery, HealthListNodesQuery,
    HealthListServiceInstancesQuery, HealthListServicesQuery, HealthListStateQuery,
    KVCreateOrUpdateKeyQuery, KVDeleteKeyQuery, KVReadKeyQuery,
    LocalServiceHealthByIDRequestQuery, LocalServiceHealthByNameRequestQuery, NamespaceReadQuery,
    RegisterServiceRequestQuery, ServiceConfigurationRequestQuery, StatusQuery,
};

verus! {

/// A path made of a fixed part followed by an identifier.
fn api_path(fixed: &str, id: &str) -> (r: String)
    ensures
        r@ == fixed@ + id@,
{
    let mut p = String::from_str(fixed);
    p.append(id);
    p
}

impl Client {
    /// `GET /agent/checks`. List Checks: all checks registered with the local agent.
    pub fn agent_checks_request(&self, q: &FilterRequestQuery) -> (r: PreparedRequest)
        ensures
            r.method == HttpMethod::Get,
            r.url@ == self@.base_url() + "/agent/checks"@,
            r.query.deep_view() == q.params(),
            r.body@ == BodyView::Empty,
    {
        self.prepare_request(HttpMethod::Get, "/agent/checks", q.query_params(), None)
    }

    /// `PUT /agent/check/register`. Register Check: adds the check given as the JSON body to the local agent.
    pub fn agent_check_register_request(&self) -> (r: PreparedRequest)
        ensures
            r.method == HttpMethod::Put,
            r.url@ == self@.base_url() + "/agent/check/register"@,
            r.query.deep_view() == Seq::<(Seq<char>, Seq<char>)>::empty(),
            r.body@ == BodyView::Json,
    {
        self.prepare_request(HttpMethod::Put, "/agent/check/register", Vec::new(), None)
    }

    /// `PUT /agent/check/deregister/{check_id}`. Deregister Check: removes the check `q.check_id` from the local agent.
    pub fn agent_check_deregister_request(&self, q: &DeregisterCheckRequestQuery) -> (r: PreparedRequest)
        ensures
            r.method == HttpMethod::Put,
            r.url@ == self@.base_url() + "/agent/check/deregister/"@ + q.check_id@,
            r.query.deep_view() == q.params(),
            r.body@ == BodyView::Json,
    {
        let path = api_path("/agent/check/deregister/", q.check_id.as_str());
        self.prepare_request(HttpMethod::Put, path.as_str(), q.query_params(), None)
    }

    /// `PUT /agent/check/pass/{check_id}`. TTL Check Pass: sets the TTL check `q.check_id` to passing.
    pub fn agent_check_pass_request(&self, q: &AgentTTLCheckRequestQuery) -> (r: PreparedRequest)
        ensures
            r.method == HttpMethod::Put,
            r.url@ == self@.base_url() + "/agent/check/pass/"@ + q.check_id@,
            r.query.deep_view() == q.params(),
            r.body@ == BodyView::Json,
    {
        let path = api_path("/agent/check/pass/", q.check_id.as_str());
        self.prepare_request(HttpMethod::Put, path.as_str(), q.query_params(), None)
    }

    /// `PUT /agent/check/warn/{check_id}`. TTL Check Warn: sets the TTL check `q.check_id` to warning.
    pub fn agent_check_warn_request(&self, q: &AgentTTLCheckRequestQuery) -> (r: PreparedRequest)
        ensures
            r.method == HttpMethod::Put,
            r.url@ == self@.base_url() + "/agent/check/warn/"@ + q.check_id@,
            r.query.deep_view() == q.params(),
            r.body@ == BodyView::Json,
    {
        let path = api_path("/agent/check/warn/", q.check_id.as_str());
        self.prepare_request(HttpMethod::Put, path.as_str(), q.query_params(), None)
    }

    /// `PUT /agent/check/fail/{check_id}`. TTL Check Fail: sets the TTL check `q.check_id` to critical.
    pub fn agent_check_fail_request(&self, q: &AgentTTLCheckRequestQuery) -> (r: PreparedRequest)
        ensures
            r.method == HttpMethod::Put,
            r.url@ == self@.base_url() + "/agent/check/fail/"@ + q.check_id@,
            r.query.deep_view() == q.params(),
            r.body@ == BodyView::Json,
    {
        let path = api_path("/agent/check/fail/", q.check_id.as_str());
        self.prepare_request(HttpMethod::Put, path.as_str(), q.query_params(), None)
    }

    /// `PUT /agent/check/update/{check_id}`. TTL Check Update: sets the status of the TTL check `q.check_id` to the one in the JSON body.
    pub fn agent_check_update_request(&self, q: &AgentTTLCheckUpdateRequestQuery) -> (r: PreparedRequest)
        ensures
            r.method == HttpMethod::Put,
            r.url@ == self@.base_url() + "/agent/check/update/"@ + q.check_id@,
            r.query.deep_view() == q.params(),
            r.body@ == BodyView::Json,
    {
        let path = api_path("/agent/check/update/", q.check_id.as_str());
        self.prepare_request(HttpMethod::Put, path.as_str(), q.query_params(), None)
    }

    /// `GET /agent/services`. List Services: all services registered with the local agent.
    pub fn agent_services_request(&self, q: &FilterRequestQuery) -> (r: PreparedRequest)
        ensures
            r.method == HttpMethod::Get,
            r.url@ == self@.base_url() + "/agent/services"@,
            r.query.deep_view() == q.params(),
            r.body@ == BodyView::Empty,
    {
        self.prepare_request(HttpMethod::Get, "/agent/services", q.query_params(), None)
    }

    /// `GET /agent/service/{service_id}`. Get Service Configuration: the service `q.service_id` of the local agent.
    pub fn agent_service_configuration_request(&self, q: &ServiceConfigurationRequestQuery) -> (r: PreparedRequest)
        ensures
            r.method == HttpMethod::Get,
            r.url@ == self@.base_url() + "/agent/service/"@ + q.service_id@,
            r.query.deep_view() == q.params(),
            r.body@ == BodyView::Empty,
    {
        let path = api_path("/agent/service/", q.service_id.as_str());
        self.prepare_request(HttpMethod::Get, path.as_str(), q.query_params(), None)
    }

    /// `GET /agent/health/service/name/{service_name}`. Get local service health: the aggregated state of the services named `service_name`.
    pub fn agent_get_service_health_by_name_request(&self, service_name: &str, q: &LocalServiceHealthByNameRequestQuery) -> (r: PreparedRequest)
        ensures
            r.method == HttpMethod::Get,
            r.url@ == self@.base_url() + "/agent/health/service/name/"@ + service_name@,
            r.query.deep_view() == q.params(),
            r.body@ == BodyView::Empty,
    {
        let path = api_path("/agent/health/service/name/", service_name);
        self.prepare_request(HttpMethod::Get, path.as_str(), q.query_params(), None)
    }

    /// `GET /agent/health/service/id/{service_id}`. Get local service health by ID: the health of the service `service_id`.
    pub fn agent_get_service_health_by_id_request(&self, service_id: &str, q: &LocalServiceHealthByIDRequestQuery) -> (r: PreparedRequest)
        ensures
            r.method == HttpMethod::Get,
            r.url@ == self@.base_url() + "/agent/health/service/id/"@ + service_id@,
            r.query.deep_view() == q.params(),
            r.body@ == BodyView::Empty,
    {
        let path = api_path("/agent/health/service/id/", service_id);
        self.prepare_request(HttpMethod::Get, path.as_str(), q.query_params(), None)
    }

    /// `PUT /agent/service/register`. Register Service: adds the service given as the JSON body to the local agent.
    pub fn agent_register_service_request(&self, q: &RegisterServiceRequestQuery) -> (r: PreparedRequest)
        ensures
            r.method == HttpMethod::Put,
            r.url@ == self@.base_url() + "/agent/service/register"@,
            r.query.deep_view() == q.params(),
            r.body@ == BodyView::Json,
    {
        self.prepare_request(HttpMethod::Put, "/agent/service/register", q.query_params(), None)
    }

    /// `PUT /agent/service/deregister/{service_id}`. Deregister Service: removes the service `service_id` from the local agent.
    pub fn agent_deregister_service_request(&self, service_id: &str, q: &DeregisterServiceRequestQuery) -> (r: PreparedRequest)
        ensures
            r.method == HttpMethod::Put,
            r.url@ == self@.base_url() + "/agent/service/deregister/"@ + service_id@,
            r.query.deep_view() == q.params(),
            r.body@ == BodyView::Json,
    {
        let path = api_path("/agent/service/deregister/", service_id);
        self.prepare_request(HttpMethod::Put, path.as_str(), q.query_params(), None)
    }

    /// `PUT /agent/service/maintenance/{service_id}`. Enable Maintenance Mode: puts the service `q.service_id` into or out of maintenance mode.
    pub fn agent_enable_maintenance_mode_request(&self, q: &EnableMaintenanceModeRequestQuery) -> (r: PreparedRequest)
        ensures
            r.method == HttpMethod::Put,
            r.url@ == self@.base_url() + "/agent/service/maintenance/"@ + q.service_id@,
            r.query.deep_view() == q.params(),
            r.body@ == BodyView::Json,
    {
        let path = api_path("/agent/service/maintenance/", q.service_id.as_str());
        self.prepare_request(HttpMethod::Put, path.as_str(), q.query_params(), None)
    }

    /// `POST /agent/connect/authorize`. Authorize: asks whether the connection described by the JSON body is allowed.
    pub fn agent_connect_authorize_request(&self, q: &ConnectAuthorizeRequestQuery) -> (r: PreparedRequest)
        ensures
            r.method == HttpMethod::Post,
            r.url@ == self@.base_url() + "/agent/connect/authorize"@,
            r.query.deep_view() == q.params(),
            r.body@ == BodyView::Json,
    {
        self.prepare_request(HttpMethod::Post, "/agent/connect/authorize", q.query_params(), None)
    }

    /// `PUT /catalog/register`. Catalog Register Entity: registers or updates the catalog entries given as the JSON body.
    pub fn catalog_register_entity_request(&self, q: &CatalogRegisterEntityQuery) -> (r: PreparedRequest)
        ensures
            r.method == HttpMethod::Put,
            r.url@ == self@.base_url() + "/catalog/register"@,
            r.query.deep_view() == q.params(),
            r.body@ == BodyView::Json,
    {
        self.prepare_request(HttpMethod::Put, "/catalog/register", q.query_params(), None)
    }

    /// `PUT /catalog/deregister`. Catalog Deregister Entity: removes the catalog entries given as the JSON body.
    pub fn catalog_deregister_entity_request(&self, q: &CatalogDeregisterEntityQuery) -> (r: PreparedRequest)
        ensures
            r.method == HttpMethod::Put,
            r.url@ == self@.base_url() + "/catalog/deregister"@,
            r.query.deep_view() == q.params(),
            r.body@ == BodyView::Json,
    {
        self.prepare_request(HttpMethod::Put, "/catalog/deregister", q.query_params(), None)
    }

    /// `GET /catalog/datacenters`. Catalog List Datacenters: all known datacenters.
    pub fn catalog_list_datacenters_request(&self) -> (r: PreparedRequest)
        ensures
            r.method == HttpMethod::Get,
            r.url@ == self@.base_url() + "/catalog/datacenters"@,
            r.query.deep_view() == Seq::<(Seq<char>, Seq<char>)>::empty(),
            r.body@ == BodyView::Empty,
    {
        self.prepare_request(HttpMethod::Get, "/catalog/datacenters", Vec::new(), None)
    }

    /// `GET /catalog/nodes`. Catalog List Nodes: the nodes registered in the datacenter.
    pub fn catalog_list_nodes_request(&self) -> (r: PreparedRequest)
        ensures
            r.method == HttpMethod::Get,
            r.url@ == self@.base_url() + "/catalog/nodes"@,
            r.query.deep_view() == Seq::<(Seq<char>, Seq<char>)>::empty(),
            r.body@ == BodyView::Empty,
    {
        self.prepare_request(HttpMethod::Get, "/catalog/nodes", Vec::new(), None)
    }

    /// `GET /catalog/services`. Catalog List Services: the services registered in the datacenter.
    pub fn catalog_list_services_request(&self, q: &CatalogListServicesQuery) -> (r: PreparedRequest)
        ensures
            r.method == HttpMethod::Get,
            r.url@ == self@.base_url() + "/catalog/services"@,
            r.query.deep_view() == q.params(),
            r.body@ == BodyView::Empty,
    {
        self.prepare_request(HttpMethod::Get, "/catalog/services", q.query_params(), None)
    }

    /// `GET /catalog/service/{service_name}`. Catalog List Nodes for Service: the nodes providing `service_name`.
    pub fn catalog_list_nodes_for_service_request(&self, service_name: &str, q: &CatalogListNodesForServiceQuery) -> (r: PreparedRequest)
        ensures
            r.method == HttpMethod::Get,
            r.url@ == self@.base_url() + "/catalog/service/"@ + service_name@,
            r.query.deep_view() == q.params(),
            r.body@ == BodyView::Empty,
    {
        let path = api_path("/catalog/service/", service_name);
        self.prepare_request(HttpMethod::Get, path.as_str(), q.query_params(), None)
    }

    /// `GET /catalog/connect/{service}`. List Nodes for Mesh-capable Service: the nodes providing the mesh-capable `service`.
    pub fn catalog_list_nodes_for_mesh_capable_service_request(&self, service: &str, q: &CatalogListNodesForServiceQuery) -> (r: PreparedRequest)
        ensures
            r.method == HttpMethod::Get,
            r.url@ == self@.base_url() + "/catalog/connect/"@ + service@,
            r.query.deep_view() == q.params(),
            r.body@ == BodyView::Empty,
    {
        let path = api_path("/catalog/connect/", service);
        self.prepare_request(HttpMethod::Get, path.as_str(), q.query_params(), None)
    }

    /// `GET /catalog/node/{node_name}`. Retrieve Map of Services for a Node: the services registered on `node_name`.
    pub fn catalog_node_services_request(&self, node_name: &str, q: &CatalogNodeServicesQuery) -> (r: PreparedRequest)
        ensures
            r.method == HttpMethod::Get,
            r.url@ == self@.base_url() + "/catalog/node/"@ + node_name@,
            r.query.deep_view() == q.params(),
            r.body@ == BodyView::Empty,
    {
        let path = api_path("/catalog/node/", node_name);
        self.prepare_request(HttpMethod::Get, path.as_str(), q.query_params(), None)
    }

    /// `GET /catalog/gateway-services/{gateway}`. List Services for Gateway: the services associated with `gateway`.
    pub fn catalog_gateway_services_request(&self, gateway: &str, q: &CatalogGatewayServicesQuery) -> (r: PreparedRequest)
        ensures
            r.method == HttpMethod::Get,
            r.url@ == self@.base_url() + "/catalog/gateway-services/"@ + gateway@,
            r.query.deep_view() == q.params(),
            r.body@ == BodyView::Empty,
    {
        let path = api_path("/catalog/gateway-services/", gateway);
        self.prepare_request(HttpMethod::Get, path.as_str(), q.query_params(), None)
    }

    /// `PUT /event/fire/{name}`. Fire Event: triggers the user event `name`, with `body` as its payload when there is one.
    pub fn event_fire_request(&self, name: &str, body: Option<Vec<u8>>, q: &EventFireQuery) -> (r: PreparedRequest)
        ensures
            r.method == HttpMethod::Put,
            r.url@ == self@.base_url() + "/event/fire/"@ + name@,
            r.query.deep_view() == q.params(),
            r.body@ == body_for(HttpMethod::Put, bytes_view(body)),
    {
        let path = api_path("/event/fire/", name);
        self.prepare_request(HttpMethod::Put, path.as_str(), q.query_params(), body)
    }

    /// `GET /event/list`. List Events: the most recent events known by the agent.
    pub fn event_list_request(&self, q: &EventListQuery) -> (r: PreparedRequest)
        ensures
            r.method == HttpMethod::Get,
            r.url@ == self@.base_url() + "/event/list"@,
            r.query.deep_view() == q.params(),
            r.body@ == BodyView::Empty,
    {
        self.prepare_request(HttpMethod::Get, "/event/list", q.query_params(), None)
    }

    /// `GET /health/node/{node}`. List Checks for Node: the checks of `node`.
    pub fn health_list_nodes_request(&self, node: &str, q: &HealthListNodesQuery) -> (r: PreparedRequest)
        ensures
            r.method == HttpMethod::Get,
            r.url@ == self@.base_url() + "/health/node/"@ + node@,
            r.query.deep_view() == q.params(),
            r.body@ == BodyView::Empty,
    {
        let path = api_path("/health/node/", node);
        self.prepare_request(HttpMethod::Get, path.as_str(), q.query_params(), None)
    }

    /// `GET /health/checks/{service}`. List Checks for Service: the checks of `service`.
    pub fn health_list_services_request(&self, service: &str, q: &HealthListServicesQuery) -> (r: PreparedRequest)
        ensures
            r.method == HttpMethod::Get,
            r.url@ == self@.base_url() + "/health/checks/"@ + service@,
            r.query.deep_view() == q.params(),
            r.body@ == BodyView::Empty,
    {
        let path = api_path("/health/checks/", service);
        self.prepare_request(HttpMethod::Get, path.as_str(), q.query_params(), None)
    }

    /// `GET /health/service/{service}`. List Service Instances for Service: the instances providing `service`.
    pub fn health_list_service_instances_request(&self, service: &str, q: &HealthListServiceInstancesQuery) -> (r: PreparedRequest)
        ensures
            r.method == HttpMethod::Get,
            r.url@ == self@.base_url() + "/health/service/"@ + service@,
            r.query.deep_view() == q.params(),
            r.body@ == BodyView::Empty,
    {
        let path = api_path("/health/service/", service);
        self.prepare_request(HttpMethod::Get, path.as_str(), q.query_params(), None)
    }

    /// `GET /health/connect/{service}`. List Service Instances for Mesh-enabled Service: the mesh-capable instances of `service`.
    pub fn health_list_service_instances_for_mesh_capable_request(&self, service: &str, q: &HealthListServiceInstancesQuery) -> (r: PreparedRequest)
        ensures
            r.method == HttpMethod::Get,
            r.url@ == self@.base_url() + "/health/connect/"@ + service@,
            r.query.deep_view() == q.params(),
            r.body@ == BodyView::Empty,
    {
        let path = api_path("/health/connect/", service);
        self.prepare_request(HttpMethod::Get, path.as_str(), q.query_params(), None)
    }

    /// `GET /health/ingress/{service}`. List Service Instances for Ingress Gateways Associated with a Service: the ingress gateways of `service`.
    pub fn health_list_service_instances_for_ingress_gateways_request(&self, service: &str, q: &HealthListServiceInstancesQuery) -> (r: PreparedRequest)
        ensures
            r.method == HttpMethod::Get,
            r.url@ == self@.base_url() + "/health/ingress/"@ + service@,
            r.query.deep_view() == q.params(),
            r.body@ == BodyView::Empty,
    {
        let path = api_path("/health/ingress/", service);
        self.prepare_request(HttpMethod::Get, path.as_str(), q.query_params(), None)
    }

    /// `GET /health/state/{state}`. List Checks in State: the checks in `state` (for example `passing`).
    pub fn health_list_state_request(&self, state: &str, q: &HealthListStateQuery) -> (r: PreparedRequest)
        ensures
            r.method == HttpMethod::Get,
            r.url@ == self@.base_url() + "/health/state/"@ + state@,
            r.query.deep_view() == q.params(),
            r.body@ == BodyView::Empty,
    {
        let path = api_path("/health/state/", state);
        self.prepare_request(HttpMethod::Get, path.as_str(), q.query_params(), None)
    }

    /// `GET /kv/{key}`. Read Key: the entry of `key`.
    pub fn kv_read_key_request(&self, key: &str, q: &KVReadKeyQuery) -> (r: PreparedRequest)
        ensures
            r.method == HttpMethod::Get,
            r.url@ == self@.base_url() + "/kv/"@ + key@,
            r.query.deep_view() == q.params(),
            r.body@ == BodyView::Empty,
    {
        let path = api_path("/kv/", key);
        self.prepare_request(HttpMethod::Get, path.as_str(), q.query_params(), None)
    }

    /// `PUT /kv/{key}`. Create/Update Key: stores `value` under `key`, creating the key if it does not exist.
    pub fn kv_create_or_update_key_request(&self, key: &str, value: Vec<u8>, q: &KVCreateOrUpdateKeyQuery) -> (r: PreparedRequest)
        ensures
            r.method == HttpMethod::Put,
            r.url@ == self@.base_url() + "/kv/"@ + key@,
            r.query.deep_view() == q.params(),
            r.body@ == BodyView::Raw(value@),
    {
        let path = api_path("/kv/", key);
        self.prepare_request(HttpMethod::Put, path.as_str(), q.query_params(), Some(value))
    }

    /// `DELETE /kv/{key}`. Delete Key: deletes `key`, or all keys with it as prefix.
    pub fn kv_delete_key_request(&self, key: &str, q: &KVDeleteKeyQuery) -> (r: PreparedRequest)
        ensures
            r.method == HttpMethod::Delete,
            r.url@ == self@.base_url() + "/kv/"@ + key@,
            r.query.deep_view() == q.params(),
            r.body@ == BodyView::Empty,
    {
        let path = api_path("/kv/", key);
        self.prepare_request(HttpMethod::Delete, path.as_str(), q.query_params(), None)
    }

    /// `PUT /namespace`. Create a Namespace (Consul Enterprise): creates the namespace given as the JSON body.
    pub fn namespace_create_request(&self) -> (r: PreparedRequest)
        ensures
            r.method == HttpMethod::Put,
            r.url@ == self@.base_url() + "/namespace"@,
            r.query.deep_view() == Seq::<(Seq<char>, Seq<char>)>::empty(),
            r.body@ == BodyView::Json,
    {
        self.prepare_request(HttpMethod::Put, "/namespace", Vec::new(), None)
    }

    /// `GET /namespace/{name}`. Read a Namespace (Consul Enterprise): the namespace `name`.
    pub fn namespace_read_request(&self, name: &str, q: &NamespaceReadQuery) -> (r: PreparedRequest)
        ensures
            r.method == HttpMethod::Get,
            r.url@ == self@.base_url() + "/namespace/"@ + name@,
            r.query.deep_view() == q.params(),
            r.body@ == BodyView::Empty,
    {
        let path = api_path("/namespace/", name);
        self.prepare_request(HttpMethod::Get, path.as_str(), q.query_params(), None)
    }

    /// `PUT /namespace/{name}`. Update a Namespace (Consul Enterprise): sets the namespace `name` to the JSON body.
    pub fn namespace_update_request(&self, name: &str) -> (r: PreparedRequest)
        ensures
            r.method == HttpMethod::Put,
            r.url@ == self@.base_url() + "/namespace/"@ + name@,
            r.query.deep_view() == Seq::<(Seq<char>, Seq<char>)>::empty(),
            r.body@ == BodyView::Json,
    {
        let path = api_path("/namespace/", name);
        self.prepare_request(HttpMethod::Put, path.as_str(), Vec::new(), None)
    }

    /// `GET /status/leader`. Get Raft Leader: the Raft leader of the datacenter.
    pub fn status_leader_request(&self, q: &StatusQuery) -> (r: PreparedRequest)
        ensures
            r.method == HttpMethod::Get,
            r.url@ == self@.base_url() + "/status/leader"@,
            r.query.deep_view() == q.params(),
            r.body@ == BodyView::Empty,
    {
        self.prepare_request(HttpMethod::Get, "/status/leader", q.query_params(), None)
    }

    /// `GET /status/peers`. List Raft Peers: the Raft peers of the datacenter.
    pub fn status_peers_request(&self, q: &StatusQuery) -> (r: PreparedRequest)
        ensures
            r.method == HttpMethod::Get,
            r.url@ == self@.base_url() + "/status/peers"@,
            r.query.deep_view() == q.params(),
            r.body@ == BodyView::Empty,
    {
        self.prepare_request(HttpMethod::Get, "/status/peers", q.query_params(), None)
    }
}

} // verus!
