//! A client library for the HashiCorp Consul HTTP API.
//!
//! The library decides everything about a call that does not need the
//! network: where the agent lives, which credentials go with every request,
//! the method, the URL and the body of each call, and how the agent's answers
//! are read. Sending the request is left to the caller.

pub mod builder;
pub mod client;
pub mod config;
pub mod endpoints;
pub mod query;
pub mod response;
pub mod transport;

pub use builder::ClientBuilder;
pub use client::{request_body, Client, ClientError, HttpMethod, PreparedRequest, RequestBody};
pub use config::{read_env_or_default, Config};
pub use query::{
    bool_string, decimal_string,
    ACLLink, NamespaceACLConfig, NamespaceCreateBody, NamespaceDetail, NamespaceReadQuery,
    NamespaceUpdateBody, QueryParam,
    AgentTTLCheckRequestQuery, AgentTTLCheckUpdateRequestBody, AgentTTLCheckUpdateRequestQuery,
    CatalogDeregisterEntityQuery, CatalogGatewayServicesQuery, CatalogListNodesForServiceQuery,
    CatalogListServicesQuery, CatalogNodeServicesQuery, CatalogRegisterEntityQuery,
    ConnectAuthorizeRequestQuery, ConnectAuthorizeRequestReply, DeregisterCheckRequestQuery,
    DeregisterServiceRequestQuery, EnableMaintenanceModeRequestQuery, EventFireQuery,
    EventListQuery, FilterRequestQuery, HealthListNodesQuery, HealthListServiceInstancesQuery,
    HealthListServicesQuery, HealthListStateQuery, KVCreateOrUpdateKeyQuery, KVDeleteKeyQuery,
    KVReadKeyQuery, LocalServiceHealthByIDRequestQuery, LocalServiceHealthByNameRequestQuery,
    RegisterServiceRequestQuery, ServiceConfigurationRequestQuery, StatusQuery,
};
pub use response::{
    is_not_found_status, is_ok_status, lookup_answer, normalize_event, normalize_event_payload,
    normalize_events, UserEvent,
};
