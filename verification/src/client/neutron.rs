//! Network (Neutron): networks, agents and routers.
use vstd::prelude::*;
use crate::client::{ClientError, OpenStackClient, is_service_url};

verus! {

#[derive(Debug, Clone)]
pub struct NetworkList {
    pub networks: Vec<Network>,
}

#[derive(Debug, Clone)]
pub struct Network {
    pub id: String,
    pub name: String,
    pub admin_state_up: bool,
    pub status: String,
    /// flat, vlan, vxlan, gre
    pub network_type: Option<String>,
    pub physical_network: Option<String>,
    pub segmentation_id: Option<u32>,
    pub shared: bool,
    pub external: Option<bool>,
    pub subnets: Option<Vec<String>>,
}

#[derive(Debug, Clone)]
pub struct AgentList {
    pub agents: Vec<Agent>,
}

#[derive(Debug, Clone)]
pub struct Agent {
    pub id: String,
    /// "Open vSwitch agent", "L3 agent", ...
    pub agent_type: String,
    pub binary: String,
    pub host: String,
    pub alive: bool,
    pub admin_state_up: bool,
    pub description: Option<String>,
    pub heartbeat_timestamp: Option<String>,
    pub started_at: Option<String>,
}

#[derive(Debug, Clone)]
pub struct RouterList {
    pub routers: Vec<Router>,
}

#[derive(Debug, Clone)]
pub struct Router {
    pub id: String,
    pub name: String,
    pub status: String,
    pub admin_state_up: bool,
    pub external_gateway_info: Option<serde_json::Value>,
    pub distributed: Option<bool>,
    pub ha: Option<bool>,
}

/// GET /v2.0/networks
pub fn networks_url(client: &OpenStackClient) -> (r: Result<String, ClientError>)
    ensures
        is_service_url(r, client, "network"@, "/v2.0/networks"@),
{
    client.service_url("network", "/v2.0/networks")
}

/// GET /v2.0/agents
pub fn agents_url(client: &OpenStackClient) -> (r: Result<String, ClientError>)
    ensures
        is_service_url(r, client, "network"@, "/v2.0/agents"@),
{
    client.service_url("network", "/v2.0/agents")
}

/// GET /v2.0/routers
pub fn routers_url(client: &OpenStackClient) -> (r: Result<String, ClientError>)
    ensures
        is_service_url(r, client, "network"@, "/v2.0/routers"@),
{
    client.service_url("network", "/v2.0/routers")
}

} // verus!
