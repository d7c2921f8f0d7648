//! Compute (Nova): hypervisors, servers and service health.
use vstd::prelude::*;
use crate::client::{ApiRequest, ClientError, OpenStackClient, header_views, is_service_url};

verus! {

#[derive(Debug, Clone)]
pub struct HypervisorList {
    pub hypervisors: Vec<Hypervisor>,
}

#[derive(Debug, Clone)]
pub struct Hypervisor {
    pub id: String,
    pub hypervisor_hostname: String,
    /// "up" or "down"
    pub state: String,
    /// "enabled" or "disabled"
    pub status: String,
    pub vcpus: u32,
    pub vcpus_used: u32,
    pub memory_mb: u64,
    pub memory_mb_used: u64,
    pub local_gb: u64,
    pub local_gb_used: u64,
    pub running_vms: u32,
    pub hypervisor_type: Option<String>,
    pub hypervisor_version: Option<u64>,
}

#[derive(Debug, Clone)]
pub struct ServerList {
    pub servers: Vec<Server>,
}

#[derive(Debug, Clone)]
pub struct Server {
    pub id: String,
    pub name: String,
    /// ACTIVE, SHUTOFF, ERROR, BUILD, ...
    pub status: String,
    pub power_state: Option<u8>,
    pub availability_zone: Option<String>,
    pub host: Option<String>,
    pub hypervisor_hostname: Option<String>,
    pub tenant_id: Option<String>,
    pub user_id: Option<String>,
    pub created: Option<String>,
    pub updated: Option<String>,
    pub flavor: Option<FlavorRef>,
    pub image: Option<serde_json::Value>,
    pub addresses: Option<serde_json::Value>,
}

/// A server's flavor; microversion 2.47 and later embed it inline.
#[derive(Debug, Clone)]
pub struct FlavorRef {
    pub id: Option<String>,
    pub vcpus: Option<u32>,
    pub ram: Option<u64>,
    pub disk: Option<u64>,
    pub original_name: Option<String>,
}

#[derive(Debug, Clone)]
pub struct ImageRef {
    pub id: Option<String>,
    pub name: Option<String>,
}

#[derive(Debug, Clone)]
pub struct NovaServiceList {
    pub services: Vec<NovaService>,
}

#[derive(Debug, Clone)]
pub struct NovaService {
    /// "nova-compute", "nova-scheduler", ...
    pub binary: String,
    pub host: String,
    pub zone: String,
    /// "enabled" or "disabled"
    pub status: String,
    /// "up" or "down"
    pub state: String,
    pub updated_at: Option<String>,
    pub disabled_reason: Option<String>,
}

/// Name and value of the microversion header sent with hypervisor and server listings.
pub fn nova_api_version_header() -> (r: (&'static str, &'static str))
    ensures
        r.0@ == "X-OpenStack-Nova-API-Version"@,
        r.1@ == "2.79"@,
{
    ("X-OpenStack-Nova-API-Version", "2.79")
}

/// A GET of `url` carrying the auth token and then the microversion header,
/// as the hypervisor and server listings are sent.
pub fn microversion_get(client: &OpenStackClient, url: &str) -> (r: ApiRequest)
    ensures
        r.method is Get,
        r.url@ == url@,
        header_views(r.headers@) == seq![
            ("X-Auth-Token"@, client.token@),
            ("X-OpenStack-Nova-API-Version"@, "2.79"@),
        ],
{
    let (name, value) = nova_api_version_header();
    let r = client.get(url).header(name, value);
    assert(header_views(r.headers@) =~= seq![
        ("X-Auth-Token"@, client.token@),
        ("X-OpenStack-Nova-API-Version"@, "2.79"@),
    ]);
    r
}

/// GET /v2.1/os-hypervisors/detail
pub fn hypervisors_url(client: &OpenStackClient) -> (r: Result<String, ClientError>)
    ensures
        is_service_url(r, client, "compute"@, "/os-hypervisors/detail"@),
{
    client.service_url("compute", "/os-hypervisors/detail")
}

/// GET /v2.1/servers/detail?all_tenants=1
pub fn servers_url(client: &OpenStackClient) -> (r: Result<String, ClientError>)
    ensures
        is_service_url(r, client, "compute"@, "/servers/detail?all_tenants=1&limit=500"@),
{
    client.service_url("compute", "/servers/detail?all_tenants=1&limit=500")
}

/// GET /v2.1/os-services
pub fn nova_services_url(client: &OpenStackClient) -> (r: Result<String, ClientError>)
    ensures
        is_service_url(r, client, "compute"@, "/os-services"@),
{
    client.service_url("compute", "/os-services")
}

} // verus!
