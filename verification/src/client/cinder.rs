//! Block storage (Cinder): volumes and service health.
use vstd::prelude::*;
use crate::client::{ClientError, OpenStackClient, is_service_url_or};

verus! {

#[derive(Debug, Clone)]
pub struct VolumeList {
    pub volumes: Vec<Volume>,
}

#[derive(Debug, Clone)]
pub struct Volume {
    pub id: String,
    pub name: Option<String>,
    /// available, in-use, error, deleting, ...
    pub status: String,
    /// GiB
    pub size: u64,
    pub volume_type: Option<String>,
    pub bootable: Option<String>,
    pub encrypted: Option<bool>,
    pub attachments: Option<Vec<VolumeAttachment>>,
    pub created_at: Option<String>,
    pub host: Option<String>,
}

#[derive(Debug, Clone)]
pub struct VolumeAttachment {
    pub server_id: Option<String>,
    pub device: Option<String>,
}

#[derive(Debug, Clone)]
pub struct CinderServiceList {
    pub services: Vec<CinderService>,
}

#[derive(Debug, Clone)]
pub struct CinderService {
    /// "cinder-volume" or "cinder-scheduler"
    pub binary: String,
    pub host: String,
    pub zone: String,
    /// "enabled" or "disabled"
    pub status: String,
    /// "up" or "down"
    pub state: String,
    pub updated_at: Option<String>,
    pub disabled_reason: Option<String>,
}

/// GET /v3/volumes/detail?all_tenants=1, on the "block-storage" service,
/// else on "volumev3".
pub fn volumes_url(client: &OpenStackClient) -> (r: Result<String, ClientError>)
    ensures
        is_service_url_or(r, client, "block-storage"@, "volumev3"@, "/volumes/detail?all_tenants=1&limit=200"@),
{
    client.service_url_or("block-storage", "volumev3", "/volumes/detail?all_tenants=1&limit=200")
}

/// GET /v3/os-services, on the "block-storage" service, else on "volumev3".
pub fn cinder_services_url(client: &OpenStackClient) -> (r: Result<String, ClientError>)
    ensures
        is_service_url_or(r, client, "block-storage"@, "volumev3"@, "/os-services"@),
{
    client.service_url_or("block-storage", "volumev3", "/os-services")
}

} // verus!
