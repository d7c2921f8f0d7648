//! Images (Glance).
use vstd::prelude::*;
use crate::client::{ClientError, OpenStackClient, is_service_url};

verus! {

#[derive(Debug, Clone)]
pub struct ImageList {
    pub images: Vec<Image>,
    pub first: Option<String>,
    pub next: Option<String>,
    pub schema: Option<String>,
}

#[derive(Debug, Clone)]
pub struct Image {
    pub id: String,
    pub name: Option<String>,
    /// active, queued, saving, deactivated
    pub status: String,
    /// public, private, shared, community
    pub visibility: Option<String>,
    pub disk_format: Option<String>,
    pub container_format: Option<String>,
    pub size: Option<u64>,
    pub virtual_size: Option<u64>,
    pub min_disk: Option<u32>,
    pub min_ram: Option<u32>,
    pub protected: Option<bool>,
    pub created_at: Option<String>,
    pub updated_at: Option<String>,
    pub owner: Option<String>,
}

/// GET /v2/images
pub fn images_url(client: &OpenStackClient) -> (r: Result<String, ClientError>)
    ensures
        is_service_url(r, client, "image"@, "/v2/images?limit=200"@),
{
    client.service_url("image", "/v2/images?limit=200")
}

} // verus!
