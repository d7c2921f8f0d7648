//! Object storage (Swift): cluster info and account statistics.
use vstd::prelude::*;
use crate::client::{ApiRequest, ClientError, OpenStackClient, header_views, is_service_url, spec_service_url};
use crate::text::{parse_u64, spec_parse_u64};

verus! {

/// Swift cluster info from the /info endpoint.
#[derive(Debug, Clone)]
pub struct SwiftInfo {
    pub swift: Option<SwiftCore>,
}

impl Default for SwiftInfo {
    fn default() -> (r: Self)
        ensures
            r.swift is None,
    {
        SwiftInfo { swift: None }
    }
}

#[derive(Debug, Clone)]
pub struct SwiftCore {
    pub version: Option<String>,
    pub max_file_size: Option<u64>,
    pub max_meta_count: Option<u32>,
}

/// Swift account stats (from HEAD /v1/AUTH_<project_id>).
#[derive(Debug, Clone, Copy)]
pub struct SwiftAccountStats {
    pub container_count: u64,
    pub object_count: u64,
    pub bytes_used: u64,
}

impl Default for SwiftAccountStats {
    fn default() -> (r: Self)
        ensures
            r.container_count == 0,
            r.object_count == 0,
            r.bytes_used == 0,
    {
        SwiftAccountStats { container_count: 0, object_count: 0, bytes_used: 0 }
    }
}

/// GET /info
pub fn info_url(client: &OpenStackClient) -> (r: Result<String, ClientError>)
    ensures
        is_service_url(r, client, "object-store"@, "/info"@),
{
    client.service_url("object-store", "/info")
}

/// HEAD /v1/AUTH_<project>
pub fn account_url(client: &OpenStackClient, project_id: &str) -> (r: Result<String, ClientError>)
    ensures
        is_service_url(r, client, "object-store"@, "/v1/AUTH_"@ + project_id@),
{
    let path = String::from_str("/v1/AUTH_").concat(project_id);
    client.service_url("object-store", path.as_str())
}

/// The HEAD request for the account of `project_id`, carrying the auth
/// token; the error when the catalog has no object-store endpoint.
pub fn account_stats_request(client: &OpenStackClient, project_id: &str) -> (r: Result<ApiRequest, ClientError>)
    ensures
        match spec_service_url(client, "object-store"@, "/v1/AUTH_"@ + project_id@) {
            Some(u) => r matches Ok(q) && q.method is Head && q.url@ == u
                && header_views(q.headers@) == seq![("X-Auth-Token"@, client.token@)],
            None => r matches Err(ClientError::NoEndpoint { interface, service })
                && interface@ == client.interface@ && service@ == "object-store"@,
        },
{
    match account_url(client, project_id) {
        Ok(url) => Ok(client.head(url.as_str())),
        Err(e) => Err(e),
    }
}

/// The count that a response header gives: its value read as a number,
/// zero when the header is absent or is not a number.
pub open spec fn spec_header_count(value: Option<Seq<char>>) -> u64 {
    match value {
        Some(v) => match spec_parse_u64(v) {
            Some(n) => n,
            None => 0,
        },
        None => 0,
    }
}

/// Reads a count header; `value` is the header's text when it is present
/// and visible ASCII.
pub fn header_count(value: Option<&str>) -> (r: u64)
    ensures
        r == spec_header_count(match value { Some(v) => Some(v@), None => None }),
{
    match value {
        Some(v) => match parse_u64(v) {
            Some(n) => n,
            None => 0,
        },
        None => 0,
    }
}

/// Account statistics from the X-Account-Container-Count,
/// X-Account-Object-Count and X-Account-Bytes-Used headers.
pub fn account_stats_from_headers(
    container_count: Option<&str>,
    object_count: Option<&str>,
    bytes_used: Option<&str>,
) -> (r: SwiftAccountStats)
    ensures
        r.container_count == spec_header_count(match container_count { Some(v) => Some(v@), None => None }),
        r.object_count == spec_header_count(match object_count { Some(v) => Some(v@), None => None }),
        r.bytes_used == spec_header_count(match bytes_used { Some(v) => Some(v@), None => None }),
{
    SwiftAccountStats {
        container_count: header_count(container_count),
        object_count: header_count(object_count),
        bytes_used: header_count(bytes_used),
    }
}

} // verus!
