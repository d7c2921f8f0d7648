use openstack_tui::auth::keystone::{
    auth_request, auth_tokens_url, build_catalog, check_token_response, now, secs_between, timestamp_from_clock,
    token_from_response,
    AuthResponseError, AuthToken, CatalogEntry, Endpoint, Timestamp, TokenBody, TokenHeader,
};
use openstack_tui::client::{client_settings, ClientError, HttpMethod, OpenStackClient};
use openstack_tui::config::clouds::{AuthConfig, CloudConfig};
use openstack_tui::strmap::StrMap;

fn ep(interface: &str, url: &str, region: Option<&str>) -> Endpoint {
    Endpoint { interface: interface.to_string(), url: url.to_string(), region_id: region.map(|r| r.to_string()) }
}

fn config(interface: &str, auth_url: &str) -> CloudConfig {
    CloudConfig {
        auth: AuthConfig {
            auth_url: auth_url.to_string(),
            username: "admin".to_string(),
            password: "pw".to_string(),
            project_name: "admin".to_string(),
            project_id: None,
            user_domain_name: "Default".to_string(),
            project_domain_name: "Dom".to_string(),
        },
        region_name: "RegionOne".to_string(),
        interface: interface.to_string(),
        identity_api_version: 3,
        verify: None,
        cacert: None,
    }
}

fn sample_entries() -> Vec<CatalogEntry> {
    vec![
        CatalogEntry {
            service_type: "compute".to_string(),
            endpoints: vec![
                ep("public", "https://nova.example:8774/v2.1/", Some("RegionOne")),
                ep("internal", "http://nova.internal:8774/v2.1", Some("RegionTwo")),
                ep("internal", "http://nova.int:8774/v2.1//", None),
            ],
        },
        CatalogEntry { service_type: "image".to_string(), endpoints: vec![ep("public", "http://glance", Some("RegionTwo"))] },
        CatalogEntry { service_type: "compute".to_string(), endpoints: vec![ep("admin", "http://nova.admin", None)] },
    ]
}

fn token(catalog: StrMap<StrMap<String>>, expires_secs: i64) -> AuthToken {
    AuthToken { token: "tok".to_string(), expires_at: Timestamp::new(expires_secs, 0).unwrap(), catalog, project_id: None }
}

#[test]
fn catalog_keeps_region_and_regionless_endpoints() {
    let cat = build_catalog(sample_entries(), "RegionOne");
    assert_eq!(cat.len(), 2);
    let compute = cat.get("compute").unwrap();
    assert_eq!(compute.get("public").unwrap(), "https://nova.example:8774/v2.1/");
    assert_eq!(compute.get("internal").unwrap(), "http://nova.int:8774/v2.1//");
    // a later entry for the same service adds to its map
    assert_eq!(compute.get("admin").unwrap(), "http://nova.admin");
    // a service with no endpoint in the region is still listed, empty
    assert_eq!(cat.get("image").unwrap().len(), 0);
}

#[test]
fn token_endpoint_lookup() {
    let t = token(build_catalog(sample_entries(), "RegionOne"), 100);
    assert_eq!(t.endpoint("compute", "public"), Some("https://nova.example:8774/v2.1/"));
    assert_eq!(t.endpoint("image", "public"), None);
    assert_eq!(t.endpoint("network", "public"), None);
}

#[test]
fn client_endpoint_falls_back_to_public_and_trims() {
    let t = token(build_catalog(sample_entries(), "RegionOne"), 100);
    let c = OpenStackClient::new(&config("internal", "http://k"), &t, None).unwrap();
    assert_eq!(c.endpoint("compute").unwrap(), "http://nova.int:8774/v2.1");
    let c2 = OpenStackClient::new(&config("admin2", "http://k"), &t, None).unwrap();
    assert_eq!(c2.endpoint("compute").unwrap(), "https://nova.example:8774/v2.1");
    match c2.endpoint("image") {
        Err(e @ ClientError::NoEndpoint { .. }) => {
            assert_eq!(e.message(), "No 'admin2' endpoint found for service 'image' in catalog")
        }
        _ => panic!("expected no endpoint"),
    }
    assert_eq!(
        openstack_tui::client::nova::hypervisors_url(&c).unwrap(),
        "http://nova.int:8774/v2.1/os-hypervisors/detail"
    );
    assert!(openstack_tui::client::cinder::volumes_url(&c).is_err());
}

#[test]
fn auth_request_and_url() {
    let cfg = config("public", "https://keystone.example.com:5000//");
    assert_eq!(auth_tokens_url(&cfg), "https://keystone.example.com:5000/v3/auth/tokens");
    let req = auth_request(&cfg);
    assert_eq!(req.auth.identity.methods, vec!["password".to_string()]);
    assert_eq!(req.auth.identity.password.user.name, "admin");
    assert_eq!(req.auth.scope.project.domain.name, "Dom");
}

#[test]
fn token_response_checks() {
    assert_eq!(check_token_response(TokenHeader::Missing, true).unwrap_err(), AuthResponseError::MissingTokenHeader);
    assert_eq!(check_token_response(TokenHeader::Invalid, false).unwrap_err(), AuthResponseError::InvalidTokenHeader);
    assert_eq!(
        check_token_response(TokenHeader::Present("t".to_string()), false).unwrap_err(),
        AuthResponseError::Rejected
    );
    assert_eq!(check_token_response(TokenHeader::Present("t".to_string()), true).unwrap(), "t");
    let body = TokenBody { expires_at: Timestamp::new(5000, 0).unwrap(), catalog: None, project_id: Some("p1".to_string()) };
    let t = token_from_response("abc".to_string(), body, &config("public", "http://k"));
    assert_eq!(t.project_id.as_deref(), Some("p1"));
    assert_eq!(t.token, "abc");
    assert_eq!(t.catalog.len(), 0);
    assert_eq!(t.expires_at.secs(), 5000);
}

#[test]
fn token_lifetime_arithmetic() {
    let t = token(StrMap::new(), 1_000);
    let now = Timestamp::new(900, 500_000_000).unwrap();
    assert_eq!(t.remaining_secs_at(now), 99);
    assert!(t.expires_soon_at(100, now));
    assert!(!t.expires_soon_at(99, now));
    let later = Timestamp::new(1_000, 500_000_000).unwrap();
    // half a second past expiry rounds toward zero
    assert_eq!(secs_between(t.expires_at, later), 0);
    assert_eq!(t.remaining_secs_at(Timestamp::new(5_000, 0).unwrap()), 0);
    assert_eq!(secs_between(Timestamp::new(0, 0).unwrap(), Timestamp::new(10, 1).unwrap()), -10);
    assert!(Timestamp::new(20_000_000_000_000, 0).is_none());
    // the real clock: a token that expired in 1970 has no time left
    assert_eq!(t.remaining_secs(), 0);
    assert!(t.expires_soon(300));
}

#[test]
fn http_client_builds_with_and_without_ca_bundle() {
    let mut cfg = config("public", "http://k");
    assert!(openstack_tui::client::build_client(&cfg, None).is_ok());
    cfg.verify = Some(false);
    assert!(openstack_tui::client::build_client(&cfg, None).is_ok());
    // an unparsable bundle is only rejected when the client is built
    assert!(openstack_tui::client::build_client(&cfg, Some(b"-----BEGIN CERTIFICATE-----\nxx\n-----END CERTIFICATE-----\n")).is_err());
}

fn hdrs(req: &openstack_tui::client::ApiRequest) -> Vec<(&str, &str)> {
    req.headers.iter().map(|(k, v)| (k.as_str(), v.as_str())).collect()
}

#[test]
fn requests_carry_the_token() {
    let mut entries = sample_entries();
    entries.push(CatalogEntry {
        service_type: "object-store".to_string(),
        endpoints: vec![ep("public", "http://swift:8080/", None)],
    });
    let t = token(build_catalog(entries, "RegionOne"), 100);
    let c = OpenStackClient::new(&config("public", "http://k"), &t, None).unwrap();

    let g = c.get("http://x/y");
    assert_eq!(g.method, HttpMethod::Get);
    assert_eq!(g.url, "http://x/y");
    assert_eq!(hdrs(&g), vec![("X-Auth-Token", "tok")]);

    let h = c.head("http://x/z");
    assert_eq!(h.method, HttpMethod::Head);
    assert_eq!(hdrs(&h), vec![("X-Auth-Token", "tok")]);

    let n = openstack_tui::client::nova::microversion_get(&c, "http://nova/os-hypervisors/detail");
    assert_eq!(n.method, HttpMethod::Get);
    assert_eq!(n.url, "http://nova/os-hypervisors/detail");
    assert_eq!(hdrs(&n), vec![("X-Auth-Token", "tok"), ("X-OpenStack-Nova-API-Version", "2.79")]);

    let a = openstack_tui::client::swift::account_stats_request(&c, "p1").unwrap();
    assert_eq!(a.method, HttpMethod::Head);
    assert_eq!(a.url, "http://swift:8080/v1/AUTH_p1");
    assert_eq!(hdrs(&a), vec![("X-Auth-Token", "tok")]);

    let no_swift = OpenStackClient::new(&config("public", "http://k"), &token(StrMap::new(), 100), None).unwrap();
    match openstack_tui::client::swift::account_stats_request(&no_swift, "p1") {
        Err(e) => assert_eq!(e.message(), "No 'public' endpoint found for service 'object-store' in catalog"),
        Ok(_) => panic!("expected no endpoint"),
    }
}

#[test]
fn client_settings_follow_the_config() {
    let mut cfg = config("public", "http://k");
    let s = client_settings(&cfg, None);
    assert!(!s.accept_invalid_certs);
    assert_eq!(s.timeout_secs, 30);
    assert!(s.root_ca.is_none());
    cfg.verify = Some(true);
    assert!(!client_settings(&cfg, None).accept_invalid_certs);
    cfg.verify = Some(false);
    let s = client_settings(&cfg, Some(b"PEM"));
    assert!(s.accept_invalid_certs);
    assert_eq!(s.root_ca.as_deref(), Some(&b"PEM"[..]));
}

#[test]
fn clock_readings_become_timestamps() {
    let t = timestamp_from_clock(Ok((1_700_000_000, 5)));
    assert_eq!((t.secs(), t.nanos()), (1_700_000_000, 5));
    // half a second before the epoch
    let t = timestamp_from_clock(Err((0, 500_000_000)));
    assert_eq!((t.secs(), t.nanos()), (-1, 500_000_000));
    let t = timestamp_from_clock(Err((86_400, 0)));
    assert_eq!((t.secs(), t.nanos()), (-86_400, 0));
    // beyond the range of timestamps: its nearest end
    let t = timestamp_from_clock(Ok((u64::MAX, 0)));
    assert_eq!((t.secs(), t.nanos()), (10_000_000_000_000, 999_999_999));
    let t = timestamp_from_clock(Err((u64::MAX, 1)));
    assert_eq!((t.secs(), t.nanos()), (-10_000_000_000_000, 0));
    assert!(now().nanos() < 1_000_000_000);
}
