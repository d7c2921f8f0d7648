use openstack_tui::auth::keystone::{AuthToken, Timestamp};
use openstack_tui::client::cinder::{Volume, VolumeAttachment};
use openstack_tui::client::glance::Image;
use openstack_tui::client::neutron::Agent;
use openstack_tui::client::nova::{Hypervisor, Server};
use openstack_tui::client::swift::{SwiftAccountStats, SwiftCore, SwiftInfo};
use openstack_tui::config::clouds::{AuthConfig, CloudConfig};
use openstack_tui::state::poller::{
    install_token, record_cinder_poll, record_glance_poll, record_neutron_poll, record_nova_poll, record_swift_poll,
    poll_intervals, token_refresh_due,
};
use openstack_tui::cli::Args;
use openstack_tui::state::{remaining_text, ActiveView, AppState};
use openstack_tui::strmap::StrMap;

fn cfg() -> CloudConfig {
    CloudConfig {
        auth: AuthConfig {
            auth_url: "http://k".to_string(),
            username: "u".to_string(),
            password: "p".to_string(),
            project_name: "admin".to_string(),
            project_id: None,
            user_domain_name: "Default".to_string(),
            project_domain_name: "Default".to_string(),
        },
        region_name: "RegionOne".to_string(),
        interface: "public".to_string(),
        identity_api_version: 3,
        verify: None,
        cacert: None,
    }
}

fn tok(expires: i64) -> AuthToken {
    AuthToken { token: "t".to_string(), expires_at: Timestamp::new(expires, 0).unwrap(), catalog: StrMap::new(), project_id: None }
}

fn ts(s: i64) -> Timestamp {
    Timestamp::new(s, 0).unwrap()
}

fn hv(name: &str, state: &str, vcpus: u32, used: u32, mem: u64, mem_used: u64) -> Hypervisor {
    Hypervisor {
        id: name.to_string(),
        hypervisor_hostname: name.to_string(),
        state: state.to_string(),
        status: "enabled".to_string(),
        vcpus,
        vcpus_used: used,
        memory_mb: mem,
        memory_mb_used: mem_used,
        local_gb: 100,
        local_gb_used: 10,
        running_vms: 1,
        hypervisor_type: None,
        hypervisor_version: None,
    }
}

fn srv(name: &str, status: &str) -> Server {
    Server {
        id: format!("{}-0000-id", name),
        name: name.to_string(),
        status: status.to_string(),
        power_state: None,
        availability_zone: None,
        host: None,
        hypervisor_hostname: None,
        tenant_id: None,
        user_id: None,
        created: None,
        updated: None,
        flavor: None,
        image: None,
        addresses: None,
    }
}

fn agent(host: &str, alive: bool) -> Agent {
    Agent {
        id: host.to_string(),
        agent_type: "L3 agent".to_string(),
        binary: "neutron-l3-agent".to_string(),
        host: host.to_string(),
        alive,
        admin_state_up: true,
        description: None,
        heartbeat_timestamp: None,
        started_at: None,
    }
}

pub fn vol(name: Option<&str>, size: u64, attached: bool) -> Volume {
    Volume {
        id: "v".to_string(),
        name: name.map(|n| n.to_string()),
        status: "in-use".to_string(),
        size,
        volume_type: None,
        bootable: None,
        encrypted: None,
        attachments: Some(if attached {
            vec![VolumeAttachment { server_id: None, device: None }]
        } else {
            vec![]
        }),
        created_at: None,
        host: None,
    }
}

fn new_state() -> AppState {
    AppState::new("prod".to_string(), cfg(), tok(10_000))
}

#[test]
fn new_state_is_empty_overview() {
    let s = new_state();
    assert_eq!(s.active_view, ActiveView::Overview);
    assert_eq!(s.selected_index, 0);
    assert!(s.hypervisors.is_empty());
    assert!(s.nova_status.error.is_none());
    assert!(!s.search_active);
    assert_eq!(s.cloud_name, "prod");
}

#[test]
fn aggregates_over_hypervisors() {
    let mut s = new_state();
    s.hypervisors = vec![hv("a", "up", 8, 2, 1024, 512), hv("b", "down", 16, 4, 2048, 1024), hv("c", "UP", 4, 4, 0, 0)];
    assert_eq!(s.total_vcpus(), 28);
    assert_eq!(s.used_vcpus(), 10);
    assert_eq!(s.total_memory_mb(), 3072);
    assert_eq!(s.used_memory_mb(), 1536);
    assert_eq!(s.nodes_up(), 1);
    assert_eq!(s.nodes_down(), 2);
    assert_eq!(s.nodes_up() + s.nodes_down(), s.hypervisors.len());
}

#[test]
fn server_and_agent_counts() {
    let mut s = new_state();
    s.servers = vec![srv("a", "ACTIVE"), srv("b", "SHUTOFF"), srv("c", "active")];
    s.agents = vec![agent("h1", true), agent("h2", false), agent("h3", true)];
    assert_eq!(s.active_servers(), 1);
    assert_eq!(s.agents_alive(), 2);
    assert_eq!(s.agents_dead(), 1);
    assert_eq!(s.agents_alive() + s.agents_dead(), s.agents.len());
}

#[test]
fn remaining_time_formats() {
    assert_eq!(remaining_text(7322), "2h 2m");
    assert_eq!(remaining_text(3600), "60m 0s");
    assert_eq!(remaining_text(61), "1m 1s");
    assert_eq!(remaining_text(60), "60s ⚠️");
    assert_eq!(remaining_text(0), "0s ⚠️");
    let s = new_state();
    assert_eq!(s.token_remaining_display_at(ts(2_800)), "2h 0m");
    // the real clock is long past this token's expiry
    assert_eq!(s.token_remaining_display(), "0s ⚠️");
}

#[test]
fn nova_poll_success_replaces_data() {
    let mut s = new_state();
    s.nova_status.error = Some("old".to_string());
    record_nova_poll(&mut s, Ok(vec![hv("a", "up", 1, 0, 1, 0)]), Ok(vec![srv("x", "ACTIVE")]), Ok(vec![]), ts(42));
    assert_eq!(s.hypervisors.len(), 1);
    assert_eq!(s.servers.len(), 1);
    assert!(s.nova_status.error.is_none());
    assert_eq!(s.nova_status.last_updated.unwrap().secs(), 42);
}

#[test]
fn nova_poll_failure_keeps_last_known_data() {
    let mut s = new_state();
    record_nova_poll(&mut s, Ok(vec![hv("a", "up", 1, 0, 1, 0)]), Ok(vec![]), Ok(vec![]), ts(1));
    record_nova_poll(&mut s, Ok(vec![]), Err("servers failed".to_string()), Err("services failed".to_string()), ts(2));
    assert_eq!(s.hypervisors.len(), 1);
    assert_eq!(s.nova_status.error.as_deref(), Some("servers failed"));
    assert_eq!(s.nova_status.last_updated.unwrap().secs(), 1);
}

#[test]
fn neutron_poll_first_error_wins() {
    let mut s = new_state();
    record_neutron_poll(&mut s, Err("networks".to_string()), Ok(vec![agent("h", true)]), Err("routers".to_string()), ts(3));
    assert!(s.agents.is_empty());
    assert_eq!(s.neutron_status.error.as_deref(), Some("networks"));
    record_neutron_poll(&mut s, Ok(vec![]), Ok(vec![agent("h", true)]), Ok(vec![]), ts(4));
    assert_eq!(s.agents.len(), 1);
    assert!(s.neutron_status.error.is_none());
}

#[test]
fn swift_cinder_glance_polls() {
    let mut s = new_state();
    let info = SwiftInfo { swift: Some(SwiftCore { version: Some("2.30".to_string()), max_file_size: None, max_meta_count: None }) };
    record_swift_poll(&mut s, Ok(info), None, ts(5));
    assert_eq!(s.swift_info.as_ref().unwrap().swift.as_ref().unwrap().version.as_deref(), Some("2.30"));
    assert!(s.swift_stats.is_none());
    record_swift_poll(&mut s, Err("down".to_string()), None, ts(6));
    assert!(s.swift_info.is_some());
    assert_eq!(s.swift_status.error.as_deref(), Some("down"));

    record_cinder_poll(&mut s, Ok(vec![vol(Some("a"), 10, true)]), Err("svc".to_string()), ts(7));
    assert!(s.volumes.is_empty());
    assert_eq!(s.cinder_status.error.as_deref(), Some("svc"));
    record_cinder_poll(&mut s, Ok(vec![vol(Some("a"), 10, true)]), Ok(vec![]), ts(8));
    assert_eq!(s.volumes.len(), 1);

    record_glance_poll(&mut s, Err("img".to_string()), ts(9));
    assert_eq!(s.glance_status.error.as_deref(), Some("img"));
    assert!(s.glance_status.last_updated.is_none());
    let image = Image {
        id: "i".to_string(),
        name: None,
        status: "active".to_string(),
        visibility: None,
        disk_format: None,
        container_format: None,
        size: None,
        virtual_size: None,
        min_disk: None,
        min_ram: None,
        protected: None,
        created_at: None,
        updated_at: None,
        owner: None,
    };
    record_glance_poll(&mut s, Ok(vec![image]), ts(10));
    assert_eq!(s.images.len(), 1);
    assert!(s.glance_status.error.is_none());
}

#[test]
fn token_refresh_five_minutes_before_expiry() {
    let mut s = new_state();
    assert!(!token_refresh_due(&s, ts(9_700)));
    assert!(token_refresh_due(&s, ts(9_701)));
    install_token(&mut s, tok(20_000));
    assert!(!token_refresh_due(&s, ts(9_701)));
    assert_eq!(s.auth_token.expires_at.secs(), 20_000);
}

#[test]
fn swift_poll_records_account_statistics() {
    let mut s = new_state();
    let info = SwiftInfo { swift: None };
    let stats = SwiftAccountStats { container_count: 3, object_count: 40, bytes_used: 5_000 };
    record_swift_poll(&mut s, Ok(info.clone()), Some(Ok(stats)), ts(5));
    let st = s.swift_stats.unwrap();
    assert_eq!((st.container_count, st.object_count, st.bytes_used), (3, 40, 5_000));
    assert!(s.swift_info.is_some());
    assert!(s.swift_status.error.is_none());
    assert_eq!(s.swift_status.last_updated.unwrap().secs(), 5);
    // a failed statistics reply keeps the old numbers and records the error
    record_swift_poll(&mut s, Ok(info), Some(Err("head failed".to_string())), ts(6));
    assert_eq!(s.swift_stats.unwrap().object_count, 40);
    assert_eq!(s.swift_status.error.as_deref(), Some("head failed"));
    assert_eq!(s.swift_status.last_updated.unwrap().secs(), 5);
}

fn args(nova: u64, neutron: u64, swift: u64, cinder: u64) -> Args {
    Args {
        clouds: None,
        cloud: None,
        nova_interval: nova,
        neutron_interval: neutron,
        swift_interval: swift,
        cinder_interval: cinder,
        verbose: false,
    }
}

#[test]
fn poll_intervals_follow_the_flags() {
    let p = poll_intervals(&args(5, 6, 7, 8)).unwrap();
    assert_eq!((p.nova, p.neutron, p.swift, p.cinder, p.glance), (5, 6, 7, 8, 60));
    assert!(poll_intervals(&args(5, 0, 7, 8)).is_none());
}
