use openstack_tui::auth::keystone::{AuthToken, Timestamp};
use openstack_tui::client::cinder::{Volume, VolumeAttachment};
use openstack_tui::client::neutron::Agent;
use openstack_tui::client::nova::{Hypervisor, NovaService, Server};
use openstack_tui::config::clouds::{AuthConfig, CloudConfig};
use openstack_tui::state::AppState;
use openstack_tui::strmap::StrMap;
use openstack_tui::ui::views::{clamp_selection, selected_item};
use openstack_tui::ui::views::{images, networks, nodes, overview, servers, services, swift, volumes};
use openstack_tui::client::swift::{SwiftAccountStats, SwiftCore, SwiftInfo};

fn state() -> AppState {
    let cfg = CloudConfig {
        auth: AuthConfig {
            auth_url: "http://k".to_string(),
            username: "u".to_string(),
            password: "p".to_string(),
            project_name: "admin".to_string(),
            project_id: None,
            user_domain_name: "Default".to_string(),
            project_domain_name: "Default".to_string(),
        },
        region_name: "RegionOne".to_string(),
        interface: "public".to_string(),
        identity_api_version: 3,
        verify: None,
        cacert: None,
    };
    let token = AuthToken { token: "t".to_string(), expires_at: Timestamp::new(10_000, 0).unwrap(), catalog: StrMap::new(), project_id: None };
    AppState::new("prod".to_string(), cfg, token)
}

fn hv(name: &str, mem: u64, used: u64) -> Hypervisor {
    Hypervisor {
        id: "1".to_string(),
        hypervisor_hostname: name.to_string(),
        state: "up".to_string(),
        status: "enabled".to_string(),
        vcpus: 1,
        vcpus_used: 0,
        memory_mb: mem,
        memory_mb_used: used,
        local_gb: 1,
        local_gb_used: 0,
        running_vms: 0,
        hypervisor_type: None,
        hypervisor_version: None,
    }
}

fn srv(name: &str, id: &str, status: &str) -> Server {
    Server {
        id: id.to_string(),
        name: name.to_string(),
        status: status.to_string(),
        power_state: None,
        availability_zone: None,
        host: None,
        hypervisor_hostname: None,
        tenant_id: None,
        user_id: None,
        created: None,
        updated: None,
        flavor: None,
        image: None,
        addresses: None,
    }
}

fn vol(name: Option<&str>, size: u64, attachments: Option<usize>) -> Volume {
    Volume {
        id: "v".to_string(),
        name: name.map(|n| n.to_string()),
        status: "available".to_string(),
        size,
        volume_type: None,
        bootable: None,
        encrypted: None,
        attachments: attachments.map(|n| (0..n).map(|_| VolumeAttachment { server_id: None, device: None }).collect()),
        created_at: None,
        host: None,
    }
}

#[test]
fn selection_clamps_to_last_row() {
    assert_eq!(clamp_selection(usize::MAX, 3), 2);
    assert_eq!(clamp_selection(1, 3), 1);
    assert_eq!(clamp_selection(7, 0), 0);
    assert_eq!(selected_item(&vec![4, 9], usize::MAX), Some(9));
    assert_eq!(selected_item(&vec![], 0), None);
}

#[test]
fn node_filter_and_memory() {
    let mut s = state();
    s.hypervisors = vec![hv("Compute-01", 1000, 250), hv("storage-1", 0, 5), hv("compute-02", 3, 1)];
    s.search_query = "COMPUTE".to_string();
    assert_eq!(nodes::filtered_nodes(&s), vec![0, 2]);
    s.search_query = String::new();
    assert_eq!(nodes::filtered_nodes(&s), vec![0, 1, 2]);
    assert_eq!(nodes::memory_percent(&s.hypervisors[0]), 25);
    assert_eq!(nodes::memory_percent(&s.hypervisors[1]), 0);
    assert_eq!(nodes::memory_percent(&s.hypervisors[2]), 33);
    let svcs = vec![
        NovaService { binary: "nova-compute".to_string(), host: "compute-02.lab".to_string(), zone: "nova".to_string(), status: "enabled".to_string(), state: "up".to_string(), updated_at: None, disabled_reason: None },
        NovaService { binary: "nova-scheduler".to_string(), host: "ctl".to_string(), zone: "internal".to_string(), status: "enabled".to_string(), state: "up".to_string(), updated_at: None, disabled_reason: None },
    ];
    assert_eq!(nodes::node_services(&svcs, "compute-02"), vec![0]);
    assert_eq!(nodes::node_services(&svcs, "Compute-02"), Vec::<usize>::new());
}

#[test]
fn truncation_of_cells() {
    assert_eq!(nodes::truncate("short", 28), "short");
    assert_eq!(nodes::truncate("abcdefghij", 5), "abcd…");
    assert_eq!(servers::truncate("exactly10!", 10), "exactly10!");
    assert_eq!(networks::truncate("héllo", 4), "hé…");
    assert_eq!(volumes::truncate("volume-name", 6), "volum…");
    assert_eq!(images::truncate("ubuntu-22.04", 7), "ubuntu…");
    assert_eq!(services::truncate("nova-conductor", 8), "nova-co…");
}

#[test]
fn server_filters_and_labels() {
    let mut s = state();
    s.servers = vec![srv("Web-1", "abcdef12-3456", "ACTIVE"), srv("db", "12345678-aaaa", "SHUTOFF"), srv("web-2", "99", "ERROR")];
    s.search_query = "web".to_string();
    assert_eq!(servers::listed_servers(&s), vec![0, 2]);
    s.search_query = "1234".to_string();
    assert_eq!(servers::listed_servers(&s), vec![1]);
    // the detail pane picks among the listed rows, an id match included
    assert_eq!(servers::detailed_servers(&s), vec![1]);
    assert_eq!(servers::power_state_label(Some(1)), "Running");
    assert_eq!(servers::power_state_label(Some(4)), "Shutdown");
    assert_eq!(servers::power_state_label(None), "Unknown");
    assert_eq!(servers::short_id("abcdef12-3456"), "abcdef12");
    assert_eq!(servers::short_id("99"), "99");
}

#[test]
fn agent_filter_and_labels() {
    let mut s = state();
    s.agents = vec![
        Agent { id: "1".to_string(), agent_type: "Open vSwitch agent".to_string(), binary: "ovs".to_string(), host: "net-1".to_string(), alive: true, admin_state_up: true, description: None, heartbeat_timestamp: None, started_at: None },
        Agent { id: "2".to_string(), agent_type: "L3 agent".to_string(), binary: "l3".to_string(), host: "ctl-1".to_string(), alive: false, admin_state_up: false, description: None, heartbeat_timestamp: None, started_at: None },
    ];
    s.search_query = "vswitch".to_string();
    assert_eq!(networks::filtered_agents(&s), vec![0]);
    s.search_query = "CTL".to_string();
    assert_eq!(networks::filtered_agents(&s), vec![1]);
    assert_eq!(networks::alive_label(false), "● dead");
    assert_eq!(networks::admin_label(true), "enabled");
    assert_eq!(networks::network_admin_label(false), "DOWN");
    assert_eq!(networks::shown(20, networks::NETWORKS_SHOWN), 15);
    assert_eq!(networks::shown(3, networks::ROUTERS_SHOWN), 3);
}

#[test]
fn volume_filter_and_attachment() {
    let mut s = state();
    s.volumes = vec![vol(Some("Data"), 10, Some(1)), vol(None, 5, None), vol(Some("boot"), 20, Some(0))];
    s.search_query = "dat".to_string();
    assert_eq!(volumes::filtered_volumes(&s), vec![0]);
    s.search_query = String::new();
    assert_eq!(volumes::filtered_volumes(&s), vec![0, 1, 2]);
    assert!(volumes::is_attached(&s.volumes[0]));
    assert!(!volumes::is_attached(&s.volumes[1]));
    assert_eq!(volumes::attachment_label(&s.volumes[2]), "free");
    assert_eq!(overview::total_volume_gib(&s), 35);
    assert_eq!(overview::attached_volumes(&s), 1);
}

#[test]
fn image_labels() {
    assert_eq!(images::protected_label(Some(true)), "yes");
    assert_eq!(images::protected_label(None), "-");
}

#[test]
fn overview_figures() {
    let mut s = state();
    assert_eq!(overview::percent_u32(3, 4), 75);
    assert_eq!(overview::percent_u32(3, 0), 0);
    assert_eq!(overview::percent_u64(1, 3), 33);
    assert_eq!(overview::percent_u64(70_000, 1), 7_000_000u64 as u16);
    s.servers = vec![srv("a", "1", "ACTIVE"), srv("b", "2", "SHUTOFF"), srv("c", "3", "ERROR"), srv("d", "4", "ERROR")];
    assert_eq!(overview::servers_with_status(&s, "ERROR"), 2);
    assert_eq!(overview::servers_with_status(&s, "SHUTOFF"), 1);
    let h = overview::service_health(&s);
    assert!(!h.nova && !h.neutron && h.swift && h.cinder && !h.glance);
    s.cinder_status.error = Some("x".to_string());
    assert!(!overview::service_health(&s).cinder);
    assert_eq!(overview::health_label(true).0, "● healthy");
    assert_eq!(services::nova_placeholder(&s), "  Loading…");
    s.nova_status.error = Some("e".to_string());
    assert_eq!(services::nova_placeholder(&s), "  ⚠ Error fetching");
}

#[test]
fn detail_pane_follows_the_highlighted_row() {
    let mut s = state();
    s.servers = vec![srv("web", "aaa1", "ACTIVE"), srv("db", "bbb2", "ACTIVE")];
    s.search_query = "bbb".to_string();
    s.selected_index = 0;
    let rows = servers::listed_servers(&s);
    let detail = servers::detailed_servers(&s);
    assert_eq!(rows, vec![1]);
    let shown = selected_item(&detail, s.selected_index).unwrap();
    assert_eq!(s.servers[shown].name, "db");
}

fn nsvc(binary: &str, host: &str, st: &str) -> NovaService {
    NovaService {
        binary: binary.to_string(),
        host: host.to_string(),
        zone: "nova".to_string(),
        status: "enabled".to_string(),
        state: st.to_string(),
        updated_at: None,
        disabled_reason: None,
    }
}

#[test]
fn nova_services_pane_lines() {
    let mut s = state();
    let pane = services::nova_services_pane(&s);
    assert!(pane.rows.is_empty());
    assert_eq!(pane.placeholder, Some("  Loading…"));
    assert!(pane.error_line.is_none());

    s.nova_services = vec![
        nsvc("nova-compute", "a-very-long-hostname-here", "up"),
        nsvc("nova-scheduler", "ctl", "DOWN"),
    ];
    s.nova_status.error = Some("timeout".to_string());
    let pane = services::nova_services_pane(&s);
    assert_eq!(pane.rows.len(), 2);
    assert_eq!(pane.rows[0].binary, "nova-compute");
    assert_eq!(pane.rows[0].host, "a-very-long-hostn…");
    assert_eq!(pane.rows[0].symbol, "● UP");
    assert_eq!(pane.rows[1].symbol, "● DOWN");
    assert!(pane.placeholder.is_none());
    assert_eq!(pane.error_line.as_deref(), Some("  Error: timeout"));

    s.nova_services.clear();
    assert_eq!(services::nova_services_pane(&s).placeholder, Some("  ⚠ Error fetching"));
}

#[test]
fn swift_view_panes() {
    let mut s = state();
    assert!(matches!(swift::swift_stats_view(&s), swift::SwiftStatsView::Loading));
    assert!(matches!(swift::swift_cluster_view(&s), swift::SwiftClusterView::NotYet));
    s.swift_status.error = Some("boom".to_string());
    match swift::swift_stats_view(&s) {
        swift::SwiftStatsView::Error(e) => assert_eq!(e, "boom"),
        _ => panic!("expected the error"),
    }
    s.swift_stats = Some(SwiftAccountStats { container_count: 2, object_count: 7, bytes_used: 1024 });
    match swift::swift_stats_view(&s) {
        swift::SwiftStatsView::Stats { containers, objects, bytes_used } => {
            assert_eq!((containers, objects, bytes_used), (2, 7, 1024))
        }
        _ => panic!("expected the statistics"),
    }
    s.swift_info = Some(SwiftInfo { swift: None });
    match swift::swift_cluster_view(&s) {
        swift::SwiftClusterView::Known { version, max_object } => assert!(version.is_none() && max_object.is_none()),
        _ => panic!("expected info"),
    }
    s.swift_info = Some(SwiftInfo {
        swift: Some(SwiftCore { version: None, max_file_size: Some(5_368_709_122), max_meta_count: None }),
    });
    match swift::swift_cluster_view(&s) {
        swift::SwiftClusterView::Known { version, max_object } => {
            assert_eq!(version.as_deref(), Some("unknown"));
            assert_eq!(max_object.as_deref(), Some("5368709122 bytes"));
        }
        _ => panic!("expected info"),
    }
}

#[test]
fn last_updated_is_utc_time_of_day() {
    assert_eq!(swift::last_updated_text(Timestamp::new(0, 0).unwrap()), "  Last updated: 00:00:00");
    // 2023-11-14 22:13:20 UTC
    assert_eq!(swift::last_updated_text(Timestamp::new(1_700_000_000, 0).unwrap()), "  Last updated: 22:13:20");
    // one second before the epoch
    assert_eq!(swift::last_updated_text(Timestamp::new(-1, 0).unwrap()), "  Last updated: 23:59:59");
    // a leap second reads 60
    assert_eq!(swift::last_updated_text(Timestamp::new(86_399, 1_000_000_000).unwrap()), "  Last updated: 23:59:60");
}

#[test]
fn node_figures_and_router_mark() {
    let mut h = hv("c1", 65_536, 33_000);
    h.vcpus = 32;
    h.vcpus_used = 4;
    h.local_gb = 500;
    h.local_gb_used = 120;
    h.running_vms = 3;
    assert_eq!(nodes::vcpu_cell(&h), "4/32");
    assert_eq!(nodes::memory_cell(&h), "32/64G");
    let t = nodes::node_detail_texts(&h);
    assert_eq!(t.vcpus, "4 used / 32 total");
    assert_eq!(t.memory, "32 GiB used / 64 GiB total");
    assert_eq!(t.disk, "120 GiB used / 500 GiB total");
    assert_eq!(t.vms, "3 running");
    assert_eq!(networks::ha_label(Some(true)), " HA");
    assert_eq!(networks::ha_label(Some(false)), "");
    assert_eq!(networks::ha_label(None), "");
}
