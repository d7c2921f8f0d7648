use openstack_tui::auth::keystone::{AuthToken, Timestamp};
use openstack_tui::client::nova::Hypervisor;
use openstack_tui::config::clouds::{AuthConfig, CloudConfig};
use openstack_tui::state::{ActiveView, AppState};
use openstack_tui::strmap::StrMap;
use openstack_tui::ui::app::{handle_key, is_quit, view_for_function_key, Key};
use openstack_tui::ui::layout::{
    spaces, status_bar, status_health, status_line, status_right_text, status_spacer_width, tab_label,
    view_to_tab_index, StatusBar,
};
use openstack_tui::ui::theme::{header_style, state_symbol, symbol_for_lowercase, Color};

fn state() -> AppState {
    let cfg = CloudConfig {
        auth: AuthConfig {
            auth_url: "http://k".to_string(),
            username: "u".to_string(),
            password: "p".to_string(),
            project_name: "admin".to_string(),
            project_id: None,
            user_domain_name: "Default".to_string(),
            project_domain_name: "Default".to_string(),
        },
        region_name: "RegionOne".to_string(),
        interface: "public".to_string(),
        identity_api_version: 3,
        verify: None,
        cacert: None,
    };
    let token = AuthToken { token: "t".to_string(), expires_at: Timestamp::new(10_000, 0).unwrap(), catalog: StrMap::new(), project_id: None };
    AppState::new("prod".to_string(), cfg, token)
}

fn hv(state: &str) -> Hypervisor {
    Hypervisor {
        id: "1".to_string(),
        hypervisor_hostname: "node".to_string(),
        state: state.to_string(),
        status: "enabled".to_string(),
        vcpus: 1,
        vcpus_used: 0,
        memory_mb: 1,
        memory_mb_used: 0,
        local_gb: 1,
        local_gb_used: 0,
        running_vms: 0,
        hypervisor_type: None,
        hypervisor_version: None,
    }
}

#[test]
fn quit_keys() {
    assert!(is_quit(Key::Char('q'), false));
    assert!(is_quit(Key::Char('c'), true));
    assert!(!is_quit(Key::Char('c'), false));
    assert!(!is_quit(Key::Esc, true));
}

#[test]
fn function_keys_switch_views() {
    let mut s = state();
    s.selected_index = 5;
    handle_key(&mut s, Key::F(3));
    assert_eq!(s.active_view, ActiveView::Servers);
    assert_eq!(s.selected_index, 0);
    s.selected_index = 4;
    handle_key(&mut s, Key::F(1));
    assert_eq!(s.active_view, ActiveView::Overview);
    assert_eq!(s.selected_index, 4);
    handle_key(&mut s, Key::F(9));
    assert_eq!(s.active_view, ActiveView::Overview);
    for n in 1..=8u8 {
        assert_eq!(view_to_tab_index(&view_for_function_key(n).unwrap()), (n - 1) as usize);
    }
}

#[test]
fn navigation_keys_saturate() {
    let mut s = state();
    handle_key(&mut s, Key::Up);
    assert_eq!(s.selected_index, 0);
    handle_key(&mut s, Key::Char('j'));
    handle_key(&mut s, Key::Down);
    assert_eq!(s.selected_index, 2);
    handle_key(&mut s, Key::PageDown);
    assert_eq!(s.selected_index, 12);
    handle_key(&mut s, Key::PageUp);
    handle_key(&mut s, Key::Char('k'));
    assert_eq!(s.selected_index, 1);
    handle_key(&mut s, Key::Char('G'));
    assert_eq!(s.selected_index, usize::MAX);
    handle_key(&mut s, Key::Down);
    assert_eq!(s.selected_index, usize::MAX);
    handle_key(&mut s, Key::Char('g'));
    assert_eq!(s.selected_index, 0);
    handle_key(&mut s, Key::Char('u'));
    assert_eq!(s.detail_scroll, 0);
    handle_key(&mut s, Key::Char('d'));
    handle_key(&mut s, Key::Char('d'));
    assert_eq!(s.detail_scroll, 10);
    handle_key(&mut s, Key::Char('u'));
    assert_eq!(s.detail_scroll, 5);
}

#[test]
fn search_mode_editing() {
    let mut s = state();
    s.selected_index = 3;
    handle_key(&mut s, Key::Char('/'));
    assert!(s.search_active);
    handle_key(&mut s, Key::Char('n'));
    handle_key(&mut s, Key::Char('q'));
    assert_eq!(s.search_query, "nq");
    assert_eq!(s.selected_index, 0);
    handle_key(&mut s, Key::Backspace);
    assert_eq!(s.search_query, "n");
    handle_key(&mut s, Key::F(2));
    assert_eq!(s.active_view, ActiveView::Overview);
    handle_key(&mut s, Key::Enter);
    assert!(!s.search_active);
    assert_eq!(s.search_query, "n");
    handle_key(&mut s, Key::Esc);
    assert_eq!(s.search_query, "");
    handle_key(&mut s, Key::Char('/'));
    handle_key(&mut s, Key::Char('x'));
    handle_key(&mut s, Key::Esc);
    assert!(!s.search_active);
    assert_eq!(s.search_query, "");
    handle_key(&mut s, Key::Char('/'));
    handle_key(&mut s, Key::Backspace);
    assert_eq!(s.search_query, "");
}

#[test]
fn state_symbols_ignore_case() {
    assert_eq!(state_symbol("UP").0, "● UP");
    assert_eq!(state_symbol("Active").0, "● UP");
    assert_eq!(state_symbol("ERROR").0, "● DOWN");
    assert_eq!(state_symbol("SHUTOFF").0, "◌ OFF");
    assert_eq!(state_symbol("BUILD").1.fg, Some(Color::Cyan));
    assert_eq!(state_symbol("weird").0, "? UNKN");
    assert_eq!(symbol_for_lowercase("UP").0, "? UNKN");
    assert_eq!(state_symbol("enabled").1, openstack_tui::ui::theme::status_up_style());
    assert!(header_style().bold);
}

#[test]
fn tab_labels() {
    assert_eq!(tab_label(0), " F1 Overview ");
    assert_eq!(tab_label(7), " F8 Services ");
}

#[test]
fn status_bar_texts() {
    let mut s = state();
    assert_eq!(status_health(&s), "Loading...");
    s.hypervisors = vec![hv("up"), hv("up")];
    assert_eq!(status_health(&s), "✓ 2/2 nodes UP");
    s.hypervisors.push(hv("down"));
    assert_eq!(status_health(&s), "⚠ 2/3 nodes UP");
    let now = Timestamp::new(9_990, 0).unwrap();
    assert_eq!(
        status_right_text(&s, now),
        "⚠ 2/3 nodes UP  │  Token: 10s ⚠️  │   Cloud: prod@RegionOne "
    );
    assert_eq!(status_spacer_width(100, "abc", "de"), 95);
    assert_eq!(status_spacer_width(3, "abc", "de"), 0);
    assert_eq!(status_spacer_width(10, "é", ""), 8);
    assert_eq!(spaces(3), "   ");
    let line = status_line(&s, 200, now);
    assert_eq!(line.spacer.len(), 200 - line.keymap.len() - line.right.len());
}

#[test]
fn status_bar_while_searching() {
    let mut s = state();
    let now = Timestamp::new(9_990, 0).unwrap();
    s.search_active = true;
    s.search_query = "web".to_string();
    match status_bar(&s, 80, now) {
        StatusBar::Search { prompt, query, cursor } => {
            assert_eq!(format!("{}{}{}", prompt, query, cursor), " / web█");
        }
        StatusBar::Normal(_) => panic!("expected the search prompt"),
    }
    s.search_active = false;
    match status_bar(&s, 80, now) {
        StatusBar::Normal(line) => assert_eq!(line.right, status_right_text(&s, now)),
        StatusBar::Search { .. } => panic!("expected the status line"),
    }
}
