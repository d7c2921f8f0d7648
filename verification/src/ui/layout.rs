//! The frame around the views: tab titles and the status bar text.
use vstd::prelude::*;
use vstd::string::StringSliceAdditionalSpecFns;
use crate::auth::keystone::Timestamp;
use crate::state::{AppState, count_by, is_not_up, is_up, lemma_count_all_none, lemma_nodes_partition, spec_remaining_text};
use crate::client::nova::Hypervisor;
use crate::text::{decimal, push_char, u64_to_string, utf8_bytes};
use crate::ui::app::{spec_handle_key, spec_view_for_function_key, Key, Nav};
use crate::state::ActiveView;

verus! {

/// Number of tabs, one per view.
pub const TAB_COUNT: usize = 8;

/// Position of a view's tab.
pub open spec fn spec_tab_index(view: ActiveView) -> usize {
    match view {
        ActiveView::Overview => 0,
        ActiveView::Nodes => 1,
        ActiveView::Servers => 2,
        ActiveView::Networks => 3,
        ActiveView::Swift => 4,
        ActiveView::Volumes => 5,
        ActiveView::Images => 6,
        ActiveView::Services => 7,
    }
}

/// Position of a view's tab.
pub fn view_to_tab_index(view: &ActiveView) -> (r: usize)
    ensures
        r == spec_tab_index(*view),
        r < TAB_COUNT,
{
    match view {
        ActiveView::Overview => 0,
        ActiveView::Nodes => 1,
        ActiveView::Servers => 2,
        ActiveView::Networks => 3,
        ActiveView::Swift => 4,
        ActiveView::Volumes => 5,
        ActiveView::Images => 6,
        ActiveView::Services => 7,
    }
}

/// Function key F`n` selects the view whose tab is the `n`-th; the tab
/// titles name the keys in the same order.
pub proof fn lemma_function_key_selects_tab(n: u8)
    requires
        1 <= n <= 8,
    ensures
        spec_view_for_function_key(n) is Some,
        spec_tab_index(spec_view_for_function_key(n)->0) == n - 1,
{
}

/// Outside search mode, F`n` shows the view of the `n`-th tab; F2..F8 also
/// select the first row, and the search text stays. Other function keys
/// change nothing.
pub proof fn lemma_function_key_shows_tab(n: Nav, f: u8)
    requires
        !n.3,
    ensures
        1 <= f <= 8 ==> spec_tab_index(spec_handle_key(n, Key::F(f)).0) == f - 1,
        2 <= f <= 8 ==> spec_handle_key(n, Key::F(f)).1 == 0,
        f == 1 ==> spec_handle_key(n, Key::F(f)).1 == n.1,
        spec_handle_key(n, Key::F(f)).2 == n.2,
        !(1 <= f <= 8) ==> spec_handle_key(n, Key::F(f)) == n,
{
}

pub open spec fn spec_tab_title(i: int) -> Seq<char> {
    if i == 0 {
        "F1 Overview"@
    } else if i == 1 {
        "F2 Nodes"@
    } else if i == 2 {
        "F3 VMs"@
    } else if i == 3 {
        "F4 Networks"@
    } else if i == 4 {
        "F5 Swift"@
    } else if i == 5 {
        "F6 Volumes"@
    } else if i == 6 {
        "F7 Images"@
    } else {
        "F8 Services"@
    }
}

/// Title of tab `i`.
pub fn tab_title(i: usize) -> (r: &'static str)
    requires
        i < TAB_COUNT,
    ensures
        r@ == spec_tab_title(i as int),
{
    match i {
        0 => "F1 Overview",
        1 => "F2 Nodes",
        2 => "F3 VMs",
        3 => "F4 Networks",
        4 => "F5 Swift",
        5 => "F6 Volumes",
        6 => "F7 Images",
        _ => "F8 Services",
    }
}

/// The text of tab `i` as drawn: its title padded with one space each side.
pub fn tab_label(i: usize) -> (r: String)
    requires
        i < TAB_COUNT,
    ensures
        r@ == " "@ + spec_tab_title(i as int) + " "@,
{
    String::from_str(" ").concat(tab_title(i)).concat(" ")
}

/// Key hints on the left of the status bar.
pub fn status_keymap() -> (r: &'static str)
    ensures
        r@ == " /:search  ↑↓/jk:nav  Enter:detail  d:scroll  r:refresh  q:quit"@,
{
    " /:search  ↑↓/jk:nav  Enter:detail  d:scroll  r:refresh  q:quit"
}

/// Cluster health as the status bar shows it.
pub open spec fn spec_health_text(up: nat, down: nat, total: nat) -> Seq<char> {
    if down == 0 && total > 0 {
        "✓ "@ + decimal(up) + "/"@ + decimal(total) + " nodes UP"@
    } else if total == 0 {
        "Loading..."@
    } else {
        "⚠ "@ + decimal(up) + "/"@ + decimal(total) + " nodes UP"@
    }
}

/// The health text tells the state of the nodes: loading while none is
/// known, a check mark with every node counted up when all are up, and a
/// warning with fewer nodes up than there are when any is not up.
pub proof fn lemma_health_text_tells_state(hs: Seq<Hypervisor>)
    ensures
        hs.len() == 0 ==> spec_health_text(
            count_by(hs, |h: Hypervisor| is_up(h)), count_by(hs, |h: Hypervisor| is_not_up(h)), hs.len()) == "Loading..."@,
        hs.len() > 0 && (forall|i: int| 0 <= i < hs.len() ==> is_up(#[trigger] hs[i])) ==> spec_health_text(
            count_by(hs, |h: Hypervisor| is_up(h)), count_by(hs, |h: Hypervisor| is_not_up(h)), hs.len())
            == "✓ "@ + decimal(hs.len()) + "/"@ + decimal(hs.len()) + " nodes UP"@,
        (exists|i: int| 0 <= i < hs.len() && is_not_up(#[trigger] hs[i])) ==> exists|u: nat|
            #![trigger decimal(u)]
            u < hs.len() && spec_health_text(
            count_by(hs, |h: Hypervisor| is_up(h)), count_by(hs, |h: Hypervisor| is_not_up(h)), hs.len())
            == "⚠ "@ + decimal(u) + "/"@ + decimal(hs.len()) + " nodes UP"@,
{
    let up = |h: Hypervisor| is_up(h);
    let down = |h: Hypervisor| is_not_up(h);
    lemma_count_all_none(hs, up);
    lemma_count_all_none(hs, down);
    lemma_nodes_partition(hs);
    if exists|i: int| 0 <= i < hs.len() && is_not_up(#[trigger] hs[i]) {
        let i = choose|i: int| 0 <= i < hs.len() && is_not_up(#[trigger] hs[i]);
        assert(down(hs[i]));
        let u = count_by(hs, up);
        assert(decimal(u) == decimal(u));
    }
    if hs.len() > 0 && (forall|i: int| 0 <= i < hs.len() ==> is_up(#[trigger] hs[i])) {
        assert forall|i: int| 0 <= i < hs.len() implies up(#[trigger] hs[i]) by {}
        assert forall|i: int| 0 <= i < hs.len() implies !down(#[trigger] hs[i]) by {
            assert(is_up(hs[i]));
        }
    }
}

/// Cluster health: how many hypervisors are up out of all of them.
pub fn status_health(state: &AppState) -> (r: String)
    ensures
        r@ == spec_health_text(
            count_by(state.hypervisors@, |h: Hypervisor| is_up(h)),
            count_by(state.hypervisors@, |h: Hypervisor| is_not_up(h)),
            state.hypervisors@.len(),
        ),
{
    let up = state.nodes_up();
    let total = state.hypervisors.len();
    if state.nodes_down() == 0 && total > 0 {
        String::from_str("✓ ").concat(u64_to_string(up as u64).as_str()).concat("/").concat(
            u64_to_string(total as u64).as_str(),
        ).concat(" nodes UP")
    } else if total == 0 {
        String::from_str("Loading...")
    } else {
        String::from_str("⚠ ").concat(u64_to_string(up as u64).as_str()).concat("/").concat(
            u64_to_string(total as u64).as_str(),
        ).concat(" nodes UP")
    }
}

/// The right part of the status bar: health, token lifetime, cloud and region.
pub open spec fn spec_status_right(state: AppState, now: Timestamp) -> Seq<char> {
    spec_health_text(
        count_by(state.hypervisors@, |h: Hypervisor| is_up(h)),
        count_by(state.hypervisors@, |h: Hypervisor| is_not_up(h)),
        state.hypervisors@.len(),
    ) + "  │  "@ + "Token: "@ + spec_remaining_text(state.auth_token.spec_remaining_at(now) as nat)
        + "  │  "@ + " Cloud: "@ + state.cloud_name@ + "@"@ + state.cloud_config.region_name@ + " "@
}

/// The right part of the status bar at time `now`.
pub fn status_right_text(state: &AppState, now: Timestamp) -> (r: String)
    ensures
        r@ == spec_status_right(*state, now),
{
    let health = status_health(state);
    let token = state.token_remaining_display_at(now);
    health.concat("  │  ").concat("Token: ").concat(token.as_str()).concat("  │  ").concat(" Cloud: ").concat(
        state.cloud_name.as_str(),
    ).concat("@").concat(state.cloud_config.region_name.as_str()).concat(" ")
}

/// Number of spaces between the key hints and the right text in a bar
/// `area_width` cells wide: the width minus the byte lengths of both texts,
/// that sum taken modulo 2^16 as a `u16`, and never below zero.
pub open spec fn spec_spacer_width(area_width: u16, left: Seq<char>, right: Seq<char>) -> nat {
    let used = (utf8_bytes(left).len() + utf8_bytes(right).len()) % 65536;
    if area_width >= used {
        (area_width - used) as nat
    } else {
        0
    }
}

/// When the key hints and the right text fit, the spacer fills the bar
/// exactly; when they do not, there is no spacer.
pub proof fn lemma_spacer_fills_bar(area_width: u16, left: Seq<char>, right: Seq<char>)
    ensures
        utf8_bytes(left).len() + utf8_bytes(right).len() <= area_width ==> utf8_bytes(left).len()
            + spec_spacer_width(area_width, left, right) + utf8_bytes(right).len() == area_width,
        area_width <= utf8_bytes(left).len() + utf8_bytes(right).len() < 65536
            ==> spec_spacer_width(area_width, left, right) == 0,
{
}

/// The spacer width of the status bar.
pub fn status_spacer_width(area_width: u16, left: &str, right: &str) -> (r: usize)
    ensures
        r == spec_spacer_width(area_width, left@, right@),
{
    let a = left.as_bytes().len() as u128;
    let b = right.as_bytes().len() as u128;
    let used: u16 = ((a + b) % 65536) as u16;
    area_width.saturating_sub(used) as usize
}

/// `n` spaces.
pub fn spaces(n: usize) -> (r: String)
    ensures
        r@ == Seq::new(n as nat, |_i: int| ' '),
{
    let mut r = String::new();
    let mut i: usize = 0;
    while i < n
        invariant
            i <= n,
            r@ == Seq::new(i as nat, |_i: int| ' '),
        decreases n - i,
    {
        push_char(&mut r, ' ');
        i = i + 1;
        proof {
            assert(r@ =~= Seq::new(i as nat, |_i: int| ' '));
        }
    }
    r
}

/// The texts of the status bar: key hints, spacer, right text.
pub struct StatusLine {
    pub keymap: &'static str,
    pub spacer: String,
    pub right: String,
}

/// The status bar for a bar `area_width` cells wide at time `now`.
pub fn status_line(state: &AppState, area_width: u16, now: Timestamp) -> (r: StatusLine)
    ensures
        r.keymap@ == " /:search  ↑↓/jk:nav  Enter:detail  d:scroll  r:refresh  q:quit"@,
        r.right@ == spec_status_right(*state, now),
        r.spacer@ == Seq::new(spec_spacer_width(area_width, r.keymap@, r.right@), |_i: int| ' '),
{
    let keymap = status_keymap();
    let right = status_right_text(state, now);
    let n = status_spacer_width(area_width, keymap, right.as_str());
    StatusLine { keymap, spacer: spaces(n), right }
}

/// What the status bar shows: the search prompt while searching, the
/// status line otherwise.
pub enum StatusBar {
    /// `prompt`, then the search text, then `cursor`.
    Search { prompt: &'static str, query: String, cursor: &'static str },
    Normal(StatusLine),
}

/// The status bar for a bar `area_width` cells wide at time `now`.
pub fn status_bar(state: &AppState, area_width: u16, now: Timestamp) -> (r: StatusBar)
    ensures
        state.search_active ==> (r matches StatusBar::Search { prompt, query, cursor }
            && prompt@ == " / "@ && query@ == state.search_query@ && cursor@ == "█"@),
        !state.search_active ==> (r matches StatusBar::Normal(l)
            && l.keymap@ == " /:search  ↑↓/jk:nav  Enter:detail  d:scroll  r:refresh  q:quit"@
            && l.right@ == spec_status_right(*state, now)
            && l.spacer@ == Seq::new(spec_spacer_width(area_width, l.keymap@, l.right@), |_i: int| ' ')),
{
    if state.search_active {
        StatusBar::Search { prompt: " / ", query: state.search_query.clone(), cursor: "█" }
    } else {
        StatusBar::Normal(status_line(state, area_width, now))
    }
}

} // verus!
