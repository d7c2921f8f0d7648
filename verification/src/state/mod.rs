//! The application state shared by the pollers and the user interface, and
//! the figures derived from it.
use vstd::prelude::*;
use crate::auth::keystone::{AuthToken, Timestamp};
use crate::client::cinder::{CinderService, Volume};
use crate::client::glance::Image;
use crate::client::neutron::{Agent, Network, Router};
use crate::client::nova::{Hypervisor, NovaService, Server};
use crate::client::swift::{SwiftAccountStats, SwiftInfo};
use crate::config::clouds::CloudConfig;
use crate::text::{decimal, str_eq, u64_to_string};

pub mod poller;

verus! {

/// Which view is currently active in the user interface.
#[derive(Debug, Clone, Copy, PartialEq, Eq, Structural)]
pub enum ActiveView {
    Overview,
    Nodes,
    Servers,
    Networks,
    Swift,
    Volumes,
    Images,
    Services,
}

impl Default for ActiveView {
    fn default() -> (r: Self)
        ensures
            r == ActiveView::Overview,
    {
        ActiveView::Overview
    }
}

/// Last-fetch time and error state of one service.
#[derive(Debug, Clone)]
pub struct ServiceStatus {
    pub last_updated: Option<Timestamp>,
    pub error: Option<String>,
}

impl Default for ServiceStatus {
    fn default() -> (r: Self)
        ensures
            r.last_updated is None,
            r.error is None,
    {
        ServiceStatus { last_updated: None, error: None }
    }
}

/// Sum of `f` over the items of `s`.
pub open spec fn sum_by<T>(s: Seq<T>, f: spec_fn(T) -> nat) -> nat
    decreases s.len(),
{
    if s.len() == 0 {
        0
    } else {
        sum_by(s.drop_last(), f) + f(s.last())
    }
}

/// Number of items of `s` that satisfy `p`.
pub open spec fn count_by<T>(s: Seq<T>, p: spec_fn(T) -> bool) -> nat
    decreases s.len(),
{
    if s.len() == 0 {
        0
    } else {
        count_by(s.drop_last(), p) + if p(s.last()) { 1nat } else { 0nat }
    }
}

/// A prefix never sums to more than the whole.
pub proof fn lemma_sum_prefix<T>(s: Seq<T>, f: spec_fn(T) -> nat, i: int)
    requires
        0 <= i <= s.len(),
    ensures
        sum_by(s.take(i), f) <= sum_by(s, f),
    decreases s.len() - i,
{
    if i < s.len() {
        lemma_sum_prefix(s.drop_last(), f, i);
        assert(s.drop_last().take(i) == s.take(i));
    } else {
        assert(s.take(i) == s);
    }
}

proof fn lemma_sum_step<T>(s: Seq<T>, f: spec_fn(T) -> nat, i: int)
    requires
        0 <= i < s.len(),
    ensures
        sum_by(s.take(i + 1), f) == sum_by(s.take(i), f) + f(s[i]),
{
    assert(s.take(i + 1).drop_last() == s.take(i));
}

proof fn lemma_count_step<T>(s: Seq<T>, p: spec_fn(T) -> bool, i: int)
    requires
        0 <= i < s.len(),
    ensures
        count_by(s.take(i + 1), p) == count_by(s.take(i), p) + if p(s[i]) { 1nat } else { 0nat },
{
    assert(s.take(i + 1).drop_last() == s.take(i));
}

/// Number of `items` that `keep` accepts, where `keep` decides `p`.
pub(crate) fn count_where<T, F: Fn(&T) -> bool>(items: &Vec<T>, keep: F, Ghost(p): Ghost<spec_fn(T) -> bool>) -> (r: usize)
    requires
        forall|x: &T| #[trigger] keep.requires((x,)),
        forall|x: &T, b: bool| keep.ensures((x,), b) ==> b == p(*x),
    ensures
        r == count_by(items@, p),
{
    let mut n: usize = 0;
    let mut i: usize = 0;
    while i < items.len()
        invariant
            i <= items@.len(),
            forall|x: &T| #[trigger] keep.requires((x,)),
            forall|x: &T, b: bool| keep.ensures((x,), b) ==> b == p(*x),
            n == count_by(items@.take(i as int), p),
            n <= i,
        decreases items@.len() - i,
    {
        proof {
            lemma_count_step(items@, p, i as int);
        }
        if keep(&items[i]) {
            n = n + 1;
        }
        i = i + 1;
    }
    proof {
        assert(items@.take(i as int) == items@);
    }
    n
}

/// All items satisfy `p` exactly when the count is the length; none does
/// exactly when the count is zero.
pub proof fn lemma_count_all_none<T>(s: Seq<T>, p: spec_fn(T) -> bool)
    ensures
        count_by(s, p) <= s.len(),
        (count_by(s, p) == s.len()) <==> (forall|i: int| 0 <= i < s.len() ==> p(#[trigger] s[i])),
        (count_by(s, p) == 0) <==> (forall|i: int| 0 <= i < s.len() ==> !p(#[trigger] s[i])),
    decreases s.len(),
{
    if s.len() > 0 {
        let t = s.drop_last();
        lemma_count_all_none(t, p);
        assert forall|i: int| 0 <= i < t.len() implies #[trigger] t[i] == s[i] by {}
        if forall|i: int| 0 <= i < s.len() ==> p(#[trigger] s[i]) {
            assert(p(s[s.len() - 1]));
        }
        if forall|i: int| 0 <= i < s.len() ==> !p(#[trigger] s[i]) {
            assert(!p(s[s.len() - 1]));
        }
        if count_by(s, p) == s.len() {
            assert forall|i: int| 0 <= i < s.len() implies p(#[trigger] s[i]) by {
                if i < s.len() - 1 {
                    assert(t[i] == s[i]);
                }
            }
        }
        if count_by(s, p) == 0 {
            assert forall|i: int| 0 <= i < s.len() implies !p(#[trigger] s[i]) by {
                if i < s.len() - 1 {
                    assert(t[i] == s[i]);
                }
            }
        }
    }
}

/// The items that satisfy `p` and those that do not make up the whole sequence.
pub proof fn lemma_count_complement<T>(s: Seq<T>, p: spec_fn(T) -> bool)
    ensures
        count_by(s, p) + count_by(s, |x: T| !p(x)) == s.len(),
    decreases s.len(),
{
    if s.len() > 0 {
        lemma_count_complement(s.drop_last(), p);
    }
}

pub open spec fn vcpus_of(h: Hypervisor) -> nat {
    h.vcpus as nat
}

pub open spec fn vcpus_used_of(h: Hypervisor) -> nat {
    h.vcpus_used as nat
}

pub open spec fn memory_mb_of(h: Hypervisor) -> nat {
    h.memory_mb as nat
}

pub open spec fn memory_mb_used_of(h: Hypervisor) -> nat {
    h.memory_mb_used as nat
}

pub open spec fn is_up(h: Hypervisor) -> bool {
    h.state@ == "up"@
}

pub open spec fn is_not_up(h: Hypervisor) -> bool {
    h.state@ != "up"@
}

pub open spec fn is_active(s: Server) -> bool {
    s.status@ == "ACTIVE"@
}

pub open spec fn is_alive(a: Agent) -> bool {
    a.alive
}

pub open spec fn is_dead(a: Agent) -> bool {
    !a.alive
}

/// Sum of a `u32` field of the hypervisors, when it fits in a `u32`.
fn sum_u32(hs: &Vec<Hypervisor>, used: bool) -> (r: u32)
    requires
        sum_by(hs@, if used { |h: Hypervisor| vcpus_used_of(h) } else { |h: Hypervisor| vcpus_of(h) }) <= u32::MAX,
    ensures
        r == sum_by(hs@, if used { |h: Hypervisor| vcpus_used_of(h) } else { |h: Hypervisor| vcpus_of(h) }),
{
    let ghost f = if used { |h: Hypervisor| vcpus_used_of(h) } else { |h: Hypervisor| vcpus_of(h) };
    let mut acc: u32 = 0;
    let mut i: usize = 0;
    while i < hs.len()
        invariant
            i <= hs@.len(),
            f == (if used { |h: Hypervisor| vcpus_used_of(h) } else { |h: Hypervisor| vcpus_of(h) }),
            sum_by(hs@, f) <= u32::MAX,
            acc == sum_by(hs@.take(i as int), f),
        decreases hs@.len() - i,
    {
        proof {
            lemma_sum_step(hs@, f, i as int);
            lemma_sum_prefix(hs@, f, i + 1);
        }
        let x = if used { hs[i].vcpus_used } else { hs[i].vcpus };
        acc = acc + x;
        i = i + 1;
    }
    proof {
        assert(hs@.take(i as int) == hs@);
    }
    acc
}

/// Sum of a `u64` field of the hypervisors, when it fits in a `u64`.
fn sum_u64(hs: &Vec<Hypervisor>, used: bool) -> (r: u64)
    requires
        sum_by(hs@, if used { |h: Hypervisor| memory_mb_used_of(h) } else { |h: Hypervisor| memory_mb_of(h) }) <= u64::MAX,
    ensures
        r == sum_by(hs@, if used { |h: Hypervisor| memory_mb_used_of(h) } else { |h: Hypervisor| memory_mb_of(h) }),
{
    let ghost f = if used { |h: Hypervisor| memory_mb_used_of(h) } else { |h: Hypervisor| memory_mb_of(h) };
    let mut acc: u64 = 0;
    let mut i: usize = 0;
    while i < hs.len()
        invariant
            i <= hs@.len(),
            f == (if used { |h: Hypervisor| memory_mb_used_of(h) } else { |h: Hypervisor| memory_mb_of(h) }),
            sum_by(hs@, f) <= u64::MAX,
            acc == sum_by(hs@.take(i as int), f),
        decreases hs@.len() - i,
    {
        proof {
            lemma_sum_step(hs@, f, i as int);
            lemma_sum_prefix(hs@, f, i + 1);
        }
        let x = if used { hs[i].memory_mb_used } else { hs[i].memory_mb };
        acc = acc + x;
        i = i + 1;
    }
    proof {
        assert(hs@.take(i as int) == hs@);
    }
    acc
}

/// The text shown for the remaining token lifetime `secs`.
pub open spec fn spec_remaining_text(secs: nat) -> Seq<char> {
    if secs > 3600 {
        decimal(secs / 3600) + "h "@ + decimal((secs % 3600) / 60) + "m"@
    } else if secs > 60 {
        decimal(secs / 60) + "m "@ + decimal(secs % 60) + "s"@
    } else {
        decimal(secs) + "s ⚠️"@
    }
}

/// The status bar text tells the time left: above an hour, whole hours and
/// the minutes of the hour started, rounded down; above a minute, whole
/// minutes and the seconds of the minute started; else the seconds.
pub proof fn lemma_remaining_text_tells_time(secs: nat)
    ensures
        secs > 3600 ==> exists|h: nat, m: nat|
            #![trigger decimal(h), decimal(m)]
            spec_remaining_text(secs) == decimal(h) + "h "@ + decimal(m) + "m"@
                && m < 60 && h * 3600 + m * 60 <= secs < h * 3600 + m * 60 + 60,
        60 < secs <= 3600 ==> exists|m: nat, x: nat|
            #![trigger decimal(m), decimal(x)]
            spec_remaining_text(secs) == decimal(m) + "m "@ + decimal(x) + "s"@
                && x < 60 && m * 60 + x == secs,
        secs <= 60 ==> spec_remaining_text(secs) == decimal(secs) + "s ⚠️"@,
{
    if secs > 3600 {
        let h: nat = secs / 3600;
        let m: nat = (secs % 3600) / 60;
        assert(h * 3600 + m * 60 <= secs < h * 3600 + m * 60 + 60);
        assert(decimal(h) == decimal(h) && decimal(m) == decimal(m));
    } else if secs > 60 {
        let m: nat = secs / 60;
        let x: nat = secs % 60;
        assert(m * 60 + x == secs);
        assert(decimal(m) == decimal(m) && decimal(x) == decimal(x));
    }
}

/// Formats a remaining lifetime in seconds for the status bar.
pub fn remaining_text(secs: u64) -> (r: String)
    ensures
        r@ == spec_remaining_text(secs as nat),
{
    if secs > 3600 {
        u64_to_string(secs / 3600).concat("h ").concat(u64_to_string((secs % 3600) / 60).as_str()).concat("m")
    } else if secs > 60 {
        u64_to_string(secs / 60).concat("m ").concat(u64_to_string(secs % 60).as_str()).concat("s")
    } else {
        u64_to_string(secs).concat("s ⚠️")
    }
}

/// The entire shared application state: updated by the background pollers,
/// read by the user interface.
#[derive(Debug)]
pub struct AppState {
    // Identity
    pub cloud_name: String,
    pub cloud_config: CloudConfig,
    pub auth_token: AuthToken,
    // Compute (Nova)
    pub hypervisors: Vec<Hypervisor>,
    pub servers: Vec<Server>,
    pub nova_services: Vec<NovaService>,
    pub nova_status: ServiceStatus,
    // Network (Neutron)
    pub networks: Vec<Network>,
    pub agents: Vec<Agent>,
    pub routers: Vec<Router>,
    pub neutron_status: ServiceStatus,
    // Object storage (Swift)
    pub swift_info: Option<SwiftInfo>,
    pub swift_stats: Option<SwiftAccountStats>,
    pub swift_status: ServiceStatus,
    // Block storage (Cinder)
    pub volumes: Vec<Volume>,
    pub cinder_services: Vec<CinderService>,
    pub cinder_status: ServiceStatus,
    // Images (Glance)
    pub images: Vec<Image>,
    pub glance_status: ServiceStatus,
    // Navigation
    pub active_view: ActiveView,
    pub selected_index: usize,
    pub search_query: String,
    pub search_active: bool,
    pub detail_scroll: u16,
}

impl AppState {
    /// The state right after login: no data fetched yet, the overview shown.
    pub fn new(cloud_name: String, cloud_config: CloudConfig, auth_token: AuthToken) -> (r: Self)
        ensures
            r.cloud_name == cloud_name,
            r.cloud_config == cloud_config,
            r.auth_token == auth_token,
            r.hypervisors@.len() == 0,
            r.servers@.len() == 0,
            r.nova_services@.len() == 0,
            r.networks@.len() == 0,
            r.agents@.len() == 0,
            r.routers@.len() == 0,
            r.volumes@.len() == 0,
            r.cinder_services@.len() == 0,
            r.images@.len() == 0,
            r.swift_info is None,
            r.swift_stats is None,
            r.nova_status.last_updated is None && r.nova_status.error is None,
            r.neutron_status.last_updated is None && r.neutron_status.error is None,
            r.swift_status.last_updated is None && r.swift_status.error is None,
            r.cinder_status.last_updated is None && r.cinder_status.error is None,
            r.glance_status.last_updated is None && r.glance_status.error is None,
            r.active_view == ActiveView::Overview,
            r.selected_index == 0,
            r.search_query@.len() == 0,
            !r.search_active,
            r.detail_scroll == 0,
    {
        AppState {
            cloud_name,
            cloud_config,
            auth_token,
            hypervisors: Vec::new(),
            servers: Vec::new(),
            nova_services: Vec::new(),
            nova_status: ServiceStatus::default(),
            networks: Vec::new(),
            agents: Vec::new(),
            routers: Vec::new(),
            neutron_status: ServiceStatus::default(),
            swift_info: None,
            swift_stats: None,
            swift_status: ServiceStatus::default(),
            volumes: Vec::new(),
            cinder_services: Vec::new(),
            cinder_status: ServiceStatus::default(),
            images: Vec::new(),
            glance_status: ServiceStatus::default(),
            active_view: ActiveView::default(),
            selected_index: 0,
            search_query: String::new(),
            search_active: false,
            detail_scroll: 0,
        }
    }

    /// Total vCPUs across all hypervisors.
    pub fn total_vcpus(&self) -> (r: u32)
        requires
            sum_by(self.hypervisors@, |h: Hypervisor| vcpus_of(h)) <= u32::MAX,
        ensures
            r == sum_by(self.hypervisors@, |h: Hypervisor| vcpus_of(h)),
    {
        sum_u32(&self.hypervisors, false)
    }

    /// vCPUs in use across all hypervisors.
    pub fn used_vcpus(&self) -> (r: u32)
        requires
            sum_by(self.hypervisors@, |h: Hypervisor| vcpus_used_of(h)) <= u32::MAX,
        ensures
            r == sum_by(self.hypervisors@, |h: Hypervisor| vcpus_used_of(h)),
    {
        sum_u32(&self.hypervisors, true)
    }

    /// Total memory in MiB across all hypervisors.
    pub fn total_memory_mb(&self) -> (r: u64)
        requires
            sum_by(self.hypervisors@, |h: Hypervisor| memory_mb_of(h)) <= u64::MAX,
        ensures
            r == sum_by(self.hypervisors@, |h: Hypervisor| memory_mb_of(h)),
    {
        sum_u64(&self.hypervisors, false)
    }

    /// Memory in use in MiB across all hypervisors.
    pub fn used_memory_mb(&self) -> (r: u64)
        requires
            sum_by(self.hypervisors@, |h: Hypervisor| memory_mb_used_of(h)) <= u64::MAX,
        ensures
            r == sum_by(self.hypervisors@, |h: Hypervisor| memory_mb_used_of(h)),
    {
        sum_u64(&self.hypervisors, true)
    }

    /// Hypervisors whose state is "up".
    pub fn nodes_up(&self) -> (r: usize)
        ensures
            r == count_by(self.hypervisors@, |h: Hypervisor| is_up(h)),
    {
        let keep = |h: &Hypervisor| -> (b: bool)
            ensures
                b == is_up(*h),
            { str_eq(h.state.as_str(), "up") };
        count_where(&self.hypervisors, keep, Ghost(|h: Hypervisor| is_up(h)))
    }

    /// Hypervisors whose state is anything but "up".
    pub fn nodes_down(&self) -> (r: usize)
        ensures
            r == count_by(self.hypervisors@, |h: Hypervisor| is_not_up(h)),
    {
        let keep = |h: &Hypervisor| -> (b: bool)
            ensures
                b == is_not_up(*h),
            { !str_eq(h.state.as_str(), "up") };
        count_where(&self.hypervisors, keep, Ghost(|h: Hypervisor| is_not_up(h)))
    }

    /// Servers whose status is "ACTIVE".
    pub fn active_servers(&self) -> (r: usize)
        ensures
            r == count_by(self.servers@, |s: Server| is_active(s)),
    {
        let keep = |s: &Server| -> (b: bool)
            ensures
                b == is_active(*s),
            { str_eq(s.status.as_str(), "ACTIVE") };
        count_where(&self.servers, keep, Ghost(|s: Server| is_active(s)))
    }

    /// Network agents reported alive.
    pub fn agents_alive(&self) -> (r: usize)
        ensures
            r == count_by(self.agents@, |a: Agent| is_alive(a)),
    {
        let keep = |a: &Agent| -> (b: bool)
            ensures
                b == is_alive(*a),
            { a.alive };
        count_where(&self.agents, keep, Ghost(|a: Agent| is_alive(a)))
    }

    /// Network agents not reported alive.
    pub fn agents_dead(&self) -> (r: usize)
        ensures
            r == count_by(self.agents@, |a: Agent| is_dead(a)),
    {
        let keep = |a: &Agent| -> (b: bool)
            ensures
                b == is_dead(*a),
            { !a.alive };
        count_where(&self.agents, keep, Ghost(|a: Agent| is_dead(a)))
    }

    /// Token remaining time at `now`, formatted for the status bar.
    pub fn token_remaining_display_at(&self, now: Timestamp) -> (r: String)
        ensures
            r@ == spec_remaining_text(self.auth_token.spec_remaining_at(now) as nat),
    {
        let secs = self.auth_token.remaining_secs_at(now);
        remaining_text(secs as u64)
    }

    /// Token remaining time formatted for the status bar.
    pub fn token_remaining_display(&self) -> (r: String)
        ensures
            exists|t: Timestamp| r@ == spec_remaining_text(self.auth_token.spec_remaining_at(t) as nat),
    {
        let secs = self.auth_token.remaining_secs();
        remaining_text(secs as u64)
    }
}

/// Every hypervisor is counted exactly once, as up or as not up.
pub proof fn lemma_nodes_partition(hs: Seq<Hypervisor>)
    ensures
        count_by(hs, |h: Hypervisor| is_up(h)) + count_by(hs, |h: Hypervisor| is_not_up(h)) == hs.len(),
{
    lemma_count_complement(hs, |h: Hypervisor| is_up(h));
    assert((|x: Hypervisor| !(|h: Hypervisor| is_up(h))(x)) =~= (|h: Hypervisor| is_not_up(h)));
}

/// Every network agent is counted exactly once, as alive or as dead.
pub proof fn lemma_agents_partition(agents: Seq<Agent>)
    ensures
        count_by(agents, |a: Agent| is_alive(a)) + count_by(agents, |a: Agent| is_dead(a)) == agents.len(),
{
    lemma_count_complement(agents, |a: Agent| is_alive(a));
    assert((|x: Agent| !(|a: Agent| is_alive(a))(x)) =~= (|a: Agent| is_dead(a)));
}

} // verus!
