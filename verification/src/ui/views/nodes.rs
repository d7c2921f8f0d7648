//! The compute nodes view: hypervisors filtered by host name, their memory
//! use, and the Nova services running on the selected node.
use vstd::prelude::*;
use crate::text::spec_lowercase;
use crate::client::nova::{Hypervisor, NovaService};
use crate::state::AppState;
use crate::text::{decimal, u64_to_string, can_truncate, contains, contains_ci, spec_contains, spec_matches_ci, spec_truncate, truncate_text};
use crate::ui::views::{filter_indices, indices_where};

verus! {

/// A hypervisor passes the search when the search is empty or its host name
/// contains it, ignoring case.
pub open spec fn spec_node_matches(h: Hypervisor, query: Seq<char>) -> bool {
    query.len() == 0 || spec_matches_ci(h.hypervisor_hostname@, query)
}

/// Whether a hypervisor passes the search.
pub fn node_matches(h: &Hypervisor, query: &str) -> (r: bool)
    ensures
        r == spec_node_matches(*h, query@),
{
    query.is_empty() || contains_ci(h.hypervisor_hostname.as_str(), query)
}

/// Positions of the hypervisors that pass the search, in order.
pub fn filtered_nodes(state: &AppState) -> (r: Vec<usize>)
    ensures
        r@.len() == indices_where(state.hypervisors@, |h: Hypervisor| spec_node_matches(h, state.search_query@)).len(),
        forall|k: int| 0 <= k < r@.len() ==> r@[k] as int
            == indices_where(state.hypervisors@, |h: Hypervisor| spec_node_matches(h, state.search_query@))[k],
{
    let query = state.search_query.as_str();
    let keep = |h: &Hypervisor| -> (b: bool)
        ensures
            b == spec_node_matches(*h, query@),
        { node_matches(h, query) };
    filter_indices(&state.hypervisors, keep, Ghost(|h: Hypervisor| spec_node_matches(h, state.search_query@)))
}

/// Memory use in percent, rounded down; zero for a node without memory.
pub open spec fn spec_memory_percent(h: Hypervisor) -> int {
    if h.memory_mb > 0 {
        (h.memory_mb_used * 100) / (h.memory_mb as int)
    } else {
        0
    }
}

/// Memory use of a node in percent.
pub fn memory_percent(h: &Hypervisor) -> (r: u64)
    requires
        h.memory_mb > 0 ==> h.memory_mb_used * 100 <= u64::MAX,
    ensures
        r == spec_memory_percent(*h),
{
    if h.memory_mb > 0 {
        (h.memory_mb_used * 100) / h.memory_mb
    } else {
        0
    }
}

/// A Nova service belongs to a node when its host contains the node's host name.
pub open spec fn spec_service_on_node(s: NovaService, hostname: Seq<char>) -> bool {
    spec_contains(s.host@, hostname)
}

/// Positions of the Nova services that belong to the node `hostname`.
pub fn node_services(services: &Vec<NovaService>, hostname: &str) -> (r: Vec<usize>)
    ensures
        r@.len() == indices_where(services@, |s: NovaService| spec_service_on_node(s, hostname@)).len(),
        forall|k: int| 0 <= k < r@.len() ==> r@[k] as int
            == indices_where(services@, |s: NovaService| spec_service_on_node(s, hostname@))[k],
{
    let keep = |s: &NovaService| -> (b: bool)
        ensures
            b == spec_service_on_node(*s, hostname@),
        { contains(s.host.as_str(), hostname) };
    filter_indices(services, keep, Ghost(|s: NovaService| spec_service_on_node(s, hostname@)))
}

/// Shortens a cell text to `max` bytes.
pub fn truncate(s: &str, max: usize) -> (r: String)
    requires
        can_truncate(s@, max),
    ensures
        r@ == spec_truncate(s@, max),
{
    truncate_text(s, max)
}

/// `used` and `total`, with `sep` between them and `tail` after.
pub open spec fn spec_pair_text(used: nat, sep: Seq<char>, total: nat, tail: Seq<char>) -> Seq<char> {
    decimal(used) + sep + decimal(total) + tail
}

fn pair_text(used: u64, sep: &str, total: u64, tail: &str) -> (r: String)
    ensures
        r@ == spec_pair_text(used as nat, sep@, total as nat, tail@),
{
    u64_to_string(used).concat(sep).concat(u64_to_string(total).as_str()).concat(tail)
}

/// The vCPU cell of the node list: used/total.
pub fn vcpu_cell(h: &Hypervisor) -> (r: String)
    ensures
        r@ == spec_pair_text(h.vcpus_used as nat, "/"@, h.vcpus as nat, ""@),
{
    pair_text(h.vcpus_used as u64, "/", h.vcpus as u64, "")
}

/// The memory cell of the node list: used/total in whole GiB (MiB divided
/// by 1024, rounded down), then "G".
pub fn memory_cell(h: &Hypervisor) -> (r: String)
    ensures
        r@ == spec_pair_text((h.memory_mb_used / 1024) as nat, "/"@, (h.memory_mb / 1024) as nat, "G"@),
{
    pair_text(h.memory_mb_used / 1024, "/", h.memory_mb / 1024, "G")
}

/// The figures of the node detail pane.
pub struct NodeDetailTexts {
    pub vcpus: String,
    pub memory: String,
    pub disk: String,
    pub vms: String,
}

/// The figures of the node detail pane for `h`: vCPUs, memory in whole GiB,
/// disk in GiB, each as "used / total", and the running VMs.
pub fn node_detail_texts(h: &Hypervisor) -> (r: NodeDetailTexts)
    ensures
        r.vcpus@ == spec_pair_text(h.vcpus_used as nat, " used / "@, h.vcpus as nat, " total"@),
        r.memory@ == spec_pair_text((h.memory_mb_used / 1024) as nat, " GiB used / "@, (h.memory_mb / 1024) as nat,
            " GiB total"@),
        r.disk@ == spec_pair_text(h.local_gb_used as nat, " GiB used / "@, h.local_gb as nat, " GiB total"@),
        r.vms@ == decimal(h.running_vms as nat) + " running"@,
{
    NodeDetailTexts {
        vcpus: pair_text(h.vcpus_used as u64, " used / ", h.vcpus as u64, " total"),
        memory: pair_text(h.memory_mb_used / 1024, " GiB used / ", h.memory_mb / 1024, " GiB total"),
        disk: pair_text(h.local_gb_used, " GiB used / ", h.local_gb, " GiB total"),
        vms: u64_to_string(h.running_vms as u64).concat(" running"),
    }
}

/// The node search ignores case: a node is listed exactly when the search
/// is empty or the lowercase of its name contains the lowercase of the
/// search, so two non-empty searches with the same lowercase form list the
/// same a node is.
pub proof fn lemma_node_search_ignores_case(list: Seq<Hypervisor>, q1: Seq<char>, q2: Seq<char>)
    ensures
        forall|x: Hypervisor| #[trigger] spec_node_matches(x, q1) <==> (q1.len() == 0
            || spec_contains(spec_lowercase(x.hypervisor_hostname@), spec_lowercase(q1))),
        q1.len() > 0 && q2.len() > 0 && spec_lowercase(q1) == spec_lowercase(q2)
            ==> indices_where(list, |x: Hypervisor| spec_node_matches(x, q1)) == indices_where(list, |x: Hypervisor| spec_node_matches(x, q2)),
{
    if q1.len() > 0 && q2.len() > 0 && spec_lowercase(q1) == spec_lowercase(q2) {
        assert((|x: Hypervisor| spec_node_matches(x, q1)) =~= (|x: Hypervisor| spec_node_matches(x, q2)));
    }
}

} // verus!
