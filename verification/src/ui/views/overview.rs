//! The overview dashboard: utilisation percentages, storage totals, server
//! counts by status and per-service health.
use vstd::prelude::*;
use crate::client::cinder::Volume;
use crate::client::nova::Server;
use crate::state::{AppState, count_by, count_where, lemma_sum_prefix, sum_by};
use crate::text::str_eq;
use crate::ui::theme::{StyleSpec, status_down_style, status_up_style, style, Color};
use crate::ui::views::volumes::{is_attached, spec_is_attached};

verus! {

/// A usage percentage as the dashboard shows it: `used * 100 / total`
/// rounded down and kept to 16 bits, zero when the total is zero.
pub open spec fn spec_percent(used: int, total: int) -> int {
    if total > 0 {
        ((used * 100) / total) % 65536
    } else {
        0
    }
}

/// vCPU use in percent.
pub fn percent_u32(used: u32, total: u32) -> (r: u16)
    requires
        total > 0 ==> used * 100 <= u32::MAX,
    ensures
        r == spec_percent(used as int, total as int),
{
    if total > 0 {
        let q: u32 = used * 100 / total;
        (q % 65536) as u16
    } else {
        0
    }
}

/// Memory use in percent.
pub fn percent_u64(used: u64, total: u64) -> (r: u16)
    requires
        total > 0 ==> used * 100 <= u64::MAX,
    ensures
        r == spec_percent(used as int, total as int),
{
    if total > 0 {
        let q: u64 = used * 100 / total;
        (q % 65536) as u16
    } else {
        0
    }
}

pub open spec fn volume_size(v: Volume) -> nat {
    v.size as nat
}

/// Total capacity of all volumes in GiB.
pub fn total_volume_gib(state: &AppState) -> (r: u64)
    requires
        sum_by(state.volumes@, |v: Volume| volume_size(v)) <= u64::MAX,
    ensures
        r == sum_by(state.volumes@, |v: Volume| volume_size(v)),
{
    let ghost f = |v: Volume| volume_size(v);
    let mut acc: u64 = 0;
    let mut i: usize = 0;
    while i < state.volumes.len()
        invariant
            i <= state.volumes@.len(),
            f == (|v: Volume| volume_size(v)),
            sum_by(state.volumes@, f) <= u64::MAX,
            acc == sum_by(state.volumes@.take(i as int), f),
        decreases state.volumes@.len() - i,
    {
        proof {
            assert(state.volumes@.take(i + 1).drop_last() == state.volumes@.take(i as int));
            lemma_sum_prefix(state.volumes@, f, i + 1);
        }
        acc = acc + state.volumes[i].size;
        i = i + 1;
    }
    proof {
        assert(state.volumes@.take(i as int) == state.volumes@);
    }
    acc
}

/// Number of volumes with at least one attachment.
pub fn attached_volumes(state: &AppState) -> (r: usize)
    ensures
        r == count_by(state.volumes@, |v: Volume| spec_is_attached(v)),
{
    let keep = |v: &Volume| -> (b: bool)
        ensures
            b == spec_is_attached(*v),
        { is_attached(v) };
    count_where(&state.volumes, keep, Ghost(|v: Volume| spec_is_attached(v)))
}

/// Number of servers whose status is exactly `status`.
pub fn servers_with_status(state: &AppState, status: &str) -> (r: usize)
    ensures
        r == count_by(state.servers@, |s: Server| s.status@ == status@),
{
    let keep = |s: &Server| -> (b: bool)
        ensures
            b == (s.status@ == status@),
        { str_eq(s.status.as_str(), status) };
    count_where(&state.servers, keep, Ghost(|s: Server| s.status@ == status@))
}

/// Health of each API service as the overview reports it.
#[derive(Debug, Clone, Copy, PartialEq, Eq)]
pub struct ServiceHealth {
    pub nova: bool,
    pub neutron: bool,
    pub swift: bool,
    pub cinder: bool,
    pub glance: bool,
}

/// A service is healthy when its last poll did not fail; compute, network
/// and image also need at least one hypervisor, agent or image.
pub fn service_health(state: &AppState) -> (r: ServiceHealth)
    ensures
        r.nova == (state.nova_status.error is None && state.hypervisors@.len() > 0),
        r.neutron == (state.neutron_status.error is None && state.agents@.len() > 0),
        r.swift == (state.swift_status.error is None),
        r.cinder == (state.cinder_status.error is None),
        r.glance == (state.glance_status.error is None && state.images@.len() > 0),
{
    ServiceHealth {
        nova: state.nova_status.error.is_none() && state.hypervisors.len() > 0,
        neutron: state.neutron_status.error.is_none() && state.agents.len() > 0,
        swift: state.swift_status.error.is_none(),
        cinder: state.cinder_status.error.is_none(),
        glance: state.glance_status.error.is_none() && state.images.len() > 0,
    }
}

/// The label and style of a health line.
pub fn health_label(ok: bool) -> (r: (&'static str, StyleSpec))
    ensures
        ok ==> r.0@ == "● healthy"@ && r.1 == style(Some(Color::Rgb(166, 227, 161)), None, true),
        !ok ==> r.0@ == "● degraded"@ && r.1 == style(Some(Color::Rgb(243, 139, 168)), None, true),
{
    if ok {
        ("● healthy", status_up_style())
    } else {
        ("● degraded", status_down_style())
    }
}

} // verus!
