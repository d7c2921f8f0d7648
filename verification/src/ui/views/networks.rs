//! The networks view: agents filtered by host or type, and the first
//! networks and routers.
use vstd::prelude::*;
use crate::text::{spec_contains, spec_lowercase};
use crate::client::neutron::Agent;
use crate::state::AppState;
use crate::text::{can_truncate, contains_ci, spec_matches_ci, spec_truncate, truncate_text};
use crate::ui::views::{filter_indices, indices_where};

verus! {

/// How many networks the detail pane lists.
pub const NETWORKS_SHOWN: usize = 15;
/// How many routers the detail pane lists.
pub const ROUTERS_SHOWN: usize = 10;

/// An agent passes the search when the search is empty or its host or its
/// type contains it, ignoring case.
pub open spec fn spec_agent_matches(a: Agent, query: Seq<char>) -> bool {
    query.len() == 0 || spec_matches_ci(a.host@, query) || spec_matches_ci(a.agent_type@, query)
}

pub fn agent_matches(a: &Agent, query: &str) -> (r: bool)
    ensures
        r == spec_agent_matches(*a, query@),
{
    query.is_empty() || contains_ci(a.host.as_str(), query) || contains_ci(a.agent_type.as_str(), query)
}

/// Positions of the agents that pass the search.
pub fn filtered_agents(state: &AppState) -> (r: Vec<usize>)
    ensures
        r@.len() == indices_where(state.agents@, |a: Agent| spec_agent_matches(a, state.search_query@)).len(),
        forall|k: int| 0 <= k < r@.len() ==> r@[k] as int
            == indices_where(state.agents@, |a: Agent| spec_agent_matches(a, state.search_query@))[k],
{
    let query = state.search_query.as_str();
    let keep = |a: &Agent| -> (b: bool)
        ensures
            b == spec_agent_matches(*a, query@),
        { agent_matches(a, query) };
    filter_indices(&state.agents, keep, Ghost(|a: Agent| spec_agent_matches(a, state.search_query@)))
}

/// The liveness label of an agent.
pub fn alive_label(alive: bool) -> (r: &'static str)
    ensures
        r@ == (if alive { "● alive"@ } else { "● dead"@ }),
{
    if alive { "● alive" } else { "● dead" }
}

/// The mark after a router: " HA" for a highly available one, else nothing
/// (an unknown HA flag counts as not HA).
pub fn ha_label(ha: Option<bool>) -> (r: &'static str)
    ensures
        r@ == (if ha == Some(true) { " HA"@ } else { ""@ }),
{
    match ha {
        Some(true) => " HA",
        _ => "",
    }
}

/// The administrative state of an agent.
pub fn admin_label(admin_state_up: bool) -> (r: &'static str)
    ensures
        r@ == (if admin_state_up { "enabled"@ } else { "disabled"@ }),
{
    if admin_state_up { "enabled" } else { "disabled" }
}

/// The administrative state of a network.
pub fn network_admin_label(admin_state_up: bool) -> (r: &'static str)
    ensures
        r@ == (if admin_state_up { "UP"@ } else { "DOWN"@ }),
{
    if admin_state_up { "UP" } else { "DOWN" }
}

/// How many of `len` items a list capped at `cap` shows.
pub fn shown(len: usize, cap: usize) -> (r: usize)
    ensures
        r == (if len < cap { len } else { cap }),
{
    if len < cap { len } else { cap }
}

/// Shortens a cell text to `max` bytes.
pub fn truncate(s: &str, max: usize) -> (r: String)
    requires
        can_truncate(s@, max),
    ensures
        r@ == spec_truncate(s@, max),
{
    truncate_text(s, max)
}

/// The agent search ignores case: an agent is listed exactly when the search
/// is empty or the lowercase of its host or of its type contains the
/// lowercase of the search, so two non-empty searches with the same
/// lowercase form list the same agents.
pub proof fn lemma_agent_search_ignores_case(list: Seq<Agent>, q1: Seq<char>, q2: Seq<char>)
    ensures
        forall|x: Agent| #[trigger] spec_agent_matches(x, q1) <==> (q1.len() == 0
            || spec_contains(spec_lowercase(x.host@), spec_lowercase(q1))
            || spec_contains(spec_lowercase(x.agent_type@), spec_lowercase(q1))),
        q1.len() > 0 && q2.len() > 0 && spec_lowercase(q1) == spec_lowercase(q2)
            ==> indices_where(list, |x: Agent| spec_agent_matches(x, q1))
            == indices_where(list, |x: Agent| spec_agent_matches(x, q2)),
{
    if q1.len() > 0 && q2.len() > 0 && spec_lowercase(q1) == spec_lowercase(q2) {
        assert((|x: Agent| spec_agent_matches(x, q1)) =~= (|x: Agent| spec_agent_matches(x, q2)));
    }
}

} // verus!
