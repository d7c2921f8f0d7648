//! The running VMs view: servers filtered by name or id prefix, their short
//! ids and power states.
use vstd::prelude::*;
use crate::text::{spec_contains, spec_lowercase};
use vstd::string::StringSliceAdditionalSpecFns;
use crate::client::nova::Server;
use crate::state::AppState;
use crate::text::{can_truncate, contains_ci, spec_matches_ci, spec_starts_with, spec_truncate, starts_with, truncate_text, utf8_bytes};
use crate::ui::views::{filter_indices, indices_where};

verus! {

/// A server is listed when the search is empty, its name contains it
/// (ignoring case), or its id starts with it (exactly). The detail pane
/// picks among the same rows.
pub open spec fn spec_server_listed(s: Server, query: Seq<char>) -> bool {
    query.len() == 0 || spec_matches_ci(s.name@, query) || spec_starts_with(s.id@, query)
}

pub fn server_listed(s: &Server, query: &str) -> (r: bool)
    ensures
        r == spec_server_listed(*s, query@),
{
    query.is_empty() || contains_ci(s.name.as_str(), query) || starts_with(s.id.as_str(), query)
}

/// The positions of the listed servers, as `usize`s.
pub open spec fn listed_rows(state: &AppState) -> Seq<usize> {
    indices_where(state.servers@, |s: Server| spec_server_listed(s, state.search_query@)).map_values(|i: int| i as usize)
}

/// Positions of the servers in the list.
pub fn listed_servers(state: &AppState) -> (r: Vec<usize>)
    ensures
        r@.len() == indices_where(state.servers@, |s: Server| spec_server_listed(s, state.search_query@)).len(),
        forall|k: int| 0 <= k < r@.len() ==> r@[k] as int
            == indices_where(state.servers@, |s: Server| spec_server_listed(s, state.search_query@))[k],
{
    let query = state.search_query.as_str();
    let keep = |s: &Server| -> (b: bool)
        ensures
            b == spec_server_listed(*s, query@),
        { server_listed(s, query) };
    filter_indices(&state.servers, keep, Ghost(|s: Server| spec_server_listed(s, state.search_query@)))
}

/// Positions of the servers among which the detail pane picks: the rows
/// of the list, so that the pane shows the highlighted row.
pub fn detailed_servers(state: &AppState) -> (r: Vec<usize>)
    ensures
        r@ == listed_rows(state),
{
    listed_servers(state)
}

/// The name of a Nova power state; an absent one counts as 0.
pub open spec fn spec_power_state_label(p: Option<u8>) -> Seq<char> {
    let code = match p { Some(c) => c, None => 0u8 };
    if code == 1 {
        "Running"@
    } else if code == 3 {
        "Paused"@
    } else if code == 4 {
        "Shutdown"@
    } else if code == 6 {
        "Crashed"@
    } else if code == 7 {
        "Suspended"@
    } else {
        "Unknown"@
    }
}

pub fn power_state_label(p: Option<u8>) -> (r: &'static str)
    ensures
        r@ == spec_power_state_label(p),
{
    let code = match p { Some(c) => c, None => 0u8 };
    match code {
        1 => "Running",
        3 => "Paused",
        4 => "Shutdown",
        6 => "Crashed",
        7 => "Suspended",
        _ => "Unknown",
    }
}

/// Whether the first `min(8, bytes)` bytes of an id can be cut off.
pub open spec fn can_shorten_id(id: Seq<char>) -> bool {
    utf8_bytes(id).len() > 8 ==> vstd::utf8::is_char_boundary(utf8_bytes(id), 8)
}

/// The first eight bytes of an id (all of a shorter one).
pub open spec fn spec_short_id(id: Seq<char>) -> Seq<char> {
    if utf8_bytes(id).len() > 8 {
        vstd::utf8::decode_utf8(utf8_bytes(id).subrange(0, 8))
    } else {
        id
    }
}

/// The id prefix shown in the UUID column.
pub fn short_id(id: &str) -> (r: String)
    requires
        can_shorten_id(id@),
    ensures
        r@ == spec_short_id(id@),
{
    let n = id.as_bytes().len();
    if n > 8 {
        let (head, _tail) = id.split_at(8);
        proof {
            vstd::utf8::encode_utf8_decode_utf8(head@);
        }
        head.to_owned()
    } else {
        id.to_owned()
    }
}

/// Shortens a cell text to `max` bytes.
pub fn truncate(s: &str, max: usize) -> (r: String)
    requires
        can_truncate(s@, max),
    ensures
        r@ == spec_truncate(s@, max),
{
    truncate_text(s, max)
}

/// The server search matches the name ignoring case and the id exactly: a
/// server is listed exactly when the search is empty, the lowercase of its
/// name contains the lowercase of the search, or its id starts with the
/// search. So two non-empty searches with the same lowercase form list the
/// same servers among those whose id starts with neither.
pub proof fn lemma_server_search(s: Server, q1: Seq<char>, q2: Seq<char>)
    ensures
        spec_server_listed(s, q1) <==> (q1.len() == 0
            || spec_contains(spec_lowercase(s.name@), spec_lowercase(q1))
            || spec_starts_with(s.id@, q1)),
        q1.len() > 0 && q2.len() > 0 && spec_lowercase(q1) == spec_lowercase(q2)
            && !spec_starts_with(s.id@, q1) && !spec_starts_with(s.id@, q2)
            ==> spec_server_listed(s, q1) == spec_server_listed(s, q2),
{
}

} // verus!
