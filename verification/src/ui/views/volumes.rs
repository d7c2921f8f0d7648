//! The block volumes view: volumes filtered by name, and whether each is
//! attached.
use vstd::prelude::*;
use crate::text::{spec_contains, spec_lowercase};
use crate::client::cinder::Volume;
use crate::state::AppState;
use crate::text::{can_truncate, contains_ci, spec_matches_ci, spec_truncate, truncate_text};
use crate::ui::views::{filter_indices, indices_where};

verus! {

/// The name searched and shown for a volume: its name, or nothing.
pub open spec fn spec_volume_name(v: Volume) -> Seq<char> {
    match v.name {
        Some(n) => n@,
        None => Seq::empty(),
    }
}

/// A volume passes the search when the search is empty or its name contains
/// it, ignoring case; a volume without a name matches as an empty name.
pub open spec fn spec_volume_matches(v: Volume, query: Seq<char>) -> bool {
    query.len() == 0 || spec_matches_ci(spec_volume_name(v), query)
}

pub fn volume_matches(v: &Volume, query: &str) -> (r: bool)
    ensures
        r == spec_volume_matches(*v, query@),
{
    if query.is_empty() {
        return true;
    }
    match &v.name {
        Some(n) => contains_ci(n.as_str(), query),
        None => {
            proof {
                reveal_strlit("");
                assert(""@ =~= Seq::<char>::empty());
            }
            contains_ci("", query)
        },
    }
}

/// Positions of the volumes that pass the search.
pub fn filtered_volumes(state: &AppState) -> (r: Vec<usize>)
    ensures
        r@.len() == indices_where(state.volumes@, |v: Volume| spec_volume_matches(v, state.search_query@)).len(),
        forall|k: int| 0 <= k < r@.len() ==> r@[k] as int
            == indices_where(state.volumes@, |v: Volume| spec_volume_matches(v, state.search_query@))[k],
{
    let query = state.search_query.as_str();
    let keep = |v: &Volume| -> (b: bool)
        ensures
            b == spec_volume_matches(*v, query@),
        { volume_matches(v, query) };
    filter_indices(&state.volumes, keep, Ghost(|v: Volume| spec_volume_matches(v, state.search_query@)))
}

/// A volume is attached when it has at least one attachment.
pub open spec fn spec_is_attached(v: Volume) -> bool {
    match v.attachments {
        Some(a) => a@.len() > 0,
        None => false,
    }
}

pub fn is_attached(v: &Volume) -> (r: bool)
    ensures
        r == spec_is_attached(*v),
{
    match &v.attachments {
        Some(a) => a.len() > 0,
        None => false,
    }
}

/// The attachment column.
pub fn attachment_label(v: &Volume) -> (r: &'static str)
    ensures
        r@ == (if spec_is_attached(*v) { "attached"@ } else { "free"@ }),
{
    if is_attached(v) { "attached" } else { "free" }
}

/// Shortens a cell text to `max` bytes.
pub fn truncate(s: &str, max: usize) -> (r: String)
    requires
        can_truncate(s@, max),
    ensures
        r@ == spec_truncate(s@, max),
{
    truncate_text(s, max)
}

/// The volume search ignores case: a volume is listed exactly when the search
/// is empty or the lowercase of its name contains the lowercase of the
/// search, so two non-empty searches with the same lowercase form list the
/// same a volume is.
pub proof fn lemma_volume_search_ignores_case(list: Seq<Volume>, q1: Seq<char>, q2: Seq<char>)
    ensures
        forall|x: Volume| #[trigger] spec_volume_matches(x, q1) <==> (q1.len() == 0
            || spec_contains(spec_lowercase(match x.name { Some(n) => n@, None => Seq::empty() }), spec_lowercase(q1))),
        q1.len() > 0 && q2.len() > 0 && spec_lowercase(q1) == spec_lowercase(q2)
            ==> indices_where(list, |x: Volume| spec_volume_matches(x, q1)) == indices_where(list, |x: Volume| spec_volume_matches(x, q2)),
{
    if q1.len() > 0 && q2.len() > 0 && spec_lowercase(q1) == spec_lowercase(q2) {
        assert((|x: Volume| spec_volume_matches(x, q1)) =~= (|x: Volume| spec_volume_matches(x, q2)));
    }
}

} // verus!
