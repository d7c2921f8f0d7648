//! The images view: images filtered by name.
use vstd::prelude::*;
use crate::text::{spec_contains, spec_lowercase};
use crate::client::glance::Image;
use crate::state::AppState;
use crate::text::{can_truncate, contains_ci, spec_matches_ci, spec_truncate, truncate_text};
use crate::ui::views::{filter_indices, indices_where};

verus! {

/// An image passes the search when the search is empty or its name contains
/// it, ignoring case; an image without a name matches as an empty name.
pub open spec fn spec_image_matches(i: Image, query: Seq<char>) -> bool {
    query.len() == 0 || spec_matches_ci(
        match i.name { Some(n) => n@, None => Seq::empty() },
        query,
    )
}

pub fn image_matches(i: &Image, query: &str) -> (r: bool)
    ensures
        r == spec_image_matches(*i, query@),
{
    if query.is_empty() {
        return true;
    }
    match &i.name {
        Some(n) => contains_ci(n.as_str(), query),
        None => {
            proof {
                reveal_strlit("");
                assert(""@ =~= Seq::<char>::empty());
            }
            contains_ci("", query)
        },
    }
}

/// Positions of the images that pass the search.
pub fn filtered_images(state: &AppState) -> (r: Vec<usize>)
    ensures
        r@.len() == indices_where(state.images@, |i: Image| spec_image_matches(i, state.search_query@)).len(),
        forall|k: int| 0 <= k < r@.len() ==> r@[k] as int
            == indices_where(state.images@, |i: Image| spec_image_matches(i, state.search_query@))[k],
{
    let query = state.search_query.as_str();
    let keep = |i: &Image| -> (b: bool)
        ensures
            b == spec_image_matches(*i, query@),
        { image_matches(i, query) };
    filter_indices(&state.images, keep, Ghost(|i: Image| spec_image_matches(i, state.search_query@)))
}

/// The "Protected" field of the detail pane.
pub fn protected_label(p: Option<bool>) -> (r: &'static str)
    ensures
        r@ == (match p { Some(true) => "yes"@, Some(false) => "no"@, None => "-"@ }),
{
    match p {
        Some(true) => "yes",
        Some(false) => "no",
        None => "-",
    }
}

/// Shortens a cell text to `max` bytes.
pub fn truncate(s: &str, max: usize) -> (r: String)
    requires
        can_truncate(s@, max),
    ensures
        r@ == spec_truncate(s@, max),
{
    truncate_text(s, max)
}

/// The image search ignores case: an image is listed exactly when the search
/// is empty or the lowercase of its name contains the lowercase of the
/// search, so two non-empty searches with the same lowercase form list the
/// same an image is.
pub proof fn lemma_image_search_ignores_case(list: Seq<Image>, q1: Seq<char>, q2: Seq<char>)
    ensures
        forall|x: Image| #[trigger] spec_image_matches(x, q1) <==> (q1.len() == 0
            || spec_contains(spec_lowercase(match x.name { Some(n) => n@, None => Seq::empty() }), spec_lowercase(q1))),
        q1.len() > 0 && q2.len() > 0 && spec_lowercase(q1) == spec_lowercase(q2)
            ==> indices_where(list, |x: Image| spec_image_matches(x, q1)) == indices_where(list, |x: Image| spec_image_matches(x, q2)),
{
    if q1.len() > 0 && q2.len() > 0 && spec_lowercase(q1) == spec_lowercase(q2) {
        assert((|x: Image| spec_image_matches(x, q1)) =~= (|x: Image| spec_image_matches(x, q2)));
    }
}

} // verus!
