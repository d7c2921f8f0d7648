//! What each view shows, apart from drawing it: which rows pass the search
//! filter, which row is selected, and the figures and labels of each row.
use vstd::prelude::*;

pub mod images;
pub mod networks;
pub mod nodes;
pub mod overview;
pub mod servers;
pub mod services;
pub mod swift;
pub mod volumes;

verus! {

/// Positions of the items of `s` that satisfy `p`, in order.
pub open spec fn indices_where<T>(s: Seq<T>, p: spec_fn(T) -> bool) -> Seq<int>
    decreases s.len(),
{
    if s.len() == 0 {
        Seq::empty()
    } else if p(s.last()) {
        indices_where(s.drop_last(), p).push(s.len() - 1)
    } else {
        indices_where(s.drop_last(), p)
    }
}

/// Every position listed is in range, satisfies `p`, and positions increase.
pub proof fn lemma_indices_where<T>(s: Seq<T>, p: spec_fn(T) -> bool)
    ensures
        forall|k: int| 0 <= k < indices_where(s, p).len() ==> {
            let i = #[trigger] indices_where(s, p)[k];
            0 <= i < s.len() && p(s[i])
        },
        forall|k: int, l: int| 0 <= k < l < indices_where(s, p).len()
            ==> indices_where(s, p)[k] < indices_where(s, p)[l],
        forall|i: int| 0 <= i < s.len() && p(s[i]) ==> indices_where(s, p).contains(i),
    decreases s.len(),
{
    if s.len() > 0 {
        let t = s.drop_last();
        lemma_indices_where(t, p);
        assert forall|i: int| 0 <= i < s.len() && p(s[i]) implies indices_where(s, p).contains(i) by {
            if i < s.len() - 1 {
                assert(t[i] == s[i]);
                assert(p(t[i]));
                assert(indices_where(t, p).contains(i));
                let k = choose|k: int| 0 <= k < indices_where(t, p).len() && indices_where(t, p)[k] == i;
                if p(s.last()) {
                    assert(indices_where(s, p) == indices_where(t, p).push(s.len() - 1));
                } else {
                    assert(indices_where(s, p) == indices_where(t, p));
                }
                assert(indices_where(s, p)[k] == i);
            } else {
                assert(indices_where(s, p)[indices_where(s, p).len() - 1] == i);
            }
        }
        assert forall|k: int| 0 <= k < indices_where(s, p).len() implies {
            let i = #[trigger] indices_where(s, p)[k];
            0 <= i < s.len() && p(s[i])
        } by {
            if k < indices_where(t, p).len() {
                let i = indices_where(t, p)[k];
                assert(t[i] == s[i]);
            }
        }
    }
}

/// Positions of the items that `keep` accepts; `keep` decides as `p` says.
pub(crate) fn filter_indices<T, F: Fn(&T) -> bool>(items: &Vec<T>, keep: F, Ghost(p): Ghost<spec_fn(T) -> bool>) -> (r: Vec<usize>)
    requires
        forall|x: &T| #[trigger] keep.requires((x,)),
        forall|x: &T, b: bool| keep.ensures((x,), b) ==> b == p(*x),
    ensures
        r@.len() == indices_where(items@, p).len(),
        forall|k: int| 0 <= k < r@.len() ==> r@[k] as int == indices_where(items@, p)[k],
{
    let mut r: Vec<usize> = Vec::new();
    let mut i: usize = 0;
    while i < items.len()
        invariant
            i <= items@.len(),
            forall|x: &T| #[trigger] keep.requires((x,)),
            forall|x: &T, b: bool| keep.ensures((x,), b) ==> b == p(*x),
            r@.len() == indices_where(items@.take(i as int), p).len(),
            forall|k: int| 0 <= k < r@.len() ==> r@[k] as int == indices_where(items@.take(i as int), p)[k],
        decreases items@.len() - i,
    {
        let b = keep(&items[i]);
        proof {
            assert(items@.take(i + 1).drop_last() == items@.take(i as int));
            assert(items@.take(i + 1).last() == items@[i as int]);
        }
        if b {
            r.push(i);
        }
        i = i + 1;
    }
    proof {
        assert(items@.take(i as int) == items@);
    }
    r
}

/// The selected row among `len` rows: the selected index, at most the last row.
pub open spec fn spec_clamp_selection(selected: usize, len: usize) -> usize {
    let max = if len >= 1 { (len - 1) as usize } else { 0 };
    if selected < max { selected } else { max }
}

/// `selected.min(len.saturating_sub(1))`.
pub fn clamp_selection(selected: usize, len: usize) -> (r: usize)
    ensures
        r == spec_clamp_selection(selected, len),
        len > 0 ==> r < len,
{
    let max = len.saturating_sub(1);
    if selected < max { selected } else { max }
}

/// The row shown is the selected one when it exists, else the last row.
pub proof fn lemma_clamp_selection(selected: usize, len: usize)
    requires
        len > 0,
    ensures
        spec_clamp_selection(selected, len) < len,
        selected < len ==> spec_clamp_selection(selected, len) == selected,
        selected >= len ==> spec_clamp_selection(selected, len) == len - 1,
{
}

/// `G` asks for the largest index; every view then selects its last row.
pub proof fn lemma_jump_to_end_selects_last(len: usize)
    requires
        len > 0,
    ensures
        spec_clamp_selection(usize::MAX, len) == len - 1,
{
}

/// The item shown in the detail pane: the selected row of the filtered
/// rows `rows`, as a position among all items; none when no row passes.
pub fn selected_item(rows: &Vec<usize>, selected: usize) -> (r: Option<usize>)
    ensures
        match r {
            Some(i) => rows@.len() > 0 && i == rows@[spec_clamp_selection(selected, rows@.len() as usize) as int],
            None => rows@.len() == 0,
        },
{
    if rows.len() == 0 {
        None
    } else {
        Some(rows[clamp_selection(selected, rows.len())])
    }
}

} // verus!
