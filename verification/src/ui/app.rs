//! Keyboard handling: which keys quit, and what every other key does to the
//! navigation state.
use vstd::prelude::*;
use crate::state::{ActiveView, AppState};
use crate::text::{pop_char, push_char};

verus! {

/// A key press, as far as the dashboard tells keys apart.
#[derive(Debug, Clone, Copy, PartialEq, Eq, Structural)]
pub enum Key {
    Char(char),
    /// Function key F1, F2, ...
    F(u8),
    Esc,
    Backspace,
    Enter,
    Up,
    Down,
    PageUp,
    PageDown,
    /// Any other key.
    Other,
}

/// `q`, or `c` with Control as the only modifier, quits; in every mode.
pub open spec fn spec_is_quit(key: Key, control_only: bool) -> bool {
    key == Key::Char('q') || (key == Key::Char('c') && control_only)
}

/// Whether a key press ends the program. `control_only` tells whether the
/// modifiers are exactly Control.
pub fn is_quit(key: Key, control_only: bool) -> (r: bool)
    ensures
        r == spec_is_quit(key, control_only),
{
    match key {
        Key::Char(c) => c == 'q' || (c == 'c' && control_only),
        _ => false,
    }
}

/// The navigation part of the state: view, selected row, search text,
/// search mode and detail scroll.
pub type Nav = (ActiveView, usize, Seq<char>, bool, u16);

pub open spec fn nav_of(s: AppState) -> Nav {
    (s.active_view, s.selected_index, s.search_query@, s.search_active, s.detail_scroll)
}

/// The view that function key F`n` selects.
pub open spec fn spec_view_for_function_key(n: u8) -> Option<ActiveView> {
    if n == 1 {
        Some(ActiveView::Overview)
    } else if n == 2 {
        Some(ActiveView::Nodes)
    } else if n == 3 {
        Some(ActiveView::Servers)
    } else if n == 4 {
        Some(ActiveView::Networks)
    } else if n == 5 {
        Some(ActiveView::Swift)
    } else if n == 6 {
        Some(ActiveView::Volumes)
    } else if n == 7 {
        Some(ActiveView::Images)
    } else if n == 8 {
        Some(ActiveView::Services)
    } else {
        None
    }
}

pub open spec fn sat_add_usize(a: usize, b: usize) -> usize {
    if a + b > usize::MAX { usize::MAX } else { (a + b) as usize }
}

pub open spec fn sat_sub_usize(a: usize, b: usize) -> usize {
    if a < b { 0 } else { (a - b) as usize }
}

pub open spec fn sat_add_u16(a: u16, b: u16) -> u16 {
    if a + b > u16::MAX { u16::MAX } else { (a + b) as u16 }
}

pub open spec fn sat_sub_u16(a: u16, b: u16) -> u16 {
    if a < b { 0 } else { (a - b) as u16 }
}

/// What a key does to the navigation state.
///
/// While searching: Esc leaves search mode and clears the text, Backspace
/// deletes the last character, a character is appended and selects the first
/// row, Enter leaves search mode keeping the text, anything else is ignored.
///
/// Otherwise: F1 shows the overview, F2..F8 show their view and select the
/// first row; Down/j and Up/k move one row, PageDown/PageUp ten rows, g goes to
/// the first row and G to the last (the largest index, which views clamp);
/// `/` enters search mode with empty text, Esc clears the text; d and u scroll
/// the detail pane by five lines; anything else is ignored.
pub open spec fn spec_handle_key(n: Nav, key: Key) -> Nav {
    let (view, sel, query, searching, scroll) = n;
    if searching {
        match key {
            Key::Esc => (view, sel, Seq::empty(), false, scroll),
            Key::Backspace => (view, sel, if query.len() > 0 { query.drop_last() } else { query }, true, scroll),
            Key::Char(c) => (view, 0, query.push(c), true, scroll),
            Key::Enter => (view, sel, query, false, scroll),
            _ => n,
        }
    } else {
        match key {
            Key::F(f) => match spec_view_for_function_key(f) {
                Some(v) => if f == 1 { (v, sel, query, searching, scroll) } else { (v, 0, query, searching, scroll) },
                None => n,
            },
            Key::Down => (view, sat_add_usize(sel, 1), query, searching, scroll),
            Key::Up => (view, sat_sub_usize(sel, 1), query, searching, scroll),
            Key::PageDown => (view, sat_add_usize(sel, 10), query, searching, scroll),
            Key::PageUp => (view, sat_sub_usize(sel, 10), query, searching, scroll),
            Key::Esc => (view, sel, Seq::empty(), searching, scroll),
            Key::Char(c) => if c == 'j' {
                (view, sat_add_usize(sel, 1), query, searching, scroll)
            } else if c == 'k' {
                (view, sat_sub_usize(sel, 1), query, searching, scroll)
            } else if c == 'g' {
                (view, 0, query, searching, scroll)
            } else if c == 'G' {
                (view, usize::MAX, query, searching, scroll)
            } else if c == '/' {
                (view, sel, Seq::empty(), true, scroll)
            } else if c == 'u' {
                (view, sel, query, searching, sat_sub_u16(scroll, 5))
            } else if c == 'd' {
                (view, sel, query, searching, sat_add_u16(scroll, 5))
            } else {
                n
            },
            _ => n,
        }
    }
}

/// The view that function key F`n` selects, if any.
pub fn view_for_function_key(n: u8) -> (r: Option<ActiveView>)
    ensures
        r == spec_view_for_function_key(n),
{
    match n {
        1 => Some(ActiveView::Overview),
        2 => Some(ActiveView::Nodes),
        3 => Some(ActiveView::Servers),
        4 => Some(ActiveView::Networks),
        5 => Some(ActiveView::Swift),
        6 => Some(ActiveView::Volumes),
        7 => Some(ActiveView::Images),
        8 => Some(ActiveView::Services),
        _ => None,
    }
}

/// Applies a key press to the navigation state; nothing else changes.
pub fn handle_key(state: &mut AppState, key: Key)
    ensures
        nav_of(*final(state)) == spec_handle_key(nav_of(*old(state)), key),
        *final(state) == (AppState {
            active_view: final(state).active_view,
            selected_index: final(state).selected_index,
            search_query: final(state).search_query,
            search_active: final(state).search_active,
            detail_scroll: final(state).detail_scroll,
            ..*old(state)
        }),
{
    if state.search_active {
        match key {
            Key::Esc => {
                state.search_active = false;
                state.search_query = String::new();
            },
            Key::Backspace => {
                let _ = pop_char(&mut state.search_query);
            },
            Key::Char(c) => {
                push_char(&mut state.search_query, c);
                state.selected_index = 0;
            },
            Key::Enter => {
                state.search_active = false;
            },
            _ => {},
        }
        return;
    }
    match key {
        Key::F(f) => match view_for_function_key(f) {
            Some(v) => {
                state.active_view = v;
                if f != 1 {
                    state.selected_index = 0;
                }
            },
            None => {},
        },
        Key::Down => {
            state.selected_index = state.selected_index.saturating_add(1);
        },
        Key::Up => {
            state.selected_index = state.selected_index.saturating_sub(1);
        },
        Key::PageDown => {
            state.selected_index = state.selected_index.saturating_add(10);
        },
        Key::PageUp => {
            state.selected_index = state.selected_index.saturating_sub(10);
        },
        Key::Esc => {
            state.search_query = String::new();
        },
        Key::Char(c) => {
            if c == 'j' {
                state.selected_index = state.selected_index.saturating_add(1);
            } else if c == 'k' {
                state.selected_index = state.selected_index.saturating_sub(1);
            } else if c == 'g' {
                state.selected_index = 0;
            } else if c == 'G' {
                state.selected_index = usize::MAX;
            } else if c == '/' {
                state.search_active = true;
                state.search_query = String::new();
            } else if c == 'u' {
                state.detail_scroll = state.detail_scroll.saturating_sub(5);
            } else if c == 'd' {
                state.detail_scroll = state.detail_scroll.saturating_add(5);
            }
        },
        _ => {},
    }
}

/// `/` followed by Esc leaves search mode with an empty search text, from
/// any state outside search mode, and keeps the view, row and scroll.
pub proof fn lemma_search_open_then_escape(n: Nav)
    requires
        !n.3,
    ensures
        spec_handle_key(spec_handle_key(n, Key::Char('/')), Key::Esc)
            == (n.0, n.1, Seq::<char>::empty(), false, n.4),
{
}

/// While searching, no key changes the view or the detail scroll, and only
/// typed characters change the selected row (to the first one).
pub proof fn lemma_search_keeps_view(n: Nav, key: Key)
    requires
        n.3,
    ensures
        spec_handle_key(n, key).0 == n.0,
        spec_handle_key(n, key).4 == n.4,
        !(key is Char) ==> spec_handle_key(n, key).1 == n.1,
{
}

/// Typing a character in search mode and then Backspace restores the search
/// text.
pub proof fn lemma_type_then_backspace(n: Nav, c: char)
    requires
        n.3,
    ensures
        spec_handle_key(spec_handle_key(n, Key::Char(c)), Key::Backspace).2 == n.2,
{
    assert(n.2.push(c).drop_last() =~= n.2);
}

/// Outside search mode, `/` starts a new search: search mode with an empty
/// text, the view, row and scroll kept; so `/` then a character searches
/// for that character alone, whatever was searched before.
pub proof fn lemma_slash_starts_new_search(n: Nav, c: char)
    requires
        !n.3,
    ensures
        spec_handle_key(n, Key::Char('/')).3,
        spec_handle_key(n, Key::Char('/')).2.len() == 0,
        spec_handle_key(n, Key::Char('/')).0 == n.0,
        spec_handle_key(n, Key::Char('/')).1 == n.1,
        spec_handle_key(n, Key::Char('/')).4 == n.4,
        spec_handle_key(spec_handle_key(n, Key::Char('/')), Key::Char(c)).2 == seq![c],
{
    assert(Seq::<char>::empty().push(c) =~= seq![c]);
}

/// While searching, a typed character is added at the end of the search
/// text, and Enter leaves search mode keeping the text.
pub proof fn lemma_typing_and_enter(n: Nav, c: char)
    requires
        n.3,
    ensures
        spec_handle_key(n, Key::Char(c)).2.len() == n.2.len() + 1,
        spec_handle_key(n, Key::Char(c)).2.last() == c,
        spec_handle_key(n, Key::Char(c)).2.drop_last() == n.2,
        spec_handle_key(n, Key::Char(c)).3,
        !spec_handle_key(n, Key::Enter).3,
        spec_handle_key(n, Key::Enter).2 == n.2,
        spec_handle_key(n, Key::Enter).1 == n.1,
{
    assert(n.2.push(c).drop_last() =~= n.2);
}

/// Only function keys change the view.
pub proof fn lemma_only_function_keys_change_view(n: Nav, key: Key)
    requires
        !(key is F),
    ensures
        spec_handle_key(n, key).0 == n.0,
{
}

/// Outside search mode the search text changes only by `/` and Esc, which
/// both empty it.
pub proof fn lemma_search_text_kept_outside_search(n: Nav, key: Key)
    requires
        !n.3,
    ensures
        spec_handle_key(n, key).2 == n.2 || spec_handle_key(n, key).2.len() == 0,
        key != Key::Char('/') && key != Key::Esc ==> spec_handle_key(n, key).2 == n.2,
{
}

/// Moving down one row and back up returns to the same row, as does a page
/// down and back; scrolling the detail down and back up returns to the same
/// place; `g` goes to the first row.
pub proof fn lemma_moves_undo(n: Nav)
    requires
        !n.3,
    ensures
        n.1 < usize::MAX ==> spec_handle_key(spec_handle_key(n, Key::Char('j')), Key::Char('k')) == n,
        n.1 < usize::MAX ==> spec_handle_key(spec_handle_key(n, Key::Down), Key::Up) == n,
        n.1 + 10 <= usize::MAX ==> spec_handle_key(spec_handle_key(n, Key::PageDown), Key::PageUp) == n,
        n.1 > 0 ==> spec_handle_key(spec_handle_key(n, Key::Char('k')), Key::Char('j')) == n,
        n.1 > 0 ==> spec_handle_key(spec_handle_key(n, Key::Char('k')), Key::Char('j')).1 == n.1,
        n.4 + 5 <= u16::MAX ==> spec_handle_key(spec_handle_key(n, Key::Char('d')), Key::Char('u')) == n,
        spec_handle_key(n, Key::Char('j')).1 >= n.1,
        spec_handle_key(n, Key::Char('k')).1 <= n.1,
        spec_handle_key(n, Key::Char('g')).1 == 0,
        spec_handle_key(n, Key::Char('g')).0 == n.0,
{
}

/// Outside search mode: j and Down move one row, PageDown ten rows, never
/// past the largest index; k and Up move one row, PageUp ten, never above
/// the first; d and u scroll the detail by five lines; Esc empties the
/// search text and stays out of search mode.
pub proof fn lemma_move_sizes(n: Nav)
    requires
        !n.3,
    ensures
        n.1 < usize::MAX ==> spec_handle_key(n, Key::Char('j')).1 == n.1 + 1,
        n.1 < usize::MAX ==> spec_handle_key(n, Key::Down).1 == n.1 + 1,
        n.1 + 10 <= usize::MAX ==> spec_handle_key(n, Key::PageDown).1 == n.1 + 10,
        n.1 + 10 > usize::MAX ==> spec_handle_key(n, Key::PageDown).1 == usize::MAX,
        n.1 > 0 ==> spec_handle_key(n, Key::Char('k')).1 == n.1 - 1,
        n.1 > 0 ==> spec_handle_key(n, Key::Up).1 == n.1 - 1,
        n.1 == 0 ==> spec_handle_key(n, Key::Up).1 == 0,
        n.1 >= 10 ==> spec_handle_key(n, Key::PageUp).1 == n.1 - 10,
        n.1 < 10 ==> spec_handle_key(n, Key::PageUp).1 == 0,
        n.4 + 5 <= u16::MAX ==> spec_handle_key(n, Key::Char('d')).4 == n.4 + 5,
        n.4 >= 5 ==> spec_handle_key(n, Key::Char('u')).4 == n.4 - 5,
        n.4 < 5 ==> spec_handle_key(n, Key::Char('u')).4 == 0,
        spec_handle_key(n, Key::Esc).2.len() == 0,
        !spec_handle_key(n, Key::Esc).3,
        spec_handle_key(n, Key::Char('G')).1 == usize::MAX,
{
}

/// In search mode Esc leaves search mode and empties the text; Backspace
/// removes the last character; neither moves the selected row.
pub proof fn lemma_search_editing(n: Nav)
    requires
        n.3,
    ensures
        !spec_handle_key(n, Key::Esc).3,
        spec_handle_key(n, Key::Esc).2.len() == 0,
        spec_handle_key(n, Key::Esc).1 == n.1,
        n.2.len() > 0 ==> spec_handle_key(n, Key::Backspace).2 == n.2.drop_last(),
        n.2.len() == 0 ==> spec_handle_key(n, Key::Backspace).2.len() == 0,
        spec_handle_key(n, Key::Backspace).3,
        spec_handle_key(n, Key::Backspace).1 == n.1,
{
}

} // verus!
