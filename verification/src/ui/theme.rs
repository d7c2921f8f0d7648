//! The colour palette and the styles built from it, and the symbol that
//! stands for a service or resource state.
use vstd::prelude::*;
use crate::text::{spec_lowercase, str_eq, to_lowercase};

verus! {

/// A terminal colour.
#[derive(Debug, Clone, Copy, PartialEq, Eq, Structural)]
pub enum Color {
    Rgb(u8, u8, u8),
    Cyan,
}

/// How a piece of text is drawn: foreground, background, bold.
#[derive(Debug, Clone, Copy, PartialEq, Eq, Structural)]
pub struct StyleSpec {
    pub fg: Option<Color>,
    pub bg: Option<Color>,
    pub bold: bool,
}

/// Dark base.
pub fn bg() -> (r: Color) ensures r == Color::Rgb(24, 24, 37), { Color::Rgb(24, 24, 37) }
/// Slightly lighter panel.
pub fn bg_alt() -> (r: Color) ensures r == Color::Rgb(30, 30, 46), { Color::Rgb(30, 30, 46) }
/// Subtle grey border.
pub fn border() -> (r: Color) ensures r == Color::Rgb(88, 91, 112), { Color::Rgb(88, 91, 112) }
/// Soft blue.
pub fn accent() -> (r: Color) ensures r == Color::Rgb(137, 180, 250), { Color::Rgb(137, 180, 250) }
/// Green for active or up.
pub fn highlight() -> (r: Color) ensures r == Color::Rgb(166, 227, 161), { Color::Rgb(166, 227, 161) }
/// Red for down or error.
pub fn danger() -> (r: Color) ensures r == Color::Rgb(243, 139, 168), { Color::Rgb(243, 139, 168) }
/// Yellow for warnings or shut-off.
pub fn warning() -> (r: Color) ensures r == Color::Rgb(249, 226, 175), { Color::Rgb(249, 226, 175) }
/// Muted secondary text.
pub fn muted() -> (r: Color) ensures r == Color::Rgb(108, 112, 134), { Color::Rgb(108, 112, 134) }
/// Main text.
pub fn text() -> (r: Color) ensures r == Color::Rgb(205, 214, 244), { Color::Rgb(205, 214, 244) }
/// Labels and headings.
pub fn text_bright() -> (r: Color) ensures r == Color::Rgb(255, 255, 255), { Color::Rgb(255, 255, 255) }
/// Background of a selected row.
pub fn selected_bg() -> (r: Color) ensures r == Color::Rgb(49, 50, 68), { Color::Rgb(49, 50, 68) }

pub open spec fn style(fg: Option<Color>, bg: Option<Color>, bold: bool) -> StyleSpec {
    StyleSpec { fg, bg, bold }
}

pub fn default_style() -> (r: StyleSpec)
    ensures r == style(Some(Color::Rgb(205, 214, 244)), Some(Color::Rgb(24, 24, 37)), false),
{
    StyleSpec { fg: Some(text()), bg: Some(bg()), bold: false }
}

pub fn header_style() -> (r: StyleSpec)
    ensures r == style(Some(Color::Rgb(137, 180, 250)), Some(Color::Rgb(24, 24, 37)), true),
{
    StyleSpec { fg: Some(accent()), bg: Some(bg()), bold: true }
}

pub fn selected_style() -> (r: StyleSpec)
    ensures r == style(Some(Color::Rgb(255, 255, 255)), Some(Color::Rgb(49, 50, 68)), true),
{
    StyleSpec { fg: Some(text_bright()), bg: Some(selected_bg()), bold: true }
}

pub fn border_style() -> (r: StyleSpec)
    ensures r == style(Some(Color::Rgb(88, 91, 112)), None, false),
{
    StyleSpec { fg: Some(border()), bg: None, bold: false }
}

pub fn border_focused_style() -> (r: StyleSpec)
    ensures r == style(Some(Color::Rgb(137, 180, 250)), None, false),
{
    StyleSpec { fg: Some(accent()), bg: None, bold: false }
}

pub fn status_up_style() -> (r: StyleSpec)
    ensures r == style(Some(Color::Rgb(166, 227, 161)), None, true),
{
    StyleSpec { fg: Some(highlight()), bg: None, bold: true }
}

pub fn status_down_style() -> (r: StyleSpec)
    ensures r == style(Some(Color::Rgb(243, 139, 168)), None, true),
{
    StyleSpec { fg: Some(danger()), bg: None, bold: true }
}

pub fn status_warn_style() -> (r: StyleSpec)
    ensures r == style(Some(Color::Rgb(249, 226, 175)), None, false),
{
    StyleSpec { fg: Some(warning()), bg: None, bold: false }
}

pub fn muted_style() -> (r: StyleSpec)
    ensures r == style(Some(Color::Rgb(108, 112, 134)), None, false),
{
    StyleSpec { fg: Some(muted()), bg: None, bold: false }
}

pub fn tab_active_style() -> (r: StyleSpec)
    ensures r == style(Some(Color::Rgb(137, 180, 250)), Some(Color::Rgb(49, 50, 68)), true),
{
    StyleSpec { fg: Some(accent()), bg: Some(selected_bg()), bold: true }
}

pub fn tab_inactive_style() -> (r: StyleSpec)
    ensures r == style(Some(Color::Rgb(108, 112, 134)), None, false),
{
    StyleSpec { fg: Some(muted()), bg: None, bold: false }
}

/// The kind of state that a lowercase state word denotes.
pub enum StateClass {
    Up,
    Down,
    Off,
    Busy,
    Unknown,
}

pub open spec fn spec_state_class(lower: Seq<char>) -> StateClass {
    if lower == "up"@ || lower == "active"@ || lower == "alive"@ || lower == "enabled"@ || lower == "running"@ {
        StateClass::Up
    } else if lower == "down"@ || lower == "error"@ || lower == "dead"@ {
        StateClass::Down
    } else if lower == "shutoff"@ || lower == "stopped"@ || lower == "suspended"@ {
        StateClass::Off
    } else if lower == "build"@ || lower == "migrating"@ || lower == "resize"@ {
        StateClass::Busy
    } else {
        StateClass::Unknown
    }
}

/// The label and style shown for a state class.
pub open spec fn spec_symbol_of(c: StateClass) -> (Seq<char>, StyleSpec) {
    match c {
        StateClass::Up => ("● UP"@, style(Some(Color::Rgb(166, 227, 161)), None, true)),
        StateClass::Down => ("● DOWN"@, style(Some(Color::Rgb(243, 139, 168)), None, true)),
        StateClass::Off => ("◌ OFF"@, style(Some(Color::Rgb(249, 226, 175)), None, false)),
        StateClass::Busy => ("↻ BUSY"@, style(Some(Color::Cyan), None, false)),
        StateClass::Unknown => ("? UNKN"@, style(Some(Color::Rgb(108, 112, 134)), None, false)),
    }
}

/// The symbol for a state word that is already in lowercase.
pub fn symbol_for_lowercase(lower: &str) -> (r: (&'static str, StyleSpec))
    ensures
        r.0@ == spec_symbol_of(spec_state_class(lower@)).0,
        r.1 == spec_symbol_of(spec_state_class(lower@)).1,
{
    if str_eq(lower, "up") || str_eq(lower, "active") || str_eq(lower, "alive") || str_eq(lower, "enabled")
        || str_eq(lower, "running") {
        ("● UP", status_up_style())
    } else if str_eq(lower, "down") || str_eq(lower, "error") || str_eq(lower, "dead") {
        ("● DOWN", status_down_style())
    } else if str_eq(lower, "shutoff") || str_eq(lower, "stopped") || str_eq(lower, "suspended") {
        ("◌ OFF", status_warn_style())
    } else if str_eq(lower, "build") || str_eq(lower, "migrating") || str_eq(lower, "resize") {
        ("↻ BUSY", StyleSpec { fg: Some(Color::Cyan), bg: None, bold: false })
    } else {
        ("? UNKN", muted_style())
    }
}

/// Format a state string into a coloured symbol; the state is compared in lowercase.
pub fn state_symbol(state: &str) -> (r: (&'static str, StyleSpec))
    ensures
        r.0@ == spec_symbol_of(spec_state_class(spec_lowercase(state@))).0,
        r.1 == spec_symbol_of(spec_state_class(spec_lowercase(state@))).1,
{
    let lower = to_lowercase(state);
    symbol_for_lowercase(lower.as_str())
}

} // verus!
