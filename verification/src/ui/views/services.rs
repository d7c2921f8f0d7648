//! The service health view: Nova services and Neutron agents.
use vstd::prelude::*;
use crate::client::nova::NovaService;
use crate::state::AppState;
use crate::text::{can_truncate, spec_lowercase, spec_truncate, truncate_text};
use crate::ui::theme::{spec_state_class, spec_symbol_of, state_symbol, StyleSpec};

verus! {

/// The line shown when no Nova service is known: an error note when the
/// last compute poll failed, else a loading note.
pub fn nova_placeholder(state: &AppState) -> (r: &'static str)
    ensures
        r@ == (if state.nova_status.error is Some { "  ⚠ Error fetching"@ } else { "  Loading…"@ }),
{
    if state.nova_status.error.is_some() { "  ⚠ Error fetching" } else { "  Loading…" }
}

/// Shortens a cell text to `max` bytes.
pub fn truncate(s: &str, max: usize) -> (r: String)
    requires
        can_truncate(s@, max),
    ensures
        r@ == spec_truncate(s@, max),
{
    truncate_text(s, max)
}

/// One row of the Nova services pane: binary and host cut to their
/// columns, and the symbol and style of the service state.
pub struct NovaServiceLine {
    pub binary: String,
    pub host: String,
    pub symbol: &'static str,
    pub style: StyleSpec,
}

/// The Nova services pane below its heading: one row per service in order,
/// the placeholder note when there is none, and the error of the last poll.
pub struct NovaServicesPane {
    pub rows: Vec<NovaServiceLine>,
    pub placeholder: Option<&'static str>,
    /// `"  Error: "` and the error, when the last compute poll failed.
    pub error_line: Option<String>,
}

/// Whether the binary and host of `s` can be cut to their columns.
pub open spec fn nova_row_fits(s: NovaService) -> bool {
    can_truncate(s.binary@, 20) && can_truncate(s.host@, 18)
}

/// Row `l` shows service `s`.
pub open spec fn shows_service(l: NovaServiceLine, s: NovaService) -> bool {
    &&& l.binary@ == spec_truncate(s.binary@, 20)
    &&& l.host@ == spec_truncate(s.host@, 18)
    &&& l.symbol@ == spec_symbol_of(spec_state_class(spec_lowercase(s.state@))).0
    &&& l.style == spec_symbol_of(spec_state_class(spec_lowercase(s.state@))).1
}

/// The Nova services pane of `state`.
pub fn nova_services_pane(state: &AppState) -> (r: NovaServicesPane)
    requires
        forall|i: int| 0 <= i < state.nova_services@.len() ==> nova_row_fits(#[trigger] state.nova_services@[i]),
    ensures
        r.rows@.len() == state.nova_services@.len(),
        forall|i: int| 0 <= i < r.rows@.len() ==> shows_service(#[trigger] r.rows@[i], state.nova_services@[i]),
        (state.nova_services@.len() == 0) == (r.placeholder is Some),
        r.placeholder matches Some(p) ==> p@ == (if state.nova_status.error is Some {
            "  ⚠ Error fetching"@
        } else {
            "  Loading…"@
        }),
        match state.nova_status.error {
            Some(e) => r.error_line matches Some(l) && l@ == "  Error: "@ + e@,
            None => r.error_line is None,
        },
{
    let services = &state.nova_services;
    let mut rows: Vec<NovaServiceLine> = Vec::new();
    let mut i: usize = 0;
    while i < services.len()
        invariant
            i <= services@.len(),
            services@ == state.nova_services@,
            forall|k: int| 0 <= k < services@.len() ==> nova_row_fits(#[trigger] services@[k]),
            rows@.len() == i,
            forall|k: int| 0 <= k < i ==> shows_service(#[trigger] rows@[k], services@[k]),
        decreases services@.len() - i,
    {
        let svc = &services[i];
        assert(nova_row_fits(services@[i as int]));
        let (symbol, style) = state_symbol(svc.state.as_str());
        rows.push(NovaServiceLine {
            binary: truncate(svc.binary.as_str(), 20),
            host: truncate(svc.host.as_str(), 18),
            symbol,
            style,
        });
        i = i + 1;
    }
    let placeholder = if services.len() == 0 { Some(nova_placeholder(state)) } else { None };
    let error_line = match &state.nova_status.error {
        Some(e) => Some(String::from_str("  Error: ").concat(e.as_str())),
        None => None,
    };
    NovaServicesPane { rows, placeholder, error_line }
}

} // verus!
