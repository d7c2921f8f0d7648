//! The object storage view: account statistics, the time of the last
//! successful poll, and the cluster info.
use vstd::prelude::*;
use crate::auth::keystone::Timestamp;
use crate::state::AppState;
use crate::text::{decimal, digit_char, push_char, u64_to_string};

verus! {

/// What the statistics pane shows: the account counts once known, else the
/// error of the last poll, else a loading note.
pub enum SwiftStatsView {
    Stats { containers: u64, objects: u64, bytes_used: u64 },
    Error(String),
    Loading,
}

/// The statistics pane of `state`.
pub fn swift_stats_view(state: &AppState) -> (r: SwiftStatsView)
    ensures
        match state.swift_stats {
            Some(st) => r == (SwiftStatsView::Stats {
                containers: st.container_count,
                objects: st.object_count,
                bytes_used: st.bytes_used,
            }),
            None => match state.swift_status.error {
                Some(e) => r matches SwiftStatsView::Error(m) && m@ == e@,
                None => r is Loading,
            },
        },
{
    match &state.swift_stats {
        Some(st) => SwiftStatsView::Stats {
            containers: st.container_count,
            objects: st.object_count,
            bytes_used: st.bytes_used,
        },
        None => match &state.swift_status.error {
            Some(e) => SwiftStatsView::Error(e.clone()),
            None => SwiftStatsView::Loading,
        },
    }
}

/// `n`, below one hundred, as two digits.
pub open spec fn two_digits(n: int) -> Seq<char> {
    seq![digit_char(n / 10), digit_char(n % 10)]
}

/// The UTC time of day of `t` as HH:MM:SS; the seconds read 60 during a
/// leap second.
pub open spec fn spec_time_of_day(t: Timestamp) -> Seq<char> {
    let ds = t.spec_secs() % 86400;
    two_digits(ds / 3600) + ":"@ + two_digits((ds % 3600) / 60) + ":"@
        + two_digits(ds % 60 + t.spec_nanos() / 1_000_000_000)
}

/// Appends the two digits of `n` to `s`.
fn push_two_digits(s: &mut String, n: u64)
    requires
        n < 100,
    ensures
        final(s)@ == old(s)@ + two_digits(n as int),
{
    let hi: char = ((n / 10) as u8 + 48u8) as char;
    let lo: char = ((n % 10) as u8 + 48u8) as char;
    assert(hi == digit_char(n as int / 10));
    assert(lo == digit_char(n as int % 10));
    push_char(s, hi);
    push_char(s, lo);
    assert(s@ =~= old(s)@ + two_digits(n as int));
}

/// Seconds since midnight UTC of `secs` seconds since the epoch.
fn seconds_of_day(secs: i64) -> (r: u64)
    ensures
        r == secs as int % 86400,
{
    if secs >= 0 {
        (secs as u64) % 86400
    } else {
        let m: u64 = ((-(secs as i128)) as u64) % 86400;
        if m == 0 {
            proof {
                assert(secs as int % 86400 == 0) by (nonlinear_arith)
                    requires secs < 0, (-secs) % 86400 == 0;
            }
            0
        } else {
            proof {
                assert(secs as int % 86400 == 86400 - m) by (nonlinear_arith)
                    requires secs < 0, m == (-secs) % 86400, m > 0;
            }
            86400 - m
        }
    }
}

/// The note under the statistics: the time of the last successful poll.
pub fn last_updated_text(t: Timestamp) -> (r: String)
    ensures
        r@ == "  Last updated: "@ + spec_time_of_day(t),
{
    let secs = t.secs();
    let nanos = t.nanos();
    let ds = seconds_of_day(secs);
    let mut r = String::from_str("  Last updated: ");
    proof {
        reveal_strlit("  Last updated: ");
        reveal_strlit(":");
    }
    let ghost head = r@;
    push_two_digits(&mut r, ds / 3600);
    push_char(&mut r, ':');
    push_two_digits(&mut r, (ds % 3600) / 60);
    push_char(&mut r, ':');
    let sec: u64 = ds % 60 + (nanos / 1_000_000_000) as u64;
    push_two_digits(&mut r, sec);
    assert(r@ =~= head + spec_time_of_day(t));
    r
}

/// What the cluster pane shows: nothing known yet, or the version line
/// and the maximum object size line, each when the info has it.
pub enum SwiftClusterView {
    NotYet,
    Known { version: Option<String>, max_object: Option<String> },
}

/// The cluster pane of `state`: with a `swift` section, its version
/// ("unknown" when absent) and, when given, its maximum object size in
/// bytes.
pub fn swift_cluster_view(state: &AppState) -> (r: SwiftClusterView)
    ensures
        match state.swift_info {
            None => r is NotYet,
            Some(i) => match i.swift {
                None => r matches SwiftClusterView::Known { version, max_object }
                    && version is None && max_object is None,
                Some(core) => r matches SwiftClusterView::Known { version, max_object }
                    && version matches Some(v)
                    && v@ == (match core.version { Some(x) => x@, None => "unknown"@ })
                    && match core.max_file_size {
                        Some(n) => max_object matches Some(m) && m@ == decimal(n as nat) + " bytes"@,
                        None => max_object is None,
                    },
            },
        },
{
    match &state.swift_info {
        None => SwiftClusterView::NotYet,
        Some(i) => match &i.swift {
            None => SwiftClusterView::Known { version: None, max_object: None },
            Some(core) => {
                let version = match &core.version {
                    Some(x) => x.clone(),
                    None => String::from_str("unknown"),
                };
                let max_object = match core.max_file_size {
                    Some(n) => Some(u64_to_string(n).concat(" bytes")),
                    None => None,
                };
                SwiftClusterView::Known { version: Some(version), max_object }
            },
        },
    }
}

} // verus!
