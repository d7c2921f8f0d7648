//! The decisions of the background pollers: what each poll result does to
//! the shared state, and when the token is renewed. The pollers themselves
//! (timers, HTTP calls, locking) run the loop and hand the results here.
use vstd::prelude::*;
use crate::auth::keystone::{AuthToken, Timestamp};
use crate::client::cinder::{CinderService, Volume};
use crate::client::glance::Image;
use crate::client::neutron::{Agent, Network, Router};
use crate::client::nova::{Hypervisor, NovaService, Server};
use crate::client::swift::{SwiftAccountStats, SwiftInfo};
use crate::cli::Args;
use crate::state::{AppState, ServiceStatus};

verus! {

/// Seconds between compute polls.
pub const NOVA_POLL_SECS: u64 = 10;
/// Seconds between network polls.
pub const NEUTRON_POLL_SECS: u64 = 15;
/// Seconds between object-storage polls.
pub const SWIFT_POLL_SECS: u64 = 30;
/// Seconds between block-storage polls.
pub const CINDER_POLL_SECS: u64 = 20;
/// Seconds between image polls.
pub const GLANCE_POLL_SECS: u64 = 60;
/// Seconds between token lifetime checks.
pub const TOKEN_CHECK_SECS: u64 = 60;
/// A token with fewer seconds left than this is renewed.
pub const TOKEN_REFRESH_THRESHOLD_SECS: i64 = 300;

/// Seconds between the polls of each service.
#[derive(Debug, Clone, Copy)]
pub struct PollIntervals {
    pub nova: u64,
    pub neutron: u64,
    pub swift: u64,
    pub cinder: u64,
    pub glance: u64,
}

/// The polling intervals that `args` asks for, images at their fixed
/// interval; none when one of them is zero, since a timer cannot tick
/// every zero seconds.
pub fn poll_intervals(args: &Args) -> (r: Option<PollIntervals>)
    ensures
        (r is Some) == (args.nova_interval > 0 && args.neutron_interval > 0 && args.swift_interval > 0
            && args.cinder_interval > 0),
        r matches Some(p) ==> p == (PollIntervals {
            nova: args.nova_interval,
            neutron: args.neutron_interval,
            swift: args.swift_interval,
            cinder: args.cinder_interval,
            glance: GLANCE_POLL_SECS,
        }),
{
    if args.nova_interval > 0 && args.neutron_interval > 0 && args.swift_interval > 0 && args.cinder_interval > 0 {
        Some(PollIntervals {
            nova: args.nova_interval,
            neutron: args.neutron_interval,
            swift: args.swift_interval,
            cinder: args.cinder_interval,
            glance: GLANCE_POLL_SECS,
        })
    } else {
        None
    }
}

/// The error of the first failed result, in argument order.
pub open spec fn first_error2<A, B>(a: Result<A, String>, b: Result<B, String>) -> Option<String> {
    match a {
        Err(e) => Some(e),
        Ok(_) => match b {
            Err(e) => Some(e),
            Ok(_) => None,
        },
    }
}

/// The error of the first failed result, in argument order.
pub open spec fn first_error3<A, B, C>(a: Result<A, String>, b: Result<B, String>, c: Result<C, String>) -> Option<String> {
    match a {
        Err(e) => Some(e),
        Ok(_) => first_error2(b, c),
    }
}

/// The status after a successful poll at `now`.
pub open spec fn refreshed(now: Timestamp) -> ServiceStatus {
    ServiceStatus { last_updated: Some(now), error: None }
}

/// The status after a failed poll: the error is recorded, the time of the
/// last success kept.
pub open spec fn failed(old: ServiceStatus, e: String) -> ServiceStatus {
    ServiceStatus { error: Some(e), ..old }
}

/// Records a compute poll: when all three listings succeed they replace the
/// data and the status is refreshed; otherwise the data is kept and the
/// first error, in the order hypervisors, servers, services, is recorded.
pub fn record_nova_poll(
    state: &mut AppState,
    hypervisors: Result<Vec<Hypervisor>, String>,
    servers: Result<Vec<Server>, String>,
    services: Result<Vec<NovaService>, String>,
    now: Timestamp,
)
    ensures
        match (hypervisors, servers, services) {
            (Ok(h), Ok(s), Ok(v)) => *final(state) == (AppState {
                hypervisors: h,
                servers: s,
                nova_services: v,
                nova_status: refreshed(now),
                ..*old(state)
            }),
            _ => *final(state) == (AppState {
                nova_status: failed(old(state).nova_status, first_error3(hypervisors, servers, services)->0),
                ..*old(state)
            }),
        },
{
    match (hypervisors, servers, services) {
        (Ok(h), Ok(s), Ok(v)) => {
            state.hypervisors = h;
            state.servers = s;
            state.nova_services = v;
            state.nova_status.last_updated = Some(now);
            state.nova_status.error = None;
        },
        (Err(e), _, _) | (_, Err(e), _) | (_, _, Err(e)) => {
            state.nova_status.error = Some(e);
        },
    }
}

/// Records a network poll, as `record_nova_poll` does for networks, agents
/// and routers.
pub fn record_neutron_poll(
    state: &mut AppState,
    networks: Result<Vec<Network>, String>,
    agents: Result<Vec<Agent>, String>,
    routers: Result<Vec<Router>, String>,
    now: Timestamp,
)
    ensures
        match (networks, agents, routers) {
            (Ok(n), Ok(a), Ok(r)) => *final(state) == (AppState {
                networks: n,
                agents: a,
                routers: r,
                neutron_status: refreshed(now),
                ..*old(state)
            }),
            _ => *final(state) == (AppState {
                neutron_status: failed(old(state).neutron_status, first_error3(networks, agents, routers)->0),
                ..*old(state)
            }),
        },
{
    match (networks, agents, routers) {
        (Ok(n), Ok(a), Ok(r)) => {
            state.networks = n;
            state.agents = a;
            state.routers = r;
            state.neutron_status.last_updated = Some(now);
            state.neutron_status.error = None;
        },
        (Err(e), _, _) | (_, Err(e), _) | (_, _, Err(e)) => {
            state.neutron_status.error = Some(e);
        },
    }
}

/// Records an object-storage poll. `stats` is the account statistics
/// reply, `None` when they were not asked for (the token names no project).
/// When every reply succeeds the cluster info, and the statistics when
/// asked for, replace the old ones and the status is refreshed; otherwise
/// the data is kept and the first error (info, then statistics) recorded.
pub fn record_swift_poll(
    state: &mut AppState,
    info: Result<SwiftInfo, String>,
    stats: Option<Result<SwiftAccountStats, String>>,
    now: Timestamp,
)
    ensures
        match (info, stats) {
            (Ok(i), None) => *final(state) == (AppState {
                swift_info: Some(i),
                swift_status: refreshed(now),
                ..*old(state)
            }),
            (Ok(i), Some(Ok(st))) => *final(state) == (AppState {
                swift_info: Some(i),
                swift_stats: Some(st),
                swift_status: refreshed(now),
                ..*old(state)
            }),
            (Ok(_), Some(Err(e))) => *final(state) == (AppState {
                swift_status: failed(old(state).swift_status, e),
                ..*old(state)
            }),
            (Err(e), _) => *final(state) == (AppState {
                swift_status: failed(old(state).swift_status, e),
                ..*old(state)
            }),
        },
{
    match (info, stats) {
        (Ok(i), None) => {
            state.swift_info = Some(i);
            state.swift_status.last_updated = Some(now);
            state.swift_status.error = None;
        },
        (Ok(i), Some(Ok(st))) => {
            state.swift_info = Some(i);
            state.swift_stats = Some(st);
            state.swift_status.last_updated = Some(now);
            state.swift_status.error = None;
        },
        (Ok(_), Some(Err(e))) => {
            state.swift_status.error = Some(e);
        },
        (Err(e), _) => {
            state.swift_status.error = Some(e);
        },
    }
}

/// Records a block-storage poll, as `record_nova_poll` does for volumes and
/// services.
pub fn record_cinder_poll(
    state: &mut AppState,
    volumes: Result<Vec<Volume>, String>,
    services: Result<Vec<CinderService>, String>,
    now: Timestamp,
)
    ensures
        match (volumes, services) {
            (Ok(v), Ok(s)) => *final(state) == (AppState {
                volumes: v,
                cinder_services: s,
                cinder_status: refreshed(now),
                ..*old(state)
            }),
            _ => *final(state) == (AppState {
                cinder_status: failed(old(state).cinder_status, first_error2(volumes, services)->0),
                ..*old(state)
            }),
        },
{
    match (volumes, services) {
        (Ok(v), Ok(s)) => {
            state.volumes = v;
            state.cinder_services = s;
            state.cinder_status.last_updated = Some(now);
            state.cinder_status.error = None;
        },
        (Err(e), _) | (_, Err(e)) => {
            state.cinder_status.error = Some(e);
        },
    }
}

/// Records an image poll.
pub fn record_glance_poll(state: &mut AppState, images: Result<Vec<Image>, String>, now: Timestamp)
    ensures
        match images {
            Ok(i) => *final(state) == (AppState {
                images: i,
                glance_status: refreshed(now),
                ..*old(state)
            }),
            Err(e) => *final(state) == (AppState {
                glance_status: failed(old(state).glance_status, e),
                ..*old(state)
            }),
        },
{
    match images {
        Ok(i) => {
            state.images = i;
            state.glance_status.last_updated = Some(now);
            state.glance_status.error = None;
        },
        Err(e) => {
            state.glance_status.error = Some(e);
        },
    }
}

/// Whether the token must be renewed at `now`: fewer than five minutes left.
pub fn token_refresh_due(state: &AppState, now: Timestamp) -> (r: bool)
    ensures
        r == (state.auth_token.secs_left(now) < TOKEN_REFRESH_THRESHOLD_SECS),
{
    state.auth_token.expires_soon_at(TOKEN_REFRESH_THRESHOLD_SECS, now)
}

/// A renewal is due exactly when the remaining lifetime that the status bar
/// shows is below five minutes.
pub proof fn lemma_refresh_due_iff_remaining_below(token: AuthToken, now: Timestamp)
    ensures
        (token.secs_left(now) < TOKEN_REFRESH_THRESHOLD_SECS)
            <==> (token.spec_remaining_at(now) < TOKEN_REFRESH_THRESHOLD_SECS),
{
}

/// Installs a renewed token; nothing else changes.
pub fn install_token(state: &mut AppState, token: AuthToken)
    ensures
        *final(state) == (AppState { auth_token: token, ..*old(state) }),
{
    state.auth_token = token;
}

} // verus!
