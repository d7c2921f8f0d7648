//! Keystone v3 tokens: their lifetime, the service catalog that comes with
//! them, and the request and response handling of password authentication.
use vstd::prelude::*;
use crate::config::clouds::CloudConfig;
use crate::strmap::StrMap;
use crate::text::trim_trailing_slashes;
use crate::text::trim_end_char;
use crate::text::str_eq;

verus! {

/// Largest magnitude of whole seconds that a UTC date-time can have.
pub const TIMESTAMP_SECS_BOUND: i64 = 10_000_000_000_000;

/// A point in time: whole seconds since the Unix epoch and the nanoseconds
/// after them (more than a second's worth only during a leap second).
#[derive(Debug, Clone, Copy)]
pub struct Timestamp {
    secs: i64,
    nanos: u32,
}

impl Timestamp {
    #[verifier::type_invariant]
    closed spec fn wf(self) -> bool {
        -TIMESTAMP_SECS_BOUND <= self.secs <= TIMESTAMP_SECS_BOUND && self.nanos < 2_000_000_000
    }

    pub closed spec fn spec_secs(self) -> int {
        self.secs as int
    }

    pub closed spec fn spec_nanos(self) -> int {
        self.nanos as int
    }

    /// Nanoseconds since the epoch.
    pub open spec fn total_nanos(self) -> int {
        self.spec_secs() * 1_000_000_000 + self.spec_nanos()
    }

    /// A timestamp from its parts, when they are in range.
    pub fn new(secs: i64, nanos: u32) -> (r: Option<Timestamp>)
        ensures
            match r {
                Some(t) => t.spec_secs() == secs && t.spec_nanos() == nanos,
                None => !(-TIMESTAMP_SECS_BOUND <= secs <= TIMESTAMP_SECS_BOUND && nanos < 2_000_000_000),
            },
    {
        if -TIMESTAMP_SECS_BOUND <= secs && secs <= TIMESTAMP_SECS_BOUND && nanos < 2_000_000_000 {
            Some(Timestamp { secs, nanos })
        } else {
            None
        }
    }

    /// Whole seconds since the epoch.
    pub fn secs(&self) -> (r: i64)
        ensures
            r == self.spec_secs(),
            -TIMESTAMP_SECS_BOUND <= r <= TIMESTAMP_SECS_BOUND,
    {
        proof {
            use_type_invariant(self);
        }
        self.secs
    }

    /// Nanoseconds after the whole second.
    pub fn nanos(&self) -> (r: u32)
        ensures
            r == self.spec_nanos(),
            r < 2_000_000_000,
    {
        proof {
            use_type_invariant(self);
        }
        self.nanos
    }
}

/// Division rounding toward zero, as the whole seconds of a time span.
pub open spec fn div_toward_zero(d: int, q: int) -> int {
    if d >= 0 {
        d / q
    } else {
        -((-d) / q)
    }
}

/// Whole seconds from `earlier` to `later`, rounded toward zero.
pub open spec fn whole_secs_between(later: Timestamp, earlier: Timestamp) -> int {
    div_toward_zero(later.total_nanos() - earlier.total_nanos(), 1_000_000_000)
}

/// Whole seconds from `earlier` to `later`, rounded toward zero.
pub fn secs_between(later: Timestamp, earlier: Timestamp) -> (r: i64)
    ensures
        r == whole_secs_between(later, earlier),
{
    let a: i128 = later.secs() as i128 * 1_000_000_000 + later.nanos() as i128;
    let b: i128 = earlier.secs() as i128 * 1_000_000_000 + earlier.nanos() as i128;
    let d: i128 = a - b;
    let q: i128 = if d >= 0 {
        d / 1_000_000_000
    } else {
        -((-d) / 1_000_000_000)
    };
    proof {
        assert(-30_000_000_000_000_000_000_000 <= d <= 30_000_000_000_000_000_000_000);
        if d >= 0 {
            assert(d / 1_000_000_000 <= 30_000_000_000_000) by (nonlinear_arith)
                requires 0 <= d <= 30_000_000_000_000_000_000_000;
        } else {
            assert((-d) / 1_000_000_000 <= 30_000_000_000_000) by (nonlinear_arith)
                requires 0 < -d <= 30_000_000_000_000_000_000_000;
        }
    }
    q as i64
}

/// `std::time::SystemTime`, carried opaquely.
#[verifier::external_type_specification]
#[verifier::external_body]
pub struct ExSystemTime(std::time::SystemTime);

/// `std::time::SystemTime::now`: a reading of the system clock. Nothing is
/// claimed about which instant it is.
#[verifier::external_body]
fn system_time_now() -> (r: std::time::SystemTime) {
    std::time::SystemTime::now()
}

/// `SystemTime::duration_since(UNIX_EPOCH)`: `Ok` with the time elapsed since
/// the epoch, or `Err` with how far before the epoch `t` lies (the duration
/// that the error carries), each as whole seconds and the nanoseconds of the
/// second, which std documents to be below one billion.
#[verifier::external_body]
fn since_unix_epoch(t: &std::time::SystemTime) -> (r: Result<(u64, u32), (u64, u32)>)
    ensures
        match r {
            Ok(d) => d.1 < 1_000_000_000,
            Err(d) => d.1 < 1_000_000_000,
        },
{
    match t.duration_since(std::time::UNIX_EPOCH) {
        Ok(d) => Ok((d.as_secs(), d.subsec_nanos())),
        Err(e) => Err((e.duration().as_secs(), e.duration().subsec_nanos())),
    }
}

/// Whether `c` is a clock reading: whole seconds and the nanoseconds of the
/// second, after (`Ok`) or before (`Err`) the epoch.
pub open spec fn is_clock_reading(c: Result<(u64, u32), (u64, u32)>) -> bool {
    match c {
        Ok(d) => d.1 < 1_000_000_000,
        Err(d) => d.1 < 1_000_000_000,
    }
}

/// Nanoseconds since the epoch of a clock reading, negative before it.
pub open spec fn clock_nanos(c: Result<(u64, u32), (u64, u32)>) -> int {
    match c {
        Ok(d) => d.0 * 1_000_000_000 + d.1,
        Err(d) => -(d.0 * 1_000_000_000 + d.1),
    }
}

/// Earliest instant a `Timestamp` holds, in nanoseconds since the epoch.
pub open spec fn min_total_nanos() -> int {
    -TIMESTAMP_SECS_BOUND * 1_000_000_000
}

/// Latest instant a `Timestamp` holds without a leap second.
pub open spec fn max_total_nanos() -> int {
    TIMESTAMP_SECS_BOUND * 1_000_000_000 + 999_999_999
}

/// `n` held within the range of timestamps.
pub open spec fn clamp_total_nanos(n: int) -> int {
    if n < min_total_nanos() {
        min_total_nanos()
    } else if n > max_total_nanos() {
        max_total_nanos()
    } else {
        n
    }
}

/// The timestamp of a clock reading: the same instant, with the nanoseconds
/// of its second below one billion; a reading beyond the range of
/// timestamps (some 300,000 years from the epoch) gives its nearest end.
pub fn timestamp_from_clock(c: Result<(u64, u32), (u64, u32)>) -> (r: Timestamp)
    requires
        is_clock_reading(c),
    ensures
        r.spec_nanos() < 1_000_000_000,
        r.total_nanos() == clamp_total_nanos(clock_nanos(c)),
{
    let bound: u64 = 10_000_000_000_000;
    match c {
        Ok((s, n)) => {
            if s < bound {
                Timestamp { secs: s as i64, nanos: n }
            } else if s == bound {
                Timestamp { secs: TIMESTAMP_SECS_BOUND, nanos: n }
            } else {
                proof {
                    assert(s * 1_000_000_000 + n > max_total_nanos()) by (nonlinear_arith)
                        requires s > 10_000_000_000_000u64;
                }
                Timestamp { secs: TIMESTAMP_SECS_BOUND, nanos: 999_999_999 }
            }
        },
        Err((s, n)) => {
            if n == 0 {
                if s <= bound {
                    Timestamp { secs: -(s as i64), nanos: 0 }
                } else {
                    proof {
                        assert(s * 1_000_000_000 > TIMESTAMP_SECS_BOUND * 1_000_000_000) by (nonlinear_arith)
                            requires s > 10_000_000_000_000u64;
                    }
                    Timestamp { secs: -TIMESTAMP_SECS_BOUND, nanos: 0 }
                }
            } else if s < bound {
                Timestamp { secs: -(s as i64) - 1, nanos: 1_000_000_000 - n }
            } else {
                proof {
                    assert(s * 1_000_000_000 + n > TIMESTAMP_SECS_BOUND * 1_000_000_000) by (nonlinear_arith)
                        requires s >= 10_000_000_000_000u64, n > 0;
                }
                Timestamp { secs: -TIMESTAMP_SECS_BOUND, nanos: 0 }
            }
        },
    }
}

/// The current time, read from the system clock; before the epoch too.
pub fn now() -> (r: Timestamp)
    ensures
        r.spec_nanos() < 1_000_000_000,
        exists|c: Result<(u64, u32), (u64, u32)>|
            is_clock_reading(c) && r.total_nanos() == clamp_total_nanos(clock_nanos(c)),
{
    let t = system_time_now();
    let c = since_unix_epoch(&t);
    let r = timestamp_from_clock(c);
    assert(is_clock_reading(c) && r.total_nanos() == clamp_total_nanos(clock_nanos(c)));
    r
}

/// Service catalog: service type to interface to URL.
pub type ServiceCatalog = StrMap<StrMap<String>>;

/// A resolved Keystone v3 token with its service catalog.
#[derive(Debug, Clone)]
pub struct AuthToken {
    /// The X-Auth-Token header value.
    pub token: String,
    /// When this token expires.
    pub expires_at: Timestamp,
    /// Service catalog: service_type to interface to url.
    pub catalog: ServiceCatalog,
    /// The id of the project the token is scoped to, when the response names it.
    pub project_id: Option<String>,
}

impl AuthToken {
    /// Whole seconds left at `now`, negative once expired.
    pub open spec fn secs_left(&self, now: Timestamp) -> int {
        whole_secs_between(self.expires_at, now)
    }

    /// Seconds left at `now`, never below zero.
    pub open spec fn spec_remaining_at(&self, now: Timestamp) -> int {
        if self.secs_left(now) > 0 {
            self.secs_left(now)
        } else {
            0
        }
    }

    /// True if, at `now`, the token expires within `threshold_secs` seconds.
    pub fn expires_soon_at(&self, threshold_secs: i64, now: Timestamp) -> (r: bool)
        ensures
            r == (self.secs_left(now) < threshold_secs),
    {
        secs_between(self.expires_at, now) < threshold_secs
    }

    /// Remaining lifetime in seconds at `now`.
    pub fn remaining_secs_at(&self, now: Timestamp) -> (r: i64)
        ensures
            r == self.spec_remaining_at(now),
    {
        let d = secs_between(self.expires_at, now);
        if d > 0 {
            d
        } else {
            0
        }
    }

    /// Returns true if the token expires within `threshold_secs` seconds.
    pub fn expires_soon(&self, threshold_secs: i64) -> (r: bool)
        ensures
            exists|t: Timestamp| r == (self.secs_left(t) < threshold_secs),
    {
        let t = now();
        self.expires_soon_at(threshold_secs, t)
    }

    /// Remaining lifetime in seconds.
    pub fn remaining_secs(&self) -> (r: i64)
        ensures
            r >= 0,
            exists|t: Timestamp| r == self.spec_remaining_at(t),
    {
        let t = now();
        self.remaining_secs_at(t)
    }

    /// Look up an endpoint URL for a given service type and interface.
    pub fn endpoint(&self, service_type: &str, interface: &str) -> (r: Option<&str>)
        ensures
            match r {
                Some(u) => self.catalog@.contains_key(service_type@)
                    && self.catalog@[service_type@].contains_key(interface@)
                    && self.catalog@[service_type@][interface@] == u@,
                None => !(self.catalog@.contains_key(service_type@)
                    && self.catalog@[service_type@].contains_key(interface@)),
            },
    {
        match self.catalog.get(service_type) {
            Some(m) => match m.get(interface) {
                Some(u) => Some(u.as_str()),
                None => None,
            },
            None => None,
        }
    }
}


// ── Keystone v3 auth request ─────────────────────────────────────────────────

/// Body of a password authentication request.
#[derive(Debug, Clone)]
pub struct AuthRequest {
    pub auth: AuthBody,
}

#[derive(Debug, Clone)]
pub struct AuthBody {
    pub identity: Identity,
    pub scope: Scope,
}

#[derive(Debug, Clone)]
pub struct Identity {
    pub methods: Vec<String>,
    pub password: PasswordAuth,
}

#[derive(Debug, Clone)]
pub struct PasswordAuth {
    pub user: UserRef,
}

#[derive(Debug, Clone)]
pub struct UserRef {
    pub name: String,
    pub password: String,
    pub domain: DomainRef,
}

#[derive(Debug, Clone)]
pub struct DomainRef {
    pub name: String,
}

#[derive(Debug, Clone)]
pub struct Scope {
    pub project: ProjectRef,
}

#[derive(Debug, Clone)]
pub struct ProjectRef {
    pub name: String,
    pub domain: DomainRef,
}

/// The password-method request for the user and project of `config`.
pub fn auth_request(config: &CloudConfig) -> (r: AuthRequest)
    ensures
        r.auth.identity.methods@.len() == 1,
        r.auth.identity.methods@[0]@ == "password"@,
        r.auth.identity.password.user.name@ == config.auth.username@,
        r.auth.identity.password.user.password@ == config.auth.password@,
        r.auth.identity.password.user.domain.name@ == config.auth.user_domain_name@,
        r.auth.scope.project.name@ == config.auth.project_name@,
        r.auth.scope.project.domain.name@ == config.auth.project_domain_name@,
{
    let mut methods: Vec<String> = Vec::new();
    methods.push(String::from_str("password"));
    AuthRequest {
        auth: AuthBody {
            identity: Identity {
                methods,
                password: PasswordAuth {
                    user: UserRef {
                        name: config.auth.username.clone(),
                        password: config.auth.password.clone(),
                        domain: DomainRef { name: config.auth.user_domain_name.clone() },
                    },
                },
            },
            scope: Scope {
                project: ProjectRef {
                    name: config.auth.project_name.clone(),
                    domain: DomainRef { name: config.auth.project_domain_name.clone() },
                },
            },
        },
    }
}

/// The token endpoint: the auth URL without trailing slashes, then `/v3/auth/tokens`.
pub fn auth_tokens_url(config: &CloudConfig) -> (r: String)
    ensures
        r@ == trim_end_char(config.auth.auth_url@, '/') + "/v3/auth/tokens"@,
{
    let base = trim_trailing_slashes(config.auth.auth_url.as_str());
    base.concat("/v3/auth/tokens")
}

// ── Keystone v3 token response ───────────────────────────────────────────────

/// One endpoint of a catalog entry.
#[derive(Debug, Clone)]
pub struct Endpoint {
    pub interface: String,
    pub url: String,
    pub region_id: Option<String>,
}

/// One service of the catalog with its endpoints.
#[derive(Debug, Clone)]
pub struct CatalogEntry {
    pub service_type: String,
    pub endpoints: Vec<Endpoint>,
}

/// The parts of a token response that are used.
#[derive(Debug, Clone)]
pub struct TokenBody {
    pub expires_at: Timestamp,
    pub catalog: Option<Vec<CatalogEntry>>,
    /// `token.project.id`, when present.
    pub project_id: Option<String>,
}

/// An endpoint serves `region` when it names that region or names none.
pub open spec fn endpoint_in_region(ep: Endpoint, region: Seq<char>) -> bool {
    match ep.region_id {
        Some(r) => r@ == region,
        None => true,
    }
}

/// Interface map `m` after adding the in-region endpoints of `eps` in order.
pub open spec fn spec_add_endpoints(
    m: Map<Seq<char>, Seq<char>>,
    eps: Seq<Endpoint>,
    region: Seq<char>,
) -> Map<Seq<char>, Seq<char>>
    decreases eps.len(),
{
    if eps.len() == 0 {
        m
    } else {
        let prev = spec_add_endpoints(m, eps.drop_last(), region);
        let ep = eps.last();
        if endpoint_in_region(ep, region) {
            prev.insert(ep.interface@, ep.url@)
        } else {
            prev
        }
    }
}

/// The catalog built from `entries` in order: each entry's service gets an
/// interface map (kept from an earlier entry of the same type, else empty)
/// to which its in-region endpoints are added.
pub open spec fn spec_catalog(
    entries: Seq<CatalogEntry>,
    region: Seq<char>,
) -> Map<Seq<char>, Map<Seq<char>, Seq<char>>>
    decreases entries.len(),
{
    if entries.len() == 0 {
        Map::empty()
    } else {
        let prev = spec_catalog(entries.drop_last(), region);
        let e = entries.last();
        let base = if prev.contains_key(e.service_type@) {
            prev[e.service_type@]
        } else {
            Map::empty()
        };
        prev.insert(e.service_type@, spec_add_endpoints(base, e.endpoints@, region))
    }
}

/// Build the service catalog: type to interface to URL, keeping endpoints of
/// `region` and endpoints without a region.
pub fn build_catalog(entries: Vec<CatalogEntry>, region: &str) -> (r: ServiceCatalog)
    ensures
        r@ == spec_catalog(entries@, region@),
{
    let mut catalog: ServiceCatalog = StrMap::new();
    let mut i: usize = 0;
    while i < entries.len()
        invariant
            i <= entries@.len(),
            catalog@ == spec_catalog(entries@.take(i as int), region@),
        decreases entries@.len() - i,
    {
        let entry = &entries[i];
        let ghost before = catalog@;
        let mut iface: StrMap<String> = match catalog.take(entry.service_type.as_str()) {
            Some(m) => m,
            None => StrMap::new(),
        };
        let ghost base = iface@;
        let mut j: usize = 0;
        while j < entry.endpoints.len()
            invariant
                j <= entry.endpoints@.len(),
                iface@ == spec_add_endpoints(base, entry.endpoints@.take(j as int), region@),
            decreases entry.endpoints@.len() - j,
        {
            let ep = &entry.endpoints[j];
            let right_region = match &ep.region_id {
                Some(r) => str_eq(r.as_str(), region),
                None => true,
            };
            if right_region {
                iface.insert(ep.interface.clone(), ep.url.clone());
            }
            proof {
                assert(entry.endpoints@.take(j + 1).drop_last() == entry.endpoints@.take(j as int));
            }
            j = j + 1;
        }
        proof {
            assert(entry.endpoints@.take(j as int) == entry.endpoints@);
        }
        catalog.insert(entry.service_type.clone(), iface);
        proof {
            assert(entries@.take(i + 1).drop_last() == entries@.take(i as int));
            assert(before.remove(entry.service_type@).insert(entry.service_type@, iface@)
                =~= before.insert(entry.service_type@, iface@));
        }
        i = i + 1;
    }
    proof {
        assert(entries@.take(i as int) == entries@);
    }
    catalog
}

/// Every service type named by an entry is in the catalog, even one with no
/// endpoint in the region, and the catalog holds no other service type.
pub proof fn lemma_catalog_services(entries: Seq<CatalogEntry>, region: Seq<char>, t: Seq<char>)
    ensures
        spec_catalog(entries, region).contains_key(t)
            <==> exists|i: int| 0 <= i < entries.len() && entries[i].service_type@ == t,
    decreases entries.len(),
{
    if entries.len() > 0 {
        let prev = entries.drop_last();
        lemma_catalog_services(prev, region, t);
        if exists|i: int| 0 <= i < entries.len() && entries[i].service_type@ == t {
            let i = choose|i: int| 0 <= i < entries.len() && entries[i].service_type@ == t;
            if i < entries.len() - 1 {
                assert(prev[i] == entries[i]);
            }
        }
        if spec_catalog(prev, region).contains_key(t) {
            let i = choose|i: int| 0 <= i < prev.len() && prev[i].service_type@ == t;
            assert(prev[i] == entries[i]);
        }
    }
}

proof fn lemma_add_endpoints_source(
    m: Map<Seq<char>, Seq<char>>,
    eps: Seq<Endpoint>,
    region: Seq<char>,
    iface: Seq<char>,
)
    requires
        spec_add_endpoints(m, eps, region).contains_key(iface),
    ensures
        (m.contains_key(iface) && spec_add_endpoints(m, eps, region)[iface] == m[iface])
            || exists|j: int| 0 <= j < eps.len() && endpoint_in_region(eps[j], region)
                && eps[j].interface@ == iface && eps[j].url@ == spec_add_endpoints(m, eps, region)[iface],
    decreases eps.len(),
{
    if eps.len() > 0 {
        let prev = eps.drop_last();
        let ep = eps.last();
        if endpoint_in_region(ep, region) && ep.interface@ == iface {
            assert(eps[eps.len() - 1] == ep);
        } else {
            lemma_add_endpoints_source(m, prev, region, iface);
            if !(m.contains_key(iface) && spec_add_endpoints(m, eps, region)[iface] == m[iface]) {
                let j = choose|j: int| 0 <= j < prev.len() && endpoint_in_region(prev[j], region)
                    && prev[j].interface@ == iface && prev[j].url@ == spec_add_endpoints(m, prev, region)[iface];
                assert(eps[j] == prev[j]);
            }
        }
    }
}

/// Every URL in the catalog comes from an endpoint of a catalog entry of that
/// service type, for that interface, that serves the region.
pub proof fn lemma_catalog_urls_in_region(
    entries: Seq<CatalogEntry>,
    region: Seq<char>,
    t: Seq<char>,
    iface: Seq<char>,
)
    requires
        spec_catalog(entries, region).contains_key(t),
        spec_catalog(entries, region)[t].contains_key(iface),
    ensures
        exists|i: int, j: int|
            0 <= i < entries.len() && 0 <= j < entries[i].endpoints@.len()
                && entries[i].service_type@ == t
                && endpoint_in_region(entries[i].endpoints@[j], region)
                && entries[i].endpoints@[j].interface@ == iface
                && entries[i].endpoints@[j].url@ == spec_catalog(entries, region)[t][iface],
    decreases entries.len(),
{
    let prev = entries.drop_last();
    let e = entries.last();
    let pc = spec_catalog(prev, region);
    let url = spec_catalog(entries, region)[t][iface];
    if e.service_type@ == t {
        let base = if pc.contains_key(t) { pc[t] } else { Map::empty() };
        lemma_add_endpoints_source(base, e.endpoints@, region, iface);
        if base.contains_key(iface) && spec_add_endpoints(base, e.endpoints@, region)[iface] == base[iface] {
            lemma_catalog_urls_in_region(prev, region, t, iface);
            let (i, j) = choose|i: int, j: int|
                0 <= i < prev.len() && 0 <= j < prev[i].endpoints@.len()
                    && prev[i].service_type@ == t
                    && endpoint_in_region(prev[i].endpoints@[j], region)
                    && prev[i].endpoints@[j].interface@ == iface
                    && prev[i].endpoints@[j].url@ == pc[t][iface];
            assert(entries[i] == prev[i]);
        } else {
            let j = choose|j: int| 0 <= j < e.endpoints@.len() && endpoint_in_region(e.endpoints@[j], region)
                && e.endpoints@[j].interface@ == iface && e.endpoints@[j].url@ == url;
            assert(entries[entries.len() - 1] == e);
        }
    } else {
        lemma_catalog_urls_in_region(prev, region, t, iface);
        let (i, j) = choose|i: int, j: int|
            0 <= i < prev.len() && 0 <= j < prev[i].endpoints@.len()
                && prev[i].service_type@ == t
                && endpoint_in_region(prev[i].endpoints@[j], region)
                && prev[i].endpoints@[j].interface@ == iface
                && prev[i].endpoints@[j].url@ == pc[t][iface];
        assert(entries[i] == prev[i]);
    }
}

/// Adding endpoints never removes an interface already in the map; an
/// interface that no in-region endpoint names keeps its URL.
proof fn lemma_add_endpoints_keeps(
    m: Map<Seq<char>, Seq<char>>,
    eps: Seq<Endpoint>,
    region: Seq<char>,
    iface: Seq<char>,
)
    ensures
        m.contains_key(iface) ==> spec_add_endpoints(m, eps, region).contains_key(iface),
        (forall|j: int| 0 <= j < eps.len() && endpoint_in_region(eps[j], region) ==> eps[j].interface@ != iface)
            ==> (spec_add_endpoints(m, eps, region).contains_key(iface) == m.contains_key(iface)
                && spec_add_endpoints(m, eps, region)[iface] == m[iface]),
    decreases eps.len(),
{
    if eps.len() > 0 {
        let prev = eps.drop_last();
        lemma_add_endpoints_keeps(m, prev, region, iface);
        if forall|j: int| 0 <= j < eps.len() && endpoint_in_region(eps[j], region) ==> eps[j].interface@ != iface {
            assert forall|j: int| 0 <= j < prev.len() && endpoint_in_region(prev[j], region)
                implies prev[j].interface@ != iface by {
                assert(prev[j] == eps[j]);
            }
            assert(eps[eps.len() - 1] == eps.last());
        }
    }
}

/// An in-region endpoint with no later in-region endpoint for the same
/// interface gives that interface its URL.
proof fn lemma_add_endpoints_last_wins(
    m: Map<Seq<char>, Seq<char>>,
    eps: Seq<Endpoint>,
    region: Seq<char>,
    j: int,
)
    requires
        0 <= j < eps.len(),
        endpoint_in_region(eps[j], region),
        forall|j2: int| j < j2 < eps.len() && endpoint_in_region(eps[j2], region)
            ==> eps[j2].interface@ != eps[j].interface@,
    ensures
        spec_add_endpoints(m, eps, region).contains_key(eps[j].interface@),
        spec_add_endpoints(m, eps, region)[eps[j].interface@] == eps[j].url@,
    decreases eps.len(),
{
    let prev = eps.drop_last();
    if j < eps.len() - 1 {
        assert(prev[j] == eps[j]);
        assert forall|j2: int| j < j2 < prev.len() && endpoint_in_region(prev[j2], region)
            implies prev[j2].interface@ != prev[j].interface@ by {
            assert(prev[j2] == eps[j2]);
        }
        lemma_add_endpoints_last_wins(m, prev, region, j);
        assert(eps[eps.len() - 1] == eps.last());
    }
}

/// Every endpoint that serves the region reaches the catalog: its service
/// type is there with its interface, whatever endpoints of other regions
/// follow it.
pub proof fn lemma_catalog_complete(entries: Seq<CatalogEntry>, region: Seq<char>, i: int, j: int)
    requires
        0 <= i < entries.len(),
        0 <= j < entries[i].endpoints@.len(),
        endpoint_in_region(entries[i].endpoints@[j], region),
    ensures
        spec_catalog(entries, region).contains_key(entries[i].service_type@),
        spec_catalog(entries, region)[entries[i].service_type@].contains_key(entries[i].endpoints@[j].interface@),
    decreases entries.len(),
{
    let prev = entries.drop_last();
    let pc = spec_catalog(prev, region);
    let e = entries.last();
    let t = entries[i].service_type@;
    let f = entries[i].endpoints@[j].interface@;
    if i == entries.len() - 1 {
        let base = if pc.contains_key(e.service_type@) { pc[e.service_type@] } else { Map::empty() };
        lemma_add_endpoints_in(base, e.endpoints@, region, j);
    } else {
        assert(prev[i] == entries[i]);
        lemma_catalog_complete(prev, region, i, j);
        if e.service_type@ == t {
            lemma_add_endpoints_keeps(pc[t], e.endpoints@, region, f);
        }
    }
}

/// An in-region endpoint's interface is in the map after adding it.
proof fn lemma_add_endpoints_in(m: Map<Seq<char>, Seq<char>>, eps: Seq<Endpoint>, region: Seq<char>, j: int)
    requires
        0 <= j < eps.len(),
        endpoint_in_region(eps[j], region),
    ensures
        spec_add_endpoints(m, eps, region).contains_key(eps[j].interface@),
    decreases eps.len(),
{
    let prev = eps.drop_last();
    if j < eps.len() - 1 {
        assert(prev[j] == eps[j]);
        lemma_add_endpoints_in(m, prev, region, j);
        lemma_add_endpoints_keeps(spec_add_endpoints(m, prev, region), seq![eps.last()], region, eps[j].interface@);
        assert(eps[eps.len() - 1] == eps.last());
    }
}

/// The endpoint at `(i2, j2)` comes after the one at `(i, j)` in the
/// response, serves the region, and is of the same service type and
/// interface.
pub open spec fn overridden_by(entries: Seq<CatalogEntry>, region: Seq<char>, i: int, j: int, i2: int, j2: int) -> bool {
    &&& 0 <= i2 < entries.len()
    &&& 0 <= j2 < entries[i2].endpoints@.len()
    &&& (i2 > i || (i2 == i && j2 > j))
    &&& endpoint_in_region(entries[i2].endpoints@[j2], region)
    &&& entries[i2].service_type@ == entries[i].service_type@
    &&& entries[i2].endpoints@[j2].interface@ == entries[i].endpoints@[j].interface@
}

/// The URL of a service type and interface is that of the last endpoint in
/// the response that serves the region for them.
pub proof fn lemma_catalog_last_endpoint_wins(entries: Seq<CatalogEntry>, region: Seq<char>, i: int, j: int)
    requires
        0 <= i < entries.len(),
        0 <= j < entries[i].endpoints@.len(),
        endpoint_in_region(entries[i].endpoints@[j], region),
        forall|i2: int, j2: int| !overridden_by(entries, region, i, j, i2, j2),
    ensures
        spec_catalog(entries, region).contains_key(entries[i].service_type@),
        spec_catalog(entries, region)[entries[i].service_type@][entries[i].endpoints@[j].interface@]
            == entries[i].endpoints@[j].url@,
    decreases entries.len(),
{
    let prev = entries.drop_last();
    let pc = spec_catalog(prev, region);
    let e = entries.last();
    let last = entries.len() - 1;
    assert(entries[last] == e);
    let t = entries[i].service_type@;
    let f = entries[i].endpoints@[j].interface@;
    lemma_catalog_complete(entries, region, i, j);
    if i == last {
        let base = if pc.contains_key(e.service_type@) { pc[e.service_type@] } else { Map::empty() };
        assert forall|j2: int| j < j2 < e.endpoints@.len() && endpoint_in_region(e.endpoints@[j2], region)
            implies e.endpoints@[j2].interface@ != e.endpoints@[j].interface@ by {
            assert(!overridden_by(entries, region, i, j, i, j2));
        }
        lemma_add_endpoints_last_wins(base, e.endpoints@, region, j);
    } else {
        assert(prev[i] == entries[i]);
        assert forall|i2: int, j2: int| !overridden_by(prev, region, i, j, i2, j2) by {
            if overridden_by(prev, region, i, j, i2, j2) {
                assert(prev[i2] == entries[i2]);
                assert(overridden_by(entries, region, i, j, i2, j2));
            }
        }
        lemma_catalog_last_endpoint_wins(prev, region, i, j);
        if e.service_type@ == t {
            assert forall|j2: int| 0 <= j2 < e.endpoints@.len() && endpoint_in_region(e.endpoints@[j2], region)
                implies e.endpoints@[j2].interface@ != f by {
                assert(!overridden_by(entries, region, i, j, last, j2));
            }
            lemma_add_endpoints_keeps(pc[t], e.endpoints@, region, f);
        }
    }
}

/// What the `X-Subject-Token` header of a token response holds.
pub enum TokenHeader {
    Missing,
    /// Present but not visible ASCII.
    Invalid,
    Present(String),
}

/// Why a Keystone response gives no token.
#[derive(Debug, Clone, Copy, PartialEq, Eq)]
pub enum AuthResponseError {
    MissingTokenHeader,
    InvalidTokenHeader,
    /// The status code is not a success; the body says why.
    Rejected,
}

impl AuthResponseError {
    /// The message shown for this error.
    pub fn message(&self) -> (r: String)
        ensures
            *self == AuthResponseError::MissingTokenHeader ==> r@ == "Keystone response missing X-Subject-Token header"@,
            *self == AuthResponseError::InvalidTokenHeader ==> r@ == "Invalid token header value"@,
            *self == AuthResponseError::Rejected ==> r@ == "Keystone auth failed"@,
    {
        match self {
            AuthResponseError::MissingTokenHeader => String::from_str("Keystone response missing X-Subject-Token header"),
            AuthResponseError::InvalidTokenHeader => String::from_str("Invalid token header value"),
            AuthResponseError::Rejected => String::from_str("Keystone auth failed"),
        }
    }
}

/// The token of a response: the header is checked first, then the status.
pub fn check_token_response(header: TokenHeader, status_success: bool) -> (r: Result<String, AuthResponseError>)
    ensures
        match header {
            TokenHeader::Missing => r == Err::<String, AuthResponseError>(AuthResponseError::MissingTokenHeader),
            TokenHeader::Invalid => r == Err::<String, AuthResponseError>(AuthResponseError::InvalidTokenHeader),
            TokenHeader::Present(t) => if status_success {
                r is Ok && r->Ok_0@ == t@
            } else {
                r == Err::<String, AuthResponseError>(AuthResponseError::Rejected)
            },
        },
{
    match header {
        TokenHeader::Missing => Err(AuthResponseError::MissingTokenHeader),
        TokenHeader::Invalid => Err(AuthResponseError::InvalidTokenHeader),
        TokenHeader::Present(t) => if status_success {
            Ok(t)
        } else {
            Err(AuthResponseError::Rejected)
        },
    }
}

/// The catalog entries of a response, none when it has no catalog.
pub open spec fn spec_entries(body: TokenBody) -> Seq<CatalogEntry> {
    match body.catalog {
        Some(c) => c@,
        None => Seq::empty(),
    }
}

/// The token that a successful response gives, with its catalog for the
/// region of `config`.
pub fn token_from_response(token: String, body: TokenBody, config: &CloudConfig) -> (r: AuthToken)
    ensures
        r.token@ == token@,
        r.expires_at == body.expires_at,
        r.catalog@ == spec_catalog(spec_entries(body), config.region_name@),
        r.project_id == body.project_id,
{
    let entries = match body.catalog {
        Some(c) => c,
        None => Vec::new(),
    };
    let catalog = build_catalog(entries, config.region_name.as_str());
    AuthToken { token, expires_at: body.expires_at, catalog, project_id: body.project_id }
}

} // verus!
