//! The authenticated HTTP client shared by all service clients, and the
//! resolution of service endpoints from the catalog.
use vstd::prelude::*;
use crate::auth::keystone::{AuthToken, ServiceCatalog};
use crate::config::clouds::CloudConfig;
use crate::strmap::StrMap;
use crate::text::{trim_end_char, trim_trailing_slashes};

pub mod cinder;
pub mod glance;
pub mod neutron;
pub mod nova;
pub mod swift;

verus! {

/// `reqwest::Client`, carried opaquely.
#[verifier::external_type_specification]
#[verifier::external_body]
pub struct ExHttpClient(reqwest::Client);

/// `reqwest::ClientBuilder`, carried opaquely.
#[verifier::external_type_specification]
#[verifier::external_body]
pub struct ExHttpClientBuilder(reqwest::ClientBuilder);

/// `reqwest::Certificate`, carried opaquely.
#[verifier::external_type_specification]
#[verifier::external_body]
pub struct ExHttpCertificate(reqwest::Certificate);

/// `reqwest::Error`, carried opaquely.
#[verifier::external_type_specification]
#[verifier::external_body]
pub struct ExHttpError(reqwest::Error);

/// `serde_json::Value`: free-form JSON that servers and routers carry
/// through unread.
#[verifier::external_type_specification]
#[verifier::external_body]
pub struct ExJsonValue(serde_json::Value);

/// A `reqwest::ClientBuilder` with a record of how it was configured: the
/// certificate-checking flag, the timeout and the PEM bytes of each root
/// certificate added, in order. Only the wrappers below make or change one.
struct HttpClientBuilder {
    builder: reqwest::ClientBuilder,
    accept_invalid_certs: Ghost<bool>,
    timeout_secs: Ghost<u64>,
    roots: Ghost<Seq<Seq<u8>>>,
}

/// A `reqwest::Certificate` with the PEM bytes it was made from.
struct HttpCertificate {
    cert: reqwest::Certificate,
    pem: Ghost<Seq<u8>>,
}

/// A `reqwest::Client` with the configuration of the builder that built it.
pub struct HttpClient {
    client: reqwest::Client,
    accept_invalid_certs: Ghost<bool>,
    timeout_secs: Ghost<u64>,
    roots: Ghost<Seq<Seq<u8>>>,
}

impl HttpClient {
    /// TLS certificates are accepted without checking them.
    pub closed spec fn accepts_invalid_certs(&self) -> bool {
        self.accept_invalid_certs@
    }

    /// Seconds after which a request gives up.
    pub closed spec fn timeout(&self) -> u64 {
        self.timeout_secs@
    }

    /// The PEM bytes of the root certificates added, in order.
    pub closed spec fn root_certificates(&self) -> Seq<Seq<u8>> {
        self.roots@
    }

    /// The `reqwest` client, for sending requests.
    pub fn reqwest_client(&self) -> &reqwest::Client {
        &self.client
    }
}

/// `reqwest::Client::builder()` followed by `danger_accept_invalid_certs`
/// and `timeout` with the flag and the seconds of `settings`: the record
/// says so, and that no root certificate has been added yet.
#[verifier::external_body]
fn http_client_builder(settings: &ClientSettings) -> (r: HttpClientBuilder)
    ensures
        r.accept_invalid_certs@ == settings.accept_invalid_certs,
        r.timeout_secs@ == settings.timeout_secs,
        r.roots@ == Seq::<Seq<u8>>::empty(),
{
    HttpClientBuilder {
        builder: reqwest::Client::builder()
            .danger_accept_invalid_certs(settings.accept_invalid_certs)
            .timeout(std::time::Duration::from_secs(settings.timeout_secs)),
        accept_invalid_certs: Ghost(settings.accept_invalid_certs),
        timeout_secs: Ghost(settings.timeout_secs),
        roots: Ghost(Seq::empty()),
    }
}

/// `reqwest::Certificate::from_pem`. With the rustls backend alone (the one
/// configured here) it keeps the PEM bytes and always succeeds; the bytes are
/// only checked when the client is built.
#[verifier::external_body]
fn certificate_from_pem(pem: &[u8]) -> (r: Result<HttpCertificate, reqwest::Error>)
    ensures
        r is Ok,
        r is Ok ==> r->Ok_0.pem@ == pem@,
{
    match reqwest::Certificate::from_pem(pem) {
        Ok(cert) => Ok(HttpCertificate { cert, pem: Ghost(pem@) }),
        Err(e) => Err(e),
    }
}

/// `reqwest::ClientBuilder::add_root_certificate`: the certificate is
/// trusted as a root after those added before; the rest is kept.
#[verifier::external_body]
fn builder_add_root_certificate(builder: HttpClientBuilder, cert: HttpCertificate) -> (r: HttpClientBuilder)
    ensures
        r.accept_invalid_certs@ == builder.accept_invalid_certs@,
        r.timeout_secs@ == builder.timeout_secs@,
        r.roots@ == builder.roots@.push(cert.pem@),
{
    HttpClientBuilder {
        builder: builder.builder.add_root_certificate(cert.cert),
        accept_invalid_certs: builder.accept_invalid_certs,
        timeout_secs: builder.timeout_secs,
        roots: Ghost(builder.roots@.push(cert.pem@)),
    }
}

/// `reqwest::ClientBuilder::build`: a client configured as the builder was;
/// whether it succeeds depends on the TLS setup, which is not stated.
#[verifier::external_body]
fn builder_build(builder: HttpClientBuilder) -> (r: Result<HttpClient, reqwest::Error>)
    ensures
        r matches Ok(c) ==> c.accepts_invalid_certs() == builder.accept_invalid_certs@
            && c.timeout() == builder.timeout_secs@ && c.root_certificates() == builder.roots@,
{
    match builder.builder.build() {
        Ok(client) => Ok(HttpClient {
            client,
            accept_invalid_certs: builder.accept_invalid_certs,
            timeout_secs: builder.timeout_secs,
            roots: builder.roots,
        }),
        Err(e) => Err(e),
    }
}

/// The text of an HTTP client error (its `Display`); nothing is stated about it.
#[verifier::external_body]
pub(crate) fn http_error_text(e: &reqwest::Error) -> (r: String) {
    e.to_string()
}

/// The method of an API request.
#[derive(Debug, Clone, Copy, PartialEq, Eq, Structural)]
pub enum HttpMethod {
    Get,
    Head,
}

/// An API request as plain values: method, URL and headers in the order
/// they are sent. The HTTP client sends it as it stands.
#[derive(Debug, Clone)]
pub struct ApiRequest {
    pub method: HttpMethod,
    pub url: String,
    pub headers: Vec<(String, String)>,
}

/// The names and values of headers, as text.
pub open spec fn header_views(h: Seq<(String, String)>) -> Seq<(Seq<char>, Seq<char>)> {
    h.map_values(|p: (String, String)| (p.0@, p.1@))
}

impl ApiRequest {
    /// A request carrying only the `X-Auth-Token` header.
    pub fn with_token(method: HttpMethod, url: &str, token: &str) -> (r: ApiRequest)
        ensures
            r.method == method,
            r.url@ == url@,
            header_views(r.headers@) == seq![("X-Auth-Token"@, token@)],
    {
        let mut headers: Vec<(String, String)> = Vec::new();
        headers.push((String::from_str("X-Auth-Token"), String::from_str(token)));
        let r = ApiRequest { method, url: String::from_str(url), headers };
        assert(header_views(r.headers@) =~= seq![("X-Auth-Token"@, token@)]);
        r
    }

    /// The same request with one more header after the others.
    pub fn header(self, name: &str, value: &str) -> (r: ApiRequest)
        ensures
            r.method == self.method,
            r.url@ == self.url@,
            header_views(r.headers@) == header_views(self.headers@).push((name@, value@)),
    {
        let ApiRequest { method, url, headers } = self;
        let mut headers = headers;
        let ghost before = headers@;
        headers.push((String::from_str(name), String::from_str(value)));
        let r = ApiRequest { method, url, headers };
        assert(header_views(r.headers@) =~= header_views(before).push((name@, value@)));
        r
    }
}

/// Seconds after which an HTTP request gives up.
pub const HTTP_TIMEOUT_SECS: u64 = 30;

/// A copy of an interface map.
pub fn copy_interfaces(m: &StrMap<String>) -> (r: StrMap<String>)
    ensures
        r@ == m@,
{
    let keys = m.keys();
    let mut r: StrMap<String> = StrMap::new();
    let mut i: usize = 0;
    while i < keys.len()
        invariant
            i <= keys@.len(),
            forall|k: Seq<char>| m@.contains_key(k) <==> exists|j: int| 0 <= j < keys@.len() && keys@[j]@ == k,
            r@ == m@.restrict(Set::new(|k: Seq<char>| exists|j: int| 0 <= j < i && keys@[j]@ == k)),
        decreases keys@.len() - i,
    {
        let ghost before = r@;
        match m.get(keys[i].as_str()) {
            Some(v) => {
                r.insert(keys[i].clone(), v.clone());
            },
            None => {
                proof {
                    assert(m@.contains_key(keys@[i as int]@));
                }
            },
        }
        proof {
            assert(r@ =~= m@.restrict(Set::new(|k: Seq<char>| exists|j: int| 0 <= j < i + 1 && keys@[j]@ == k)));
        }
        i = i + 1;
    }
    proof {
        assert(r@ =~= m@);
    }
    r
}

/// A copy of a service catalog.
pub fn copy_catalog(c: &ServiceCatalog) -> (r: ServiceCatalog)
    ensures
        r@ == c@,
{
    let keys = c.keys();
    let mut r: ServiceCatalog = StrMap::new();
    let mut i: usize = 0;
    while i < keys.len()
        invariant
            i <= keys@.len(),
            forall|k: Seq<char>| c@.contains_key(k) <==> exists|j: int| 0 <= j < keys@.len() && keys@[j]@ == k,
            r@ == c@.restrict(Set::new(|k: Seq<char>| exists|j: int| 0 <= j < i && keys@[j]@ == k)),
        decreases keys@.len() - i,
    {
        match c.get(keys[i].as_str()) {
            Some(v) => {
                r.insert(keys[i].clone(), copy_interfaces(v));
            },
            None => {
                proof {
                    assert(c@.contains_key(keys@[i as int]@));
                }
            },
        }
        proof {
            assert(r@ =~= c@.restrict(Set::new(|k: Seq<char>| exists|j: int| 0 <= j < i + 1 && keys@[j]@ == k)));
        }
        i = i + 1;
    }
    proof {
        assert(r@ =~= c@);
    }
    r
}

/// Errors of the shared client.
#[derive(Debug)]
pub enum ClientError {
    /// The catalog has no usable endpoint for a service.
    NoEndpoint { interface: String, service: String },
    /// The HTTP client could not be set up.
    Http(reqwest::Error),
}

impl ClientError {
    /// The message shown for this error.
    pub fn message(&self) -> (r: String)
        ensures
            match self {
                ClientError::NoEndpoint { interface, service } => r@ == "No '"@ + interface@
                    + "' endpoint found for service '"@ + service@ + "' in catalog"@,
                ClientError::Http(_) => true,
            },
    {
        match self {
            ClientError::NoEndpoint { interface, service } => {
                let s = String::from_str("No '");
                let s = s.concat(interface.as_str());
                let s = s.concat("' endpoint found for service '");
                let s = s.concat(service.as_str());
                s.concat("' in catalog")
            },
            ClientError::Http(e) => http_error_text(e),
        }
    }
}

/// Shared authenticated HTTP client used by all service clients.
pub struct OpenStackClient {
    pub inner: HttpClient,
    pub token: String,
    pub interface: String,
    pub region: String,
    pub catalog: ServiceCatalog,
}

/// The URL that the catalog gives for `service` on interface `iface`,
/// falling back to its public interface.
pub open spec fn spec_resolve(
    catalog: Map<Seq<char>, Map<Seq<char>, Seq<char>>>,
    service: Seq<char>,
    iface: Seq<char>,
) -> Option<Seq<char>> {
    if catalog.contains_key(service) {
        let m = catalog[service];
        if m.contains_key(iface) {
            Some(m[iface])
        } else if m.contains_key("public"@) {
            Some(m["public"@])
        } else {
            None
        }
    } else {
        None
    }
}

/// The URL of `path` under the endpoint of `service`, if the catalog has one.
pub open spec fn spec_service_url(c: &OpenStackClient, service: Seq<char>, path: Seq<char>) -> Option<Seq<char>> {
    match spec_resolve(c.catalog@, service, c.interface@) {
        Some(u) => Some(trim_end_char(u, '/') + path),
        None => None,
    }
}

/// `r` is the URL of `path` under the endpoint of `service`, or the error
/// that names the client's interface and `service` when there is none.
pub open spec fn is_service_url(r: Result<String, ClientError>, c: &OpenStackClient, service: Seq<char>, path: Seq<char>) -> bool {
    match spec_service_url(c, service, path) {
        Some(u) => r is Ok && r->Ok_0@ == u,
        None => r matches Err(ClientError::NoEndpoint { interface, service: s })
            && interface@ == c.interface@ && s@ == service,
    }
}

/// Like `is_service_url`, trying `service` first and `fallback` after it.
pub open spec fn is_service_url_or(
    r: Result<String, ClientError>,
    c: &OpenStackClient,
    service: Seq<char>,
    fallback: Seq<char>,
    path: Seq<char>,
) -> bool {
    if spec_service_url(c, service, path) is Some {
        is_service_url(r, c, service, path)
    } else {
        is_service_url(r, c, fallback, path)
    }
}

/// How the HTTP client is set up.
#[derive(Debug, Clone)]
pub struct ClientSettings {
    /// TLS certificates are accepted without checking them.
    pub accept_invalid_certs: bool,
    /// Seconds after which a request gives up.
    pub timeout_secs: u64,
    /// PEM bytes of a CA bundle trusted as a root.
    pub root_ca: Option<Vec<u8>>,
}

/// The settings for `config`: certificates are accepted unchecked exactly
/// when `config.verify` is `Some(false)`, requests time out after 30
/// seconds, and the CA bundle `ca_pem` (the contents of the file that
/// `config.cacert` names) is trusted when given.
pub fn client_settings(config: &CloudConfig, ca_pem: Option<&[u8]>) -> (r: ClientSettings)
    ensures
        r.accept_invalid_certs == (config.verify == Some(false)),
        r.timeout_secs == HTTP_TIMEOUT_SECS,
        match ca_pem {
            Some(p) => r.root_ca matches Some(v) && v@ == p@,
            None => r.root_ca is None,
        },
{
    let verify = match config.verify {
        Some(v) => v,
        None => true,
    };
    let root_ca = match ca_pem {
        Some(p) => Some(vstd::slice::slice_to_vec(p)),
        None => None,
    };
    ClientSettings { accept_invalid_certs: !verify, timeout_secs: HTTP_TIMEOUT_SECS, root_ca }
}

/// The root certificates that `ca_pem` gives: its bytes, when present.
pub open spec fn spec_roots(ca_pem: Option<&[u8]>) -> Seq<Seq<u8>> {
    match ca_pem {
        Some(p) => seq![p@],
        None => Seq::empty(),
    }
}

/// The HTTP client for `config`, set up as `client_settings(config, ca_pem)`
/// says; the CA bundle is checked when the client is built.
pub fn build_client(config: &CloudConfig, ca_pem: Option<&[u8]>) -> (r: Result<HttpClient, ClientError>)
    ensures
        r matches Ok(c) ==> {
            &&& c.accepts_invalid_certs() == (config.verify == Some(false))
            &&& c.timeout() == HTTP_TIMEOUT_SECS
            &&& c.root_certificates() == spec_roots(ca_pem)
        },
        r matches Err(e) ==> e is Http,
{
    let settings = client_settings(config, ca_pem);
    let mut builder = http_client_builder(&settings);
    if let Some(pem) = &settings.root_ca {
        match certificate_from_pem(pem.as_slice()) {
            Ok(cert) => {
                builder = builder_add_root_certificate(builder, cert);
            },
            Err(e) => {
                return Err(ClientError::Http(e));
            },
        }
    }
    proof {
        assert(builder.roots@ =~= spec_roots(ca_pem));
    }
    match builder_build(builder) {
        Ok(c) => Ok(c),
        Err(e) => Err(ClientError::Http(e)),
    }
}

impl OpenStackClient {
    /// A client for the token and catalog of `auth`, on the interface and
    /// region of `config`, over the HTTP client that `build_client` makes.
    pub fn new(config: &CloudConfig, auth: &AuthToken, ca_pem: Option<&[u8]>) -> (r: Result<Self, ClientError>)
        ensures
            r matches Ok(c) ==> {
                &&& c.inner.accepts_invalid_certs() == (config.verify == Some(false))
                &&& c.inner.timeout() == HTTP_TIMEOUT_SECS
                &&& c.inner.root_certificates() == spec_roots(ca_pem)
                &&& c.token@ == auth.token@
                &&& c.interface@ == config.interface@
                &&& c.region@ == config.region_name@
                &&& c.catalog@ == auth.catalog@
            },
            r matches Err(e) ==> e is Http,
    {
        match build_client(config, ca_pem) {
            Ok(inner) => Ok(OpenStackClient {
                inner,
                token: auth.token.clone(),
                interface: config.interface.clone(),
                region: config.region_name.clone(),
                catalog: copy_catalog(&auth.catalog),
            }),
            Err(e) => Err(e),
        }
    }

    /// Resolve a service endpoint URL from the catalog: the client's
    /// interface, else the public one, without trailing slashes.
    pub fn endpoint(&self, service_type: &str) -> (r: Result<String, ClientError>)
        ensures
            match spec_resolve(self.catalog@, service_type@, self.interface@) {
                Some(u) => r is Ok && r->Ok_0@ == trim_end_char(u, '/'),
                None => r matches Err(ClientError::NoEndpoint { interface, service })
                    && interface@ == self.interface@ && service@ == service_type@,
            },
    {
        let found: Option<&String> = match self.catalog.get(service_type) {
            Some(m) => match m.get(self.interface.as_str()) {
                Some(u) => Some(u),
                None => m.get("public"),
            },
            None => None,
        };
        match found {
            Some(u) => Ok(trim_trailing_slashes(u.as_str())),
            None => Err(ClientError::NoEndpoint {
                interface: self.interface.clone(),
                service: String::from_str(service_type),
            }),
        }
    }

    /// A GET request for `url` carrying the auth token header.
    pub fn get(&self, url: &str) -> (r: ApiRequest)
        ensures
            r.method is Get,
            r.url@ == url@,
            header_views(r.headers@) == seq![("X-Auth-Token"@, self.token@)],
    {
        ApiRequest::with_token(HttpMethod::Get, url, self.token.as_str())
    }

    /// A HEAD request for `url` carrying the auth token header.
    pub fn head(&self, url: &str) -> (r: ApiRequest)
        ensures
            r.method is Head,
            r.url@ == url@,
            header_views(r.headers@) == seq![("X-Auth-Token"@, self.token@)],
    {
        ApiRequest::with_token(HttpMethod::Head, url, self.token.as_str())
    }

    /// The endpoint of `service_type`, else that of `fallback`.
    pub fn endpoint_or(&self, service_type: &str, fallback: &str) -> (r: Result<String, ClientError>)
        ensures
            match spec_resolve(self.catalog@, service_type@, self.interface@) {
                Some(u) => r is Ok && r->Ok_0@ == trim_end_char(u, '/'),
                None => match spec_resolve(self.catalog@, fallback@, self.interface@) {
                    Some(u) => r is Ok && r->Ok_0@ == trim_end_char(u, '/'),
                    None => r matches Err(ClientError::NoEndpoint { interface, service })
                        && interface@ == self.interface@ && service@ == fallback@,
                },
            },
    {
        match self.endpoint(service_type) {
            Ok(u) => Ok(u),
            Err(_) => self.endpoint(fallback),
        }
    }

    /// `endpoint(service_type)` followed by `path`.
    pub fn service_url(&self, service_type: &str, path: &str) -> (r: Result<String, ClientError>)
        ensures
            is_service_url(r, self, service_type@, path@),
    {
        match self.endpoint(service_type) {
            Ok(base) => Ok(base.concat(path)),
            Err(e) => Err(e),
        }
    }

    /// `endpoint_or(service_type, fallback)` followed by `path`.
    pub fn service_url_or(&self, service_type: &str, fallback: &str, path: &str) -> (r: Result<String, ClientError>)
        ensures
            is_service_url_or(r, self, service_type@, fallback@, path@),
    {
        match self.endpoint_or(service_type, fallback) {
            Ok(base) => Ok(base.concat(path)),
            Err(e) => Err(e),
        }
    }
}

} // verus!
