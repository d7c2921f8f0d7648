//! The model of a `clouds.yaml` file: its cloud entries, the defaults that
//! apply to missing keys, and where the file is looked for.
use vstd::prelude::*;
use crate::strmap::StrMap;

verus! {

/// Root structure of clouds.yaml: cloud name to its configuration.
#[derive(Debug, Clone)]
pub struct CloudsFile {
    pub clouds: StrMap<CloudConfig>,
}

/// Per-cloud configuration block.
#[derive(Debug, Clone)]
pub struct CloudConfig {
    pub auth: AuthConfig,
    /// The region; a list of regions in the file selects its first element.
    pub region_name: String,
    pub interface: String,
    pub identity_api_version: u8,
    /// Whether TLS certificates are verified (absent means yes).
    pub verify: Option<bool>,
    /// Path to a CA bundle for TLS verification.
    pub cacert: Option<String>,
}

impl View for CloudConfig {
    type V = CloudConfig;

    open spec fn view(&self) -> CloudConfig {
        *self
    }
}

/// Auth sub-block inside a cloud entry.
#[derive(Debug, Clone)]
pub struct AuthConfig {
    pub auth_url: String,
    pub username: String,
    pub password: String,
    pub project_name: String,
    pub project_id: Option<String>,
    pub user_domain_name: String,
    pub project_domain_name: String,
}

/// The two shapes that the region key takes in a cloud entry:
/// `region_name: RegionOne` or `regions: [RegionOne, RegionTwo]`.
pub enum RegionField {
    Single(String),
    List(Vec<String>),
}

pub open spec fn spec_default_region() -> Seq<char> {
    "RegionOne"@
}

/// Region used when the file names none.
pub fn default_region() -> (r: String)
    ensures
        r@ == spec_default_region(),
{
    String::from_str("RegionOne")
}

/// Interface used when the file names none.
pub fn default_interface() -> (r: String)
    ensures
        r@ == "public"@,
{
    String::from_str("public")
}

/// Identity API version used when the file names none.
pub fn default_identity_version() -> (r: u8)
    ensures
        r == 3,
{
    3
}

/// Domain used for user and project when the file names none.
pub fn default_domain() -> (r: String)
    ensures
        r@ == "Default"@,
{
    String::from_str("Default")
}

/// Project used when the file names none.
pub fn default_project() -> (r: String)
    ensures
        r@ == "admin"@,
{
    String::from_str("admin")
}

/// The region that a region field selects.
pub open spec fn spec_region_of(field: RegionField) -> Seq<char> {
    match field {
        RegionField::Single(s) => s@,
        RegionField::List(v) => if v@.len() > 0 {
            v@[0]@
        } else {
            spec_default_region()
        },
    }
}

/// A single region is taken as it is; from a list the first element is
/// taken, and an empty list gives the default region.
pub fn region_from_field(field: RegionField) -> (r: String)
    ensures
        r@ == spec_region_of(field),
{
    match field {
        RegionField::Single(s) => s,
        RegionField::List(v) => {
            if v.len() > 0 {
                v[0].clone()
            } else {
                default_region()
            }
        },
    }
}

impl CloudsFile {
    /// The configuration of the cloud called `name`, if the file has one.
    pub fn get(&self, name: &str) -> (r: Option<&CloudConfig>)
        ensures
            match r {
                Some(c) => self.clouds@.contains_key(name@) && self.clouds@[name@] == *c,
                None => !self.clouds@.contains_key(name@),
            },
    {
        self.clouds.get(name)
    }
}

/// The message shown when the file has no cloud called `name`.
pub fn cloud_not_found_message(name: &str) -> (r: String)
    ensures
        r@ == "Cloud '"@ + name@ + "' not found in clouds.yaml"@,
{
    String::from_str("Cloud '").concat(name).concat("' not found in clouds.yaml")
}

/// Path of the system-wide clouds.yaml.
pub fn system_clouds_path() -> (r: String)
    ensures
        r@ == "/etc/openstack/clouds.yaml"@,
{
    String::from_str("/etc/openstack/clouds.yaml")
}

/// Why no clouds.yaml could be located.
#[derive(Debug, Clone, Copy, PartialEq, Eq)]
pub enum ConfigError {
    NotFound,
}

impl ConfigError {
    /// The message shown for this error.
    pub fn message(&self) -> (r: String)
        ensures
            r@ == "clouds.yaml not found. Provide --clouds <path> or set OS_CLIENT_CONFIG_FILE, or place it at ~/.config/openstack/clouds.yaml"@,
    {
        String::from_str(
            "clouds.yaml not found. Provide --clouds <path> or set OS_CLIENT_CONFIG_FILE, or place it at ~/.config/openstack/clouds.yaml",
        )
    }
}

/// The path that the resolution order selects.
pub open spec fn spec_resolve_clouds_path(
    explicit: Option<Seq<char>>,
    env_value: Option<Seq<char>>,
    user_path: Option<Seq<char>>,
    user_path_exists: bool,
    system_path_exists: bool,
) -> Option<Seq<char>> {
    if explicit is Some {
        explicit
    } else if env_value is Some {
        env_value
    } else if user_path is Some && user_path_exists {
        user_path
    } else if system_path_exists {
        Some("/etc/openstack/clouds.yaml"@)
    } else {
        None
    }
}

/// Picks the clouds.yaml to load, in this order: the explicit path, the
/// `OS_CLIENT_CONFIG_FILE` value, `<config dir>/openstack/clouds.yaml` when it
/// exists, `/etc/openstack/clouds.yaml` when it exists.
/// `user_path` is the user candidate when a config directory is known.
pub fn resolve_clouds_path(
    explicit: Option<&str>,
    env_value: Option<String>,
    user_path: Option<String>,
    user_path_exists: bool,
    system_path_exists: bool,
) -> (r: Result<String, ConfigError>)
    ensures
        match spec_resolve_clouds_path(
            match explicit { Some(p) => Some(p@), None => None },
            match env_value { Some(p) => Some(p@), None => None },
            match user_path { Some(p) => Some(p@), None => None },
            user_path_exists,
            system_path_exists,
        ) {
            Some(p) => r is Ok && r->Ok_0@ == p,
            None => r == Err::<String, ConfigError>(ConfigError::NotFound),
        },
{
    if let Some(p) = explicit {
        return Ok(String::from_str(p));
    }
    if let Some(p) = env_value {
        return Ok(p);
    }
    if let Some(p) = user_path {
        if user_path_exists {
            return Ok(p);
        }
    }
    if system_path_exists {
        return Ok(system_clouds_path());
    }
    Err(ConfigError::NotFound)
}

/// The lookup order of clouds.yaml: an explicit path wins; then the
/// environment value; then the user file, whenever it exists, whatever the
/// system file; then the system file; and nothing is found only when no
/// candidate is there.
pub proof fn lemma_clouds_path_order(
    explicit: Option<Seq<char>>,
    env_value: Option<Seq<char>>,
    user_path: Option<Seq<char>>,
    user_path_exists: bool,
    system_path_exists: bool,
)
    ensures
        explicit is Some ==> spec_resolve_clouds_path(explicit, env_value, user_path, user_path_exists,
            system_path_exists) == explicit,
        explicit is None && env_value is Some ==> spec_resolve_clouds_path(explicit, env_value, user_path,
            user_path_exists, system_path_exists) == env_value,
        explicit is None && env_value is None && user_path is Some && user_path_exists
            ==> spec_resolve_clouds_path(explicit, env_value, user_path, user_path_exists, system_path_exists)
            == user_path,
        explicit is None && env_value is None && !(user_path is Some && user_path_exists) && system_path_exists
            ==> spec_resolve_clouds_path(explicit, env_value, user_path, user_path_exists, system_path_exists)
            == Some("/etc/openstack/clouds.yaml"@),
        spec_resolve_clouds_path(explicit, env_value, user_path, user_path_exists, system_path_exists) is None
            <==> (explicit is None && env_value is None && !(user_path is Some && user_path_exists)
            && !system_path_exists),
{
}

} // verus!
