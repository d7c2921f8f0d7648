//! Command-line options.
use vstd::prelude::*;

verus! {

/// Options of the dashboard: where clouds.yaml is, which cloud to use,
/// polling intervals and verbosity.
#[derive(Debug, Clone)]
pub struct Args {
    /// Path to the clouds.yaml file.
    pub clouds: Option<String>,
    /// Cloud name to use from clouds.yaml.
    pub cloud: Option<String>,
    /// Polling interval in seconds for compute resources.
    pub nova_interval: u64,
    /// Polling interval in seconds for network resources.
    pub neutron_interval: u64,
    /// Polling interval in seconds for object storage.
    pub swift_interval: u64,
    /// Polling interval in seconds for block storage.
    pub cinder_interval: u64,
    /// Verbose debug output to the log file.
    pub verbose: bool,
}

impl Args {
    /// The cloud to use: the one named, else "admin".
    pub fn cloud_name(&self) -> (r: &str)
        ensures
            match self.cloud {
                Some(c) => r@ == c@,
                None => r@ == "admin"@,
            },
    {
        match &self.cloud {
            Some(c) => c.as_str(),
            None => "admin",
        }
    }
}

} // verus!
