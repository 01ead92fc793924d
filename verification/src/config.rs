//! Engine configuration.

use vstd::prelude::*;
use vstd::string::*;

verus! {

/// Where the engine keeps its state, how much it logs, where the cgroup v2
/// hierarchy is mounted, and the name of its network bridge.
#[derive(Debug, Clone)]
pub struct GrinddConfig {
    pub state_root: String,
    pub log_level: String,
    pub cgroup_root: String,
    pub bridge_name: String,
}

/// The model of a `GrinddConfig`: its four fields.
pub struct ConfigView {
    pub state_root: Seq<char>,
    pub log_level: Seq<char>,
    pub cgroup_root: Seq<char>,
    pub bridge_name: Seq<char>,
}

impl View for GrinddConfig {
    type V = ConfigView;

    open spec fn view(&self) -> ConfigView {
        ConfigView {
            state_root: self.state_root@,
            log_level: self.log_level@,
            cgroup_root: self.cgroup_root@,
            bridge_name: self.bridge_name@,
        }
    }
}

/// The configuration used when no file is given.
pub open spec fn default_config() -> ConfigView {
    ConfigView {
        state_root: "/var/lib/grindd"@,
        log_level: "info"@,
        cgroup_root: "/sys/fs/cgroup"@,
        bridge_name: "grindd0"@,
    }
}

impl Default for GrinddConfig {
    /// State under `/var/lib/grindd`, log level `info`, cgroups at
    /// `/sys/fs/cgroup`, bridge `grindd0`.
    fn default() -> (r: Self)
        ensures
            r@ == default_config(),
    {
        GrinddConfig {
            state_root: String::from_str("/var/lib/grindd"),
            log_level: String::from_str("info"),
            cgroup_root: String::from_str("/sys/fs/cgroup"),
            bridge_name: String::from_str("grindd0"),
        }
    }
}

impl GrinddConfig {
    /// The effective configuration: the one read from the config file when a
    /// file was given (the caller reads and parses it), else the defaults.
    pub fn load(from_file: Option<GrinddConfig>) -> (r: Self)
        ensures
            match from_file {
                Some(c) => r == c,
                None => r@ == default_config(),
            },
    {
        match from_file {
            Some(c) => c,
            None => GrinddConfig::default(),
        }
    }
}

} // verus!
