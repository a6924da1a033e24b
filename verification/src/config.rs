//! The service configuration: its defaults, and how the values read from a
//! configuration file become a configuration.

use vstd::prelude::*;
use crate::evaluation::{profile_of_name, Profile};
use crate::text::trim;

verus! {

/// The service configuration.
#[derive(Debug, Clone)]
pub struct ServiceConfig {
    pub service_name: String,
    pub profile: Profile,
    pub enabled: bool,
    pub upstream_dns: Vec<String>,
    pub allowlist: Vec<String>,
    pub blocklist: Vec<String>,
    pub log_path: String,
    pub auto_update: bool,
}

/// The values that a configuration file holds, under their sections
/// (`[service]`, `[network]`, `[filters]`, `[logging]`, `[updates]`).
#[derive(Debug, Clone)]
pub struct ConfigFile {
    pub service_name: String,
    pub service_profile: String,
    pub service_enabled: bool,
    pub network_upstream_dns: Vec<String>,
    pub filters_allowlist: Vec<String>,
    pub filters_blocklist: Vec<String>,
    pub logging_path: String,
    pub updates_allow_auto_update: bool,
}

/// The default upstream DNS servers, in order.
pub open spec fn default_upstream_dns() -> Seq<Seq<char>> {
    seq!["1.1.1.1"@, "8.8.8.8"@, "9.9.9.9"@]
}

/// The views of a list of strings.
pub open spec fn string_views(v: Seq<String>) -> Seq<Seq<char>> {
    v.map_values(|s: String| s@)
}

/// The configuration is the default one.
pub open spec fn is_default_config(c: ServiceConfig) -> bool {
    &&& c.service_name@ == "AdBlockService"@
    &&& c.profile == Profile::Balanced
    &&& c.enabled
    &&& string_views(c.upstream_dns@) == default_upstream_dns()
    &&& c.allowlist@.len() == 0
    &&& c.blocklist@.len() == 0
    &&& c.log_path@ == "%ProgramData%\\AdBlocker\\logs"@
    &&& !c.auto_update
}

/// The default upstream DNS servers.
pub fn default_upstream() -> (v: Vec<String>)
    ensures
        string_views(v@) == default_upstream_dns(),
{
    let mut v: Vec<String> = Vec::new();
    v.push(String::from_str("1.1.1.1"));
    v.push(String::from_str("8.8.8.8"));
    v.push(String::from_str("9.9.9.9"));
    assert(string_views(v@) =~= default_upstream_dns());
    v
}

impl Default for ServiceConfig {
    fn default() -> (c: Self)
        ensures
            is_default_config(c),
    {
        let c = ServiceConfig {
            service_name: String::from_str("AdBlockService"),
            profile: Profile::Balanced,
            enabled: true,
            upstream_dns: default_upstream(),
            allowlist: Vec::new(),
            blocklist: Vec::new(),
            log_path: String::from_str("%ProgramData%\\AdBlocker\\logs"),
            auto_update: false,
        };
        c
    }
}

impl ServiceConfig {
    pub fn from_default() -> (c: Self)
        ensures
            is_default_config(c),
    {
        Self::default()
    }

    /// The configuration that a configuration file describes; a profile name
    /// that is not known selects the default profile, `Balanced`.
    pub fn from_file(file: ConfigFile) -> (c: Self)
        ensures
            c.service_name == file.service_name,
            c.profile == match profile_of_name(trim(file.service_profile@)) {
                Some(p) => p,
                None => Profile::Balanced,
            },
            c.enabled == file.service_enabled,
            c.upstream_dns == file.network_upstream_dns,
            c.allowlist == file.filters_allowlist,
            c.blocklist == file.filters_blocklist,
            c.log_path == file.logging_path,
            c.auto_update == file.updates_allow_auto_update,
    {
        let profile = match Profile::parse(file.service_profile.as_str()) {
            Ok(p) => p,
            Err(_) => Profile::default(),
        };
        ServiceConfig {
            service_name: file.service_name,
            profile,
            enabled: file.service_enabled,
            upstream_dns: file.network_upstream_dns,
            allowlist: file.filters_allowlist,
            blocklist: file.filters_blocklist,
            log_path: file.logging_path,
            auto_update: file.updates_allow_auto_update,
        }
    }
}

} // verus!
