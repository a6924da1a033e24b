use adblock::config::{ConfigFile, ServiceConfig};
use adblock::diagnostics::{doctor_summary, DiagnosticsReport};
use adblock::evaluation::Profile;
use adblock::network::{fail_open_policy, NetworkHealth};
use adblock::updater::{update_policy, FilterListUpdate};
use adblock::wfp::WfpController;

#[test]
fn default_config() {
    let c = ServiceConfig::from_default();
    assert_eq!(c.service_name, "AdBlockService");
    assert_eq!(c.profile, Profile::Balanced);
    assert!(c.enabled);
    assert_eq!(c.upstream_dns, vec!["1.1.1.1", "8.8.8.8", "9.9.9.9"]);
    assert!(c.allowlist.is_empty());
    assert!(c.blocklist.is_empty());
    assert_eq!(c.log_path, r"%ProgramData%\AdBlocker\logs");
    assert!(!c.auto_update);
}

fn file(profile: &str) -> ConfigFile {
    ConfigFile {
        service_name: "Blocker".to_string(),
        service_profile: profile.to_string(),
        service_enabled: false,
        network_upstream_dns: vec!["10.0.0.1".to_string()],
        filters_allowlist: vec!["good.example".to_string()],
        filters_blocklist: vec!["bad.example".to_string(), "worse.example".to_string()],
        logging_path: "/var/log/adblock".to_string(),
        updates_allow_auto_update: true,
    }
}

#[test]
fn config_from_file_values() {
    let c = ServiceConfig::from_file(file(" strict "));
    assert_eq!(c.service_name, "Blocker");
    assert_eq!(c.profile, Profile::Strict);
    assert!(!c.enabled);
    assert_eq!(c.upstream_dns, vec!["10.0.0.1"]);
    assert_eq!(c.allowlist, vec!["good.example"]);
    assert_eq!(c.blocklist, vec!["bad.example", "worse.example"]);
    assert_eq!(c.log_path, "/var/log/adblock");
    assert!(c.auto_update);
}

#[test]
fn config_with_unknown_profile_falls_back_to_balanced() {
    assert_eq!(ServiceConfig::from_file(file("Paranoid")).profile, Profile::Balanced);
    assert_eq!(ServiceConfig::from_file(file("Custom")).profile, Profile::Custom);
}

#[test]
fn diagnostics_health_needs_every_check() {
    let mut r = DiagnosticsReport::default();
    assert!(!r.healthy());
    r.service_status = true;
    r.dns_status = true;
    r.network_status = true;
    r.wfp_status = true;
    assert!(!r.healthy());
    r.ipc_status = true;
    assert!(r.healthy());
    r.dns_status = false;
    assert!(!r.healthy());
    assert!(doctor_summary().starts_with("Diagnostics include service health"));
}

#[test]
fn network_health_needs_an_adapter() {
    let mut h = NetworkHealth::default();
    assert!(!h.is_healthy());
    h.dns_ok = true;
    h.internet_ok = true;
    assert!(!h.is_healthy());
    h.adapters = 2;
    assert!(h.is_healthy());
    h.internet_ok = false;
    assert!(!h.is_healthy());
    assert!(fail_open_policy().starts_with("Fail open:"));
}

#[test]
fn filter_list_update_validation() {
    let mut u = FilterListUpdate::new("https://lists.example/ads.txt", "C:\\lists\\ads.txt");
    assert!(!u.validated);
    assert!(u.validate());
    assert!(u.validated);
    let mut blank_url = FilterListUpdate::new("  \t", "lists/ads.txt");
    assert!(!blank_url.validate());
    assert!(!blank_url.validated);
    let mut no_path = FilterListUpdate::new("https://lists.example/ads.txt", "");
    assert!(!no_path.validate());
    assert!(update_policy().starts_with("Downloaded filter lists are validated"));
}

#[test]
fn wfp_lifecycle() {
    let mut w = WfpController::new();
    assert!(!w.enabled);
    assert_eq!(w.filters_loaded, 0);
    w.initialize();
    assert!(w.enabled);
    assert_eq!(w.filters_loaded, 1);
    w.shutdown();
    assert!(!w.enabled);
    assert_eq!(w.filters_loaded, 0);
}
