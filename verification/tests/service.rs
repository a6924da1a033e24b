use adblock::evaluation::{Profile, RuleAction, RulePriority};
use adblock::service::{service_banner, state_path_parts, AdBlockService, ServiceStatus};

#[test]
fn start_and_stop_transition_updates_runtime_state() {
    let mut service = AdBlockService::new();

    service.disable();
    assert!(!service.is_enabled());
    assert!(!service.status_snapshot().running);

    service.start();
    assert!(service.is_enabled());
    assert!(service.status_snapshot().running);

    // A service run of any length ends stopped.
    service.start();
    service.stop();
    assert!(!service.is_enabled());
    assert!(!service.status_snapshot().running);
}

#[test]
fn evaluate_known_blocked_and_unknown_allowed_domains() {
    let service = AdBlockService::new();

    let blocked = service.evaluate_domain("ads.youtube.com");
    let allowed = service.evaluate_domain("example.net");

    assert!(matches!(blocked.action, RuleAction::Block));
    assert!(matches!(allowed.action, RuleAction::Allow));
    assert!(service.is_domain_blocked("ads.youtube.com"));
    assert!(!service.is_domain_blocked("example.net"));
}

#[test]
fn runtime_dns_filter_enforces_default_block_rules() {
    let mut service = AdBlockService::new();

    assert!(service.resolve_domain("ads.youtube.com"));
    assert!(service.dns.cache_lookup("ads.youtube.com"));
    assert!(!service.resolve_domain("youtube.com"));
}

#[test]
fn status_tracks_active_rule_count() {
    let service = AdBlockService::new();

    let snapshot = service.status_snapshot();
    assert_eq!(snapshot.rules_loaded, service.dns.rules.rules.len());
}

#[test]
fn runtime_rules_reload_from_config_and_override_defaults() {
    let mut service = AdBlockService::new();
    service.config.allowlist.push("youtube.com".to_string());
    service.config.blocklist.push("ads.youtube.com".to_string());

    service.update_runtime_rules();

    assert!(!service.is_domain_blocked("youtube.com"));
    assert!(service.is_domain_blocked("ads.youtube.com"));
}

#[test]
fn new_service_state() {
    let service = AdBlockService::new();
    assert!(service.is_enabled());
    let status = service.status_snapshot();
    assert!(status.enabled);
    assert!(status.running);
    assert_eq!(status.profile, "Balanced");
    assert_eq!(status.rules_loaded, 28);
    assert_eq!(service.config.service_name, "AdBlockService");
    assert!(!service.wfp.enabled);
    assert!(service.network.is_healthy());
    assert!(service.diagnostics.healthy());
    assert!(service.dns.cache.is_empty());
}

#[test]
fn disabled_service_fails_open_but_caches() {
    let mut service = AdBlockService::new();
    service.disable();
    assert!(!service.wfp.enabled);
    assert_eq!(service.wfp.filters_loaded, 0);
    assert!(!service.resolve_domain("ads.youtube.com"));
    assert!(service.dns.cache_lookup("ADS.YOUTUBE.COM"));
    // The rules still say it is blocked.
    assert!(service.is_domain_blocked("ads.youtube.com"));
    service.enable();
    assert!(service.wfp.enabled);
    assert_eq!(service.wfp.filters_loaded, 1);
    assert!(service.resolve_domain("ads.youtube.com"));
    assert_eq!(service.dns.cache.len(), 1);
}

#[test]
fn enabled_in_status_only_is_not_enabled() {
    let mut service = AdBlockService::new();
    service.config.enabled = false;
    assert!(!service.is_enabled());
    assert!(!service.resolve_domain("ads.youtube.com"));
}

#[test]
fn resolve_records_rule_count() {
    let mut service = AdBlockService::new();
    service.dns.add_rule(adblock::rules::make_rule(
        "example.org",
        RuleAction::Block,
        RulePriority::UserBlocklist,
        "user",
    ));
    assert_eq!(service.status_snapshot().rules_loaded, 28);
    assert!(service.resolve_domain("example.org"));
    assert_eq!(service.status_snapshot().rules_loaded, 29);
}

#[test]
fn set_profile_updates_config_and_status() {
    let mut service = AdBlockService::new();
    service.set_profile(Profile::Aggressive);
    assert_eq!(service.config.profile, Profile::Aggressive);
    assert_eq!(service.status_snapshot().profile, "Aggressive");
    service.set_profile(Profile::Custom);
    assert_eq!(service.status.profile, "Custom");
}

#[test]
fn reload_trims_entries_and_counts_rules() {
    let mut service = AdBlockService::new();
    service.config.allowlist.push("  ads.spotify.com ".to_string());
    service.config.blocklist.push("\texample.com".to_string());
    service.config.blocklist.push("*.trackers.test".to_string());
    service.update_runtime_rules();
    assert_eq!(service.dns.rules.rules.len(), 31);
    assert_eq!(service.status_snapshot().rules_loaded, 31);
    assert_eq!(service.dns.rules.rules[28].domain, "ads.spotify.com");
    assert_eq!(service.dns.rules.rules[28].source, "config-allowlist");
    assert_eq!(service.dns.rules.rules[29].domain, "example.com");
    assert_eq!(service.dns.rules.rules[30].source, "config-blocklist");
    assert!(!service.is_domain_blocked("ads.spotify.com"));
    assert!(service.is_domain_blocked("example.com"));
    assert!(service.is_domain_blocked("a.trackers.test"));
    // Reloading again starts from the built-in rules, not from the previous list.
    service.update_runtime_rules();
    assert_eq!(service.dns.rules.rules.len(), 31);
}

#[test]
fn blocklisted_but_allowlisted_stays_allowed() {
    let mut service = AdBlockService::new();
    service.config.allowlist.push("example.com".to_string());
    service.config.blocklist.push("example.com".to_string());
    service.update_runtime_rules();
    assert!(!service.is_domain_blocked("example.com"));
    assert_eq!(service.evaluate_domain("example.com").priority, RulePriority::UserAllowlist);
}

#[test]
fn status_default_and_banner() {
    let status = ServiceStatus::default();
    assert!(!status.enabled);
    assert!(!status.running);
    assert_eq!(status.profile, "");
    assert_eq!(status.rules_loaded, 0);
    assert!(service_banner().starts_with("AdBlockService is the Windows background service"));
}

#[test]
fn blocklist_wildcard_blocks_matching_domains() {
    let mut service = AdBlockService::new();
    service.config.blocklist.push("*.tracking.test".to_string());
    service.config.allowlist.push("good.tracking.test".to_string());
    service.update_runtime_rules();
    assert!(service.is_domain_blocked("a.tracking.test"));
    assert!(service.is_domain_blocked(" B.Tracking.TEST "));
    assert!(!service.is_domain_blocked("good.tracking.test"));
    assert!(!service.is_domain_blocked("tracking.test"));
}

#[test]
fn state_path_falls_back_in_order() {
    assert_eq!(
        state_path_parts(Some("C:\\Local".to_string()), Some("C:\\User".to_string())),
        vec!["C:\\Local", "AdBlocker", "service_state.json"]
    );
    assert_eq!(
        state_path_parts(None, Some("C:\\User".to_string())),
        vec!["C:\\User", "AdBlocker", "service_state.json"]
    );
    assert_eq!(state_path_parts(None, None), vec![".", "AdBlocker", "service_state.json"]);
}

#[test]
fn saved_state_or_fresh_service() {
    let mut saved = AdBlockService::new();
    saved.disable();
    let restored = AdBlockService::from_saved(Some(Ok(saved)));
    assert!(!restored.is_enabled());
    let fresh = AdBlockService::from_saved(Some(Err("bad json".to_string())));
    assert!(fresh.is_enabled());
    assert_eq!(fresh.status.rules_loaded, 28);
    let fresh = AdBlockService::from_saved(None);
    assert!(fresh.is_enabled());
}
