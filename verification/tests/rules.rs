use adblock::evaluation::{DomainRule, RuleAction, RulePriority};
use adblock::rules::RuleSet;

#[test]
fn default_rules_block_common_ad_domains() {
    let rules = RuleSet::default();

    assert!(rules.is_blocked("googleads.g.doubleclick.net"));
    assert!(rules.is_blocked("pubads.g.doubleclick.net"));
    assert!(rules.is_blocked("googlesyndication.com"));
    assert!(rules.is_blocked("scorecardresearch.com"));
    assert!(rules.is_blocked("taboola.com"));
}

#[test]
fn default_rules_keep_core_platform_domains_allowed() {
    let rules = RuleSet::default();

    assert!(!rules.is_blocked("spotify.com"));
    assert!(!rules.is_blocked("api.spotify.com"));
    assert!(!rules.is_blocked("youtube.com"));
    assert!(!rules.is_blocked("googlevideo.com"));
}

#[test]
fn platform_specific_rule_groups_block_platform_ads() {
    let rules = RuleSet::default();

    assert!(rules.is_blocked("ads.youtube.com"));
    assert!(rules.is_blocked("ads.spotify.com"));
    assert!(rules.is_blocked("ads.twitch.tv"));
}

#[test]
fn default_rule_set_contents() {
    let rules = RuleSet::new();
    assert_eq!(rules.rules.len(), 28);
    assert!(rules.rules.iter().all(|r| r.enabled));
    assert_eq!(rules.rules[0].domain, "googleads.g.doubleclick.net");
    assert_eq!(rules.rules[0].source, "default-ad-networks");
    assert_eq!(rules.rules[27].domain, "googlevideo.com");
    assert_eq!(rules.rules[27].action, RuleAction::Allow);
    assert_eq!(rules.rules[27].priority, RulePriority::UserAllowlist);
    assert!(rules.is_blocked("deep.tracker.doubleclick.net"));
    assert!(rules.is_blocked("x.twitchads.tv"));
    assert!(!rules.is_blocked("twitchads.tv"));
    assert!(!rules.is_blocked("example.com"));
}

#[test]
fn added_rule_takes_effect() {
    let mut rules = RuleSet::new();
    assert!(!rules.is_blocked("tracker.example.com"));
    rules.add_rule(DomainRule {
        domain: "*.example.com".to_string(),
        action: RuleAction::Block,
        priority: RulePriority::UserBlocklist,
        source: "user".to_string(),
        enabled: true,
    });
    assert_eq!(rules.rules.len(), 29);
    assert!(rules.is_blocked("tracker.example.com"));
    assert!(rules.is_blocked(" Tracker.Example.com "));
    rules.add_rule(DomainRule {
        domain: "ads.youtube.com".to_string(),
        action: RuleAction::Allow,
        priority: RulePriority::UserAllowlist,
        source: "user".to_string(),
        enabled: false,
    });
    assert!(rules.is_blocked("ads.youtube.com"));
}
