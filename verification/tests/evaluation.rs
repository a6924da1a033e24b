use adblock::evaluation::{
    action_rank, evaluate_domain_rule, priority_rank, DomainRule, Profile, RuleAction,
    RulePriority,
};

fn rule(domain: &str, action: RuleAction, priority: RulePriority, source: &str) -> DomainRule {
    DomainRule {
        domain: domain.to_string(),
        action,
        priority,
        source: source.to_string(),
        enabled: true,
    }
}

#[test]
fn exact_match_blocks_ads() {
    let rules = vec![DomainRule {
        domain: "ads.example.com".to_string(),
        action: RuleAction::Block,
        priority: RulePriority::DownloadedLists,
        source: "test".to_string(),
        enabled: true,
    }];

    let result = evaluate_domain_rule("ads.example.com", &rules);
    assert_eq!(result.action, RuleAction::Block);
    assert_eq!(result.priority, RulePriority::DownloadedLists);
}

#[test]
fn wildcard_match_blocks_subdomains() {
    let rules = vec![DomainRule {
        domain: "*.example.com".to_string(),
        action: RuleAction::Block,
        priority: RulePriority::DownloadedLists,
        source: "test".to_string(),
        enabled: true,
    }];

    let result = evaluate_domain_rule("tracker.example.com", &rules);
    assert_eq!(result.action, RuleAction::Block);
}

#[test]
fn higher_priority_allowlist_beats_lower_priority_block() {
    let rules = vec![
        DomainRule {
            domain: "ads.example.com".to_string(),
            action: RuleAction::Block,
            priority: RulePriority::DownloadedLists,
            source: "test".to_string(),
            enabled: true,
        },
        DomainRule {
            domain: "ads.example.com".to_string(),
            action: RuleAction::Allow,
            priority: RulePriority::UserAllowlist,
            source: "user".to_string(),
            enabled: true,
        },
    ];

    let result = evaluate_domain_rule("ads.example.com", &rules);
    assert_eq!(result.action, RuleAction::Allow);
    assert_eq!(result.priority, RulePriority::UserAllowlist);
}

#[test]
fn exact_match_takes_precedence_over_wildcard_match() {
    let rules = vec![
        DomainRule {
            domain: "*.example.com".to_string(),
            action: RuleAction::Block,
            priority: RulePriority::DownloadedLists,
            source: "wildcard".to_string(),
            enabled: true,
        },
        DomainRule {
            domain: "tracker.example.com".to_string(),
            action: RuleAction::Allow,
            priority: RulePriority::UserAllowlist,
            source: "exact".to_string(),
            enabled: true,
        },
    ];

    let result = evaluate_domain_rule("tracker.example.com", &rules);
    assert_eq!(result.action, RuleAction::Allow);
    assert_eq!(result.priority, RulePriority::UserAllowlist);
}

#[test]
fn same_priority_exact_match_beats_wildcard_match() {
    let rules = vec![
        DomainRule {
            domain: "*.example.com".to_string(),
            action: RuleAction::Block,
            priority: RulePriority::DownloadedLists,
            source: "wildcard".to_string(),
            enabled: true,
        },
        DomainRule {
            domain: "tracker.example.com".to_string(),
            action: RuleAction::Block,
            priority: RulePriority::DownloadedLists,
            source: "exact".to_string(),
            enabled: true,
        },
    ];

    let result = evaluate_domain_rule("tracker.example.com", &rules);
    assert_eq!(result.action, RuleAction::Block);
    assert_eq!(result.matched_rule, Some("tracker.example.com".to_string()));
}

#[test]
fn nested_subdomain_wildcards_match_practical_ad_hosts() {
    let rules = vec![
        DomainRule {
            domain: "*.googleads.g.doubleclick.net".to_string(),
            action: RuleAction::Block,
            priority: RulePriority::DownloadedLists,
            source: "nested-wildcard".to_string(),
            enabled: true,
        },
        DomainRule {
            domain: "*.ads.spotify.com".to_string(),
            action: RuleAction::Block,
            priority: RulePriority::DownloadedLists,
            source: "nested-wildcard".to_string(),
            enabled: true,
        },
    ];

    let first = evaluate_domain_rule("a.b.googleads.g.doubleclick.net", &rules);
    let second = evaluate_domain_rule("promo.ads.spotify.com", &rules);

    assert_eq!(first.action, RuleAction::Block);
    assert_eq!(second.action, RuleAction::Block);
}

#[test]
fn no_matching_rule_allows_by_default() {
    let rules = vec![rule("ads.example.com", RuleAction::Block, RulePriority::DownloadedLists, "t")];
    let result = evaluate_domain_rule("example.org", &rules);
    assert_eq!(result.action, RuleAction::Allow);
    assert_eq!(result.priority, RulePriority::DefaultAllow);
    assert_eq!(result.matched_rule, None);

    let empty: Vec<DomainRule> = Vec::new();
    let result = evaluate_domain_rule("ads.example.com", &empty);
    assert_eq!(result.action, RuleAction::Allow);
    assert_eq!(result.priority, RulePriority::DefaultAllow);
    assert_eq!(result.matched_rule, None);
}

#[test]
fn disabled_rules_are_ignored() {
    let mut off = rule("ads.example.com", RuleAction::Block, RulePriority::SystemSafety, "t");
    off.enabled = false;
    let rules = vec![off.clone()];
    let result = evaluate_domain_rule("ads.example.com", &rules);
    assert_eq!(result.action, RuleAction::Allow);
    assert_eq!(result.matched_rule, None);

    let rules = vec![
        rule("ads.example.com", RuleAction::Block, RulePriority::DownloadedLists, "t"),
        off,
    ];
    let result = evaluate_domain_rule("ads.example.com", &rules);
    assert_eq!(result.action, RuleAction::Block);
    assert_eq!(result.priority, RulePriority::DownloadedLists);
}

#[test]
fn query_is_trimmed_and_case_folded() {
    let rules = vec![rule("ads.example.com", RuleAction::Block, RulePriority::DownloadedLists, "t")];
    let result = evaluate_domain_rule("  ADS.Example.COM\t\n", &rules);
    assert_eq!(result.action, RuleAction::Block);
    assert_eq!(result.matched_rule, Some("ads.example.com".to_string()));
    // Unicode whitespace counts as well.
    let result = evaluate_domain_rule("\u{3000}ads.example.com\u{a0}", &rules);
    assert_eq!(result.action, RuleAction::Block);
}

#[test]
fn exact_rule_text_matches_ignoring_case() {
    let rules = vec![rule("ADS.Example.com", RuleAction::Block, RulePriority::DownloadedLists, "t")];
    let result = evaluate_domain_rule("ads.example.com", &rules);
    assert_eq!(result.action, RuleAction::Block);
    assert_eq!(result.matched_rule, Some("ADS.Example.com".to_string()));
}

#[test]
fn wildcard_rule_text_is_case_sensitive() {
    // The query is folded to lower case; the wildcard suffix is compared as written.
    let rules = vec![rule("*.Example.com", RuleAction::Block, RulePriority::DownloadedLists, "t")];
    let result = evaluate_domain_rule("tracker.example.com", &rules);
    assert_eq!(result.action, RuleAction::Allow);
    assert_eq!(result.priority, RulePriority::DefaultAllow);
}

#[test]
fn wildcard_does_not_match_its_bare_domain() {
    let rules = vec![rule("*.example.com", RuleAction::Block, RulePriority::DownloadedLists, "t")];
    assert_eq!(evaluate_domain_rule("example.com", &rules).action, RuleAction::Allow);
    assert_eq!(evaluate_domain_rule("badexample.com", &rules).action, RuleAction::Allow);
    // A query that is exactly the suffix with its dot matches.
    assert_eq!(evaluate_domain_rule(".example.com", &rules).action, RuleAction::Block);
    // A pattern given as a query matches itself exactly.
    let result = evaluate_domain_rule("*.example.com", &rules);
    assert_eq!(result.action, RuleAction::Block);
}

#[test]
fn allow_beats_ignore_beats_block_at_equal_priority() {
    let rules = vec![
        rule("a.example.com", RuleAction::Block, RulePriority::TrustedLocal, "b"),
        rule("a.example.com", RuleAction::Ignore, RulePriority::TrustedLocal, "i"),
    ];
    assert_eq!(evaluate_domain_rule("a.example.com", &rules).action, RuleAction::Ignore);
    let rules = vec![
        rule("a.example.com", RuleAction::Ignore, RulePriority::TrustedLocal, "i"),
        rule("a.example.com", RuleAction::Allow, RulePriority::TrustedLocal, "a"),
        rule("a.example.com", RuleAction::Block, RulePriority::TrustedLocal, "b"),
    ];
    assert_eq!(evaluate_domain_rule("a.example.com", &rules).action, RuleAction::Allow);
}

#[test]
fn shorter_wildcard_wins_a_tie_and_first_listed_wins_full_ties() {
    let rules = vec![
        rule("*.b.example.com", RuleAction::Block, RulePriority::DownloadedLists, "long"),
        rule("*.example.com", RuleAction::Block, RulePriority::DownloadedLists, "short"),
    ];
    let result = evaluate_domain_rule("a.b.example.com", &rules);
    assert_eq!(result.matched_rule, Some("*.example.com".to_string()));

    let rules = vec![
        rule("*.x.example.com", RuleAction::Block, RulePriority::DownloadedLists, "first"),
        rule("*.y.example.com", RuleAction::Block, RulePriority::DownloadedLists, "second"),
        rule("*.example.com", RuleAction::Block, RulePriority::NetworkRules, "weaker"),
    ];
    let result = evaluate_domain_rule("q.x.example.com", &rules);
    assert_eq!(result.matched_rule, Some("*.x.example.com".to_string()));
}

#[test]
fn stronger_priority_wins_over_specificity_and_action() {
    let rules = vec![
        rule("tracker.example.com", RuleAction::Allow, RulePriority::NetworkRules, "exact"),
        rule("*.example.com", RuleAction::Block, RulePriority::SystemSafety, "safety"),
    ];
    let result = evaluate_domain_rule("tracker.example.com", &rules);
    assert_eq!(result.action, RuleAction::Block);
    assert_eq!(result.priority, RulePriority::SystemSafety);
    assert_eq!(result.matched_rule, Some("*.example.com".to_string()));
}

#[test]
fn ranks_follow_precedence_order() {
    assert_eq!(priority_rank(&RulePriority::SystemSafety), 0);
    assert_eq!(priority_rank(&RulePriority::UserAllowlist), 1);
    assert_eq!(priority_rank(&RulePriority::UserBlocklist), 2);
    assert_eq!(priority_rank(&RulePriority::TrustedLocal), 3);
    assert_eq!(priority_rank(&RulePriority::DownloadedLists), 4);
    assert_eq!(priority_rank(&RulePriority::NetworkRules), 5);
    assert_eq!(priority_rank(&RulePriority::DefaultAllow), 6);
    assert_eq!(action_rank(&RuleAction::Allow), 0);
    assert_eq!(action_rank(&RuleAction::Ignore), 1);
    assert_eq!(action_rank(&RuleAction::Block), 2);
}

#[test]
fn appending_a_winning_rule_changes_the_verdict() {
    let mut rules = vec![rule("*.example.com", RuleAction::Block, RulePriority::DownloadedLists, "d")];
    assert_eq!(evaluate_domain_rule("x.example.com", &rules).action, RuleAction::Block);
    rules.push(rule("x.example.com", RuleAction::Allow, RulePriority::NetworkRules, "weak"));
    assert_eq!(evaluate_domain_rule("x.example.com", &rules).action, RuleAction::Block);
    rules.push(rule("x.example.com", RuleAction::Allow, RulePriority::UserAllowlist, "user"));
    let result = evaluate_domain_rule("x.example.com", &rules);
    assert_eq!(result.action, RuleAction::Allow);
    assert_eq!(result.priority, RulePriority::UserAllowlist);
}

#[test]
fn profile_names_round_trip() {
    for p in [Profile::Balanced, Profile::Strict, Profile::Aggressive, Profile::Custom] {
        assert_eq!(Profile::parse(p.as_str()), Ok(p));
    }
    assert_eq!(Profile::Balanced.as_str(), "Balanced");
    assert_eq!(Profile::Custom.as_str(), "Custom");
    assert_eq!(Profile::parse("  strict \n"), Ok(Profile::Strict));
    assert_eq!(Profile::parse("aggressive"), Ok(Profile::Aggressive));
    assert_eq!(Profile::default(), Profile::Balanced);
    let parsed: Result<Profile, String> = "custom".parse();
    assert_eq!(parsed, Ok(Profile::Custom));
}

#[test]
fn unknown_profile_is_an_error() {
    assert_eq!(Profile::parse("STRICT"), Err("unknown profile: STRICT".to_string()));
    assert_eq!(Profile::parse(" paranoid "), Err("unknown profile:  paranoid ".to_string()));
    assert_eq!(Profile::parse(""), Err("unknown profile: ".to_string()));
}

#[test]
fn disabled_rules_anywhere_change_nothing() {
    let mut off_first = rule("x.example.com", RuleAction::Allow, RulePriority::SystemSafety, "off");
    off_first.enabled = false;
    let mut off_last = rule("*.example.com", RuleAction::Allow, RulePriority::UserAllowlist, "off");
    off_last.enabled = false;
    let on = rule("*.example.com", RuleAction::Block, RulePriority::DownloadedLists, "on");
    let all = vec![off_first.clone(), on.clone(), off_last.clone()];
    let enabled: Vec<DomainRule> = all.iter().filter(|r| r.enabled).cloned().collect();
    assert_eq!(
        evaluate_domain_rule("x.example.com", &all),
        evaluate_domain_rule("x.example.com", &enabled)
    );
    let only_disabled = vec![off_first, off_last];
    let result = evaluate_domain_rule("x.example.com", &only_disabled);
    assert_eq!(result.action, RuleAction::Allow);
    assert_eq!(result.priority, RulePriority::DefaultAllow);
    assert_eq!(result.matched_rule, None);
}

#[test]
fn reordering_keeps_action_priority_and_rule_up_to_case() {
    let a = rule("X.example.com", RuleAction::Block, RulePriority::TrustedLocal, "a");
    let b = rule("x.EXAMPLE.com", RuleAction::Block, RulePriority::TrustedLocal, "b");
    let c = rule("*.example.com", RuleAction::Allow, RulePriority::NetworkRules, "c");
    let one = vec![a.clone(), b.clone(), c.clone()];
    let two = vec![c, b, a];
    let r1 = evaluate_domain_rule("x.example.com", &one);
    let r2 = evaluate_domain_rule("x.example.com", &two);
    assert_eq!(r1.action, r2.action);
    assert_eq!(r1.priority, r2.priority);
    assert_eq!(
        r1.matched_rule.map(|s| s.to_ascii_lowercase()),
        r2.matched_rule.map(|s| s.to_ascii_lowercase())
    );
    assert_eq!(evaluate_domain_rule("x.example.com", &one).matched_rule, Some("X.example.com".to_string()));
    assert_eq!(evaluate_domain_rule("x.example.com", &two).matched_rule, Some("x.EXAMPLE.com".to_string()));
}
