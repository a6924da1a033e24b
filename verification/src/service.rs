//! The service runtime: its state, its lifecycle (start, stop, enable,
//! disable), how it builds the rules in force from its configuration, and how
//! it answers DNS queries.

use vstd::prelude::*;
use crate::config::{is_default_config, string_views, ServiceConfig};
use crate::diagnostics::DiagnosticsReport;
use crate::dns::{cache_contains, is_default_filter, DnsFilter};
use crate::evaluation::{
    beats, evaluate_domain_rule, exact_match, is_candidate, wildcard_match, law_deciding_rule_takes_precedence,
    normalize, profile_name, spec_priority_rank, verdict, winner, DomainRule, Profile, RuleAction,
    RuleEvaluation, RulePriority,
};
use crate::network::NetworkHealth;
use crate::rules::{default_rule_table, rule_fields, RuleSet};
use crate::text::{lemma_lower_idempotent, trim, trim_str};
use crate::wfp::WfpController;

verus! {

/// What the service reports about itself.
#[derive(Debug, Clone)]
pub struct ServiceStatus {
    pub enabled: bool,
    pub running: bool,
    pub profile: String,
    pub rules_loaded: usize,
}

impl Default for ServiceStatus {
    fn default() -> (s: Self)
        ensures
            !s.enabled,
            !s.running,
            s.profile@.len() == 0,
            s.rules_loaded == 0,
    {
        ServiceStatus { enabled: false, running: false, profile: String::new(), rules_loaded: 0 }
    }
}

/// The whole state of the ad-blocking service.
#[derive(Debug, Clone)]
pub struct AdBlockService {
    pub config: ServiceConfig,
    pub dns: DnsFilter,
    pub network: NetworkHealth,
    pub wfp: WfpController,
    pub diagnostics: DiagnosticsReport,
    pub status: ServiceStatus,
}

/// The state of a freshly created service.
pub open spec fn is_default_service(s: AdBlockService) -> bool {
    &&& is_default_config(s.config)
    &&& is_default_filter(s.dns)
    &&& s.network.dns_ok && s.network.internet_ok && s.network.adapters == 1
    &&& !s.wfp.enabled && s.wfp.filters_loaded == 0
    &&& s.diagnostics.service_status && s.diagnostics.dns_status && s.diagnostics.network_status
    &&& s.diagnostics.wfp_status && s.diagnostics.ipc_status
    &&& s.status.enabled && s.status.running
    &&& s.status.profile@ == "Balanced"@
    &&& s.status.rules_loaded == s.dns.rules.rules@.len()
}

/// The rules in force after a reload from the configuration: the built-in
/// rules, then an allow rule for each allowlist entry, then a block rule for
/// each blocklist entry, each entry trimmed, all enabled.
pub open spec fn is_runtime_rule_list(
    rules: Seq<DomainRule>,
    allowlist: Seq<String>,
    blocklist: Seq<String>,
) -> bool {
    let d = default_rule_table().len();
    let a = allowlist.len();
    &&& rules.len() == d + a + blocklist.len()
    &&& forall|i: int| 0 <= i < rules.len() ==> (#[trigger] rules[i]).enabled
    &&& forall|i: int| 0 <= i < d ==> rule_fields(#[trigger] rules[i]) == default_rule_table()[i]
    &&& forall|k: int|
        0 <= k < a ==> rule_fields(#[trigger] rules[d + k]) == (
            trim(allowlist[k]@),
            RuleAction::Allow,
            RulePriority::UserAllowlist,
            "config-allowlist"@,
        )
    &&& forall|k: int|
        0 <= k < blocklist.len() ==> rule_fields(#[trigger] rules[d + a + k]) == (
            trim(blocklist[k]@),
            RuleAction::Block,
            RulePriority::UserBlocklist,
            "config-blocklist"@,
        )
}

/// A rule built from a configuration list entry: the entry trimmed.
fn config_rule(entry: &String, action: RuleAction, priority: RulePriority, source: &str) -> (r:
    DomainRule)
    ensures
        rule_fields(r) == (trim(entry@), action, priority, source@),
        r.enabled,
{
    DomainRule {
        domain: String::from_str(trim_str(entry.as_str())),
        action,
        priority,
        source: String::from_str(source),
        enabled: true,
    }
}

/// The service after `start`: filtering on in the configuration and the
/// status, running, the number of rules in force recorded, packet filtering
/// initialized; nothing else changed.
pub open spec fn started(s: AdBlockService) -> AdBlockService {
    AdBlockService {
        config: ServiceConfig { enabled: true, ..s.config },
        status: ServiceStatus {
            enabled: true,
            running: true,
            rules_loaded: s.dns.rules.rules@.len() as usize,
            ..s.status
        },
        wfp: WfpController { enabled: true, filters_loaded: 1 },
        ..s
    }
}

/// The service after `stop`: filtering off in the configuration and the
/// status, not running, packet filtering shut down; nothing else changed.
pub open spec fn stopped(s: AdBlockService) -> AdBlockService {
    AdBlockService {
        config: ServiceConfig { enabled: false, ..s.config },
        status: ServiceStatus { enabled: false, running: false, ..s.status },
        wfp: WfpController { enabled: false, filters_loaded: 0 },
        ..s
    }
}

/// `new` is `old` with its rules in force rebuilt from the configuration and
/// their number recorded; nothing else changed.
pub open spec fn reloaded(old: AdBlockService, new: AdBlockService) -> bool {
    &&& is_runtime_rule_list(new.dns.rules.rules@, old.config.allowlist@, old.config.blocklist@)
    &&& new.status.rules_loaded == new.dns.rules.rules@.len()
    &&& new.status == (ServiceStatus { rules_loaded: new.status.rules_loaded, ..old.status })
    &&& new.config == old.config
    &&& new.dns.upstream == old.dns.upstream
    &&& new.dns.cache == old.dns.cache
    &&& new.network == old.network
    &&& new.wfp == old.wfp
    &&& new.diagnostics == old.diagnostics
}

impl Default for AdBlockService {
    fn default() -> (s: Self)
        ensures
            is_default_service(s),
    {
        let dns = DnsFilter::default();
        let rules_loaded = dns.rules.rules.len();
        AdBlockService {
            config: ServiceConfig::default(),
            dns,
            network: NetworkHealth { dns_ok: true, internet_ok: true, adapters: 1 },
            wfp: WfpController::new(),
            diagnostics: DiagnosticsReport {
                service_status: true,
                dns_status: true,
                network_status: true,
                wfp_status: true,
                ipc_status: true,
            },
            status: ServiceStatus {
                enabled: true,
                running: true,
                profile: String::from_str("Balanced"),
                rules_loaded,
            },
        }
    }
}

impl AdBlockService {
    pub fn new() -> (s: Self)
        ensures
            is_default_service(s),
    {
        Self::default()
    }

    /// Filtering is on in both the configuration and the runtime status.
    pub fn is_enabled(&self) -> (b: bool)
        ensures
            b == (self.config.enabled && self.status.enabled),
    {
        self.config.enabled && self.status.enabled
    }

    pub fn set_profile(&mut self, profile: Profile)
        ensures
            final(self).config.profile == profile,
            final(self).status.profile@ == profile_name(profile),
            final(self).config.service_name == old(self).config.service_name,
            final(self).config.enabled == old(self).config.enabled,
            final(self).config.upstream_dns == old(self).config.upstream_dns,
            final(self).config.allowlist == old(self).config.allowlist,
            final(self).config.blocklist == old(self).config.blocklist,
            final(self).config.log_path == old(self).config.log_path,
            final(self).config.auto_update == old(self).config.auto_update,
            final(self).status.enabled == old(self).status.enabled,
            final(self).status.running == old(self).status.running,
            final(self).status.rules_loaded == old(self).status.rules_loaded,
            final(self).dns == old(self).dns,
            final(self).network == old(self).network,
            final(self).wfp == old(self).wfp,
            final(self).diagnostics == old(self).diagnostics,
    {
        self.config.profile = profile;
        self.status.profile = String::from_str(profile.as_str());
    }

    /// Records how many rules are in force.
    pub fn refresh_status(&mut self)
        ensures
            final(self).status.rules_loaded == old(self).dns.rules.rules@.len(),
            final(self).status.enabled == old(self).status.enabled,
            final(self).status.running == old(self).status.running,
            final(self).status.profile == old(self).status.profile,
            final(self).config == old(self).config,
            final(self).dns == old(self).dns,
            final(self).network == old(self).network,
            final(self).wfp == old(self).wfp,
            final(self).diagnostics == old(self).diagnostics,
    {
        self.status.rules_loaded = self.dns.rules.rules.len();
    }

    /// Turns filtering on and marks the service running.
    pub fn start(&mut self)
        ensures
            *final(self) == started(*old(self)),
    {
        self.config.enabled = true;
        self.status.enabled = true;
        self.status.running = true;
        self.refresh_status();
        self.wfp.initialize();
    }

    /// The same as `start`.
    pub fn enable(&mut self)
        ensures
            *final(self) == started(*old(self)),
    {
        self.start();
    }

    /// Turns filtering off and marks the service stopped.
    pub fn disable(&mut self)
        ensures
            *final(self) == stopped(*old(self)),
    {
        self.config.enabled = false;
        self.status.enabled = false;
        self.status.running = false;
        self.wfp.shutdown();
    }

    /// The same as `disable`.
    pub fn stop(&mut self)
        ensures
            *final(self) == stopped(*old(self)),
    {
        self.disable();
    }

    /// Rebuilds the rules in force from the built-in rules and the
    /// configuration's allowlist and blocklist, and records their number.
    pub fn update_runtime_rules(&mut self)
        ensures
            reloaded(*old(self), *final(self)),
    {
        let defaults = RuleSet::default();
        let mut merged = defaults.rules;
        let ghost d = default_rule_table().len();
        let na = self.config.allowlist.len();
        for i in 0..na
            invariant
                na == self.config.allowlist@.len(),
                merged@.len() == d + i,
                forall|j: int| 0 <= j < merged@.len() ==> (#[trigger] merged@[j]).enabled,
                forall|j: int|
                    0 <= j < d ==> rule_fields(#[trigger] merged@[j]) == default_rule_table()[j],
                forall|k: int|
                    0 <= k < i ==> rule_fields(#[trigger] merged@[d + k]) == (
                        trim(self.config.allowlist@[k]@),
                        RuleAction::Allow,
                        RulePriority::UserAllowlist,
                        "config-allowlist"@,
                    ),
        {
            let rule = config_rule(
                &self.config.allowlist[i],
                RuleAction::Allow,
                RulePriority::UserAllowlist,
                "config-allowlist",
            );
            merged.push(rule);
        }
        let nb = self.config.blocklist.len();
        for i in 0..nb
            invariant
                nb == self.config.blocklist@.len(),
                na == self.config.allowlist@.len(),
                merged@.len() == d + na + i,
                forall|j: int| 0 <= j < merged@.len() ==> (#[trigger] merged@[j]).enabled,
                forall|j: int|
                    0 <= j < d ==> rule_fields(#[trigger] merged@[j]) == default_rule_table()[j],
                forall|k: int|
                    0 <= k < na ==> rule_fields(#[trigger] merged@[d + k]) == (
                        trim(self.config.allowlist@[k]@),
                        RuleAction::Allow,
                        RulePriority::UserAllowlist,
                        "config-allowlist"@,
                    ),
                forall|k: int|
                    0 <= k < i ==> rule_fields(#[trigger] merged@[d + na + k]) == (
                        trim(self.config.blocklist@[k]@),
                        RuleAction::Block,
                        RulePriority::UserBlocklist,
                        "config-blocklist"@,
                    ),
        {
            let rule = config_rule(
                &self.config.blocklist[i],
                RuleAction::Block,
                RulePriority::UserBlocklist,
                "config-blocklist",
            );
            merged.push(rule);
        }
        self.dns.rules = RuleSet { rules: merged };
        self.refresh_status();
    }

    /// Evaluates the domain against the rules in force.
    pub fn evaluate_domain(&self, domain: &str) -> (r: RuleEvaluation)
        ensures
            r@ == verdict(self.dns.rules.rules@, normalize(domain@)),
    {
        evaluate_domain_rule(domain, self.dns.rules.rules.as_slice())
    }

    /// Answers a DNS query: whether the domain is blocked. A disabled service
    /// blocks nothing (fail open). Either way the domain is cached; an
    /// enabled service also records how many rules are in force.
    pub fn resolve_domain(&mut self, domain: &str) -> (blocked: bool)
        ensures
            blocked == (old(self).config.enabled && old(self).status.enabled && verdict(
                old(self).dns.rules.rules@,
                normalize(domain@),
            ).action == RuleAction::Block),
            trim(domain@).len() > 0 ==> cache_contains(final(self).dns.cache@, trim(domain@)),
            final(self).dns.rules == old(self).dns.rules,
            final(self).dns.upstream == old(self).dns.upstream,
            if trim(domain@).len() > 0 && !cache_contains(old(self).dns.cache@, trim(domain@)) {
                &&& final(self).dns.cache@ == old(self).dns.cache@.push(
                    final(self).dns.cache@.last(),
                )
                &&& final(self).dns.cache@.last()@ == trim(domain@)
            } else {
                final(self).dns.cache@ == old(self).dns.cache@
            },
            final(self).status.rules_loaded == if old(self).config.enabled
                && old(self).status.enabled {
                old(self).dns.rules.rules@.len() as usize
            } else {
                old(self).status.rules_loaded
            },
            final(self).status.enabled == old(self).status.enabled,
            final(self).status.running == old(self).status.running,
            final(self).status.profile == old(self).status.profile,
            final(self).config == old(self).config,
            final(self).network == old(self).network,
            final(self).wfp == old(self).wfp,
            final(self).diagnostics == old(self).diagnostics,
    {
        if !self.is_enabled() {
            self.dns.cache_insert(domain);
            return false;
        }
        let blocked = self.is_domain_blocked(domain);
        self.dns.cache_insert(domain);
        self.refresh_status();
        blocked
    }

    /// Whether the rules in force block the domain.
    pub fn is_domain_blocked(&self, domain: &str) -> (b: bool)
        ensures
            b == (verdict(self.dns.rules.rules@, normalize(domain@)).action == RuleAction::Block),
    {
        let result = self.evaluate_domain(domain);
        match result.action {
            RuleAction::Block => true,
            _ => false,
        }
    }

    /// A copy of the runtime status.
    pub fn status_snapshot(&self) -> (s: ServiceStatus)
        ensures
            s == self.status,
    {
        ServiceStatus {
            enabled: self.status.enabled,
            running: self.status.running,
            profile: self.status.profile.clone(),
            rules_loaded: self.status.rules_loaded,
        }
    }
}

/// Law: a started service is enabled and running and a stopped one is
/// neither; starting or stopping twice is the same as once; and a restart
/// (stop, then start) is the same as a start.
pub proof fn law_lifecycle(s: AdBlockService)
    ensures
        started(s).config.enabled && started(s).status.enabled && started(s).status.running,
        !stopped(s).config.enabled && !stopped(s).status.enabled && !stopped(s).status.running,
        started(started(s)) == started(s),
        stopped(stopped(s)) == stopped(s),
        started(stopped(s)) == started(s),
{
}

/// Every built-in rule is either a downloaded-list block rule or a
/// user-allowlist allow rule.
pub proof fn lemma_default_table_kinds()
    ensures
        forall|j: int|
            0 <= j < default_rule_table().len() ==> {
                ||| (#[trigger] default_rule_table()[j]).1 == RuleAction::Block
                    && default_rule_table()[j].2 == RulePriority::DownloadedLists
                ||| default_rule_table()[j].1 == RuleAction::Allow
                    && default_rule_table()[j].2 == RulePriority::UserAllowlist
            },
{
}

/// In a reloaded rule list, the rules of priority stronger than
/// `UserBlocklist` all allow, and the `UserBlocklist` rules all block.
proof fn lemma_runtime_rule_kinds(
    rules: Seq<DomainRule>,
    allowlist: Seq<String>,
    blocklist: Seq<String>,
    i: int,
)
    requires
        is_runtime_rule_list(rules, allowlist, blocklist),
        0 <= i < rules.len(),
    ensures
        spec_priority_rank(rules[i].priority) < 2 ==> rules[i].action == RuleAction::Allow,
        spec_priority_rank(rules[i].priority) == 2 ==> rules[i].action == RuleAction::Block,
{
    lemma_default_table_kinds();
    let d = default_rule_table().len();
    let a = allowlist.len();
    if i < d {
        assert(rule_fields(rules[i]) == default_rule_table()[i]);
    } else if i < d + a {
        assert(rule_fields(rules[d + (i - d)]) == (
            trim(allowlist[i - d]@),
            RuleAction::Allow,
            RulePriority::UserAllowlist,
            "config-allowlist"@,
        ));
    } else {
        assert(rule_fields(rules[d + a + (i - d - a)]) == (
            trim(blocklist[i - d - a]@),
            RuleAction::Block,
            RulePriority::UserBlocklist,
            "config-blocklist"@,
        ));
    }
}

/// Law: after the rules are reloaded from the configuration, no allowlisted
/// entry is blocked: it is allowed.
pub proof fn law_allowlisted_entries_allowed(
    rules: Seq<DomainRule>,
    allowlist: Seq<String>,
    blocklist: Seq<String>,
    k: int,
)
    requires
        is_runtime_rule_list(rules, allowlist, blocklist),
        0 <= k < allowlist.len(),
    ensures
        verdict(rules, normalize(allowlist[k]@)).action == RuleAction::Allow,
{
    let d = default_rule_table().len();
    let name = normalize(allowlist[k]@);
    let c = d + k;
    assert(rule_fields(rules[d + k]) == (
        trim(allowlist[k]@),
        RuleAction::Allow,
        RulePriority::UserAllowlist,
        "config-allowlist"@,
    ));
    lemma_lower_idempotent(trim(allowlist[k]@));
    assert(exact_match(rules[c].domain@, name));
    assert(is_candidate(rules[c], name));
    law_deciding_rule_takes_precedence(rules, name, c);
    let i = winner(rules, name)->0;
    lemma_runtime_rule_kinds(rules, allowlist, blocklist, i);
}

/// Law: after the rules are reloaded from the configuration, a blocklisted
/// entry is blocked unless a rule of stronger priority than the blocklist's
/// (an allowlist or system-safety rule) matches it.
pub proof fn law_blocklisted_entries_blocked(
    rules: Seq<DomainRule>,
    allowlist: Seq<String>,
    blocklist: Seq<String>,
    k: int,
)
    requires
        is_runtime_rule_list(rules, allowlist, blocklist),
        0 <= k < blocklist.len(),
        forall|j: int|
            0 <= j < rules.len() && is_candidate(#[trigger] rules[j], normalize(blocklist[k]@))
                ==> spec_priority_rank(rules[j].priority) >= 2,
    ensures
        verdict(rules, normalize(blocklist[k]@)).action == RuleAction::Block,
{
    let d = default_rule_table().len();
    let a = allowlist.len();
    let name = normalize(blocklist[k]@);
    let c = d + a + k;
    assert(rule_fields(rules[d + a + k]) == (
        trim(blocklist[k]@),
        RuleAction::Block,
        RulePriority::UserBlocklist,
        "config-blocklist"@,
    ));
    lemma_lower_idempotent(trim(blocklist[k]@));
    assert(exact_match(rules[c].domain@, name));
    assert(is_candidate(rules[c], name));
    law_deciding_rule_takes_precedence(rules, name, c);
    let i = winner(rules, name)->0;
    lemma_runtime_rule_kinds(rules, allowlist, blocklist, i);
}

/// Law: after the rules are reloaded from the configuration, any domain that
/// a blocklist entry matches (exactly, or by wildcard for an entry `*.suffix`)
/// is blocked unless a rule of stronger priority than the blocklist's (an
/// allowlist, built-in allow or system-safety rule) matches it too.
pub proof fn law_blocklist_matches_blocked(
    rules: Seq<DomainRule>,
    allowlist: Seq<String>,
    blocklist: Seq<String>,
    k: int,
    domain: Seq<char>,
)
    requires
        is_runtime_rule_list(rules, allowlist, blocklist),
        0 <= k < blocklist.len(),
        exact_match(trim(blocklist[k]@), normalize(domain)) || wildcard_match(
            trim(blocklist[k]@),
            normalize(domain),
        ),
        forall|j: int|
            0 <= j < rules.len() && is_candidate(#[trigger] rules[j], normalize(domain))
                ==> spec_priority_rank(rules[j].priority) >= 2,
    ensures
        verdict(rules, normalize(domain)).action == RuleAction::Block,
{
    let d = default_rule_table().len();
    let a = allowlist.len();
    let name = normalize(domain);
    let c = d + a + k;
    assert(rule_fields(rules[d + a + k]) == (
        trim(blocklist[k]@),
        RuleAction::Block,
        RulePriority::UserBlocklist,
        "config-blocklist"@,
    ));
    assert(is_candidate(rules[c], name));
    law_deciding_rule_takes_precedence(rules, name, c);
    let i = winner(rules, name)->0;
    lemma_runtime_rule_kinds(rules, allowlist, blocklist, i);
}

/// The base directory of the saved state: the local application-data
/// directory when it is set, else the user profile directory, else the
/// current directory.
pub open spec fn state_base_dir(local_app_data: Option<String>, user_profile: Option<String>) -> Seq<
    char,
> {
    match local_app_data {
        Some(d) => d@,
        None => match user_profile {
            Some(u) => u@,
            None => "."@,
        },
    }
}

/// The components of the path of the saved state: the base directory, then
/// `AdBlocker`, then `service_state.json`.
pub fn state_path_parts(local_app_data: Option<String>, user_profile: Option<String>) -> (parts:
    Vec<String>)
    ensures
        string_views(parts@) == seq![
            state_base_dir(local_app_data, user_profile),
            "AdBlocker"@,
            "service_state.json"@,
        ],
{
    let base = match local_app_data {
        Some(d) => d,
        None => match user_profile {
            Some(u) => u,
            None => String::from_str("."),
        },
    };
    let mut parts: Vec<String> = Vec::new();
    parts.push(base);
    parts.push(String::from_str("AdBlocker"));
    parts.push(String::from_str("service_state.json"));
    assert(string_views(parts@) =~= seq![
        state_base_dir(local_app_data, user_profile),
        "AdBlocker"@,
        "service_state.json"@,
    ]);
    parts
}

impl AdBlockService {
    /// The service state to work on: the saved one when it was found and
    /// read, else a fresh service.
    pub fn from_saved(saved: Option<Result<AdBlockService, String>>) -> (s: AdBlockService)
        ensures
            match saved {
                Some(Ok(t)) => s == t,
                _ => is_default_service(s),
            },
    {
        match saved {
            Some(Ok(t)) => t,
            _ => AdBlockService::new(),
        }
    }
}

pub fn service_banner() -> (s: &'static str)
    ensures
        s@ == "AdBlockService is the Windows background service responsible for persistent rule evaluation and fail-open network safety."@,
{
    "AdBlockService is the Windows background service responsible for persistent rule evaluation and fail-open network safety."
}

} // verus!
