//! The built-in rule set: ad networks, trackers, analytics and platform ad
//! hosts to block, and trusted platform domains to keep allowed.

use vstd::prelude::*;
use crate::evaluation::{
    evaluate_domain_rule, exact_match, is_candidate, law_deciding_rule_takes_precedence, normalize,
    verdict, wildcard_match, winner, DomainRule, RuleAction, RulePriority,
};

use crate::text::{ascii_lower, is_space, lemma_lower_idempotent, trim_end, trim_start};

verus! {

/// A list of domain rules.
#[derive(Debug, Clone)]
pub struct RuleSet {
    pub rules: Vec<DomainRule>,
}

/// The text, action, priority and source of a rule.
pub open spec fn rule_fields(r: DomainRule) -> (Seq<char>, RuleAction, RulePriority, Seq<char>) {
    (r.domain@, r.action, r.priority, r.source@)
}

/// The built-in rules, in order; every one of them is enabled.
pub open spec fn default_rule_table() -> Seq<(Seq<char>, RuleAction, RulePriority, Seq<char>)> {
    seq![
        ("googleads.g.doubleclick.net"@, RuleAction::Block, RulePriority::DownloadedLists, "default-ad-networks"@),
        ("*.googleads.g.doubleclick.net"@, RuleAction::Block, RulePriority::DownloadedLists, "default-ad-networks"@),
        ("pubads.g.doubleclick.net"@, RuleAction::Block, RulePriority::DownloadedLists, "default-ad-networks"@),
        ("*.pubads.g.doubleclick.net"@, RuleAction::Block, RulePriority::DownloadedLists, "default-ad-networks"@),
        ("*.doubleclick.net"@, RuleAction::Block, RulePriority::DownloadedLists, "default-ad-networks"@),
        ("googlesyndication.com"@, RuleAction::Block, RulePriority::DownloadedLists, "default-ad-networks"@),
        ("*.googlesyndication.com"@, RuleAction::Block, RulePriority::DownloadedLists, "default-ad-networks"@),
        ("*.google-analytics.com"@, RuleAction::Block, RulePriority::DownloadedLists, "default-analytics"@),
        ("adservice.google.com"@, RuleAction::Block, RulePriority::DownloadedLists, "default-ad-networks"@),
        ("scorecardresearch.com"@, RuleAction::Block, RulePriority::DownloadedLists, "default-trackers"@),
        ("*.scorecardresearch.com"@, RuleAction::Block, RulePriority::DownloadedLists, "default-trackers"@),
        ("quantserve.com"@, RuleAction::Block, RulePriority::DownloadedLists, "default-trackers"@),
        ("outbrain.com"@, RuleAction::Block, RulePriority::DownloadedLists, "default-trackers"@),
        ("taboola.com"@, RuleAction::Block, RulePriority::DownloadedLists, "default-trackers"@),
        ("ads.youtube.com"@, RuleAction::Block, RulePriority::DownloadedLists, "default-platform-ads"@),
        ("ads.spotify.com"@, RuleAction::Block, RulePriority::DownloadedLists, "default-platform-ads"@),
        ("*.ads.spotify.com"@, RuleAction::Block, RulePriority::DownloadedLists, "default-platform-ads"@),
        ("ads.twitch.tv"@, RuleAction::Block, RulePriority::DownloadedLists, "default-platform-ads"@),
        ("*.ads.twitch.tv"@, RuleAction::Block, RulePriority::DownloadedLists, "default-platform-ads"@),
        ("*.twitchads.tv"@, RuleAction::Block, RulePriority::DownloadedLists, "default-platform-ads"@),
        ("google-analytics.com"@, RuleAction::Block, RulePriority::DownloadedLists, "default-analytics"@),
        ("analytics.google.com"@, RuleAction::Block, RulePriority::DownloadedLists, "default-analytics"@),
        ("app-measurement.com"@, RuleAction::Block, RulePriority::DownloadedLists, "default-analytics"@),
        ("*.app-measurement.com"@, RuleAction::Block, RulePriority::DownloadedLists, "default-analytics"@),
        ("spotify.com"@, RuleAction::Allow, RulePriority::UserAllowlist, "safe-platform-allowlist"@),
        ("api.spotify.com"@, RuleAction::Allow, RulePriority::UserAllowlist, "safe-platform-allowlist"@),
        ("youtube.com"@, RuleAction::Allow, RulePriority::UserAllowlist, "safe-platform-allowlist"@),
        ("googlevideo.com"@, RuleAction::Allow, RulePriority::UserAllowlist, "safe-platform-allowlist"@),
    ]
}

/// The rules are the built-in ones, in order, all enabled.
pub open spec fn is_default_rule_list(rules: Seq<DomainRule>) -> bool {
    &&& rules.len() == default_rule_table().len()
    &&& forall|i: int|
        0 <= i < rules.len() ==> rule_fields(#[trigger] rules[i]) == default_rule_table()[i]
            && rules[i].enabled
}

/// An enabled rule with the given text, action, priority and source.
pub fn make_rule(domain: &str, action: RuleAction, priority: RulePriority, source: &str) -> (r:
    DomainRule)
    ensures
        r.domain@ == domain@,
        r.action == action,
        r.priority == priority,
        r.source@ == source@,
        r.enabled,
{
    DomainRule {
        domain: String::from_str(domain),
        action,
        priority,
        source: String::from_str(source),
        enabled: true,
    }
}

impl Default for RuleSet {
    fn default() -> (s: Self)
        ensures
            is_default_rule_list(s.rules@),
    {
        let mut rules: Vec<DomainRule> = Vec::new();
        rules.push(make_rule("googleads.g.doubleclick.net", RuleAction::Block, RulePriority::DownloadedLists, "default-ad-networks"));
        rules.push(make_rule("*.googleads.g.doubleclick.net", RuleAction::Block, RulePriority::DownloadedLists, "default-ad-networks"));
        rules.push(make_rule("pubads.g.doubleclick.net", RuleAction::Block, RulePriority::DownloadedLists, "default-ad-networks"));
        rules.push(make_rule("*.pubads.g.doubleclick.net", RuleAction::Block, RulePriority::DownloadedLists, "default-ad-networks"));
        rules.push(make_rule("*.doubleclick.net", RuleAction::Block, RulePriority::DownloadedLists, "default-ad-networks"));
        rules.push(make_rule("googlesyndication.com", RuleAction::Block, RulePriority::DownloadedLists, "default-ad-networks"));
        rules.push(make_rule("*.googlesyndication.com", RuleAction::Block, RulePriority::DownloadedLists, "default-ad-networks"));
        rules.push(make_rule("*.google-analytics.com", RuleAction::Block, RulePriority::DownloadedLists, "default-analytics"));
        rules.push(make_rule("adservice.google.com", RuleAction::Block, RulePriority::DownloadedLists, "default-ad-networks"));
        rules.push(make_rule("scorecardresearch.com", RuleAction::Block, RulePriority::DownloadedLists, "default-trackers"));
        rules.push(make_rule("*.scorecardresearch.com", RuleAction::Block, RulePriority::DownloadedLists, "default-trackers"));
        rules.push(make_rule("quantserve.com", RuleAction::Block, RulePriority::DownloadedLists, "default-trackers"));
        rules.push(make_rule("outbrain.com", RuleAction::Block, RulePriority::DownloadedLists, "default-trackers"));
        rules.push(make_rule("taboola.com", RuleAction::Block, RulePriority::DownloadedLists, "default-trackers"));
        rules.push(make_rule("ads.youtube.com", RuleAction::Block, RulePriority::DownloadedLists, "default-platform-ads"));
        rules.push(make_rule("ads.spotify.com", RuleAction::Block, RulePriority::DownloadedLists, "default-platform-ads"));
        rules.push(make_rule("*.ads.spotify.com", RuleAction::Block, RulePriority::DownloadedLists, "default-platform-ads"));
        rules.push(make_rule("ads.twitch.tv", RuleAction::Block, RulePriority::DownloadedLists, "default-platform-ads"));
        rules.push(make_rule("*.ads.twitch.tv", RuleAction::Block, RulePriority::DownloadedLists, "default-platform-ads"));
        rules.push(make_rule("*.twitchads.tv", RuleAction::Block, RulePriority::DownloadedLists, "default-platform-ads"));
        rules.push(make_rule("google-analytics.com", RuleAction::Block, RulePriority::DownloadedLists, "default-analytics"));
        rules.push(make_rule("analytics.google.com", RuleAction::Block, RulePriority::DownloadedLists, "default-analytics"));
        rules.push(make_rule("app-measurement.com", RuleAction::Block, RulePriority::DownloadedLists, "default-analytics"));
        rules.push(make_rule("*.app-measurement.com", RuleAction::Block, RulePriority::DownloadedLists, "default-analytics"));
        rules.push(make_rule("spotify.com", RuleAction::Allow, RulePriority::UserAllowlist, "safe-platform-allowlist"));
        rules.push(make_rule("api.spotify.com", RuleAction::Allow, RulePriority::UserAllowlist, "safe-platform-allowlist"));
        rules.push(make_rule("youtube.com", RuleAction::Allow, RulePriority::UserAllowlist, "safe-platform-allowlist"));
        rules.push(make_rule("googlevideo.com", RuleAction::Allow, RulePriority::UserAllowlist, "safe-platform-allowlist"));
        assert(rules@.len() == default_rule_table().len());
        RuleSet { rules }
    }
}

impl RuleSet {
    pub fn new() -> (s: Self)
        ensures
            is_default_rule_list(s.rules@),
    {
        Self::default()
    }

    pub fn add_rule(&mut self, rule: DomainRule)
        ensures
            final(self).rules@ == old(self).rules@.push(rule),
    {
        self.rules.push(rule);
    }

    /// Whether the rules block the domain.
    pub fn is_blocked(&self, domain: &str) -> (b: bool)
        ensures
            b == (verdict(self.rules@, normalize(domain@)).action == RuleAction::Block),
    {
        let result = evaluate_domain_rule(domain, self.rules.as_slice());
        match result.action {
            RuleAction::Block => true,
            _ => false,
        }
    }
}

/// The source of the built-in rules that keep trusted platform domains
/// allowed; every other built-in rule comes from a blocking list.
pub open spec fn safe_allowlist_source() -> Seq<char> {
    "safe-platform-allowlist"@
}

/// The source is one of the built-in blocking lists.
pub open spec fn is_blocking_list_source(s: Seq<char>) -> bool {
    s == "default-ad-networks"@ || s == "default-trackers"@ || s == "default-analytics"@
        || s == "default-platform-ads"@
}

/// The text is one of the built-in allowed platform domains.
pub open spec fn is_allowed_platform_text(t: Seq<char>) -> bool {
    t == "spotify.com"@ || t == "api.spotify.com"@ || t == "youtube.com"@ || t == "googlevideo.com"@
}

/// The text has no whitespace at its ends and no allowed platform domain
/// equals it up to ASCII case.
pub open spec fn no_allow_text_matches(b: Seq<char>) -> bool {
    &&& b.len() > 0
    &&& !is_space(b[0])
    &&& !is_space(b.last())
    &&& ascii_lower("spotify.com"@) != ascii_lower(b)
    &&& ascii_lower("api.spotify.com"@) != ascii_lower(b)
    &&& ascii_lower("youtube.com"@) != ascii_lower(b)
    &&& ascii_lower("googlevideo.com"@) != ascii_lower(b)
}

proof fn lemma_table_sources()
    ensures
        forall|j: int|
            0 <= j < default_rule_table().len() ==> {
                let e = #[trigger] default_rule_table()[j];
                ||| e.3 == safe_allowlist_source() && e.1 == RuleAction::Allow && e.2
                    == RulePriority::UserAllowlist && is_allowed_platform_text(e.0)
                ||| e.3 != safe_allowlist_source() && is_blocking_list_source(e.3) && e.1
                    == RuleAction::Block && e.2 == RulePriority::DownloadedLists
            },
{
    reveal_strlit("safe-platform-allowlist");
    reveal_strlit("default-ad-networks");
    reveal_strlit("default-trackers");
    reveal_strlit("default-analytics");
    reveal_strlit("default-platform-ads");
    assert("safe-platform-allowlist"@[0] == 's');
    assert("default-ad-networks"@[0] == 'd');
    assert("default-trackers"@[0] == 'd');
    assert("default-analytics"@[0] == 'd');
    assert("default-platform-ads"@[0] == 'd');
}

proof fn lemma_text_0()
    ensures
        !is_space("googleads.g.doubleclick.net"@[0]) && !is_space("googleads.g.doubleclick.net"@.last()),
        "googleads.g.doubleclick.net"@.len() > 0,
        no_allow_text_matches("googleads.g.doubleclick.net"@),
{
    reveal_strlit("googleads.g.doubleclick.net");
    reveal_strlit("spotify.com");
    assert(ascii_lower("spotify.com"@).len() != ascii_lower("googleads.g.doubleclick.net"@).len());
    reveal_strlit("api.spotify.com");
    assert(ascii_lower("api.spotify.com"@).len() != ascii_lower("googleads.g.doubleclick.net"@).len());
    reveal_strlit("youtube.com");
    assert(ascii_lower("youtube.com"@).len() != ascii_lower("googleads.g.doubleclick.net"@).len());
    reveal_strlit("googlevideo.com");
    assert(ascii_lower("googlevideo.com"@).len() != ascii_lower("googleads.g.doubleclick.net"@).len());
}

proof fn lemma_text_1()
    ensures
        !is_space("*.googleads.g.doubleclick.net"@[0]) && !is_space("*.googleads.g.doubleclick.net"@.last()),
        "*.googleads.g.doubleclick.net"@.len() > 0,
        no_allow_text_matches("*.googleads.g.doubleclick.net"@),
{
    reveal_strlit("*.googleads.g.doubleclick.net");
    reveal_strlit("spotify.com");
    assert(ascii_lower("spotify.com"@).len() != ascii_lower("*.googleads.g.doubleclick.net"@).len());
    reveal_strlit("api.spotify.com");
    assert(ascii_lower("api.spotify.com"@).len() != ascii_lower("*.googleads.g.doubleclick.net"@).len());
    reveal_strlit("youtube.com");
    assert(ascii_lower("youtube.com"@).len() != ascii_lower("*.googleads.g.doubleclick.net"@).len());
    reveal_strlit("googlevideo.com");
    assert(ascii_lower("googlevideo.com"@).len() != ascii_lower("*.googleads.g.doubleclick.net"@).len());
}

proof fn lemma_text_2()
    ensures
        !is_space("pubads.g.doubleclick.net"@[0]) && !is_space("pubads.g.doubleclick.net"@.last()),
        "pubads.g.doubleclick.net"@.len() > 0,
        no_allow_text_matches("pubads.g.doubleclick.net"@),
{
    reveal_strlit("pubads.g.doubleclick.net");
    reveal_strlit("spotify.com");
    assert(ascii_lower("spotify.com"@).len() != ascii_lower("pubads.g.doubleclick.net"@).len());
    reveal_strlit("api.spotify.com");
    assert(ascii_lower("api.spotify.com"@).len() != ascii_lower("pubads.g.doubleclick.net"@).len());
    reveal_strlit("youtube.com");
    assert(ascii_lower("youtube.com"@).len() != ascii_lower("pubads.g.doubleclick.net"@).len());
    reveal_strlit("googlevideo.com");
    assert(ascii_lower("googlevideo.com"@).len() != ascii_lower("pubads.g.doubleclick.net"@).len());
}

proof fn lemma_text_3()
    ensures
        !is_space("*.pubads.g.doubleclick.net"@[0]) && !is_space("*.pubads.g.doubleclick.net"@.last()),
        "*.pubads.g.doubleclick.net"@.len() > 0,
        no_allow_text_matches("*.pubads.g.doubleclick.net"@),
{
    reveal_strlit("*.pubads.g.doubleclick.net");
    reveal_strlit("spotify.com");
    assert(ascii_lower("spotify.com"@).len() != ascii_lower("*.pubads.g.doubleclick.net"@).len());
    reveal_strlit("api.spotify.com");
    assert(ascii_lower("api.spotify.com"@).len() != ascii_lower("*.pubads.g.doubleclick.net"@).len());
    reveal_strlit("youtube.com");
    assert(ascii_lower("youtube.com"@).len() != ascii_lower("*.pubads.g.doubleclick.net"@).len());
    reveal_strlit("googlevideo.com");
    assert(ascii_lower("googlevideo.com"@).len() != ascii_lower("*.pubads.g.doubleclick.net"@).len());
}

proof fn lemma_text_4()
    ensures
        !is_space("*.doubleclick.net"@[0]) && !is_space("*.doubleclick.net"@.last()),
        "*.doubleclick.net"@.len() > 0,
        no_allow_text_matches("*.doubleclick.net"@),
{
    reveal_strlit("*.doubleclick.net");
    reveal_strlit("spotify.com");
    assert(ascii_lower("spotify.com"@).len() != ascii_lower("*.doubleclick.net"@).len());
    reveal_strlit("api.spotify.com");
    assert(ascii_lower("api.spotify.com"@).len() != ascii_lower("*.doubleclick.net"@).len());
    reveal_strlit("youtube.com");
    assert(ascii_lower("youtube.com"@).len() != ascii_lower("*.doubleclick.net"@).len());
    reveal_strlit("googlevideo.com");
    assert(ascii_lower("googlevideo.com"@).len() != ascii_lower("*.doubleclick.net"@).len());
}

proof fn lemma_text_5()
    ensures
        !is_space("googlesyndication.com"@[0]) && !is_space("googlesyndication.com"@.last()),
        "googlesyndication.com"@.len() > 0,
        no_allow_text_matches("googlesyndication.com"@),
{
    reveal_strlit("googlesyndication.com");
    reveal_strlit("spotify.com");
    assert(ascii_lower("spotify.com"@).len() != ascii_lower("googlesyndication.com"@).len());
    reveal_strlit("api.spotify.com");
    assert(ascii_lower("api.spotify.com"@).len() != ascii_lower("googlesyndication.com"@).len());
    reveal_strlit("youtube.com");
    assert(ascii_lower("youtube.com"@).len() != ascii_lower("googlesyndication.com"@).len());
    reveal_strlit("googlevideo.com");
    assert(ascii_lower("googlevideo.com"@).len() != ascii_lower("googlesyndication.com"@).len());
}

proof fn lemma_text_6()
    ensures
        !is_space("*.googlesyndication.com"@[0]) && !is_space("*.googlesyndication.com"@.last()),
        "*.googlesyndication.com"@.len() > 0,
        no_allow_text_matches("*.googlesyndication.com"@),
{
    reveal_strlit("*.googlesyndication.com");
    reveal_strlit("spotify.com");
    assert(ascii_lower("spotify.com"@).len() != ascii_lower("*.googlesyndication.com"@).len());
    reveal_strlit("api.spotify.com");
    assert(ascii_lower("api.spotify.com"@).len() != ascii_lower("*.googlesyndication.com"@).len());
    reveal_strlit("youtube.com");
    assert(ascii_lower("youtube.com"@).len() != ascii_lower("*.googlesyndication.com"@).len());
    reveal_strlit("googlevideo.com");
    assert(ascii_lower("googlevideo.com"@).len() != ascii_lower("*.googlesyndication.com"@).len());
}

proof fn lemma_text_7()
    ensures
        !is_space("*.google-analytics.com"@[0]) && !is_space("*.google-analytics.com"@.last()),
        "*.google-analytics.com"@.len() > 0,
        no_allow_text_matches("*.google-analytics.com"@),
{
    reveal_strlit("*.google-analytics.com");
    reveal_strlit("spotify.com");
    assert(ascii_lower("spotify.com"@).len() != ascii_lower("*.google-analytics.com"@).len());
    reveal_strlit("api.spotify.com");
    assert(ascii_lower("api.spotify.com"@).len() != ascii_lower("*.google-analytics.com"@).len());
    reveal_strlit("youtube.com");
    assert(ascii_lower("youtube.com"@).len() != ascii_lower("*.google-analytics.com"@).len());
    reveal_strlit("googlevideo.com");
    assert(ascii_lower("googlevideo.com"@).len() != ascii_lower("*.google-analytics.com"@).len());
}

proof fn lemma_text_8()
    ensures
        !is_space("adservice.google.com"@[0]) && !is_space("adservice.google.com"@.last()),
        "adservice.google.com"@.len() > 0,
        no_allow_text_matches("adservice.google.com"@),
{
    reveal_strlit("adservice.google.com");
    reveal_strlit("spotify.com");
    assert(ascii_lower("spotify.com"@).len() != ascii_lower("adservice.google.com"@).len());
    reveal_strlit("api.spotify.com");
    assert(ascii_lower("api.spotify.com"@).len() != ascii_lower("adservice.google.com"@).len());
    reveal_strlit("youtube.com");
    assert(ascii_lower("youtube.com"@).len() != ascii_lower("adservice.google.com"@).len());
    reveal_strlit("googlevideo.com");
    assert(ascii_lower("googlevideo.com"@).len() != ascii_lower("adservice.google.com"@).len());
}

proof fn lemma_text_9()
    ensures
        !is_space("scorecardresearch.com"@[0]) && !is_space("scorecardresearch.com"@.last()),
        "scorecardresearch.com"@.len() > 0,
        no_allow_text_matches("scorecardresearch.com"@),
{
    reveal_strlit("scorecardresearch.com");
    reveal_strlit("spotify.com");
    assert(ascii_lower("spotify.com"@).len() != ascii_lower("scorecardresearch.com"@).len());
    reveal_strlit("api.spotify.com");
    assert(ascii_lower("api.spotify.com"@).len() != ascii_lower("scorecardresearch.com"@).len());
    reveal_strlit("youtube.com");
    assert(ascii_lower("youtube.com"@).len() != ascii_lower("scorecardresearch.com"@).len());
    reveal_strlit("googlevideo.com");
    assert(ascii_lower("googlevideo.com"@).len() != ascii_lower("scorecardresearch.com"@).len());
}

proof fn lemma_text_10()
    ensures
        !is_space("*.scorecardresearch.com"@[0]) && !is_space("*.scorecardresearch.com"@.last()),
        "*.scorecardresearch.com"@.len() > 0,
        no_allow_text_matches("*.scorecardresearch.com"@),
{
    reveal_strlit("*.scorecardresearch.com");
    reveal_strlit("spotify.com");
    assert(ascii_lower("spotify.com"@).len() != ascii_lower("*.scorecardresearch.com"@).len());
    reveal_strlit("api.spotify.com");
    assert(ascii_lower("api.spotify.com"@).len() != ascii_lower("*.scorecardresearch.com"@).len());
    reveal_strlit("youtube.com");
    assert(ascii_lower("youtube.com"@).len() != ascii_lower("*.scorecardresearch.com"@).len());
    reveal_strlit("googlevideo.com");
    assert(ascii_lower("googlevideo.com"@).len() != ascii_lower("*.scorecardresearch.com"@).len());
}

proof fn lemma_text_11()
    ensures
        !is_space("quantserve.com"@[0]) && !is_space("quantserve.com"@.last()),
        "quantserve.com"@.len() > 0,
        no_allow_text_matches("quantserve.com"@),
{
    reveal_strlit("quantserve.com");
    reveal_strlit("spotify.com");
    assert(ascii_lower("spotify.com"@).len() != ascii_lower("quantserve.com"@).len());
    reveal_strlit("api.spotify.com");
    assert(ascii_lower("api.spotify.com"@).len() != ascii_lower("quantserve.com"@).len());
    reveal_strlit("youtube.com");
    assert(ascii_lower("youtube.com"@).len() != ascii_lower("quantserve.com"@).len());
    reveal_strlit("googlevideo.com");
    assert(ascii_lower("googlevideo.com"@).len() != ascii_lower("quantserve.com"@).len());
}

proof fn lemma_text_12()
    ensures
        !is_space("outbrain.com"@[0]) && !is_space("outbrain.com"@.last()),
        "outbrain.com"@.len() > 0,
        no_allow_text_matches("outbrain.com"@),
{
    reveal_strlit("outbrain.com");
    reveal_strlit("spotify.com");
    assert(ascii_lower("spotify.com"@).len() != ascii_lower("outbrain.com"@).len());
    reveal_strlit("api.spotify.com");
    assert(ascii_lower("api.spotify.com"@).len() != ascii_lower("outbrain.com"@).len());
    reveal_strlit("youtube.com");
    assert(ascii_lower("youtube.com"@).len() != ascii_lower("outbrain.com"@).len());
    reveal_strlit("googlevideo.com");
    assert(ascii_lower("googlevideo.com"@).len() != ascii_lower("outbrain.com"@).len());
}

proof fn lemma_text_13()
    ensures
        !is_space("taboola.com"@[0]) && !is_space("taboola.com"@.last()),
        "taboola.com"@.len() > 0,
        no_allow_text_matches("taboola.com"@),
{
    reveal_strlit("taboola.com");
    reveal_strlit("spotify.com");
    assert(ascii_lower("spotify.com"@)[0] != ascii_lower("taboola.com"@)[0]);
    reveal_strlit("api.spotify.com");
    assert(ascii_lower("api.spotify.com"@).len() != ascii_lower("taboola.com"@).len());
    reveal_strlit("youtube.com");
    assert(ascii_lower("youtube.com"@)[0] != ascii_lower("taboola.com"@)[0]);
    reveal_strlit("googlevideo.com");
    assert(ascii_lower("googlevideo.com"@).len() != ascii_lower("taboola.com"@).len());
}

proof fn lemma_text_14()
    ensures
        !is_space("ads.youtube.com"@[0]) && !is_space("ads.youtube.com"@.last()),
        "ads.youtube.com"@.len() > 0,
        no_allow_text_matches("ads.youtube.com"@),
{
    reveal_strlit("ads.youtube.com");
    reveal_strlit("spotify.com");
    assert(ascii_lower("spotify.com"@).len() != ascii_lower("ads.youtube.com"@).len());
    reveal_strlit("api.spotify.com");
    assert(ascii_lower("api.spotify.com"@)[1] != ascii_lower("ads.youtube.com"@)[1]);
    reveal_strlit("youtube.com");
    assert(ascii_lower("youtube.com"@).len() != ascii_lower("ads.youtube.com"@).len());
    reveal_strlit("googlevideo.com");
    assert(ascii_lower("googlevideo.com"@)[0] != ascii_lower("ads.youtube.com"@)[0]);
}

proof fn lemma_text_15()
    ensures
        !is_space("ads.spotify.com"@[0]) && !is_space("ads.spotify.com"@.last()),
        "ads.spotify.com"@.len() > 0,
        no_allow_text_matches("ads.spotify.com"@),
{
    reveal_strlit("ads.spotify.com");
    reveal_strlit("spotify.com");
    assert(ascii_lower("spotify.com"@).len() != ascii_lower("ads.spotify.com"@).len());
    reveal_strlit("api.spotify.com");
    assert(ascii_lower("api.spotify.com"@)[1] != ascii_lower("ads.spotify.com"@)[1]);
    reveal_strlit("youtube.com");
    assert(ascii_lower("youtube.com"@).len() != ascii_lower("ads.spotify.com"@).len());
    reveal_strlit("googlevideo.com");
    assert(ascii_lower("googlevideo.com"@)[0] != ascii_lower("ads.spotify.com"@)[0]);
}

proof fn lemma_text_16()
    ensures
        !is_space("*.ads.spotify.com"@[0]) && !is_space("*.ads.spotify.com"@.last()),
        "*.ads.spotify.com"@.len() > 0,
        no_allow_text_matches("*.ads.spotify.com"@),
{
    reveal_strlit("*.ads.spotify.com");
    reveal_strlit("spotify.com");
    assert(ascii_lower("spotify.com"@).len() != ascii_lower("*.ads.spotify.com"@).len());
    reveal_strlit("api.spotify.com");
    assert(ascii_lower("api.spotify.com"@).len() != ascii_lower("*.ads.spotify.com"@).len());
    reveal_strlit("youtube.com");
    assert(ascii_lower("youtube.com"@).len() != ascii_lower("*.ads.spotify.com"@).len());
    reveal_strlit("googlevideo.com");
    assert(ascii_lower("googlevideo.com"@).len() != ascii_lower("*.ads.spotify.com"@).len());
}

proof fn lemma_text_17()
    ensures
        !is_space("ads.twitch.tv"@[0]) && !is_space("ads.twitch.tv"@.last()),
        "ads.twitch.tv"@.len() > 0,
        no_allow_text_matches("ads.twitch.tv"@),
{
    reveal_strlit("ads.twitch.tv");
    reveal_strlit("spotify.com");
    assert(ascii_lower("spotify.com"@).len() != ascii_lower("ads.twitch.tv"@).len());
    reveal_strlit("api.spotify.com");
    assert(ascii_lower("api.spotify.com"@).len() != ascii_lower("ads.twitch.tv"@).len());
    reveal_strlit("youtube.com");
    assert(ascii_lower("youtube.com"@).len() != ascii_lower("ads.twitch.tv"@).len());
    reveal_strlit("googlevideo.com");
    assert(ascii_lower("googlevideo.com"@).len() != ascii_lower("ads.twitch.tv"@).len());
}

proof fn lemma_text_18()
    ensures
        !is_space("*.ads.twitch.tv"@[0]) && !is_space("*.ads.twitch.tv"@.last()),
        "*.ads.twitch.tv"@.len() > 0,
        no_allow_text_matches("*.ads.twitch.tv"@),
{
    reveal_strlit("*.ads.twitch.tv");
    reveal_strlit("spotify.com");
    assert(ascii_lower("spotify.com"@).len() != ascii_lower("*.ads.twitch.tv"@).len());
    reveal_strlit("api.spotify.com");
    assert(ascii_lower("api.spotify.com"@)[0] != ascii_lower("*.ads.twitch.tv"@)[0]);
    reveal_strlit("youtube.com");
    assert(ascii_lower("youtube.com"@).len() != ascii_lower("*.ads.twitch.tv"@).len());
    reveal_strlit("googlevideo.com");
    assert(ascii_lower("googlevideo.com"@)[0] != ascii_lower("*.ads.twitch.tv"@)[0]);
}

proof fn lemma_text_19()
    ensures
        !is_space("*.twitchads.tv"@[0]) && !is_space("*.twitchads.tv"@.last()),
        "*.twitchads.tv"@.len() > 0,
        no_allow_text_matches("*.twitchads.tv"@),
{
    reveal_strlit("*.twitchads.tv");
    reveal_strlit("spotify.com");
    assert(ascii_lower("spotify.com"@).len() != ascii_lower("*.twitchads.tv"@).len());
    reveal_strlit("api.spotify.com");
    assert(ascii_lower("api.spotify.com"@).len() != ascii_lower("*.twitchads.tv"@).len());
    reveal_strlit("youtube.com");
    assert(ascii_lower("youtube.com"@).len() != ascii_lower("*.twitchads.tv"@).len());
    reveal_strlit("googlevideo.com");
    assert(ascii_lower("googlevideo.com"@).len() != ascii_lower("*.twitchads.tv"@).len());
}

proof fn lemma_text_20()
    ensures
        !is_space("google-analytics.com"@[0]) && !is_space("google-analytics.com"@.last()),
        "google-analytics.com"@.len() > 0,
        no_allow_text_matches("google-analytics.com"@),
{
    reveal_strlit("google-analytics.com");
    reveal_strlit("spotify.com");
    assert(ascii_lower("spotify.com"@).len() != ascii_lower("google-analytics.com"@).len());
    reveal_strlit("api.spotify.com");
    assert(ascii_lower("api.spotify.com"@).len() != ascii_lower("google-analytics.com"@).len());
    reveal_strlit("youtube.com");
    assert(ascii_lower("youtube.com"@).len() != ascii_lower("google-analytics.com"@).len());
    reveal_strlit("googlevideo.com");
    assert(ascii_lower("googlevideo.com"@).len() != ascii_lower("google-analytics.com"@).len());
}

proof fn lemma_text_21()
    ensures
        !is_space("analytics.google.com"@[0]) && !is_space("analytics.google.com"@.last()),
        "analytics.google.com"@.len() > 0,
        no_allow_text_matches("analytics.google.com"@),
{
    reveal_strlit("analytics.google.com");
    reveal_strlit("spotify.com");
    assert(ascii_lower("spotify.com"@).len() != ascii_lower("analytics.google.com"@).len());
    reveal_strlit("api.spotify.com");
    assert(ascii_lower("api.spotify.com"@).len() != ascii_lower("analytics.google.com"@).len());
    reveal_strlit("youtube.com");
    assert(ascii_lower("youtube.com"@).len() != ascii_lower("analytics.google.com"@).len());
    reveal_strlit("googlevideo.com");
    assert(ascii_lower("googlevideo.com"@).len() != ascii_lower("analytics.google.com"@).len());
}

proof fn lemma_text_22()
    ensures
        !is_space("app-measurement.com"@[0]) && !is_space("app-measurement.com"@.last()),
        "app-measurement.com"@.len() > 0,
        no_allow_text_matches("app-measurement.com"@),
{
    reveal_strlit("app-measurement.com");
    reveal_strlit("spotify.com");
    assert(ascii_lower("spotify.com"@).len() != ascii_lower("app-measurement.com"@).len());
    reveal_strlit("api.spotify.com");
    assert(ascii_lower("api.spotify.com"@).len() != ascii_lower("app-measurement.com"@).len());
    reveal_strlit("youtube.com");
    assert(ascii_lower("youtube.com"@).len() != ascii_lower("app-measurement.com"@).len());
    reveal_strlit("googlevideo.com");
    assert(ascii_lower("googlevideo.com"@).len() != ascii_lower("app-measurement.com"@).len());
}

proof fn lemma_text_23()
    ensures
        !is_space("*.app-measurement.com"@[0]) && !is_space("*.app-measurement.com"@.last()),
        "*.app-measurement.com"@.len() > 0,
        no_allow_text_matches("*.app-measurement.com"@),
{
    reveal_strlit("*.app-measurement.com");
    reveal_strlit("spotify.com");
    assert(ascii_lower("spotify.com"@).len() != ascii_lower("*.app-measurement.com"@).len());
    reveal_strlit("api.spotify.com");
    assert(ascii_lower("api.spotify.com"@).len() != ascii_lower("*.app-measurement.com"@).len());
    reveal_strlit("youtube.com");
    assert(ascii_lower("youtube.com"@).len() != ascii_lower("*.app-measurement.com"@).len());
    reveal_strlit("googlevideo.com");
    assert(ascii_lower("googlevideo.com"@).len() != ascii_lower("*.app-measurement.com"@).len());
}

proof fn lemma_text_24()
    ensures
        !is_space("spotify.com"@[0]) && !is_space("spotify.com"@.last()),
        "spotify.com"@.len() > 0,
        "spotify.com"@[0] != '*',
{
    reveal_strlit("spotify.com");
}

proof fn lemma_text_25()
    ensures
        !is_space("api.spotify.com"@[0]) && !is_space("api.spotify.com"@.last()),
        "api.spotify.com"@.len() > 0,
        "api.spotify.com"@[0] != '*',
{
    reveal_strlit("api.spotify.com");
}

proof fn lemma_text_26()
    ensures
        !is_space("youtube.com"@[0]) && !is_space("youtube.com"@.last()),
        "youtube.com"@.len() > 0,
        "youtube.com"@[0] != '*',
{
    reveal_strlit("youtube.com");
}

proof fn lemma_text_27()
    ensures
        !is_space("googlevideo.com"@[0]) && !is_space("googlevideo.com"@.last()),
        "googlevideo.com"@.len() > 0,
        "googlevideo.com"@[0] != '*',
{
    reveal_strlit("googlevideo.com");
}

proof fn lemma_table_texts()
    ensures
        forall|j: int|
            0 <= j < default_rule_table().len() ==> {
                let e = #[trigger] default_rule_table()[j];
                &&& e.0.len() > 0
                &&& !is_space(e.0[0])
                &&& !is_space(e.0.last())
                &&& e.1 == RuleAction::Block ==> no_allow_text_matches(e.0)
            },
        forall|t: Seq<char>| is_allowed_platform_text(t) ==> t.len() > 0 && t[0] != '*',
{
    lemma_text_0();
    lemma_text_1();
    lemma_text_2();
    lemma_text_3();
    lemma_text_4();
    lemma_text_5();
    lemma_text_6();
    lemma_text_7();
    lemma_text_8();
    lemma_text_9();
    lemma_text_10();
    lemma_text_11();
    lemma_text_12();
    lemma_text_13();
    lemma_text_14();
    lemma_text_15();
    lemma_text_16();
    lemma_text_17();
    lemma_text_18();
    lemma_text_19();
    lemma_text_20();
    lemma_text_21();
    lemma_text_22();
    lemma_text_23();
    lemma_text_24();
    lemma_text_25();
    lemma_text_26();
    lemma_text_27();
}

/// Law: every built-in rule comes either from the safe platform allowlist,
/// and then allows at user-allowlist priority, or from one of the blocking
/// lists (ad networks, trackers, analytics, platform ads), and then blocks
/// at downloaded-list priority.
pub proof fn law_default_sources(rules: Seq<DomainRule>, i: int)
    requires
        is_default_rule_list(rules),
        0 <= i < rules.len(),
    ensures
        rules[i].source@ == safe_allowlist_source() || is_blocking_list_source(rules[i].source@),
        rules[i].source@ == safe_allowlist_source() ==> rules[i].action == RuleAction::Allow
            && rules[i].priority == RulePriority::UserAllowlist,
        rules[i].source@ != safe_allowlist_source() ==> rules[i].action == RuleAction::Block
            && rules[i].priority == RulePriority::DownloadedLists,
{
    lemma_table_sources();
    assert(rule_fields(rules[i]) == default_rule_table()[i]);
}

/// Under the built-in rules, a name that matches its own rule text exactly
/// is decided by a rule of priority at least as strong.
proof fn lemma_own_text_candidate(rules: Seq<DomainRule>, i: int)
    requires
        is_default_rule_list(rules),
        0 <= i < rules.len(),
    ensures
        is_candidate(rules[i], normalize(rules[i].domain@)),
        normalize(rules[i].domain@) == ascii_lower(rules[i].domain@),
{
    lemma_table_texts();
    let b = rules[i].domain@;
    assert(rule_fields(rules[i]) == default_rule_table()[i]);
    assert(trim_start(b) == b);
    assert(trim_end(b) == b);
    lemma_lower_idempotent(b);
}

/// Law: the built-in rule set blocks the domain of every rule that comes
/// from a blocking list (ad networks, trackers, analytics, platform ads).
pub proof fn law_default_lists_block(rules: Seq<DomainRule>, i: int)
    requires
        is_default_rule_list(rules),
        0 <= i < rules.len(),
        rules[i].source@ != safe_allowlist_source(),
    ensures
        verdict(rules, normalize(rules[i].domain@)).action == RuleAction::Block,
{
    lemma_table_sources();
    lemma_table_texts();
    let b = rules[i].domain@;
    let name = normalize(b);
    lemma_own_text_candidate(rules, i);
    assert(rule_fields(rules[i]) == default_rule_table()[i]);
    law_deciding_rule_takes_precedence(rules, name, i);
    let w = winner(rules, name)->0;
    assert(rule_fields(rules[w]) == default_rule_table()[w]);
    if rules[w].action != RuleAction::Block {
        let a = rules[w].domain@;
        assert(is_allowed_platform_text(a));
        assert(no_allow_text_matches(b));
        lemma_lower_idempotent(b);
        assert(!exact_match(a, name));
        assert(!wildcard_match(a, name));
    }
}

/// Law: the built-in rule set allows the domain of every rule of the safe
/// platform allowlist.
pub proof fn law_default_allowlist_allowed(rules: Seq<DomainRule>, i: int)
    requires
        is_default_rule_list(rules),
        0 <= i < rules.len(),
        rules[i].source@ == safe_allowlist_source(),
    ensures
        verdict(rules, normalize(rules[i].domain@)).action == RuleAction::Allow,
{
    lemma_table_sources();
    let name = normalize(rules[i].domain@);
    lemma_own_text_candidate(rules, i);
    assert(rule_fields(rules[i]) == default_rule_table()[i]);
    law_deciding_rule_takes_precedence(rules, name, i);
    let w = winner(rules, name)->0;
    assert(rule_fields(rules[w]) == default_rule_table()[w]);
}

} // verus!
