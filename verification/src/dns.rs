//! The DNS filter: upstream servers, the active rule set, and a cache of the
//! domains that were resolved.

use vstd::prelude::*;
use crate::config::{default_upstream, default_upstream_dns, string_views};
use crate::evaluation::{normalize, spec_priority_rank, verdict, DomainRule, RuleAction, RulePriority};
use crate::rules::{is_default_rule_list, RuleSet};
use crate::text::{eq_ignore_ascii_case, eq_ignore_case, lemma_trim_idempotent, trim, trim_str};

verus! {

/// Upstream servers, the rules in force, and the resolved-domain cache.
#[derive(Debug, Clone)]
pub struct DnsFilter {
    pub upstream: Vec<String>,
    pub rules: RuleSet,
    pub cache: Vec<String>,
}

/// Some cache entry equals the domain up to ASCII case.
pub open spec fn cache_contains(cache: Seq<String>, domain: Seq<char>) -> bool {
    exists|i: int| 0 <= i < cache.len() && eq_ignore_case(#[trigger] cache[i]@, domain)
}

/// Every cache entry is trimmed and not empty, and no two entries are equal
/// up to ASCII case.
pub open spec fn cache_wf(cache: Seq<String>) -> bool {
    &&& forall|i: int| 0 <= i < cache.len() ==> trim(#[trigger] cache[i]@) == cache[i]@
    &&& forall|i: int| 0 <= i < cache.len() ==> (#[trigger] cache[i]@).len() > 0
    &&& forall|i: int, j: int|
        0 <= i < j < cache.len() ==> !eq_ignore_case(#[trigger] cache[i]@, #[trigger] cache[j]@)
}

/// The filter is the default one: the default upstream servers, the built-in
/// rules, an empty cache.
pub open spec fn is_default_filter(f: DnsFilter) -> bool {
    &&& string_views(f.upstream@) == default_upstream_dns()
    &&& is_default_rule_list(f.rules.rules@)
    &&& f.cache@.len() == 0
}

impl Default for DnsFilter {
    fn default() -> (f: Self)
        ensures
            is_default_filter(f),
    {
        DnsFilter { upstream: default_upstream(), rules: RuleSet::default(), cache: Vec::new() }
    }
}

impl DnsFilter {
    pub fn new() -> (f: Self)
        ensures
            is_default_filter(f),
    {
        Self::default()
    }

    pub fn add_rule(&mut self, rule: DomainRule)
        ensures
            final(self).rules.rules@ == old(self).rules.rules@.push(rule),
            final(self).upstream == old(self).upstream,
            final(self).cache == old(self).cache,
    {
        self.rules.add_rule(rule);
    }

    /// Whether the rules in force block the domain.
    pub fn should_block(&self, domain: &str) -> (b: bool)
        ensures
            b == (verdict(self.rules.rules@, normalize(domain@)).action == RuleAction::Block),
    {
        self.rules.is_blocked(domain)
    }

    /// Whether the cache holds the domain, ignoring ASCII case.
    pub fn cache_lookup(&self, domain: &str) -> (b: bool)
        ensures
            b == cache_contains(self.cache@, domain@),
    {
        let n = self.cache.len();
        for i in 0..n
            invariant
                n == self.cache@.len(),
                forall|k: int| 0 <= k < i ==> !eq_ignore_case(#[trigger] self.cache@[k]@, domain@),
        {
            if eq_ignore_ascii_case(self.cache[i].as_str(), domain) {
                return true;
            }
        }
        false
    }

    /// Adds the trimmed domain to the cache unless it is empty or already
    /// there (ignoring ASCII case).
    pub fn cache_insert(&mut self, domain: &str)
        ensures
            final(self).upstream == old(self).upstream,
            final(self).rules == old(self).rules,
            if trim(domain@).len() > 0 && !cache_contains(old(self).cache@, trim(domain@)) {
                &&& final(self).cache@ == old(self).cache@.push(final(self).cache@.last())
                &&& final(self).cache@.last()@ == trim(domain@)
            } else {
                final(self).cache@ == old(self).cache@
            },
            trim(domain@).len() > 0 ==> cache_contains(final(self).cache@, trim(domain@)),
            cache_wf(old(self).cache@) ==> cache_wf(final(self).cache@),
    {
        let clean = trim_str(domain);
        if !clean.is_empty() && !self.cache_lookup(clean) {
            self.cache.push(String::from_str(clean));
            proof {
                let c = self.cache@;
                let n = c.len() - 1;
                assert(eq_ignore_case(c[n]@, clean@));
                lemma_trim_idempotent(domain@);
                if cache_wf(old(self).cache@) {
                    assert forall|i: int, j: int|
                        0 <= i < j < c.len() implies !eq_ignore_case(
                        #[trigger] c[i]@,
                        #[trigger] c[j]@,
                    ) by {
                        if j == n {
                            assert(c[i] == old(self).cache@[i]);
                        } else {
                            assert(c[i] == old(self).cache@[i]);
                            assert(c[j] == old(self).cache@[j]);
                        }
                    }
                }
            }
        } else {
            proof {
                if clean@.len() > 0 {
                    assert(cache_contains(self.cache@, clean@));
                }
            }
        }
    }

    /// The priorities from strongest to weakest.
    pub fn precedence() -> (v: Vec<RulePriority>)
        ensures
            v@.len() == 7,
            forall|i: int| 0 <= i < 7 ==> spec_priority_rank(#[trigger] v@[i]) == i,
    {
        let mut v: Vec<RulePriority> = Vec::new();
        v.push(RulePriority::SystemSafety);
        v.push(RulePriority::UserAllowlist);
        v.push(RulePriority::UserBlocklist);
        v.push(RulePriority::TrustedLocal);
        v.push(RulePriority::DownloadedLists);
        v.push(RulePriority::NetworkRules);
        v.push(RulePriority::DefaultAllow);
        v
    }
}

pub fn dns_operation_summary() -> (s: &'static str)
    ensures
        s@ == "Local DNS filtering is configured with upstream servers, local rules, and safe fail-open behavior."@,
{
    "Local DNS filtering is configured with upstream servers, local rules, and safe fail-open behavior."
}

} // verus!
