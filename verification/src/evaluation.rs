//! Rule evaluation and precedence: which of a list of domain rules decides
//! the fate of a queried domain.
//!
//! A rule matches a domain exactly (equal up to ASCII case) or, for a rule
//! written `*.suffix`, by wildcard (the domain ends with `.suffix`). Among
//! the enabled matching rules the one that decides is the one with the
//! highest priority; among equal priorities an exact match beats a wildcard,
//! then `Allow` beats `Ignore` beats `Block`, then the shorter rule text wins,
//! and among rules equal in all of these the first one listed decides.
//! With no enabled matching rule the domain is allowed by default.

use vstd::prelude::*;
use vstd::utf8::encode_utf8;
use crate::text::{
    lemma_encode_concat, lemma_longer_suffix_longer_encoding, lemma_lower_idempotent,
    lemma_trim_idempotent, lemma_trim_lower,
    ascii_lower, chars_eq_ignore_case, chars_of, ends_with_from, eq_ignore_case, is_suffix_of,
    lower_chars, str_eq, trim, trim_end, trim_start, trim_str,
};

verus! {

/// A filtering profile.
#[derive(Debug, Clone, Copy, PartialEq, Eq, Structural)]
pub enum Profile {
    Balanced,
    Strict,
    Aggressive,
    Custom,
}

impl Default for Profile {
    fn default() -> (p: Self)
        ensures
            p == Profile::Balanced,
    {
        Profile::Balanced
    }
}

/// The name of a profile, as `Profile::as_str` returns it.
pub open spec fn profile_name(p: Profile) -> Seq<char> {
    match p {
        Profile::Balanced => "Balanced"@,
        Profile::Strict => "Strict"@,
        Profile::Aggressive => "Aggressive"@,
        Profile::Custom => "Custom"@,
    }
}

/// The profile that a (trimmed) name selects: the capitalised name or its
/// lower-case form.
pub open spec fn profile_of_name(t: Seq<char>) -> Option<Profile> {
    if t == "Balanced"@ || t == "balanced"@ {
        Some(Profile::Balanced)
    } else if t == "Strict"@ || t == "strict"@ {
        Some(Profile::Strict)
    } else if t == "Aggressive"@ || t == "aggressive"@ {
        Some(Profile::Aggressive)
    } else if t == "Custom"@ || t == "custom"@ {
        Some(Profile::Custom)
    } else {
        None
    }
}

impl Profile {
    pub fn as_str(&self) -> (s: &'static str)
        ensures
            s@ == profile_name(*self),
    {
        match self {
            Profile::Balanced => "Balanced",
            Profile::Strict => "Strict",
            Profile::Aggressive => "Aggressive",
            Profile::Custom => "Custom",
        }
    }

    /// Reads a profile from its name, ignoring surrounding whitespace.
    /// An unknown name gives the error `unknown profile: <value>`.
    pub fn parse(value: &str) -> (r: Result<Profile, String>)
        ensures
            match profile_of_name(trim(value@)) {
                Some(p) => r == Ok::<Profile, String>(p),
                None => r matches Err(e) && e@ == "unknown profile: "@ + value@,
            },
    {
        let t = trim_str(value);
        if str_eq(t, "Balanced") || str_eq(t, "balanced") {
            Ok(Profile::Balanced)
        } else if str_eq(t, "Strict") || str_eq(t, "strict") {
            Ok(Profile::Strict)
        } else if str_eq(t, "Aggressive") || str_eq(t, "aggressive") {
            Ok(Profile::Aggressive)
        } else if str_eq(t, "Custom") || str_eq(t, "custom") {
            Ok(Profile::Custom)
        } else {
            let mut e = String::from_str("unknown profile: ");
            e.append(value);
            Err(e)
        }
    }
}

/// Law: reading back the name of a profile gives the profile.
pub proof fn law_profile_name_round_trip(p: Profile)
    ensures
        profile_of_name(trim(profile_name(p))) == Some(p),
{
    reveal_strlit("Balanced");
    reveal_strlit("balanced");
    reveal_strlit("Strict");
    reveal_strlit("strict");
    reveal_strlit("Aggressive");
    reveal_strlit("aggressive");
    reveal_strlit("Custom");
    reveal_strlit("custom");
    let n = profile_name(p);
    assert(trim_start(n) == n);
    assert(trim_end(n) == n);
    assert("Balanced"@[0] == 'B');
    assert("balanced"@[0] == 'b');
    assert("Strict"@[0] == 'S');
    assert("strict"@[0] == 's');
    assert("Aggressive"@[0] == 'A');
    assert("aggressive"@[0] == 'a');
    assert("Custom"@[0] == 'C');
    assert("custom"@[0] == 'c');
}

/// Law: a name selects a profile only if it is that profile's name up to
/// ASCII case, and both the name and its lower-case form select the profile.
pub proof fn law_profile_names(t: Seq<char>, p: Profile)
    ensures
        profile_of_name(t) == Some(p) ==> eq_ignore_case(t, profile_name(p)),
        profile_of_name(profile_name(p)) == Some(p),
        profile_of_name(ascii_lower(profile_name(p))) == Some(p),
{
    reveal_strlit("Balanced");
    reveal_strlit("balanced");
    reveal_strlit("Strict");
    reveal_strlit("strict");
    reveal_strlit("Aggressive");
    reveal_strlit("aggressive");
    reveal_strlit("Custom");
    reveal_strlit("custom");
    assert(ascii_lower("Balanced"@) =~= "balanced"@);
    assert(ascii_lower("balanced"@) =~= "balanced"@);
    assert(ascii_lower("Strict"@) =~= "strict"@);
    assert(ascii_lower("strict"@) =~= "strict"@);
    assert(ascii_lower("Aggressive"@) =~= "aggressive"@);
    assert(ascii_lower("aggressive"@) =~= "aggressive"@);
    assert(ascii_lower("Custom"@) =~= "custom"@);
    assert(ascii_lower("custom"@) =~= "custom"@);
    assert("Balanced"@[0] == 'B');
    assert("balanced"@[0] == 'b');
    assert("Strict"@[0] == 'S');
    assert("strict"@[0] == 's');
    assert("Aggressive"@[0] == 'A');
    assert("aggressive"@[0] == 'a');
    assert("Custom"@[0] == 'C');
    assert("custom"@[0] == 'c');
}

impl std::str::FromStr for Profile {
    type Err = String;

    fn from_str(value: &str) -> (r: Result<Self, Self::Err>)
        ensures
            match profile_of_name(trim(value@)) {
                Some(p) => r == Ok::<Profile, String>(p),
                None => r matches Err(e) && e@ == "unknown profile: "@ + value@,
            },
    {
        Profile::parse(value)
    }
}

/// Where a rule comes from; earlier variants take precedence over later ones.
#[derive(Debug, Clone, Copy, PartialEq, Eq, Structural)]
pub enum RulePriority {
    SystemSafety,
    UserAllowlist,
    UserBlocklist,
    TrustedLocal,
    DownloadedLists,
    NetworkRules,
    DefaultAllow,
}

/// A domain rule: a pattern (a domain, or `*.` followed by a suffix), what to
/// do with a matching domain, where the rule comes from, and whether it is on.
#[derive(Debug, Clone, PartialEq, Eq)]
pub struct DomainRule {
    pub domain: String,
    pub action: RuleAction,
    pub priority: RulePriority,
    pub source: String,
    pub enabled: bool,
}

/// What a rule does with a matching domain.
#[derive(Debug, Clone, Copy, PartialEq, Eq, Structural)]
pub enum RuleAction {
    Allow,
    Block,
    Ignore,
}

/// The outcome of evaluating a domain against a list of rules.
#[derive(Debug, Clone, PartialEq, Eq)]
pub struct RuleEvaluation {
    pub action: RuleAction,
    pub priority: RulePriority,
    pub matched_rule: Option<String>,
}

/// The mathematical content of a [`RuleEvaluation`].
pub struct Verdict {
    pub action: RuleAction,
    pub priority: RulePriority,
    pub matched_rule: Option<Seq<char>>,
}

impl View for RuleEvaluation {
    type V = Verdict;

    open spec fn view(&self) -> Verdict {
        Verdict {
            action: self.action,
            priority: self.priority,
            matched_rule: match self.matched_rule {
                Some(m) => Some(m@),
                None => None,
            },
        }
    }
}

/// Position of a priority in the precedence order (0 is the strongest).
pub open spec fn spec_priority_rank(p: RulePriority) -> int {
    match p {
        RulePriority::SystemSafety => 0,
        RulePriority::UserAllowlist => 1,
        RulePriority::UserBlocklist => 2,
        RulePriority::TrustedLocal => 3,
        RulePriority::DownloadedLists => 4,
        RulePriority::NetworkRules => 5,
        RulePriority::DefaultAllow => 6,
    }
}

/// Position of an action in the tie-break order (0 is preferred).
pub open spec fn spec_action_rank(a: RuleAction) -> int {
    match a {
        RuleAction::Allow => 0,
        RuleAction::Ignore => 1,
        RuleAction::Block => 2,
    }
}

pub fn priority_rank(priority: &RulePriority) -> (r: u8)
    ensures
        r == spec_priority_rank(*priority),
{
    match priority {
        RulePriority::SystemSafety => 0,
        RulePriority::UserAllowlist => 1,
        RulePriority::UserBlocklist => 2,
        RulePriority::TrustedLocal => 3,
        RulePriority::DownloadedLists => 4,
        RulePriority::NetworkRules => 5,
        RulePriority::DefaultAllow => 6,
    }
}

pub fn action_rank(action: &RuleAction) -> (r: u8)
    ensures
        r == spec_action_rank(*action),
{
    match action {
        RuleAction::Allow => 0,
        RuleAction::Ignore => 1,
        RuleAction::Block => 2,
    }
}

/// A queried domain as the rules see it: trimmed and in ASCII lower case.
pub open spec fn normalize(domain: Seq<char>) -> Seq<char> {
    ascii_lower(trim(domain))
}

/// The pattern equals the name up to ASCII case.
pub open spec fn exact_match(pattern: Seq<char>, name: Seq<char>) -> bool {
    eq_ignore_case(pattern, name)
}

/// The pattern is `*.suffix` and the name ends with `.suffix`.
pub open spec fn wildcard_match(pattern: Seq<char>, name: Seq<char>) -> bool {
    &&& pattern.len() >= 2
    &&& pattern[0] == '*'
    &&& pattern[1] == '.'
    &&& is_suffix_of(pattern.subrange(1, pattern.len() as int), name)
}

/// The rule is enabled and matches the (normalized) name.
pub open spec fn is_candidate(rule: DomainRule, name: Seq<char>) -> bool {
    rule.enabled && (exact_match(rule.domain@, name) || wildcard_match(rule.domain@, name))
}

/// 2 for an exact match, 1 otherwise.
pub open spec fn specificity(rule: DomainRule, name: Seq<char>) -> int {
    if exact_match(rule.domain@, name) {
        2
    } else {
        1
    }
}

/// The length in bytes of the rule's text (its UTF-8 encoding).
pub open spec fn rule_byte_len(rule: DomainRule) -> usize {
    encode_utf8(rule.domain@).len() as usize
}

/// Rule `a` takes precedence over rule `b` for the name: stronger priority,
/// then exact over wildcard, then the preferred action, then shorter text.
pub open spec fn beats(a: DomainRule, b: DomainRule, name: Seq<char>) -> bool {
    let ra = spec_priority_rank(a.priority);
    let rb = spec_priority_rank(b.priority);
    let sa = specificity(a, name);
    let sb = specificity(b, name);
    let aa = spec_action_rank(a.action);
    let ab = spec_action_rank(b.action);
    ||| ra < rb
    ||| ra == rb && sa > sb
    ||| ra == rb && sa == sb && aa < ab
    ||| ra == rb && sa == sb && aa == ab && rule_byte_len(a) < rule_byte_len(b)
}

/// Among the first `n` rules, rule `i` is a candidate that no candidate beats,
/// and it beats every candidate listed before it.
pub open spec fn winner_within(rules: Seq<DomainRule>, name: Seq<char>, i: int, n: int) -> bool {
    &&& 0 <= i < n <= rules.len()
    &&& is_candidate(rules[i], name)
    &&& forall|j: int|
        0 <= j < n && #[trigger] is_candidate(rules[j], name) ==> !beats(rules[j], rules[i], name)
    &&& forall|j: int|
        0 <= j < i && #[trigger] is_candidate(rules[j], name) ==> beats(rules[i], rules[j], name)
}

/// Rule `i` is the one that decides for the name.
pub open spec fn is_winner(rules: Seq<DomainRule>, name: Seq<char>, i: int) -> bool {
    winner_within(rules, name, i, rules.len() as int)
}

/// The index of the deciding rule, if any rule matches.
pub open spec fn winner(rules: Seq<DomainRule>, name: Seq<char>) -> Option<int> {
    if exists|i: int| is_winner(rules, name, i) {
        Some(choose|i: int| is_winner(rules, name, i))
    } else {
        None
    }
}

/// What evaluating the normalized name against the rules gives.
pub open spec fn verdict(rules: Seq<DomainRule>, name: Seq<char>) -> Verdict {
    match winner(rules, name) {
        Some(i) => Verdict {
            action: rules[i].action,
            priority: rules[i].priority,
            matched_rule: Some(rules[i].domain@),
        },
        None => Verdict {
            action: RuleAction::Allow,
            priority: RulePriority::DefaultAllow,
            matched_rule: None,
        },
    }
}

/// At most one rule decides.
pub proof fn lemma_winner_unique(rules: Seq<DomainRule>, name: Seq<char>, i: int, j: int)
    requires
        is_winner(rules, name, i),
        is_winner(rules, name, j),
    ensures
        i == j,
{
    assert(!beats(rules[j], rules[i], name));
    assert(!beats(rules[i], rules[j], name));
}

/// A rule that decides is what `winner` names.
pub proof fn lemma_winner_is(rules: Seq<DomainRule>, name: Seq<char>, i: int)
    requires
        is_winner(rules, name, i),
    ensures
        winner(rules, name) == Some(i),
{
    let k = choose|k: int| is_winner(rules, name, k);
    lemma_winner_unique(rules, name, i, k);
}

/// Without a candidate no rule decides.
pub proof fn lemma_no_candidate(rules: Seq<DomainRule>, name: Seq<char>)
    requires
        forall|j: int| 0 <= j < rules.len() ==> !is_candidate(#[trigger] rules[j], name),
    ensures
        winner(rules, name) is None,
{
    if exists|i: int| is_winner(rules, name, i) {
        let i = choose|i: int| is_winner(rules, name, i);
        assert(is_candidate(rules[i], name));
    }
}

/// Evaluates a domain against the rules: the enabled matching rule that takes
/// precedence decides; with none, the domain is allowed by default.
pub fn evaluate_domain_rule(domain: &str, rules: &[DomainRule]) -> (r: RuleEvaluation)
    ensures
        r@ == verdict(rules@, normalize(domain@)),
{
    let trimmed = trim_str(domain);
    let tv = chars_of(trimmed);
    let normalized = lower_chars(&tv);
    let ghost name = normalize(domain@);
    let n = rules.len();
    let mut best: Option<(usize, u8, u8, u8, usize)> = None;
    for i in 0..n
        invariant
            n == rules@.len(),
            normalized@ == name,
            name == normalize(domain@),
            match best {
                None => forall|j: int| 0 <= j < i ==> !is_candidate(#[trigger] rules@[j], name),
                Some((b, br, bs, ba, bl)) => {
                    &&& winner_within(rules@, name, b as int, i as int)
                    &&& br == spec_priority_rank(rules@[b as int].priority)
                    &&& bs == specificity(rules@[b as int], name)
                    &&& ba == spec_action_rank(rules@[b as int].action)
                    &&& bl == rule_byte_len(rules@[b as int])
                },
            },
    {
        let rule = &rules[i];
        if rule.enabled {
            let pat = chars_of(rule.domain.as_str());
            let exact = chars_eq_ignore_case(&pat, &normalized);
            let wild = pat.len() >= 2 && pat[0] == '*' && pat[1] == '.' && ends_with_from(
                &normalized,
                &pat,
                1,
            );
            if exact || wild {
                let rank = priority_rank(&rule.priority);
                let spec: u8 = if exact {
                    2
                } else {
                    1
                };
                let ar = action_rank(&rule.action);
                let len = rule.domain.as_str().len();
                let replace = match best {
                    None => true,
                    Some((_, br, bs, ba, bl)) => {
                        rank < br || (rank == br && spec > bs) || (rank == br && spec == bs && ar
                            < ba) || (rank == br && spec == bs && ar == ba && len < bl)
                    },
                };
                if replace {
                    best = Some((i, rank, spec, ar, len));
                }
            }
        }
    }
    match best {
        Some((b, _, _, _, _)) => {
            proof {
                lemma_winner_is(rules@, name, b as int);
            }
            RuleEvaluation {
                action: rules[b].action,
                priority: rules[b].priority,
                matched_rule: Some(rules[b].domain.clone()),
            }
        },
        None => {
            proof {
                lemma_no_candidate(rules@, name);
            }
            RuleEvaluation {
                action: RuleAction::Allow,
                priority: RulePriority::DefaultAllow,
                matched_rule: None,
            }
        },
    }
}

/// Among the first `n` rules, if any is a candidate then one of them is the
/// winner within those `n`.
pub proof fn lemma_winner_within_exists(rules: Seq<DomainRule>, name: Seq<char>, n: int)
    requires
        0 <= n <= rules.len(),
        exists|j: int| 0 <= j < n && is_candidate(#[trigger] rules[j], name),
    ensures
        exists|i: int| #[trigger] winner_within(rules, name, i, n),
    decreases n,
{
    if exists|j: int| 0 <= j < n - 1 && is_candidate(#[trigger] rules[j], name) {
        lemma_winner_within_exists(rules, name, n - 1);
        let w = choose|i: int| #[trigger] winner_within(rules, name, i, n - 1);
        if is_candidate(rules[n - 1], name) && beats(rules[n - 1], rules[w], name) {
            assert(winner_within(rules, name, n - 1, n));
        } else {
            assert(winner_within(rules, name, w, n));
        }
    } else {
        assert(winner_within(rules, name, n - 1, n));
    }
}

/// Law: whenever an enabled rule matches, some rule decides, and no enabled
/// matching rule takes precedence over the deciding one (in particular none
/// has a stronger priority).
pub proof fn law_deciding_rule_takes_precedence(rules: Seq<DomainRule>, name: Seq<char>, j: int)
    requires
        0 <= j < rules.len(),
        is_candidate(rules[j], name),
    ensures
        winner(rules, name) matches Some(i) && {
            &&& is_candidate(rules[i], name)
            &&& !beats(rules[j], rules[i], name)
            &&& spec_priority_rank(rules[i].priority) <= spec_priority_rank(rules[j].priority)
            &&& verdict(rules, name).matched_rule == Some(rules[i].domain@)
        },
{
    lemma_winner_within_exists(rules, name, rules.len() as int);
    let i = choose|i: int| #[trigger] winner_within(rules, name, i, rules.len() as int);
    lemma_winner_is(rules, name, i);
}

/// Law: the verdict for a name that some enabled rule matches comes from an
/// enabled matching rule, and against any enabled matching rule `j` it holds
/// that: its priority is at least as strong as `j`'s; at equal priority, if
/// `j` matches exactly then so does the deciding rule (whatever the
/// actions); at equal priority and equal kind of match, its action comes no
/// later than `j`'s in the order Allow, Ignore, Block.
pub proof fn law_precedence_order(rules: Seq<DomainRule>, name: Seq<char>, j: int)
    requires
        0 <= j < rules.len(),
        is_candidate(rules[j], name),
    ensures
        verdict(rules, name).matched_rule matches Some(t) && {
            let v = verdict(rules, name);
            let r = rules[j];
            &&& exact_match(t, name) || wildcard_match(t, name)
            &&& spec_priority_rank(v.priority) <= spec_priority_rank(r.priority)
            &&& v.priority == r.priority && exact_match(r.domain@, name) ==> exact_match(t, name)
            &&& v.priority == r.priority && exact_match(r.domain@, name) == exact_match(t, name)
                ==> spec_action_rank(v.action) <= spec_action_rank(r.action)
        },
{
    law_deciding_rule_takes_precedence(rules, name, j);
}

/// Law: of two enabled rules of equal priority that both match a name, one
/// exactly and the other only by wildcard, the exact one decides, in either
/// order and whatever their actions.
pub proof fn law_exact_beats_wildcard(exact: DomainRule, wild: DomainRule, name: Seq<char>)
    requires
        exact.enabled,
        wild.enabled,
        exact.priority == wild.priority,
        exact_match(exact.domain@, name),
        !exact_match(wild.domain@, name),
        wildcard_match(wild.domain@, name),
    ensures
        verdict(seq![wild, exact], name) == (Verdict {
            action: exact.action,
            priority: exact.priority,
            matched_rule: Some(exact.domain@),
        }),
        verdict(seq![exact, wild], name) == (Verdict {
            action: exact.action,
            priority: exact.priority,
            matched_rule: Some(exact.domain@),
        }),
{
    let s1 = seq![wild, exact];
    let s2 = seq![exact, wild];
    law_deciding_rule_takes_precedence(s1, name, 1);
    law_deciding_rule_takes_precedence(s2, name, 0);
    let i1 = winner(s1, name)->0;
    let i2 = winner(s2, name)->0;
    assert(i1 == 1) by {
        if i1 == 0 {
            assert(!beats(s1[1], s1[0], name));
        }
    }
    assert(i2 == 0) by {
        if i2 == 1 {
            assert(!beats(s2[0], s2[1], name));
        }
    }
}

/// Law: with no enabled matching rule, a domain is allowed by default.
pub proof fn law_default_allow(rules: Seq<DomainRule>, name: Seq<char>)
    requires
        forall|j: int| 0 <= j < rules.len() ==> !is_candidate(#[trigger] rules[j], name),
    ensures
        verdict(rules, name) == (Verdict {
            action: RuleAction::Allow,
            priority: RulePriority::DefaultAllow,
            matched_rule: None,
        }),
{
    lemma_no_candidate(rules, name);
}

/// Law: appending a rule changes the verdict exactly when the new rule is an
/// enabled match that takes precedence over the rule that decided before (or
/// nothing decided before); then the new rule decides. In particular a
/// disabled or non-matching rule changes nothing.
pub proof fn law_append_rule(rules: Seq<DomainRule>, rule: DomainRule, name: Seq<char>)
    ensures
        verdict(rules.push(rule), name) == if is_candidate(rule, name) && match winner(
            rules,
            name,
        ) {
            None => true,
            Some(w) => beats(rule, rules[w], name),
        } {
            Verdict {
                action: rule.action,
                priority: rule.priority,
                matched_rule: Some(rule.domain@),
            }
        } else {
            verdict(rules, name)
        },
{
    let r2 = rules.push(rule);
    let n = rules.len() as int;
    assert(r2[n] == rule);
    assert forall|j: int| 0 <= j < n implies #[trigger] r2[j] == rules[j] by {}
    match winner(rules, name) {
        None => {
            assert forall|j: int| 0 <= j < n implies !is_candidate(#[trigger] rules[j], name) by {
                if is_candidate(rules[j], name) {
                    lemma_winner_within_exists(rules, name, n);
                    let w = choose|i: int| #[trigger] winner_within(rules, name, i, n);
                    assert(is_winner(rules, name, w));
                }
            }
            if is_candidate(rule, name) {
                assert(winner_within(r2, name, n, n + 1));
                lemma_winner_is(r2, name, n);
            } else {
                assert forall|j: int| 0 <= j < r2.len() implies !is_candidate(
                    #[trigger] r2[j],
                    name,
                ) by {
                    if j < n {
                        assert(r2[j] == rules[j]);
                    }
                }
                lemma_no_candidate(r2, name);
            }
        },
        Some(w) => {
            let k = choose|i: int| is_winner(rules, name, i);
            assert(is_winner(rules, name, w));
            if is_candidate(rule, name) && beats(rule, rules[w], name) {
                assert forall|j: int|
                    0 <= j < n + 1 && #[trigger] is_candidate(r2[j], name) implies !beats(
                    r2[j],
                    r2[n],
                    name,
                ) by {
                    if j < n {
                        assert(is_candidate(rules[j], name));
                        assert(!beats(rules[j], rules[w], name));
                    }
                }
                assert forall|j: int|
                    0 <= j < n && #[trigger] is_candidate(r2[j], name) implies beats(
                    r2[n],
                    r2[j],
                    name,
                ) by {
                    assert(is_candidate(rules[j], name));
                    assert(!beats(rules[j], rules[w], name));
                }
                assert(winner_within(r2, name, n, n + 1));
                lemma_winner_is(r2, name, n);
            } else {
                assert forall|j: int|
                    0 <= j < n + 1 && #[trigger] is_candidate(r2[j], name) implies !beats(
                    r2[j],
                    r2[w],
                    name,
                ) by {
                    if j < n {
                        assert(is_candidate(rules[j], name));
                    }
                }
                assert forall|j: int|
                    0 <= j < w && #[trigger] is_candidate(r2[j], name) implies beats(
                    r2[w],
                    r2[j],
                    name,
                ) by {
                    assert(is_candidate(rules[j], name));
                }
                assert(winner_within(r2, name, w, n + 1));
                lemma_winner_is(r2, name, w);
            }
        },
    }
}

/// Law: normalizing is idempotent, so evaluating an already normalized
/// domain gives the same verdict as evaluating the domain it came from.
pub proof fn law_normalize_idempotent(domain: Seq<char>)
    ensures
        normalize(normalize(domain)) == normalize(domain),
{
    let t = trim(domain);
    lemma_trim_lower(t);
    lemma_trim_idempotent(domain);
    lemma_lower_idempotent(t);
}

/// Law: queries are case-insensitive: two domains that are equal up to ASCII
/// case normalize alike, so every rule list gives them the same verdict.
pub proof fn law_query_ignores_case(d1: Seq<char>, d2: Seq<char>, rules: Seq<DomainRule>)
    requires
        eq_ignore_case(d1, d2),
    ensures
        normalize(d1) == normalize(d2),
        verdict(rules, normalize(d1)) == verdict(rules, normalize(d2)),
{
    lemma_trim_lower(d1);
    lemma_trim_lower(d2);
}

/// A rule takes precedence over a deciding rule known by its priority, action
/// and text (the same comparison as `beats`).
pub open spec fn precedes(
    rule: DomainRule,
    priority: RulePriority,
    action: RuleAction,
    text: Seq<char>,
    name: Seq<char>,
) -> bool {
    let ra = spec_priority_rank(rule.priority);
    let rb = spec_priority_rank(priority);
    let sa = specificity(rule, name);
    let sb = if exact_match(text, name) {
        2int
    } else {
        1int
    };
    let aa = spec_action_rank(rule.action);
    let ab = spec_action_rank(action);
    ||| ra < rb
    ||| ra == rb && sa > sb
    ||| ra == rb && sa == sb && aa < ab
    ||| ra == rb && sa == sb && aa == ab && rule_byte_len(rule) < (encode_utf8(text).len() as usize)
}

/// What appending a rule gives, read from the verdict before.
pub open spec fn verdict_after_append(v: Verdict, rule: DomainRule, name: Seq<char>) -> Verdict {
    if is_candidate(rule, name) && match v.matched_rule {
        None => true,
        Some(t) => precedes(rule, v.priority, v.action, t, name),
    } {
        Verdict { action: rule.action, priority: rule.priority, matched_rule: Some(rule.domain@) }
    } else {
        v
    }
}

/// Appending a rule changes the verdict as a function of the verdict before.
pub proof fn lemma_append_by_verdict(rules: Seq<DomainRule>, rule: DomainRule, name: Seq<char>)
    ensures
        verdict(rules.push(rule), name) == verdict_after_append(verdict(rules, name), rule, name),
{
    law_append_rule(rules, rule, name);
}

/// The enabled rules of a list, in order.
pub open spec fn enabled_rules(rules: Seq<DomainRule>) -> Seq<DomainRule> {
    rules.filter(|r: DomainRule| r.enabled)
}

/// Law: disabled rules never affect the verdict, wherever they stand: the
/// verdict of a list is that of its enabled rules alone; in particular a
/// list of disabled rules allows every domain by default.
pub proof fn law_disabled_rules_irrelevant(rules: Seq<DomainRule>, name: Seq<char>)
    ensures
        verdict(enabled_rules(rules), name) == verdict(rules, name),
        (forall|i: int| 0 <= i < rules.len() ==> !(#[trigger] rules[i]).enabled) ==> verdict(
            rules,
            name,
        ) == (Verdict {
            action: RuleAction::Allow,
            priority: RulePriority::DefaultAllow,
            matched_rule: None,
        }),
    decreases rules.len(),
{
    if (forall|i: int| 0 <= i < rules.len() ==> !(#[trigger] rules[i]).enabled) {
        assert forall|j: int| 0 <= j < rules.len() implies !is_candidate(
            #[trigger] rules[j],
            name,
        ) by {
            assert(!rules[j].enabled);
        }
        law_default_allow(rules, name);
    }
    if rules.len() > 0 {
        let s = rules.drop_last();
        let x = rules.last();
        assert(rules =~= s.push(x));
        law_disabled_rules_irrelevant(s, name);
        lemma_append_by_verdict(s, x, name);
        reveal_with_fuel(Seq::<DomainRule>::filter, 1);
        assert(enabled_rules(rules) == if x.enabled {
            enabled_rules(s).push(x)
        } else {
            enabled_rules(s)
        });
        if x.enabled {
            lemma_append_by_verdict(enabled_rules(s), x, name);
        }
    } else {
        reveal_with_fuel(Seq::<DomainRule>::filter, 1);
        assert(enabled_rules(rules) == rules);
    }
}

/// Two candidates that neither takes precedence over the other have the same
/// priority and action, and texts equal up to ASCII case (for wildcards, the
/// same text), provided their texts' byte lengths fit in a `usize`.
pub proof fn lemma_tied_candidates(a: DomainRule, b: DomainRule, name: Seq<char>)
    requires
        is_candidate(a, name),
        is_candidate(b, name),
        !beats(a, b, name),
        !beats(b, a, name),
        encode_utf8(a.domain@).len() <= usize::MAX,
        encode_utf8(b.domain@).len() <= usize::MAX,
    ensures
        a.priority == b.priority,
        a.action == b.action,
        eq_ignore_case(a.domain@, b.domain@),
{
    let x = a.domain@;
    let y = b.domain@;
    if !exact_match(x, name) {
        let sx = x.subrange(1, x.len() as int);
        let sy = y.subrange(1, y.len() as int);
        let star = x.subrange(0, 1);
        assert(star =~= y.subrange(0, 1));
        assert(x =~= star + sx);
        assert(y =~= star + sy);
        lemma_encode_concat(star, sx);
        lemma_encode_concat(star, sy);
        if sx.len() < sy.len() {
            lemma_longer_suffix_longer_encoding(name, sx, sy);
        } else if sy.len() < sx.len() {
            lemma_longer_suffix_longer_encoding(name, sy, sx);
        }
        assert(sx.len() == sy.len());
        assert(sx =~= sy);
        assert(x =~= y);
    }
}

/// Law: reordering the rules keeps the verdict's action and priority, and
/// its matched rule up to ASCII case (rules whose texts' byte lengths fit in
/// a `usize`, as those of every string do).
pub proof fn law_reordering_keeps_verdict(
    rules: Seq<DomainRule>,
    reordered: Seq<DomainRule>,
    name: Seq<char>,
)
    requires
        reordered.to_multiset() == rules.to_multiset(),
        forall|i: int|
            0 <= i < rules.len() ==> encode_utf8((#[trigger] rules[i]).domain@).len()
                <= usize::MAX,
    ensures
        verdict(reordered, name).action == verdict(rules, name).action,
        verdict(reordered, name).priority == verdict(rules, name).priority,
        match (verdict(reordered, name).matched_rule, verdict(rules, name).matched_rule) {
            (Some(m1), Some(m2)) => eq_ignore_case(m1, m2),
            (None, None) => true,
            _ => false,
        },
{
    rules.to_multiset_ensures();
    reordered.to_multiset_ensures();
    if exists|j: int| 0 <= j < rules.len() && is_candidate(#[trigger] rules[j], name) {
        let j = choose|j: int| 0 <= j < rules.len() && is_candidate(#[trigger] rules[j], name);
        law_deciding_rule_takes_precedence(rules, name, j);
        let w1 = winner(rules, name)->0;
        let x = rules[w1];
        assert(rules.contains(x));
        assert(reordered.to_multiset().count(x) > 0);
        let k = choose|k: int| 0 <= k < reordered.len() && reordered[k] == x;
        law_deciding_rule_takes_precedence(reordered, name, k);
        let w2 = winner(reordered, name)->0;
        let y = reordered[w2];
        assert(reordered.contains(y));
        assert(rules.to_multiset().count(y) > 0);
        let i = choose|i: int| 0 <= i < rules.len() && rules[i] == y;
        assert(is_candidate(rules[i], name));
        assert(!beats(rules[i], rules[w1], name));
        lemma_tied_candidates(x, y, name);
    } else {
        assert forall|k: int| 0 <= k < reordered.len() implies !is_candidate(
            #[trigger] reordered[k],
            name,
        ) by {
            let y = reordered[k];
            assert(reordered.contains(y));
            assert(rules.to_multiset().count(y) > 0);
            let i = choose|i: int| 0 <= i < rules.len() && rules[i] == y;
            assert(!is_candidate(rules[i], name));
        }
        lemma_no_candidate(reordered, name);
        assert forall|k: int| 0 <= k < rules.len() implies !is_candidate(
            #[trigger] rules[k],
            name,
        ) by {}
        lemma_no_candidate(rules, name);
    }
}

} // verus!
