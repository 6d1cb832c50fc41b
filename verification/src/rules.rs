//! The rule evaluator: decides, per platform, whether a conditional library
//! applies. Rules are scanned in list order and the decision is the action
//! of the last rule whose filter matches; a library with no rule list at
//! all applies everywhere.

use vstd::prelude::*;
use crate::models::{Library, Rule};
use crate::platform::Platform;
use crate::strutil::str_eq;

verus! {

/// A rule matches when it has no platform filter, when its filter has no
/// name, or when the name is the current platform's.
pub open spec fn spec_rule_matches(rule: Rule, platform: Platform) -> bool {
    match rule.os {
        None => true,
        Some(os) => match os.name {
            None => true,
            Some(n) => n@ == platform.spec_name(),
        },
    }
}

/// Last match wins: the decision over a rule list is the action of the last
/// matching rule, and `false` when no rule matches.
pub open spec fn spec_rules_decision(rules: Seq<Rule>, platform: Platform) -> bool
    decreases rules.len(),
{
    if rules.len() == 0 {
        false
    } else if spec_rule_matches(rules.last(), platform) {
        rules.last().action@ == "allow"@
    } else {
        spec_rules_decision(rules.drop_last(), platform)
    }
}

/// Last match wins, not first: when the rule at `k` matches the platform
/// and no later rule does, the decision over the whole list is exactly
/// that rule's action.
pub proof fn lemma_last_match_wins(rules: Seq<Rule>, platform: Platform, k: int)
    requires
        0 <= k < rules.len(),
        spec_rule_matches(rules[k], platform),
        forall|j: int| k < j < rules.len() ==> !spec_rule_matches(#[trigger] rules[j], platform),
    ensures
        spec_rules_decision(rules, platform) == (rules[k].action@ == "allow"@),
    decreases rules.len(),
{
    if k == rules.len() - 1 {
    } else {
        assert(!spec_rule_matches(rules.last(), platform));
        assert(rules.drop_last()[k] == rules[k]);
        assert(forall|j: int|
            k < j < rules.drop_last().len() ==> !spec_rule_matches(
                #[trigger] rules.drop_last()[j],
                platform,
            ));
        lemma_last_match_wins(rules.drop_last(), platform, k);
    }
}

/// A list in which no rule matches the platform excludes the library:
/// the default decision over a present rule list is exclusion.
pub proof fn lemma_no_match_excludes(rules: Seq<Rule>, platform: Platform)
    requires
        forall|j: int| 0 <= j < rules.len() ==> !spec_rule_matches(#[trigger] rules[j], platform),
    ensures
        !spec_rules_decision(rules, platform),
    decreases rules.len(),
{
    if rules.len() > 0 {
        assert(forall|j: int|
            0 <= j < rules.drop_last().len() ==> !spec_rule_matches(
                #[trigger] rules.drop_last()[j],
                platform,
            ));
        lemma_no_match_excludes(rules.drop_last(), platform);
    }
}

/// Whether a library applies on `platform`: the rule-list decision, or
/// unconditionally `true` when the library carries no rules.
pub open spec fn spec_library_allowed(lib: Library, platform: Platform) -> bool {
    match lib.rules {
        None => true,
        Some(rules) => spec_rules_decision(rules@, platform),
    }
}

/// Whether one rule's filter matches the platform.
pub fn rule_matches(rule: &Rule, platform: Platform) -> (r: bool)
    ensures
        r == spec_rule_matches(*rule, platform),
{
    match &rule.os {
        None => true,
        Some(os) => match &os.name {
            None => true,
            Some(n) => {
                let pname = platform.name();
                str_eq(n.as_str(), pname.as_str())
            },
        },
    }
}

/// Evaluates a rule list in order; the last matching rule's action decides.
pub fn rules_decision(rules: &Vec<Rule>, platform: Platform) -> (r: bool)
    ensures
        r == spec_rules_decision(rules@, platform),
{
    let n = rules.len();
    let mut decision = false;
    let mut i: usize = 0;
    while i < n
        invariant
            n == rules@.len(),
            i <= n,
            decision == spec_rules_decision(rules@.take(i as int), platform),
        decreases n - i,
    {
        if rule_matches(&rules[i], platform) {
            decision = str_eq(rules[i].action.as_str(), "allow");
        }
        proof {
            assert(rules@.take(i + 1).drop_last() =~= rules@.take(i as int));
            assert(rules@.take(i + 1).last() == rules@[i as int]);
        }
        i += 1;
    }
    proof {
        assert(rules@.take(n as int) =~= rules@);
    }
    decision
}

/// Whether `lib` should be used on `platform`. Governs both the plain
/// artifact download and the native classifier stage.
pub fn should_use_library(lib: &Library, platform: Platform) -> (r: bool)
    ensures
        r == spec_library_allowed(*lib, platform),
{
    match &lib.rules {
        None => true,
        Some(rules) => rules_decision(rules, platform),
    }
}

} // verus!
