//! First-match evaluation of the inclusion rules that gate conditional
//! arguments and libraries.
//!
//! A rule list is scanned in order; the first rule whose OS predicate
//! matches the current platform (or which has no predicate) decides the
//! outcome, and an empty or match-free list denies by default.

use vstd::prelude::*;

use crate::text::str_eq;
use crate::GameLauncher;
use crate::Os;

verus! {

/// An optional OS predicate attached to a rule.  `None` matches every
/// platform.
#[derive(Clone, Debug)]
pub struct OsRule {
    pub name: Option<String>,
}

/// One inclusion rule: an optional OS predicate and an action, which is
/// `"allow"` or `"disallow"` in real manifests.  Any other action text
/// behaves as a disallow.
#[derive(Clone, Debug)]
pub struct Rule {
    pub os: Option<OsRule>,
    pub action: String,
}

/// Whether a manifest OS name denotes the platform `os`.  Manifests write
/// `windows`, `linux` and `osx`; any other name matches no platform.
pub open spec fn spec_os_name_matches(name: Seq<char>, os: Os) -> bool {
    ||| (name == "windows"@ && os == Os::Windows)
    ||| (name == "linux"@ && os == Os::Linux)
    ||| (name == "osx"@ && os == Os::MacOs)
}

/// Whether a rule's predicate matches the platform `os`.
pub open spec fn spec_rule_matches(rule: Rule, os: Os) -> bool {
    match rule.os {
        Option::None => true,
        Option::Some(osr) => match osr.name {
            Option::None => true,
            Option::Some(name) => spec_os_name_matches(name@, os),
        },
    }
}

/// First-match rule evaluation: the first rule whose predicate matches
/// decides (`allow` includes, anything else excludes); no match excludes.
pub open spec fn spec_eval_rules(rules: Seq<Rule>, os: Os) -> bool
    decreases rules.len(),
{
    if rules.len() == 0 {
        false
    } else if spec_rule_matches(rules[0], os) {
        rules[0].action@ == "allow"@
    } else {
        spec_eval_rules(rules.drop_first(), os)
    }
}

/// Whether `name` names the platform `os`.
pub fn os_name_matches(name: &str, os: Os) -> (r: bool)
    ensures
        r == spec_os_name_matches(name@, os),
{
    match os {
        Os::Windows => str_eq(name, "windows"),
        Os::Linux => str_eq(name, "linux"),
        Os::MacOs => str_eq(name, "osx"),
        Os::Other => false,
    }
}

/// Evaluates `rules` first-match against the platform `os`.
pub fn evaluate_rule_list(rules: &Vec<Rule>, os: Os) -> (r: bool)
    ensures
        r == spec_eval_rules(rules@, os),
{
    let mut i: usize = 0;
    proof {
        assert(rules@.skip(0) =~= rules@);
    }
    while i < rules.len()
        invariant
            i <= rules@.len(),
            spec_eval_rules(rules@, os) == spec_eval_rules(rules@.skip(i as int), os),
        decreases rules@.len() - i,
    {
        proof {
            assert(rules@.skip(i as int)[0] == rules@[i as int]);
            assert(rules@.skip(i as int).drop_first() =~= rules@.skip(i + 1));
        }
        let rule = &rules[i];
        let matches = match &rule.os {
            Option::None => true,
            Option::Some(osr) => match &osr.name {
                Option::None => true,
                Option::Some(name) => os_name_matches(name.as_str(), os),
            },
        };
        if matches {
            return str_eq(rule.action.as_str(), "allow");
        }
        i = i + 1;
    }
    false
}

impl GameLauncher {
    /// Decides whether a conditional argument or library applies on `os`.
    pub fn evaluate_rules(&self, rules: &Vec<Rule>, os: Os) -> (r: bool)
        ensures
            r == spec_eval_rules(rules@, os),
    {
        evaluate_rule_list(rules, os)
    }
}

/// First-match-wins, spelled out: the first rule whose predicate matches
/// decides the outcome and later rules are never consulted; when no rule
/// matches — in particular for an empty list — the outcome is exclusion.
pub proof fn lemma_first_match_decides(rules: Seq<Rule>, os: Os)
    ensures
        rules.len() > 0 && spec_rule_matches(rules[0], os) ==> spec_eval_rules(rules, os) == (
        rules[0].action@ == "allow"@),
        rules.len() > 0 && !spec_rule_matches(rules[0], os) ==> spec_eval_rules(rules, os)
            == spec_eval_rules(rules.drop_first(), os),
        (forall|i: int| 0 <= i < rules.len() ==> !spec_rule_matches(#[trigger] rules[i], os))
            ==> spec_eval_rules(rules, os) == false,
    decreases rules.len(),
{
    if rules.len() > 0 {
        lemma_first_match_decides(rules.drop_first(), os);
        if forall|i: int| 0 <= i < rules.len() ==> !spec_rule_matches(#[trigger] rules[i], os) {
            assert(forall|i: int|
                0 <= i < rules.drop_first().len() ==> !spec_rule_matches(
                    #[trigger] rules.drop_first()[i],
                    os,
                ));
        }
    }
}

} // verus!
