use vstd::prelude::*;

use crate::cloud::RulesetInfo;

verus! {

/// A rule of a ruleset as the remote API returns it.
#[derive(Debug, Clone)]
pub struct RulesetRule {
    pub id: String,
    pub action: String,
    pub expression: String,
    pub description: String,
    pub enabled: bool,
    pub action_parameters: Option<serde_json::Value>,
    pub last_updated: Option<String>,
}

/// A rule together with the ruleset it belongs to, as the user interface shows it.
#[derive(Debug, Clone)]
pub struct FlatRule {
    pub id: String,
    pub ruleset_id: String,
    pub phase: String,
    pub action: String,
    pub expression: String,
    pub description: String,
    pub enabled: bool,
    pub action_parameters: Option<serde_json::Value>,
}

/// The phases whose rules the user manages here.
pub open spec fn is_user_phase(phase: Seq<char>) -> bool {
    ||| phase == "http_request_dynamic_redirect"@
    ||| phase == "http_request_cache_settings"@
    ||| phase == "http_config_settings"@
    ||| phase == "http_request_late_transform"@
    ||| phase == "http_request_transform"@
    ||| phase == "http_response_headers_transform"@
}

fn same_text(a: &str, b: &str) -> (r: bool)
    ensures
        r == (a@ == b@),
{
    String::from_str(a) == String::from_str(b)
}

/// Whether a ruleset's rules are listed: a zone ruleset of a user phase.
pub fn is_listed_ruleset(kind: &str, phase: &str) -> (r: bool)
    ensures
        r == (kind@ == "zone"@ && is_user_phase(phase@)),
{
    same_text(kind, "zone") && (same_text(phase, "http_request_dynamic_redirect") || same_text(
        phase,
        "http_request_cache_settings",
    ) || same_text(phase, "http_config_settings") || same_text(phase, "http_request_late_transform")
        || same_text(phase, "http_request_transform") || same_text(
        phase,
        "http_response_headers_transform",
    ))
}

/// The ruleset is the zone's ruleset of `phase`.
pub open spec fn is_zone_ruleset_of(r: RulesetInfo, phase: Seq<char>) -> bool {
    r.phase@ == phase && r.kind@ == "zone"@
}

/// The position of the first zone ruleset of `phase`, which a new rule of
/// that phase joins; `None` where a new ruleset must be made.
pub fn find_zone_ruleset(rulesets: &Vec<RulesetInfo>, phase: &str) -> (r: Option<usize>)
    ensures
        match r {
            Some(i) => {
                &&& i < rulesets@.len()
                &&& is_zone_ruleset_of(rulesets@[i as int], phase@)
                &&& forall|j: int| 0 <= j < i ==> !is_zone_ruleset_of(#[trigger] rulesets@[j], phase@)
            },
            None => forall|j: int|
                0 <= j < rulesets@.len() ==> !is_zone_ruleset_of(#[trigger] rulesets@[j], phase@),
        },
{
    let mut i: usize = 0;
    while i < rulesets.len()
        invariant
            i <= rulesets@.len(),
            forall|j: int| 0 <= j < i ==> !is_zone_ruleset_of(#[trigger] rulesets@[j], phase@),
        decreases rulesets@.len() - i,
    {
        let r = &rulesets[i];
        if same_text(r.phase.as_str(), phase) && same_text(r.kind.as_str(), "zone") {
            return Some(i);
        }
        i = i + 1;
    }
    None
}

/// The name a new ruleset of `phase` gets.
pub fn new_ruleset_name(phase: &str) -> (r: String)
    ensures
        r@ == "QTunnel "@ + phase@,
{
    String::from_str("QTunnel ").concat(phase)
}

/// A rule with the ruleset it belongs to.
pub fn flatten_rule(rule: RulesetRule, ruleset_id: String, phase: String) -> (r: FlatRule)
    ensures
        r.id == rule.id,
        r.ruleset_id == ruleset_id,
        r.phase == phase,
        r.action == rule.action,
        r.expression == rule.expression,
        r.description == rule.description,
        r.enabled == rule.enabled,
        r.action_parameters == rule.action_parameters,
{
    FlatRule {
        id: rule.id,
        ruleset_id,
        phase,
        action: rule.action,
        expression: rule.expression,
        description: rule.description,
        enabled: rule.enabled,
        action_parameters: rule.action_parameters,
    }
}

} // verus!
