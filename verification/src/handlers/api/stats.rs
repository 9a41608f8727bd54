use vstd::prelude::*;

use crate::db::alerts::AlertStats;
use crate::db::rules::RoutingRuleWithGroup;

verus! {

/// The dashboard figures: alert counts, the number of groups, of rules and of enabled
/// rules, and whether webhook signatures are checked.
#[derive(Debug, Clone, PartialEq)]
pub struct DashboardStats {
    pub alerts: AlertStats,
    pub groups_total: usize,
    pub rules_total: usize,
    pub rules_enabled: usize,
    pub sentry_client_secret_set: bool,
}

/// The number of enabled rules (stored enabled flag 1) among the first `n`.
pub open spec fn enabled_count(rules: Seq<RoutingRuleWithGroup>, n: int) -> nat
    decreases n,
{
    if n <= 0 {
        0
    } else if rules[n - 1].rule.enabled == 1 {
        enabled_count(rules, n - 1) + 1
    } else {
        enabled_count(rules, n - 1)
    }
}

proof fn lemma_enabled_count_bound(rules: Seq<RoutingRuleWithGroup>, n: int)
    requires
        0 <= n,
    ensures
        enabled_count(rules, n) <= n,
    decreases n,
{
    if n > 0 {
        lemma_enabled_count_bound(rules, n - 1);
    }
}

/// The number of enabled rules.
pub fn count_enabled(rules: &[RoutingRuleWithGroup]) -> (r: usize)
    ensures
        r == enabled_count(rules@, rules@.len() as int),
{
    let mut count: usize = 0;
    let n = rules.len();
    for i in 0..n
        invariant
            n == rules@.len(),
            count == enabled_count(rules@, i as int),
    {
        proof {
            lemma_enabled_count_bound(rules@, i as int);
        }
        if rules[i].rule.enabled == 1 {
            count = count + 1;
        }
    }
    count
}

/// The dashboard figures.
pub fn dashboard(
    alerts: AlertStats,
    groups_total: usize,
    rules: &[RoutingRuleWithGroup],
    secret_set: bool,
) -> (r: DashboardStats)
    ensures
        r.alerts == alerts,
        r.groups_total == groups_total,
        r.rules_total == rules@.len(),
        r.rules_enabled == enabled_count(rules@, rules@.len() as int),
        r.sentry_client_secret_set == secret_set,
{
    DashboardStats {
        alerts,
        groups_total,
        rules_total: rules.len(),
        rules_enabled: count_enabled(rules),
        sentry_client_secret_set: secret_set,
    }
}

} // verus!
