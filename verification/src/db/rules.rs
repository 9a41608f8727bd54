use vstd::prelude::*;

use crate::text::{clone_opt, opt_view};

verus! {

/// A routing rule as stored: which alerts (by project, environment and level pattern)
/// go to which Feishu group. Rules are tried in order of descending priority.
#[derive(Debug, Clone, PartialEq)]
pub struct RoutingRule {
    pub id: i64,
    pub name: String,
    pub project_match: Option<String>,
    pub environment_match: Option<String>,
    pub level_match: Option<String>,
    pub group_id: i64,
    pub priority: i32,
    pub enabled: i32,
    pub created_at: String,
    pub updated_at: String,
}

/// A rule together with the name of its target group, where that group exists.
#[derive(Debug, Clone, PartialEq)]
pub struct RoutingRuleWithGroup {
    pub rule: RoutingRule,
    pub group_name: Option<String>,
}

/// The fields of a rule to create.
#[derive(Debug, Clone, PartialEq)]
pub struct CreateRule {
    pub name: String,
    pub project_match: Option<String>,
    pub environment_match: Option<String>,
    pub level_match: Option<String>,
    pub group_id: i64,
    pub priority: Option<i32>,
    pub enabled: Option<bool>,
}

/// The fields of a rule to change; an absent field keeps its stored value.
#[derive(Debug, Clone, PartialEq)]
pub struct UpdateRule {
    pub name: Option<String>,
    pub project_match: Option<String>,
    pub environment_match: Option<String>,
    pub level_match: Option<String>,
    pub group_id: Option<i64>,
    pub priority: Option<i32>,
    pub enabled: Option<bool>,
}

/// The column values written for a rule by an insert or an update.
#[derive(Debug, Clone, PartialEq)]
pub struct RuleColumns {
    pub name: String,
    pub project_match: Option<String>,
    pub environment_match: Option<String>,
    pub level_match: Option<String>,
    pub group_id: i64,
    pub priority: i32,
    pub enabled: i32,
}

/// The stored form of an enabled flag.
pub open spec fn flag_value(b: bool) -> i32 {
    if b {
        1
    } else {
        0
    }
}

/// The first of two optional strings that is present, by characters.
pub open spec fn prefer(a: Option<String>, b: Option<String>) -> Option<Seq<char>> {
    match a {
        Some(x) => Some(x@),
        None => opt_view(b),
    }
}

/// Picks the first present value of two optional strings.
pub fn or_string(a: &Option<String>, b: &Option<String>) -> (r: Option<String>)
    ensures
        opt_view(r) == prefer(*a, *b),
{
    match a {
        Some(x) => Some(x.clone()),
        None => clone_opt(b),
    }
}

impl CreateRule {
    /// The columns inserted for a new rule: priority 0 unless given, enabled unless
    /// said otherwise.
    pub fn columns(&self) -> (r: RuleColumns)
        ensures
            r.name@ == self.name@,
            opt_view(r.project_match) == opt_view(self.project_match),
            opt_view(r.environment_match) == opt_view(self.environment_match),
            opt_view(r.level_match) == opt_view(self.level_match),
            r.group_id == self.group_id,
            r.priority == match self.priority {
                Some(p) => p,
                None => 0,
            },
            r.enabled == flag_value(
                match self.enabled {
                    Some(b) => b,
                    None => true,
                },
            ),
    {
        let priority = match self.priority {
            Some(p) => p,
            None => 0,
        };
        let enabled = match self.enabled {
            Some(b) => b,
            None => true,
        };
        RuleColumns {
            name: self.name.clone(),
            project_match: clone_opt(&self.project_match),
            environment_match: clone_opt(&self.environment_match),
            level_match: clone_opt(&self.level_match),
            group_id: self.group_id,
            priority,
            enabled: if enabled {
                1
            } else {
                0
            },
        }
    }
}

impl UpdateRule {
    /// The columns written when this change is applied to `existing`: each given field
    /// replaces the stored one, each absent field keeps it.
    pub fn merged_with(&self, existing: &RoutingRule) -> (r: RuleColumns)
        ensures
            r.name@ == match self.name {
                Some(n) => n@,
                None => existing.name@,
            },
            opt_view(r.project_match) == prefer(self.project_match, existing.project_match),
            opt_view(r.environment_match) == prefer(
                self.environment_match,
                existing.environment_match,
            ),
            opt_view(r.level_match) == prefer(self.level_match, existing.level_match),
            r.group_id == match self.group_id {
                Some(g) => g,
                None => existing.group_id,
            },
            r.priority == match self.priority {
                Some(p) => p,
                None => existing.priority,
            },
            r.enabled == match self.enabled {
                Some(b) => flag_value(b),
                None => existing.enabled,
            },
    {
        RuleColumns {
            name: match &self.name {
                Some(n) => n.clone(),
                None => existing.name.clone(),
            },
            project_match: or_string(&self.project_match, &existing.project_match),
            environment_match: or_string(&self.environment_match, &existing.environment_match),
            level_match: or_string(&self.level_match, &existing.level_match),
            group_id: match self.group_id {
                Some(g) => g,
                None => existing.group_id,
            },
            priority: match self.priority {
                Some(p) => p,
                None => existing.priority,
            },
            enabled: match self.enabled {
                Some(b) => if b {
                    1
                } else {
                    0
                },
                None => existing.enabled,
            },
        }
    }
}

} // verus!
