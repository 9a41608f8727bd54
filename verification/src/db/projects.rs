use vstd::prelude::*;

use crate::db::rules::{or_string, prefer};
use crate::text::opt_view;

verus! {

/// A display name given to a Sentry project identifier.
#[derive(Debug, Clone, PartialEq)]
pub struct SentryProject {
    pub id: i64,
    pub project_id: String,
    pub display_name: String,
    pub description: Option<String>,
    pub created_at: String,
    pub updated_at: String,
}

/// The fields of a project mapping to create (or to overwrite, where the project
/// identifier is already mapped).
#[derive(Debug, Clone, PartialEq)]
pub struct CreateProject {
    pub project_id: String,
    pub display_name: String,
    pub description: Option<String>,
}

/// The fields of a project mapping to change; an absent field keeps its stored value.
#[derive(Debug, Clone, PartialEq)]
pub struct UpdateProject {
    pub project_id: Option<String>,
    pub display_name: Option<String>,
    pub description: Option<String>,
}

/// The column values written for a project mapping by an update.
#[derive(Debug, Clone, PartialEq)]
pub struct ProjectColumns {
    pub project_id: String,
    pub display_name: String,
    pub description: Option<String>,
}

impl UpdateProject {
    /// The columns written when this change is applied to `existing`.
    pub fn merged_with(&self, existing: &SentryProject) -> (r: ProjectColumns)
        ensures
            r.project_id@ == match self.project_id {
                Some(p) => p@,
                None => existing.project_id@,
            },
            r.display_name@ == match self.display_name {
                Some(d) => d@,
                None => existing.display_name@,
            },
            opt_view(r.description) == prefer(self.description, existing.description),
    {
        ProjectColumns {
            project_id: match &self.project_id {
                Some(p) => p.clone(),
                None => existing.project_id.clone(),
            },
            display_name: match &self.display_name {
                Some(d) => d.clone(),
                None => existing.display_name.clone(),
            },
            description: or_string(&self.description, &existing.description),
        }
    }
}

/// The name shown for a project identifier: the mapped display name where the lookup
/// found a mapping, else the identifier itself.
pub fn get_display_name(found: Option<&SentryProject>, project_id: &str) -> (r: String)
    ensures
        r@ == match found {
            Some(p) => p.display_name@,
            None => project_id@,
        },
{
    match found {
        Some(p) => p.display_name.clone(),
        None => project_id.to_owned(),
    }
}

} // verus!
