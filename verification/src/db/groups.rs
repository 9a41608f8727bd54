use vstd::prelude::*;

use crate::db::rules::{or_string, prefer};
use crate::text::{clone_opt, opt_view};

verus! {

/// A Feishu group bot and the look of the cards sent to it.
#[derive(Debug, Clone, PartialEq)]
pub struct FeishuGroup {
    pub id: i64,
    pub name: String,
    pub webhook_url: String,
    pub description: Option<String>,
    pub card_title_template: Option<String>,
    pub card_color: Option<String>,
    /// Stored as 1 (show) or 0 (hide); shown to clients as a boolean.
    pub card_show_details_button: Option<i32>,
    pub card_config_json: Option<String>,
    pub created_at: String,
    pub updated_at: String,
}

/// The fields of a group to create.
#[derive(Debug, Clone, PartialEq)]
pub struct CreateGroup {
    pub name: String,
    pub webhook_url: String,
    pub description: Option<String>,
    pub card_title_template: Option<String>,
    pub card_color: Option<String>,
    pub card_show_details_button: Option<bool>,
    pub card_config_json: Option<String>,
}

/// The fields of a group to change; an absent field keeps its stored value.
#[derive(Debug, Clone, PartialEq)]
pub struct UpdateGroup {
    pub name: Option<String>,
    pub webhook_url: Option<String>,
    pub description: Option<String>,
    pub card_title_template: Option<String>,
    pub card_color: Option<String>,
    pub card_show_details_button: Option<bool>,
    pub card_config_json: Option<String>,
}

/// The column values written for a group by an insert or an update.
#[derive(Debug, Clone, PartialEq)]
pub struct GroupColumns {
    pub name: String,
    pub webhook_url: String,
    pub description: Option<String>,
    pub card_title_template: Option<String>,
    pub card_color: Option<String>,
    pub card_show_details_button: Option<i32>,
    pub card_config_json: Option<String>,
}

/// The stored form of an optional flag: 1 for true, 0 for false.
pub open spec fn stored_flag(b: Option<bool>) -> Option<i32> {
    match b {
        Some(true) => Some(1i32),
        Some(false) => Some(0i32),
        None => None,
    }
}

/// The stored form of an optional flag.
pub fn flag_column(b: Option<bool>) -> (r: Option<i32>)
    ensures
        r == stored_flag(b),
{
    match b {
        Some(true) => Some(1),
        Some(false) => Some(0),
        None => None,
    }
}

/// How a stored flag is shown to clients: true exactly when it is 1.
pub fn show_details_as_bool(v: Option<i32>) -> (r: Option<bool>)
    ensures
        r == match v {
            Some(n) => Some(n == 1),
            None => None,
        },
{
    match v {
        Some(n) => Some(n == 1),
        None => None,
    }
}

impl CreateGroup {
    /// The columns inserted for a new group.
    pub fn columns(&self) -> (r: GroupColumns)
        ensures
            r.name@ == self.name@,
            r.webhook_url@ == self.webhook_url@,
            opt_view(r.description) == opt_view(self.description),
            opt_view(r.card_title_template) == opt_view(self.card_title_template),
            opt_view(r.card_color) == opt_view(self.card_color),
            r.card_show_details_button == stored_flag(self.card_show_details_button),
            opt_view(r.card_config_json) == opt_view(self.card_config_json),
    {
        GroupColumns {
            name: self.name.clone(),
            webhook_url: self.webhook_url.clone(),
            description: clone_opt(&self.description),
            card_title_template: clone_opt(&self.card_title_template),
            card_color: clone_opt(&self.card_color),
            card_show_details_button: flag_column(self.card_show_details_button),
            card_config_json: clone_opt(&self.card_config_json),
        }
    }
}

impl UpdateGroup {
    /// The columns written when this change is applied to `existing`.
    pub fn merged_with(&self, existing: &FeishuGroup) -> (r: GroupColumns)
        ensures
            r.name@ == match self.name {
                Some(n) => n@,
                None => existing.name@,
            },
            r.webhook_url@ == match self.webhook_url {
                Some(u) => u@,
                None => existing.webhook_url@,
            },
            opt_view(r.description) == prefer(self.description, existing.description),
            opt_view(r.card_title_template) == prefer(
                self.card_title_template,
                existing.card_title_template,
            ),
            opt_view(r.card_color) == prefer(self.card_color, existing.card_color),
            r.card_show_details_button == match self.card_show_details_button {
                Some(b) => stored_flag(Some(b)),
                None => existing.card_show_details_button,
            },
            opt_view(r.card_config_json) == prefer(self.card_config_json, existing.card_config_json),
    {
        GroupColumns {
            name: match &self.name {
                Some(n) => n.clone(),
                None => existing.name.clone(),
            },
            webhook_url: match &self.webhook_url {
                Some(u) => u.clone(),
                None => existing.webhook_url.clone(),
            },
            description: or_string(&self.description, &existing.description),
            card_title_template: or_string(&self.card_title_template, &existing.card_title_template),
            card_color: or_string(&self.card_color, &existing.card_color),
            card_show_details_button: match self.card_show_details_button {
                Some(b) => flag_column(Some(b)),
                None => existing.card_show_details_button,
            },
            card_config_json: or_string(&self.card_config_json, &existing.card_config_json),
        }
    }
}

} // verus!
