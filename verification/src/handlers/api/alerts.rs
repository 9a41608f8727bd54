use vstd::prelude::*;

use crate::db::alerts::AlertHistory;
use crate::db::groups::FeishuGroup;
use crate::models::feishu::FeishuMessage;
use crate::models::sentry::SentryWebhookPayload;
use crate::services::message_builder::{
    build_message, card_for, config_in_force, time_for, vars_from, CardConfig, TemplateVars,
};
use crate::text::{concat, opt_view, or_default};

verus! {

/// A JSON answer of the admin API: an error, or the outcome of an action.
#[derive(Debug, Clone, PartialEq)]
pub enum ApiReply {
    /// `{"error": ...}` with this status.
    Error { status: u16, error: String },
    /// `{"success": true, "message": ...}` with status 200.
    Done { message: String },
    /// `{"success": false, "error": ...}` with status 400.
    Failed { error: String },
}

/// Where the resending of a recorded alert stands.
#[derive(Debug, Clone, PartialEq)]
pub enum RetryState {
    /// Waiting for the alert.
    Loading { id: i64 },
    /// Waiting for the recorded payload to be read.
    Parsing { id: i64, group_id: i64 },
    /// Waiting for the target group.
    Targeting { id: i64, payload: SentryWebhookPayload },
    /// Waiting for the display name of the alert's project.
    Naming { id: i64, payload: SentryWebhookPayload, group: FeishuGroup, config: Option<CardConfig> },
    /// Waiting for Feishu's answer.
    Delivering { id: i64 },
    /// Answered.
    Done,
}

/// What the outside world reports back.
#[derive(Debug, PartialEq)]
pub enum RetryEvent {
    AlertLoaded { alert: AlertHistory },
    AlertMissing,
    AlertFailed { error: String },
    /// The recorded payload read as a payload, or why it is not one.
    Parsed { result: Result<SentryWebhookPayload, String> },
    GroupLoaded { group: FeishuGroup, config: Option<CardConfig> },
    GroupMissing,
    GroupFailed { error: String },
    NameFound { display_name: String },
    Delivered { result: Result<(), String> },
}

/// A new status (and error) for a recorded alert.
#[derive(Debug, Clone, PartialEq)]
pub struct StatusUpdate {
    pub id: i64,
    pub status: String,
    pub error_message: Option<String>,
}

/// What to do next.
#[derive(Debug, Clone, PartialEq)]
pub enum RetryAction {
    LoadAlert { id: i64 },
    /// Read the recorded payload as a payload.
    ParsePayload { raw_payload: String },
    LoadGroup { group_id: i64 },
    LookupProject { project_id: String },
    Send { webhook_url: String, message: FeishuMessage },
    /// Write the status update, where there is one, then answer.
    Finish { update: Option<StatusUpdate>, reply: ApiReply },
}

/// An error answer.
pub open spec fn is_error_reply(a: RetryAction, status: u16, error: Seq<char>) -> bool {
    a matches RetryAction::Finish { update: None, reply: ApiReply::Error { status: s, error: e } } && s
        == status && e@ == error
}

/// The state and event fit together.
pub open spec fn retry_accepts(state: RetryState, event: RetryEvent) -> bool {
    match state {
        RetryState::Loading { .. } => event is AlertLoaded || event is AlertMissing || event is AlertFailed,
        RetryState::Parsing { .. } => event is Parsed,
        RetryState::Targeting { .. } => event is GroupLoaded || event is GroupMissing || event is GroupFailed,
        RetryState::Naming { .. } => event is NameFound,
        RetryState::Delivering { .. } => event is Delivered,
        RetryState::Done => false,
    }
}

fn error_reply(status: u16, error: String) -> (r: RetryAction)
    ensures
        is_error_reply(r, status, error@),
{
    RetryAction::Finish { update: None, reply: ApiReply::Error { status, error } }
}

/// The first step of resending a recorded alert: load it.
pub fn retry_start(id: i64) -> (r: (RetryState, RetryAction))
    ensures
        r.0 == (RetryState::Loading { id }),
        r.1 == (RetryAction::LoadAlert { id }),
{
    (RetryState::Loading { id }, RetryAction::LoadAlert { id })
}

/// One step of resending a recorded alert.
///
/// With the alert: 404 where it is missing, 500 where it could not be loaded, 400
/// where it has no recorded payload or no target group; else read the payload. With
/// the payload: 400 where it does not read; else load the group. With the group: 404
/// where it is missing, 500 where it could not be loaded; else look up the project's
/// display name. With the name: send the group's card. With Feishu's answer: mark the
/// alert `success` and report it, or mark it `failed` with the error and report that.
pub fn retry_step(state: RetryState, event: RetryEvent) -> (r: (RetryState, RetryAction))
    requires
        retry_accepts(state, event),
    ensures
        r.1 is Finish <==> r.0 is Done,
        state is Loading && event is AlertMissing ==> is_error_reply(r.1, 404, "Alert not found"@),
        event matches RetryEvent::AlertFailed { error } ==> is_error_reply(r.1, 500, error@),
        state matches RetryState::Loading { id } ==> (event matches RetryEvent::AlertLoaded { alert } ==> (
            match (alert.raw_payload, alert.target_group_id) {
                (None, _) => is_error_reply(r.1, 400, "No raw payload available"@),
                (Some(_), None) => is_error_reply(r.1, 400, "No target group"@),
                (Some(raw), Some(group_id)) => r.0 == (RetryState::Parsing { id, group_id }) && r.1
                    == (RetryAction::ParsePayload { raw_payload: raw }),
            })),
        state matches RetryState::Parsing { id, group_id } ==> (event matches RetryEvent::Parsed { result } ==> (
            match result {
                Err(e) => is_error_reply(r.1, 400, "Invalid payload: "@ + e@),
                Ok(payload) => r.0 == (RetryState::Targeting { id, payload }) && r.1 == (RetryAction::LoadGroup { group_id }),
            })),
        state is Targeting && event is GroupMissing ==> is_error_reply(r.1, 404, "Target group not found"@),
        event matches RetryEvent::GroupFailed { error } ==> is_error_reply(r.1, 500, error@),
        state matches RetryState::Targeting { id, payload } ==> (event matches RetryEvent::GroupLoaded { group, config } ==> (
            r.0 == (RetryState::Naming { id, payload, group, config }) && (r.1 matches RetryAction::LookupProject { project_id }
                && project_id@ == or_default(payload.spec_project(), "Unknown"@)))),
        state matches RetryState::Naming { id, payload, group, config } ==> (event matches RetryEvent::NameFound { display_name } ==> (
            r.0 == (RetryState::Delivering { id }) && (r.1 matches RetryAction::Send { webhook_url, message }
                && webhook_url@ == group.webhook_url@ && exists|ts: Seq<char>| time_for(payload, ts) && message@ == card_for(group, config_in_force(config), vars_from(payload, display_name@, ts))))),
        state matches RetryState::Delivering { id } ==> (event matches RetryEvent::Delivered { result } ==> (
            r.1 matches RetryAction::Finish { update: Some(u), reply } && u.id == id && match result {
                Ok(()) => u.status@ == "success"@ && u.error_message is None && (reply matches ApiReply::Done { message }
                    && message@ == "Alert resent successfully"@),
                Err(e) => u.status@ == "failed"@ && opt_view(u.error_message) == Some(e@) && (reply matches ApiReply::Failed { error }
                    && error@ == e@),
            })),
{
    match state {
        RetryState::Loading { id } => match event {
            RetryEvent::AlertLoaded { alert } => match (alert.raw_payload, alert.target_group_id) {
                (None, _) => (RetryState::Done, error_reply(400, "No raw payload available".to_owned())),
                (Some(_), None) => (RetryState::Done, error_reply(400, "No target group".to_owned())),
                (Some(raw), Some(group_id)) => (
                    RetryState::Parsing { id, group_id },
                    RetryAction::ParsePayload { raw_payload: raw },
                ),
            },
            RetryEvent::AlertFailed { error } => (RetryState::Done, error_reply(500, error)),
            _ => (RetryState::Done, error_reply(404, "Alert not found".to_owned())),
        },
        RetryState::Parsing { id, group_id } => match event {
            RetryEvent::Parsed { result: Ok(payload) } => (
                RetryState::Targeting { id, payload },
                RetryAction::LoadGroup { group_id },
            ),
            RetryEvent::Parsed { result: Err(e) } => (
                RetryState::Done,
                error_reply(400, concat("Invalid payload: ", e.as_str())),
            ),
            _ => (RetryState::Done, error_reply(500, String::new())),
        },
        RetryState::Targeting { id, payload } => match event {
            RetryEvent::GroupLoaded { group, config } => {
                let project_id = TemplateVars::project_lookup_key(&payload);
                (RetryState::Naming { id, payload, group, config }, RetryAction::LookupProject { project_id })
            },
            RetryEvent::GroupFailed { error } => (RetryState::Done, error_reply(500, error)),
            _ => (RetryState::Done, error_reply(404, "Target group not found".to_owned())),
        },
        RetryState::Naming { id, payload, group, config } => match event {
            RetryEvent::NameFound { display_name } => {
                let message = build_message(&group, &payload, config, display_name);
                (RetryState::Delivering { id }, RetryAction::Send { webhook_url: group.webhook_url, message })
            },
            _ => (RetryState::Done, error_reply(500, String::new())),
        },
        RetryState::Delivering { id } => match event {
            RetryEvent::Delivered { result: Ok(()) } => (
                RetryState::Done,
                RetryAction::Finish {
                    update: Some(StatusUpdate { id, status: "success".to_owned(), error_message: None }),
                    reply: ApiReply::Done { message: "Alert resent successfully".to_owned() },
                },
            ),
            RetryEvent::Delivered { result: Err(e) } => {
                let error_message = Some(e.clone());
                (
                    RetryState::Done,
                    RetryAction::Finish {
                        update: Some(StatusUpdate { id, status: "failed".to_owned(), error_message }),
                        reply: ApiReply::Failed { error: e },
                    },
                )
            },
            _ => (RetryState::Done, error_reply(500, String::new())),
        },
        RetryState::Done => (RetryState::Done, error_reply(500, String::new())),
    }
}

} // verus!
