use vstd::prelude::*;
use vstd::utf8::encode_utf8;

use crate::db::alerts::CreateAlert;
use crate::db::groups::FeishuGroup;
use crate::db::rules::RoutingRule;
use crate::models::feishu::FeishuMessage;
use crate::models::sentry::SentryWebhookPayload;
use crate::services::message_builder::{
    build_message, card_for, config_in_force, time_for, vars_from, CardConfig, TemplateVars,
};
use crate::handlers::admin::hex_lower;
use crate::services::router::{match_rule, rule_matches_payload};
use crate::services::signature::{hmac_sha256, verify_sentry_signature};
use crate::text::{opt_view, or_default, str_equal};

verus! {

/// What the webhook endpoint knows of a request once it has read it.
#[derive(Debug, Clone, PartialEq)]
pub struct WebhookRequest {
    /// The client secret, where one is configured: then the request must be signed.
    pub secret: Option<String>,
    /// The `sentry-hook-signature` header, or empty.
    pub signature: String,
    /// The body.
    pub body: Vec<u8>,
    /// The `sentry-hook-resource` header, or empty.
    pub resource: String,
    /// The body as text.
    pub raw_payload: String,
}

/// Where the handling of a webhook stands.
#[derive(Debug, Clone, PartialEq)]
pub enum WebhookState {
    /// The signature is accepted; waiting for the body read as a payload.
    Reading { resource: String, raw_payload: String },
    /// Waiting for the enabled rules, highest priority first.
    Routing { payload: SentryWebhookPayload, raw_payload: String },
    /// Waiting for the group of the matched rule.
    Targeting { payload: SentryWebhookPayload, raw_payload: String, rule_id: i64, group_id: i64 },
    /// Waiting for the display name of the alert's project.
    Naming {
        payload: SentryWebhookPayload,
        raw_payload: String,
        rule_id: i64,
        group: FeishuGroup,
        config: Option<CardConfig>,
    },
    /// Waiting for Feishu's answer.
    Delivering {
        payload: SentryWebhookPayload,
        raw_payload: String,
        rule_id: i64,
        group_id: i64,
        group_name: String,
    },
    /// Answered.
    Done,
}

/// What the outside world reports back.
#[derive(Debug, PartialEq)]
pub enum WebhookEvent {
    /// The body read as a payload, where it is one.
    PayloadRead { payload: Option<SentryWebhookPayload> },
    RulesLoaded { rules: Vec<RoutingRule> },
    RulesFailed,
    /// The group, and its card configuration where its JSON held a valid one.
    GroupLoaded { group: FeishuGroup, config: Option<CardConfig> },
    GroupMissing,
    GroupFailed,
    NameFound { display_name: String },
    /// Whether Feishu took the message, and why not.
    Delivered { result: Result<(), String> },
}

/// What to do next.
#[derive(Debug, Clone, PartialEq)]
pub enum WebhookAction {
    /// Read the body as a payload.
    ReadPayload,
    /// Load the enabled rules, highest priority first.
    LoadRules,
    /// Load a group with its card configuration.
    LoadGroup { group_id: i64 },
    /// Look up the display name of a project.
    LookupProject { project_id: String },
    /// Send a message to a group's webhook.
    Send { webhook_url: String, message: FeishuMessage },
    /// Write the record, where there is one, then answer with this status and text.
    Finish { record: Option<CreateAlert>, status: u16, body: String },
}

// ---------------------------------------------------------------------------
// Specification
// ---------------------------------------------------------------------------

/// Only the two alert resources are forwarded: a resource is an alert resource exactly
/// when it is `event_alert` or `metric_alert`, so `issue`, `installation` and every
/// other resource are not.
pub proof fn law_forwarded_resources(resource: Seq<char>)
    ensures
        is_alert_resource(resource) ==> resource == "event_alert"@ || resource == "metric_alert"@,
        is_alert_resource("event_alert"@),
        is_alert_resource("metric_alert"@),
        !is_alert_resource("issue"@),
        !is_alert_resource("installation"@),
{
    reveal_strlit("event_alert");
    reveal_strlit("metric_alert");
    reveal_strlit("issue");
    reveal_strlit("installation");
    assert("issue"@.len() != "event_alert"@.len());
    assert("issue"@.len() != "metric_alert"@.len());
    assert("installation"@[0] != "event_alert"@[0]);
    assert("installation"@[0] != "metric_alert"@[0]);
}

/// Whether a request passes the signature check: no secret is configured, or the
/// signature header is the signature of the body under the secret.
pub open spec fn signature_accepted(req: WebhookRequest) -> bool {
    match req.secret {
        Some(secret) => req.signature@ == hex_lower(hmac_sha256(encode_utf8(secret@), req.body@)),
        None => true,
    }
}

/// The resources that are forwarded.
pub open spec fn is_alert_resource(resource: Seq<char>) -> bool {
    resource == "event_alert"@ || resource == "metric_alert"@
}

/// The record of a request whose signature did not verify.
pub open spec fn is_rejection_record(rec: CreateAlert, raw: Seq<char>) -> bool {
    &&& rec.sentry_event_id is None
    &&& rec.issue_id is None
    &&& rec.project is None
    &&& rec.environment is None
    &&& rec.platform is None
    &&& opt_view(rec.title) == Some("Security: Invalid Signature"@)
    &&& opt_view(rec.message) == Some("Webhook signature verification failed"@)
    &&& opt_view(rec.level) == Some("error"@)
    &&& rec.web_url is None
    &&& rec.triggered_rule is None
    &&& rec.matched_rule_id is None
    &&& rec.target_group_id is None
    &&& rec.target_group_name is None
    &&& rec.status@ == "verification_failed"@
    &&& opt_view(rec.error_message) == Some("Invalid or missing sentry-hook-signature"@)
    &&& opt_view(rec.raw_payload) == Some(raw)
}

/// The record of a payload: its details, the rule and group it went to, and the outcome.
pub open spec fn is_payload_record(
    rec: CreateAlert,
    payload: SentryWebhookPayload,
    rule_id: Option<i64>,
    group_id: Option<i64>,
    group_name: Option<Seq<char>>,
    status: Seq<char>,
    error: Option<Seq<char>>,
    raw: Seq<char>,
) -> bool {
    &&& opt_view(rec.sentry_event_id) == payload.spec_event_id()
    &&& opt_view(rec.issue_id) == payload.spec_issue_id()
    &&& opt_view(rec.project) == payload.spec_project()
    &&& opt_view(rec.environment) == payload.spec_environment()
    &&& opt_view(rec.platform) == payload.spec_platform()
    &&& opt_view(rec.title) == payload.spec_title()
    &&& opt_view(rec.message) == payload.spec_message()
    &&& opt_view(rec.level) == payload.spec_level()
    &&& opt_view(rec.web_url) == payload.spec_web_url()
    &&& opt_view(rec.triggered_rule) == payload.spec_triggered_rule()
    &&& rec.matched_rule_id == rule_id
    &&& rec.target_group_id == group_id
    &&& opt_view(rec.target_group_name) == group_name
    &&& rec.status@ == status
    &&& opt_view(rec.error_message) == error
    &&& opt_view(rec.raw_payload) == Some(raw)
}

/// An answer without a record.
pub open spec fn is_plain_finish(a: WebhookAction, status: u16, body: Seq<char>) -> bool {
    a matches WebhookAction::Finish { record: None, status: s, body: b } && s == status && b@ == body
}

/// The state and event fit together.
pub open spec fn accepts(state: WebhookState, event: WebhookEvent) -> bool {
    match state {
        WebhookState::Reading { .. } => event is PayloadRead,
        WebhookState::Routing { .. } => event is RulesLoaded || event is RulesFailed,
        WebhookState::Targeting { .. } => event is GroupLoaded || event is GroupMissing
            || event is GroupFailed,
        WebhookState::Naming { .. } => event is NameFound,
        WebhookState::Delivering { .. } => event is Delivered,
        WebhookState::Done => false,
    }
}

// ---------------------------------------------------------------------------
// Executable
// ---------------------------------------------------------------------------

fn text_of(s: &str) -> (r: Option<String>)
    ensures
        opt_view(r) == Some(s@),
{
    Some(s.to_owned())
}

/// The record of a request whose signature did not verify.
fn rejection_record(raw: String) -> (r: CreateAlert)
    ensures
        is_rejection_record(r, raw@),
{
    CreateAlert {
        sentry_event_id: None,
        issue_id: None,
        project: None,
        environment: None,
        platform: None,
        title: text_of("Security: Invalid Signature"),
        message: text_of("Webhook signature verification failed"),
        level: text_of("error"),
        web_url: None,
        triggered_rule: None,
        matched_rule_id: None,
        target_group_id: None,
        target_group_name: None,
        status: "verification_failed".to_owned(),
        error_message: text_of("Invalid or missing sentry-hook-signature"),
        raw_payload: Some(raw),
    }
}

/// The record of a payload.
pub fn payload_record(
    payload: &SentryWebhookPayload,
    rule_id: Option<i64>,
    group_id: Option<i64>,
    group_name: Option<String>,
    status: &str,
    error: Option<String>,
    raw: String,
) -> (r: CreateAlert)
    ensures
        is_payload_record(
            r,
            *payload,
            rule_id,
            group_id,
            opt_view(group_name),
            status@,
            opt_view(error),
            raw@,
        ),
{
    CreateAlert {
        sentry_event_id: payload.get_event_id(),
        issue_id: payload.get_issue_id(),
        project: payload.get_project(),
        environment: payload.get_environment(),
        platform: payload.get_platform(),
        title: payload.get_title(),
        message: payload.get_message(),
        level: payload.get_level(),
        web_url: payload.get_web_url(),
        triggered_rule: payload.get_triggered_rule(),
        matched_rule_id: rule_id,
        target_group_id: group_id,
        target_group_name: group_name,
        status: status.to_owned(),
        error_message: error,
        raw_payload: Some(raw),
    }
}

fn finish(status: u16, body: &str) -> (r: WebhookAction)
    ensures
        is_plain_finish(r, status, body@),
{
    WebhookAction::Finish { record: None, status, body: body.to_owned() }
}

/// The first step of handling a webhook request: where a client secret is configured,
/// reject a request whose `sentry-hook-signature` is not the HMAC-SHA256 of its body
/// (401, recorded); else read the body.
pub fn webhook_start(req: WebhookRequest) -> (r: (WebhookState, WebhookAction))
    ensures
        r.1 is Finish <==> r.0 is Done,
        !signature_accepted(req) ==> r.0 is Done && (r.1 matches WebhookAction::Finish { record: Some(rec), status, body }
            && status == 401 && body@ == "Invalid signature"@ && is_rejection_record(rec, req.raw_payload@)),
        signature_accepted(req) ==> r.0 == (WebhookState::Reading {
            resource: req.resource,
            raw_payload: req.raw_payload,
        }) && r.1 is ReadPayload,
{
    let accepted = match &req.secret {
        Some(secret) => verify_sentry_signature(req.body.as_slice(), req.signature.as_str(), secret.as_str()),
        None => true,
    };
    if !accepted {
        return (
            WebhookState::Done,
            WebhookAction::Finish {
                record: Some(rejection_record(req.raw_payload)),
                status: 401,
                body: "Invalid signature".to_owned(),
            },
        );
    }
    (WebhookState::Reading { resource: req.resource, raw_payload: req.raw_payload }, WebhookAction::ReadPayload)
}

/// One step of handling a webhook request, from a report of the outside work.
///
/// With the body read: answer 400 where it is not a payload, 200 (ignored) for a
/// resource other than `event_alert` and `metric_alert`, else load the rules. With the
/// rules: answer 500 where they could not be loaded; record the payload as
/// `no_match` and answer 200 where no rule matches; else load the group of the first
/// matching rule. With the group: answer 500 where it is missing or could not be
/// loaded; else look up the project's display name. With the name: send the group's
/// card. With Feishu's answer: record the payload as `success` or `failed` and answer
/// 200 or 500.
pub fn webhook_step(state: WebhookState, event: WebhookEvent) -> (r: (WebhookState, WebhookAction))
    requires
        accepts(state, event),
    ensures
        r.1 is Finish <==> r.0 is Done,
        state matches WebhookState::Reading { resource, raw_payload } ==> (event matches WebhookEvent::PayloadRead { payload } ==> match payload {
            None => is_plain_finish(r.1, 400, "Invalid payload"@),
            Some(p) => if resource@ == "event_alert"@ || resource@ == "metric_alert"@ {
                r.0 == (WebhookState::Routing { payload: p, raw_payload }) && r.1 is LoadRules
            } else {
                is_plain_finish(r.1, 200, "Ignored"@)
            },
        }),
        state is Routing && event is RulesFailed ==> is_plain_finish(r.1, 500, "Database error"@),
        state matches WebhookState::Routing { payload, raw_payload } ==> (event matches WebhookEvent::RulesLoaded { rules } ==> {
            ||| (forall|k: int| 0 <= k < rules@.len() ==> !rule_matches_payload(rules@[k], payload))
                && (r.1 matches WebhookAction::Finish { record: Some(rec), status, body } && status == 200
                && body@ == "No matching rule"@ && is_payload_record(rec, payload, None, None, None,
                "no_match"@, Some("No matching routing rule"@), raw_payload@))
            ||| exists|i: int|
                0 <= i < rules@.len() && rule_matches_payload(rules@[i], payload) && (forall|k: int|
                    0 <= k < i ==> !rule_matches_payload(rules@[k], payload)) && r.0 == (WebhookState::Targeting {
                    payload,
                    raw_payload,
                    rule_id: rules@[i].id,
                    group_id: rules@[i].group_id,
                }) && r.1 == (WebhookAction::LoadGroup { group_id: rules@[i].group_id })
        }),
        state is Targeting && event is GroupFailed ==> is_plain_finish(r.1, 500, "Database error"@),
        state is Targeting && event is GroupMissing ==> is_plain_finish(r.1, 500, "Group not found"@),
        state matches WebhookState::Targeting { payload, raw_payload, rule_id, .. } ==> (event matches WebhookEvent::GroupLoaded { group, config } ==> (
            r.0 == (WebhookState::Naming { payload, raw_payload, rule_id, group, config })
            && (r.1 matches WebhookAction::LookupProject { project_id } && project_id@ == or_default(
                payload.spec_project(),
                "Unknown"@,
            )))),
        state matches WebhookState::Naming { payload, raw_payload, rule_id, group, config } ==> (event matches WebhookEvent::NameFound { display_name } ==> (
            r.0 == (WebhookState::Delivering {
                payload,
                raw_payload,
                rule_id,
                group_id: group.id,
                group_name: group.name,
            }) && (r.1 matches WebhookAction::Send { webhook_url, message } && webhook_url@ == group.webhook_url@
                && exists|ts: Seq<char>| time_for(payload, ts) && message@ == card_for(group, config_in_force(config), vars_from(payload, display_name@, ts))))),
        state matches WebhookState::Delivering { payload, raw_payload, rule_id, group_id, group_name } ==> (event matches WebhookEvent::Delivered { result } ==> (
            r.1 matches WebhookAction::Finish { record: Some(rec), status, body } && match result {
                Ok(()) => status == 200 && body@ == "OK"@ && is_payload_record(rec, payload, Some(rule_id),
                    Some(group_id), Some(group_name@), "success"@, None, raw_payload@),
                Err(e) => status == 500 && body@ == "Failed to send alert"@ && is_payload_record(rec, payload,
                    Some(rule_id), Some(group_id), Some(group_name@), "failed"@, Some(e@), raw_payload@),
            })),
{
    match state {
        WebhookState::Reading { resource, raw_payload } => match event {
            WebhookEvent::PayloadRead { payload: Some(payload) } => {
                if str_equal(resource.as_str(), "event_alert") || str_equal(resource.as_str(), "metric_alert") {
                    (WebhookState::Routing { payload, raw_payload }, WebhookAction::LoadRules)
                } else {
                    (WebhookState::Done, finish(200, "Ignored"))
                }
            },
            _ => (WebhookState::Done, finish(400, "Invalid payload")),
        },
        WebhookState::Routing { payload, raw_payload } => match event {
            WebhookEvent::RulesLoaded { rules } => {
                match match_rule(&payload, rules.as_slice()) {
                    Some(rule) => {
                        let rule_id = rule.id;
                        let group_id = rule.group_id;
                        (
                            WebhookState::Targeting { payload, raw_payload, rule_id, group_id },
                            WebhookAction::LoadGroup { group_id },
                        )
                    },
                    None => {
                        let record = payload_record(
                            &payload,
                            None,
                            None,
                            None,
                            "no_match",
                            text_of("No matching routing rule"),
                            raw_payload,
                        );
                        (
                            WebhookState::Done,
                            WebhookAction::Finish {
                                record: Some(record),
                                status: 200,
                                body: "No matching rule".to_owned(),
                            },
                        )
                    },
                }
            },
            _ => (WebhookState::Done, finish(500, "Database error")),
        },
        WebhookState::Targeting { payload, raw_payload, rule_id, group_id: _ } => match event {
            WebhookEvent::GroupLoaded { group, config } => {
                let project_id = TemplateVars::project_lookup_key(&payload);
                (
                    WebhookState::Naming { payload, raw_payload, rule_id, group, config },
                    WebhookAction::LookupProject { project_id },
                )
            },
            WebhookEvent::GroupMissing => (WebhookState::Done, finish(500, "Group not found")),
            _ => (WebhookState::Done, finish(500, "Database error")),
        },
        WebhookState::Naming { payload, raw_payload, rule_id, group, config } => match event {
            WebhookEvent::NameFound { display_name } => {
                let message = build_message(&group, &payload, config, display_name);
                let webhook_url = group.webhook_url.clone();
                let group_id = group.id;
                let group_name = group.name;
                (
                    WebhookState::Delivering { payload, raw_payload, rule_id, group_id, group_name },
                    WebhookAction::Send { webhook_url, message },
                )
            },
            _ => (WebhookState::Done, finish(500, "Database error")),
        },
        WebhookState::Delivering { payload, raw_payload, rule_id, group_id, group_name } => match event {
            WebhookEvent::Delivered { result } => {
                let (status, body, outcome, error) = match result {
                    Ok(()) => (200u16, "OK", "success", None),
                    Err(e) => (500u16, "Failed to send alert", "failed", Some(e)),
                };
                let record = payload_record(
                    &payload,
                    Some(rule_id),
                    Some(group_id),
                    Some(group_name),
                    outcome,
                    error,
                    raw_payload,
                );
                (WebhookState::Done, WebhookAction::Finish { record: Some(record), status, body: body.to_owned() })
            },
            _ => (WebhookState::Done, finish(500, "Database error")),
        },
        WebhookState::Done => (WebhookState::Done, finish(500, "Database error")),
    }
}

} // verus!
