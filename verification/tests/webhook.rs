use feishu_bot::db::alerts::AlertHistory;
use feishu_bot::db::groups::FeishuGroup;
use feishu_bot::db::rules::RoutingRule;
use feishu_bot::handlers::api::alerts::{retry_start, retry_step, ApiReply, RetryAction, RetryEvent, RetryState};
use feishu_bot::handlers::api::groups::{test_group_message, test_group_reply};
use feishu_bot::handlers::webhook::{
    payload_record, webhook_start, webhook_step, WebhookAction, WebhookEvent, WebhookRequest,
    WebhookState,
};
use feishu_bot::models::sentry::{SentryData, SentryEvent, SentryWebhookPayload};

fn event() -> SentryEvent {
    SentryEvent {
        event_id: Some("ev".into()),
        url: None,
        web_url: Some("https://sentry.io/i/1".into()),
        issue_url: None,
        issue_id: Some("is".into()),
        project: Some("web".into()),
        project_slug: None,
        project_name: None,
        environment: Some("production".into()),
        event_type: None,
        message: Some("msg".into()),
        title: Some("Boom".into()),
        culprit: None,
        timestamp: None,
        datetime: None,
        platform: Some("node".into()),
        level: Some("error".into()),
        tags: vec![],
        user: None,
    }
}

fn payload() -> SentryWebhookPayload {
    SentryWebhookPayload {
        action: "triggered".into(),
        data: SentryData {
            event: Some(event()),
            triggered_rule: Some("r".into()),
            issue_alert: None,
            metric_alert: None,
            description_text: None,
            description_title: None,
            web_url: None,
        },
        actor: None,
    }
}

const BODY: &[u8] = b"what do ya want for nothing?";
const GOOD: &str = "5bdcc146bf60754e6a042426089575c75a003f089d2739839dec58b964ec3843";

fn request(secret: Option<&str>, signature: &str, resource: &str) -> WebhookRequest {
    WebhookRequest {
        secret: secret.map(|s| s.to_string()),
        signature: signature.into(),
        body: BODY.to_vec(),
        resource: resource.into(),
        raw_payload: "{raw}".into(),
    }
}

/// Starts a request and, where the body is to be read, reports `payload` as what it reads.
fn begin(
    secret: Option<&str>,
    signature: &str,
    payload: Option<SentryWebhookPayload>,
    resource: &str,
) -> (WebhookState, WebhookAction) {
    let (s, a) = webhook_start(request(secret, signature, resource));
    match a {
        WebhookAction::ReadPayload => webhook_step(s, WebhookEvent::PayloadRead { payload }),
        other => (s, other),
    }
}

fn rule(id: i64, project: Option<&str>, level: Option<&str>, group_id: i64) -> RoutingRule {
    RoutingRule {
        id,
        name: format!("rule{}", id),
        project_match: project.map(|s| s.to_string()),
        environment_match: None,
        level_match: level.map(|s| s.to_string()),
        group_id,
        priority: 0,
        enabled: 1,
        created_at: String::new(),
        updated_at: String::new(),
    }
}

fn group() -> FeishuGroup {
    FeishuGroup {
        id: 9,
        name: "ops".into(),
        webhook_url: "https://hook".into(),
        description: None,
        card_title_template: None,
        card_color: None,
        card_show_details_button: None,
        card_config_json: None,
        created_at: String::new(),
        updated_at: String::new(),
    }
}

fn finish_of(a: &WebhookAction) -> (u16, String) {
    match a {
        WebhookAction::Finish { status, body, .. } => (*status, body.clone()),
        _ => panic!("finish expected"),
    }
}

#[test]
fn bad_signature_is_rejected_and_recorded() {
    let (s, a) = begin(Some("Jefe"), "bad", Some(payload()), "event_alert");
    assert_eq!(s, WebhookState::Done);
    match a {
        WebhookAction::Finish { record: Some(rec), status, body } => {
            assert_eq!(status, 401);
            assert_eq!(body, "Invalid signature");
            assert_eq!(rec.status, "verification_failed");
            assert_eq!(rec.title, Some("Security: Invalid Signature".to_string()));
            assert_eq!(rec.error_message, Some("Invalid or missing sentry-hook-signature".to_string()));
            assert_eq!(rec.raw_payload, Some("{raw}".to_string()));
            assert_eq!(rec.project, None);
        }
        _ => panic!("finish expected"),
    }
}

#[test]
fn missing_signature_is_rejected_when_a_secret_is_set() {
    let (s, a) = begin(Some("Jefe"), "", None, "event_alert");
    assert_eq!(s, WebhookState::Done);
    assert_eq!(finish_of(&a), (401, "Invalid signature".to_string()));
    let (_, a) = begin(Some("other"), GOOD, Some(payload()), "event_alert");
    assert_eq!(finish_of(&a), (401, "Invalid signature".to_string()));
}

#[test]
fn invalid_payload_and_other_resources() {
    let (_, a) = begin(None, "", None, "event_alert");
    assert_eq!(finish_of(&a), (400, "Invalid payload".to_string()));
    let (_, a) = begin(Some("Jefe"), GOOD, Some(payload()), "installation");
    assert_eq!(finish_of(&a), (200, "Ignored".to_string()));
    let (s, a) = begin(Some("Jefe"), GOOD, Some(payload()), "metric_alert");
    assert_eq!(a, WebhookAction::LoadRules);
    assert!(matches!(s, WebhookState::Routing { .. }));
}

#[test]
fn full_delivery_records_success() {
    let (s, a) = begin(None, "ignored", Some(payload()), "event_alert");
    assert_eq!(a, WebhookAction::LoadRules);
    let rules = vec![rule(1, Some("api"), None, 5), rule(2, Some("w*"), Some("error,fatal"), 9), rule(3, None, None, 4)];
    let (s, a) = webhook_step(s, WebhookEvent::RulesLoaded { rules });
    assert_eq!(a, WebhookAction::LoadGroup { group_id: 9 });
    let (s, a) = webhook_step(s, WebhookEvent::GroupLoaded { group: group(), config: None });
    assert_eq!(a, WebhookAction::LookupProject { project_id: "web".into() });
    let (s, a) = webhook_step(s, WebhookEvent::NameFound { display_name: "Web Site".into() });
    match &a {
        WebhookAction::Send { webhook_url, .. } => assert_eq!(webhook_url, "https://hook"),
        _ => panic!("send expected"),
    }
    let (s, a) = webhook_step(s, WebhookEvent::Delivered { result: Ok(()) });
    assert_eq!(s, WebhookState::Done);
    match a {
        WebhookAction::Finish { record: Some(rec), status, body } => {
            assert_eq!((status, body.as_str()), (200, "OK"));
            assert_eq!(rec.status, "success");
            assert_eq!(rec.matched_rule_id, Some(2));
            assert_eq!(rec.target_group_id, Some(9));
            assert_eq!(rec.target_group_name, Some("ops".to_string()));
            assert_eq!(rec.project, Some("web".to_string()));
            assert_eq!(rec.error_message, None);
        }
        _ => panic!("finish expected"),
    }
}

#[test]
fn failed_delivery_records_the_error() {
    let s = WebhookState::Delivering {
        payload: payload(),
        raw_payload: "{raw}".into(),
        rule_id: 1,
        group_id: 2,
        group_name: "g".into(),
    };
    let (_, a) = webhook_step(s, WebhookEvent::Delivered { result: Err("boom".into()) });
    match a {
        WebhookAction::Finish { record: Some(rec), status, body } => {
            assert_eq!((status, body.as_str()), (500, "Failed to send alert"));
            assert_eq!(rec.status, "failed");
            assert_eq!(rec.error_message, Some("boom".to_string()));
        }
        _ => panic!("finish expected"),
    }
}

#[test]
fn no_matching_rule_is_recorded() {
    let s = WebhookState::Routing { payload: payload(), raw_payload: "{raw}".into() };
    let (s, a) = webhook_step(s, WebhookEvent::RulesLoaded { rules: vec![rule(1, Some("api"), None, 5)] });
    assert_eq!(s, WebhookState::Done);
    match a {
        WebhookAction::Finish { record: Some(rec), status, body } => {
            assert_eq!((status, body.as_str()), (200, "No matching rule"));
            assert_eq!(rec.status, "no_match");
            assert_eq!(rec.error_message, Some("No matching routing rule".to_string()));
            assert_eq!(rec.matched_rule_id, None);
        }
        _ => panic!("finish expected"),
    }
}

#[test]
fn database_failures_answer_500() {
    let s = WebhookState::Routing { payload: payload(), raw_payload: "r".into() };
    assert_eq!(finish_of(&webhook_step(s, WebhookEvent::RulesFailed).1), (500, "Database error".to_string()));
    let t = WebhookState::Targeting { payload: payload(), raw_payload: "r".into(), rule_id: 1, group_id: 2 };
    assert_eq!(finish_of(&webhook_step(t.clone(), WebhookEvent::GroupMissing).1), (500, "Group not found".to_string()));
    assert_eq!(finish_of(&webhook_step(t, WebhookEvent::GroupFailed).1), (500, "Database error".to_string()));
}

#[test]
fn record_of_a_payload() {
    let rec = payload_record(&payload(), Some(1), Some(2), Some("g".into()), "success", None, "raw".into());
    assert_eq!(rec.sentry_event_id, Some("ev".to_string()));
    assert_eq!(rec.issue_id, Some("is".to_string()));
    assert_eq!(rec.environment, Some("production".to_string()));
    assert_eq!(rec.platform, Some("node".to_string()));
    assert_eq!(rec.title, Some("Boom".to_string()));
    assert_eq!(rec.message, Some("msg".to_string()));
    assert_eq!(rec.level, Some("error".to_string()));
    assert_eq!(rec.web_url, Some("https://sentry.io/i/1".to_string()));
    assert_eq!(rec.triggered_rule, Some("r".to_string()));
    assert_eq!(rec.raw_payload, Some("raw".to_string()));
}

fn alert(raw: Option<&str>, group: Option<i64>) -> AlertHistory {
    AlertHistory {
        id: 5,
        sentry_event_id: None,
        issue_id: None,
        project: None,
        environment: None,
        platform: None,
        title: None,
        message: None,
        level: None,
        web_url: None,
        triggered_rule: None,
        matched_rule_id: None,
        target_group_id: group,
        target_group_name: None,
        status: "failed".into(),
        error_message: None,
        raw_payload: raw.map(|s| s.to_string()),
        created_at: String::new(),
    }
}

fn error_of(a: &RetryAction) -> (u16, String) {
    match a {
        RetryAction::Finish { update: None, reply: ApiReply::Error { status, error } } => (*status, error.clone()),
        _ => panic!("error expected"),
    }
}

#[test]
fn retry_resends_and_marks_success() {
    let (s, a) = retry_start(5);
    assert_eq!(a, RetryAction::LoadAlert { id: 5 });
    let (s, a) = retry_step(s, RetryEvent::AlertLoaded { alert: alert(Some("{}"), Some(9)) });
    assert_eq!(a, RetryAction::ParsePayload { raw_payload: "{}".into() });
    let (s, a) = retry_step(s, RetryEvent::Parsed { result: Ok(payload()) });
    assert_eq!(a, RetryAction::LoadGroup { group_id: 9 });
    let (s, a) = retry_step(s, RetryEvent::GroupLoaded { group: group(), config: None });
    assert_eq!(a, RetryAction::LookupProject { project_id: "web".into() });
    let (s, a) = retry_step(s, RetryEvent::NameFound { display_name: "Web".into() });
    assert!(matches!(a, RetryAction::Send { .. }));
    let (s, a) = retry_step(s, RetryEvent::Delivered { result: Ok(()) });
    assert_eq!(s, RetryState::Done);
    match a {
        RetryAction::Finish { update: Some(u), reply } => {
            assert_eq!(u.id, 5);
            assert_eq!(u.status, "success");
            assert_eq!(u.error_message, None);
            assert_eq!(reply, ApiReply::Done { message: "Alert resent successfully".into() });
        }
        _ => panic!("finish expected"),
    }
}

#[test]
fn retry_failures() {
    let l = RetryState::Loading { id: 5 };
    assert_eq!(error_of(&retry_step(l.clone(), RetryEvent::AlertMissing).1), (404, "Alert not found".into()));
    assert_eq!(error_of(&retry_step(l.clone(), RetryEvent::AlertFailed { error: "db".into() }).1), (500, "db".into()));
    assert_eq!(
        error_of(&retry_step(l.clone(), RetryEvent::AlertLoaded { alert: alert(None, Some(1)) }).1),
        (400, "No raw payload available".into())
    );
    assert_eq!(
        error_of(&retry_step(l, RetryEvent::AlertLoaded { alert: alert(Some("{}"), None) }).1),
        (400, "No target group".into())
    );
    let p = RetryState::Parsing { id: 5, group_id: 1 };
    assert_eq!(
        error_of(&retry_step(p, RetryEvent::Parsed { result: Err("eof".into()) }).1),
        (400, "Invalid payload: eof".into())
    );
    let t = RetryState::Targeting { id: 5, payload: payload() };
    assert_eq!(error_of(&retry_step(t.clone(), RetryEvent::GroupMissing).1), (404, "Target group not found".into()));
    assert_eq!(error_of(&retry_step(t, RetryEvent::GroupFailed { error: "x".into() }).1), (500, "x".into()));
    let (_, a) = retry_step(RetryState::Delivering { id: 5 }, RetryEvent::Delivered { result: Err("nope".into()) });
    match a {
        RetryAction::Finish { update: Some(u), reply } => {
            assert_eq!(u.status, "failed");
            assert_eq!(u.error_message, Some("nope".to_string()));
            assert_eq!(reply, ApiReply::Failed { error: "nope".into() });
        }
        _ => panic!("finish expected"),
    }
}

#[test]
fn group_test_message_and_reply() {
    let (url, _m) = test_group_message(&group(), None);
    assert_eq!(url, "https://hook");
    assert_eq!(test_group_reply(Ok(())), ApiReply::Done { message: "Test message sent successfully".into() });
    assert_eq!(test_group_reply(Err("bad".into())), ApiReply::Failed { error: "bad".into() });
}

#[test]
fn accepted_signature_reads_the_body_next() {
    let (s, a) = webhook_start(request(Some("Jefe"), GOOD, "event_alert"));
    assert_eq!(a, WebhookAction::ReadPayload);
    assert_eq!(s, WebhookState::Reading { resource: "event_alert".into(), raw_payload: "{raw}".into() });
    let (s, a) = webhook_start(request(None, "", "issue"));
    assert_eq!(a, WebhookAction::ReadPayload);
    let (_, a) = webhook_step(s, WebhookEvent::PayloadRead { payload: None });
    assert_eq!(finish_of(&a), (400, "Invalid payload".to_string()));
}
