use feishu_bot::models::sentry::{
    id_from_json, project_in_url, timestamp_from_json, JsonScalar, SentryActor, SentryAlertRule, SentryData,
    SentryEvent, SentryIssueAlert, SentryMetricAlert, SentryUser, SentryWebhookPayload,
};

fn empty_event() -> SentryEvent {
    SentryEvent {
        event_id: None,
        url: None,
        web_url: None,
        issue_url: None,
        issue_id: None,
        project: None,
        project_slug: None,
        project_name: None,
        environment: None,
        event_type: None,
        message: None,
        title: None,
        culprit: None,
        timestamp: None,
        datetime: None,
        platform: None,
        level: None,
        tags: vec![],
        user: None,
    }
}

fn empty_data() -> SentryData {
    SentryData {
        event: None,
        triggered_rule: None,
        issue_alert: None,
        metric_alert: None,
        description_text: None,
        description_title: None,
        web_url: None,
    }
}

fn with_data(data: SentryData) -> SentryWebhookPayload {
    SentryWebhookPayload { action: "triggered".into(), data, actor: None }
}

#[test]
fn project_prefers_event_fields_in_order() {
    let mut e = empty_event();
    e.project_name = Some("name".into());
    e.project_slug = Some("slug".into());
    let mut d = empty_data();
    d.web_url = Some("https://sentry.io/issues/?project=99".into());
    d.event = Some(e.clone());
    assert_eq!(with_data(d.clone()).get_project(), Some("slug".to_string()));
    e.project = Some("42".into());
    d.event = Some(e);
    assert_eq!(with_data(d).get_project(), Some("42".to_string()));
}

#[test]
fn project_falls_back_to_url_parameter() {
    let mut d = empty_data();
    d.event = Some(empty_event());
    d.web_url = Some("https://sentry.io/organizations/org/issues/?project=123&query=is".into());
    assert_eq!(with_data(d.clone()).get_project(), Some("123".to_string()));
    d.web_url = Some("https://sentry.io/organizations/org/issues/?project=456".into());
    assert_eq!(with_data(d.clone()).get_project(), Some("456".to_string()));
    d.web_url = Some("https://sentry.io/organizations/org/issues/".into());
    assert_eq!(with_data(d).get_project(), None);
}

#[test]
fn project_in_url_edge_cases() {
    assert_eq!(project_in_url("project="), Some(String::new()));
    assert_eq!(project_in_url("a?project=x&project=y"), Some("x".to_string()));
    assert_eq!(project_in_url("a?proj=1"), None);
    assert_eq!(project_in_url("?project=项目&a"), Some("项目".to_string()));
}

#[test]
fn title_message_and_url_precedence() {
    let mut d = empty_data();
    d.metric_alert = Some(SentryMetricAlert {
        title: Some("metric".into()),
        alert_rule: Some(SentryAlertRule { id: Some(1), name: None }),
    });
    assert_eq!(with_data(d.clone()).get_title(), Some("metric".to_string()));
    d.issue_alert = Some(SentryIssueAlert { title: Some("issue".into()), settings: vec![] });
    assert_eq!(with_data(d.clone()).get_title(), Some("issue".to_string()));
    let mut e = empty_event();
    e.title = Some("event".into());
    e.message = Some("event message".into());
    e.web_url = Some("https://event".into());
    d.event = Some(e);
    assert_eq!(with_data(d.clone()).get_title(), Some("event".to_string()));
    assert_eq!(with_data(d.clone()).get_message(), Some("event message".to_string()));
    assert_eq!(with_data(d.clone()).get_web_url(), Some("https://event".to_string()));
    d.description_title = Some("described".into());
    d.description_text = Some("text".into());
    d.web_url = Some("https://data".into());
    assert_eq!(with_data(d.clone()).get_title(), Some("described".to_string()));
    assert_eq!(with_data(d.clone()).get_message(), Some("text".to_string()));
    assert_eq!(with_data(d).get_web_url(), Some("https://data".to_string()));
}

#[test]
fn event_getters() {
    let mut e = empty_event();
    e.environment = Some("production".into());
    e.level = Some("error".into());
    e.event_id = Some("ev".into());
    e.issue_id = Some("is".into());
    e.platform = Some("javascript".into());
    e.datetime = Some("2026-01-15T12:44:45.267000Z".into());
    e.user = Some(SentryUser { id: None, username: None, email: None, ip_address: None });
    let mut d = empty_data();
    d.event = Some(e);
    d.triggered_rule = Some("rule".into());
    let p = with_data(d);
    assert_eq!(p.get_environment(), Some("production".to_string()));
    assert_eq!(p.get_level(), Some("error".to_string()));
    assert_eq!(p.get_event_id(), Some("ev".to_string()));
    assert_eq!(p.get_issue_id(), Some("is".to_string()));
    assert_eq!(p.get_platform(), Some("javascript".to_string()));
    assert_eq!(p.get_datetime(), Some("2026-01-15T12:44:45.267000Z".to_string()));
    assert_eq!(p.get_triggered_rule(), Some("rule".to_string()));
    let q = with_data(empty_data());
    assert_eq!(q.get_environment(), None);
    assert_eq!(q.get_level(), None);
    assert_eq!(q.get_title(), None);
    assert_eq!(q.get_project(), None);
}

#[test]
fn ids_from_json_values() {
    assert_eq!(id_from_json(JsonScalar::Number("4505865345040384".into())), Ok(Some("4505865345040384".to_string())));
    assert_eq!(id_from_json(JsonScalar::Text("abc-123".into())), Ok(Some("abc-123".to_string())));
    assert_eq!(id_from_json(JsonScalar::Null), Ok(None));
    assert!(id_from_json(JsonScalar::Other).is_err());
}

#[test]
fn timestamps_from_json_values() {
    assert_eq!(timestamp_from_json(JsonScalar::Number("1768481085.267".into())), Some("1768481085.267".to_string()));
    assert_eq!(timestamp_from_json(JsonScalar::Text("t".into())), Some("t".to_string()));
    assert_eq!(timestamp_from_json(JsonScalar::Other), None);
    assert_eq!(timestamp_from_json(JsonScalar::Null), None);
}

/// Reads a JSON identifier member as the payload reader does.
fn id_member(v: &serde_json::Value, key: &str) -> Option<String> {
    let scalar = match v.get(key) {
        Some(serde_json::Value::String(s)) => JsonScalar::Text(s.clone()),
        Some(serde_json::Value::Number(n)) => JsonScalar::Number(n.to_string()),
        Some(serde_json::Value::Null) | None => JsonScalar::Null,
        Some(_) => JsonScalar::Other,
    };
    id_from_json(scalar).unwrap()
}

/// Reads a JSON timestamp member as the payload reader does (numbers through `f64`).
fn timestamp_member(v: &serde_json::Value, key: &str) -> Option<String> {
    let scalar = match v.get(key) {
        Some(serde_json::Value::String(s)) => JsonScalar::Text(s.clone()),
        Some(serde_json::Value::Number(n)) => JsonScalar::Number(n.as_f64().unwrap().to_string()),
        Some(serde_json::Value::Null) | None => JsonScalar::Null,
        Some(_) => JsonScalar::Other,
    };
    timestamp_from_json(scalar)
}

/// A text member of a JSON object.
fn text_member(v: &serde_json::Value, key: &str) -> Option<String> {
    v.get(key).and_then(|m| m.as_str()).map(|m| m.to_string())
}

/// A payload whose event and actor are read from JSON as the payload reader reads them.
fn payload_from_json(json: &str) -> SentryWebhookPayload {
    let v: serde_json::Value = serde_json::from_str(json).unwrap();
    let e = &v["data"]["event"];
    let mut event = empty_event();
    event.event_id = id_member(e, "event_id");
    event.issue_id = id_member(e, "issue_id");
    event.project = id_member(e, "project");
    event.timestamp = timestamp_member(e, "timestamp");
    event.datetime = text_member(e, "datetime");
    event.platform = text_member(e, "platform");
    event.level = text_member(e, "level");
    let mut data = empty_data();
    data.event = Some(event);
    let actor = v.get("actor").map(|a| SentryActor {
        actor_type: text_member(a, "type"),
        id: id_member(a, "id"),
        name: text_member(a, "name"),
    });
    SentryWebhookPayload { action: text_member(&v, "action").unwrap(), data, actor }
}

#[test]
fn test_deserialize_sentry_payload_with_integer_ids() {
    let json = r#"{
        "action": "triggered",
        "data": {
            "event": {
                "event_id": 4505865345040384,
                "issue_id": 123456789,
                "project": 987654321
            }
        },
        "actor": {
            "id": 55555,
            "type": "user"
        }
    }"#;
    let payload = payload_from_json(json);
    assert_eq!(payload.get_event_id(), Some("4505865345040384".to_string()));
    assert_eq!(payload.get_issue_id(), Some("123456789".to_string()));
    assert_eq!(payload.get_project(), Some("987654321".to_string()));
    assert_eq!(payload.actor.as_ref().unwrap().id, Some("55555".to_string()));
}

#[test]
fn test_deserialize_sentry_payload_with_string_ids() {
    let json = r#"{
        "action": "triggered",
        "data": {
            "event": {
                "event_id": "abc-123",
                "issue_id": "issue-456",
                "project": "my-project"
            }
        }
    }"#;
    let payload = payload_from_json(json);
    assert_eq!(payload.get_event_id(), Some("abc-123".to_string()));
    assert_eq!(payload.get_issue_id(), Some("issue-456".to_string()));
    assert_eq!(payload.get_project(), Some("my-project".to_string()));
}

#[test]
fn test_deserialize_sentry_payload_with_float_timestamp() {
    let json = r#"{
        "action": "triggered",
        "data": {
            "event": {
                "event_id": "test-event",
                "timestamp": 1768481085.267,
                "datetime": "2026-01-15T12:44:45.267000Z",
                "platform": "javascript",
                "level": "error"
            }
        }
    }"#;
    let payload = payload_from_json(json);
    let event = payload.data.event.as_ref().unwrap();
    assert_eq!(event.timestamp, Some("1768481085.267".to_string()));
    assert_eq!(payload.get_datetime(), Some("2026-01-15T12:44:45.267000Z".to_string()));
    assert_eq!(payload.get_platform(), Some("javascript".to_string()));
    assert_eq!(payload.get_level(), Some("error".to_string()));
}
