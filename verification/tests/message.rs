use feishu_bot::db::groups::FeishuGroup;
use feishu_bot::models::feishu::{
    CardAction, CardElement, CardField, CardHeader, CardMarkdown, CardText, FeishuMessage,
};
use feishu_bot::models::sentry::{SentryData, SentryEvent, SentryUser, SentryWebhookPayload};
use feishu_bot::services::message_builder::{
    build_card_message, build_message, build_test_message, field_cards, format_tags, shown_timestamp, CardConfig,
    CardFieldConfig, TemplateVars,
};

fn group() -> FeishuGroup {
    FeishuGroup {
        id: 1,
        name: "ops".to_string(),
        webhook_url: "https://open.feishu.cn/hook/x".to_string(),
        description: None,
        card_title_template: None,
        card_color: None,
        card_show_details_button: None,
        card_config_json: None,
        created_at: String::new(),
        updated_at: String::new(),
    }
}

fn md(s: &str) -> CardMarkdown {
    CardMarkdown { tag: "lark_md".to_string(), content: s.to_string() }
}

fn text_div(s: &str) -> CardElement {
    CardElement::Div { text: Some(md(s)), fields: Some(vec![]) }
}

fn field(s: &str) -> CardField {
    CardField { is_short: true, text: md(s) }
}

fn elements(m: &FeishuMessage) -> &Vec<CardElement> {
    match m {
        FeishuMessage::Interactive { card } => &card.elements,
    }
}

fn header(m: &FeishuMessage) -> &CardHeader {
    match m {
        FeishuMessage::Interactive { card } => card.header.as_ref().unwrap(),
    }
}

fn event() -> SentryEvent {
    SentryEvent {
        event_id: Some("ev1".into()),
        url: None,
        web_url: Some("https://sentry.io/issues/1".into()),
        issue_url: None,
        issue_id: Some("iss1".into()),
        project: Some("42".into()),
        project_slug: None,
        project_name: None,
        environment: Some("staging".into()),
        event_type: None,
        message: None,
        title: Some("Boom".into()),
        culprit: Some("app.js".into()),
        timestamp: None,
        datetime: None,
        platform: Some("node".into()),
        level: Some("warning".into()),
        tags: vec![("os".into(), "linux".into()), ("browser".into(), "firefox".into())],
        user: Some(SentryUser { id: None, username: None, email: Some("a@b.c".into()), ip_address: Some("1.2.3.4".into()) }),
    }
}

fn payload(event: Option<SentryEvent>) -> SentryWebhookPayload {
    SentryWebhookPayload {
        action: "triggered".into(),
        data: SentryData {
            event,
            triggered_rule: Some("High errors".into()),
            issue_alert: None,
            metric_alert: None,
            description_text: None,
            description_title: None,
            web_url: None,
        },
        actor: None,
    }
}

#[test]
fn tags_are_joined_with_commas() {
    assert_eq!(format_tags(&vec![]), "");
    assert_eq!(format_tags(&vec![("a".into(), "1".into())]), "a: 1");
    assert_eq!(
        format_tags(&vec![("a".into(), "1".into()), ("b".into(), "2".into())]),
        "a: 1, b: 2"
    );
}

#[test]
fn vars_from_a_full_payload() {
    let v = TemplateVars::from_payload_at(&payload(Some(event())), "Web".into(), "T".into());
    assert_eq!(v.project, "Web");
    assert_eq!(v.environment, "staging");
    assert_eq!(v.level, "warning");
    assert_eq!(v.title, "Boom");
    assert_eq!(v.message, "No message");
    assert_eq!(v.url, "https://sentry.io/issues/1");
    assert_eq!(v.timestamp, "T");
    assert_eq!(v.triggered_rule, "High errors");
    assert_eq!(v.platform, "node");
    assert_eq!(v.event_id, "ev1");
    assert_eq!(v.issue_id, "iss1");
    assert_eq!(v.tags, "os: linux, browser: firefox");
    assert_eq!(v.culprit, "app.js");
    assert_eq!(v.user, "a@b.c");
}

#[test]
fn vars_from_an_empty_payload_use_defaults() {
    let mut p = payload(None);
    p.data.triggered_rule = None;
    let v = TemplateVars::from_payload_at(&p, "Unknown".into(), "T".into());
    assert_eq!(v.environment, "Unknown");
    assert_eq!(v.level, "error");
    assert_eq!(v.title, "No title");
    assert_eq!(v.message, "No message");
    assert_eq!(v.url, "");
    assert_eq!(v.triggered_rule, "N/A");
    assert_eq!(v.platform, "N/A");
    assert_eq!(v.event_id, "N/A");
    assert_eq!(v.issue_id, "N/A");
    assert_eq!(v.tags, "");
    assert_eq!(v.culprit, "N/A");
    assert_eq!(v.user, "N/A");
    assert_eq!(TemplateVars::project_lookup_key(&p), "Unknown");
    assert_eq!(TemplateVars::project_lookup_key(&payload(Some(event()))), "42");
}

#[test]
fn user_prefers_username_then_email_then_ip() {
    let mut e = event();
    e.user = Some(SentryUser { id: None, username: Some("bob".into()), email: Some("b@x".into()), ip_address: None });
    assert_eq!(TemplateVars::from_payload_at(&payload(Some(e.clone())), "P".into(), "T".into()).user, "bob");
    e.user = Some(SentryUser { id: None, username: None, email: None, ip_address: Some("9.9.9.9".into()) });
    assert_eq!(TemplateVars::from_payload_at(&payload(Some(e)), "P".into(), "T".into()).user, "9.9.9.9");
}

#[test]
fn event_datetime_is_shown_in_local_time_format() {
    let mut e = event();
    e.datetime = Some("2024-03-01T12:34:56Z".into());
    let v = TemplateVars::from_payload(&payload(Some(e)), "P".into());
    assert_eq!(v.timestamp.len(), "2024-03-01 12:34:56".len());
    assert_eq!(&v.timestamp[4..5], "-");
    assert_eq!(&v.timestamp[10..11], " ");
    assert_eq!(v.project, "P");
}

#[test]
fn get_value_knows_the_card_variables() {
    let v = TemplateVars::test_vars_at("2024-01-01 00:00:00".into());
    assert_eq!(v.get_value("project"), "测试项目");
    assert_eq!(v.get_value("timestamp"), "2024-01-01 00:00:00");
    assert_eq!(v.get_value("user"), "ip:127.0.0.1");
    assert_eq!(v.get_value("title"), "N/A");
    assert_eq!(v.get_value("nope"), "N/A");
}

#[test]
fn replace_fills_every_placeholder() {
    let v = TemplateVars::test_vars_at("NOW".into());
    assert_eq!(v.replace("[{{level}}] {{project}} {{project}}"), "[error] 测试项目 测试项目");
    assert_eq!(v.replace("{{timestamp}} {{unknown}} {{tags}}"), "NOW {{unknown}} browser: chrome, os: macos");
    assert_eq!(v.replace("no placeholders"), "no placeholders");
    assert_eq!(v.replace(""), "");
}

#[test]
fn replace_substitutes_in_order() {
    let mut v = TemplateVars::test_vars_at("NOW".into());
    v.project = "{{level}}".into();
    assert_eq!(v.replace("{{project}}"), "error");
    v.project = "p".into();
    v.user = "{{project}}".into();
    assert_eq!(v.replace("{{user}}"), "{{project}}");
}

#[test]
fn default_config_shows_seven_fields() {
    let c = CardConfig::default();
    assert!(c.show_tags);
    assert!(c.show_exception_detail);
    let keys: Vec<&str> = c.show_fields.iter().map(|f| f.key.as_str()).collect();
    assert_eq!(keys, vec!["project", "environment", "level", "timestamp", "platform", "culprit", "user"]);
    assert_eq!(c.show_fields[0].label, "项目");
    assert!(c.show_fields.iter().all(|f| f.enabled));
}

#[test]
fn disabled_fields_are_skipped() {
    let v = TemplateVars::test_vars_at("NOW".into());
    let cfgs = vec![
        CardFieldConfig { key: "level".into(), label: "L".into(), enabled: true },
        CardFieldConfig { key: "project".into(), label: "P".into(), enabled: false },
        CardFieldConfig { key: "zzz".into(), label: "Z".into(), enabled: true },
    ];
    assert_eq!(field_cards(&cfgs, &v), vec![field("**L**\nerror"), field("**Z**\nN/A")]);
}

#[test]
fn default_card_for_the_test_vars() {
    let v = TemplateVars::test_vars_at("NOW".into());
    let m = build_card_message(&group(), None, &v);
    let h = header(&m);
    assert_eq!(h.title, CardText { tag: "plain_text".into(), content: "🚨 Sentry 告警".into() });
    assert_eq!(h.template, Some("red".to_string()));
    let els = elements(&m);
    assert_eq!(els.len(), 6);
    assert_eq!(els[0], text_div("**这是一个测试告警**\n飞书机器人连接测试成功！如果收到此消息，说明配置正确。"));
    assert_eq!(els[1], CardElement::Hr {});
    assert_eq!(
        els[2],
        CardElement::Div {
            text: Some(md("")),
            fields: Some(vec![
                field("**项目**\n测试项目"),
                field("**环境**\nproduction"),
                field("**级别**\nerror"),
                field("**时间**\nNOW"),
                field("**平台**\njavascript"),
                field("**源码位置**\n?(index)"),
                field("**触发用户**\nip:127.0.0.1"),
            ]),
        }
    );
    assert_eq!(els[3], text_div("**Tags**: browser: chrome, os: macos"));
    assert_eq!(els[4], text_div("**触发规则**: 测试规则\n**Issue ID**: test-issue-456 | **Event ID**: test-event-123"));
    assert_eq!(
        els[5],
        CardElement::Action {
            actions: vec![CardAction::Button {
                text: CardText { tag: "plain_text".into(), content: "查看详情".into() },
                url: "https://sentry.io/test/issue".into(),
                button_type: "primary".into(),
                width: Some("fill".into()),
            }],
        }
    );
}

#[test]
fn group_settings_shape_the_card() {
    let mut g = group();
    g.card_title_template = Some("{{level}}: {{title}}".into());
    g.card_color = Some("blue".into());
    g.card_show_details_button = Some(0);
    let config = CardConfig { show_fields: vec![], show_tags: false, show_exception_detail: false };
    let v = TemplateVars::test_vars_at("NOW".into());
    let m = build_card_message(&g, Some(config), &v);
    let h = header(&m);
    assert_eq!(h.title.content, "error: 这是一个测试告警");
    assert_eq!(h.template, Some("blue".to_string()));
    let els = elements(&m);
    assert_eq!(els.len(), 1);
    assert_eq!(els[0], text_div("**触发规则**: 测试规则\n**Issue ID**: test-issue-456 | **Event ID**: test-event-123"));
}

#[test]
fn no_button_without_url_and_no_tags_without_tags() {
    let mut v = TemplateVars::test_vars_at("NOW".into());
    v.url = String::new();
    v.tags = String::new();
    let m = build_card_message(&group(), None, &v);
    let els = elements(&m);
    assert_eq!(els.len(), 4);
    assert!(els.iter().all(|e| !matches!(e, CardElement::Action { .. })));
}

#[test]
fn test_message_uses_the_test_vars() {
    let m = build_test_message(&group(), None);
    let els = elements(&m);
    assert_eq!(els.len(), 6);
    assert_eq!(els[3], text_div("**Tags**: browser: chrome, os: macos"));
}

#[test]
fn message_for_a_payload() {
    let m = build_message(&group(), &payload(Some(event())), None, "Web".into());
    let els = elements(&m);
    assert_eq!(els[0], text_div("**Boom**\nNo message"));
    assert_eq!(els[3], text_div("**Tags**: os: linux, browser: firefox"));
    assert_eq!(els[4], text_div("**触发规则**: High errors\n**Issue ID**: iss1 | **Event ID**: ev1"));
    match &els[2] {
        CardElement::Div { fields: Some(f), .. } => assert_eq!(f[0], field("**项目**\nWeb")),
        _ => panic!("fields expected"),
    }
}

#[test]
fn event_local_time_only_for_rfc3339_datetimes() {
    let mut e = event();
    e.datetime = Some("2024-03-01T12:34:56+08:00".into());
    let t = TemplateVars::event_local_time(&payload(Some(e.clone()))).unwrap();
    assert_eq!(t.len(), 19);
    e.datetime = Some("yesterday".into());
    assert_eq!(TemplateVars::event_local_time(&payload(Some(e))), None);
    assert_eq!(TemplateVars::event_local_time(&payload(Some(event()))), None);
    assert_eq!(TemplateVars::event_local_time(&payload(None)), None);
}

#[test]
fn shown_time_prefers_the_event_time() {
    assert_eq!(shown_timestamp(Some("E".into()), "N".into()), "E");
    assert_eq!(shown_timestamp(None, "N".into()), "N");
}
