use feishu_bot::models::feishu::{CardField, CardHeader, CardMarkdown, CardText, FeishuMessage, Card};
use feishu_bot::services::feishu::{check_reply, reply_outcome, FeishuError};

#[test]
fn success_reply() {
    assert_eq!(check_reply(200, r#"{"code":0,"msg":"success"}"#.into()), Ok(()));
    assert_eq!(check_reply(200, "not json".into()), Ok(()));
    assert_eq!(check_reply(204, "".into()), Ok(()));
    assert_eq!(check_reply(200, r#"{"StatusCode":0}"#.into()), Ok(()));
}

#[test]
fn http_failure_reply() {
    assert_eq!(
        check_reply(404, "missing".into()),
        Err(FeishuError::Http { status: 404, body: "missing".into() })
    );
    assert_eq!(
        check_reply(500, r#"{"code":0}"#.into()),
        Err(FeishuError::Http { status: 500, body: r#"{"code":0}"#.into() })
    );
    assert_eq!(
        check_reply(199, "".into()),
        Err(FeishuError::Http { status: 199, body: "".into() })
    );
}

#[test]
fn api_failure_reply() {
    assert_eq!(
        check_reply(200, r#"{"code":19001,"msg":"param invalid"}"#.into()),
        Err(FeishuError::Api { code: 19001, msg: "param invalid".into() })
    );
    assert_eq!(
        check_reply(200, r#"{"code":-1}"#.into()),
        Err(FeishuError::Api { code: -1, msg: "Unknown error".into() })
    );
    assert_eq!(
        check_reply(200, r#"{"code":5,"msg":3}"#.into()),
        Err(FeishuError::Api { code: 5, msg: "Unknown error".into() })
    );
}

#[test]
fn outcome_from_fields() {
    assert_eq!(reply_outcome(200, "b".into(), None, None), Ok(()));
    assert_eq!(reply_outcome(200, "b".into(), Some(0), Some("x".into())), Ok(()));
    assert_eq!(
        reply_outcome(200, "b".into(), Some(7), Some("x".into())),
        Err(FeishuError::Api { code: 7, msg: "x".into() })
    );
    assert_eq!(
        reply_outcome(302, "b".into(), Some(7), None),
        Err(FeishuError::Http { status: 302, body: "b".into() })
    );
}

#[test]
fn card_builders() {
    let h = CardHeader::new("T", Some("green"));
    assert_eq!(h.title, CardText { tag: "plain_text".into(), content: "T".into() });
    assert_eq!(h.template, Some("green".into()));
    assert_eq!(CardHeader::new("T", None).template, None);
    assert_eq!(CardMarkdown::new("m"), CardMarkdown { tag: "lark_md".into(), content: "m".into() });
    assert_eq!(CardField::new("f", false), CardField { is_short: false, text: CardMarkdown::new("f") });
    let m = FeishuMessage::card(None, vec![]);
    assert_eq!(m, FeishuMessage::Interactive { card: Card { header: None, elements: vec![] } });
}

#[test]
fn error_messages_as_reported() {
    assert_eq!(
        FeishuError::Http { status: 404, body: "missing".into() }.message(),
        "Feishu API returned error: 404 Not Found - missing"
    );
    assert_eq!(
        FeishuError::Http { status: 500, body: "".into() }.message(),
        "Feishu API returned error: 500 Internal Server Error - "
    );
    assert_eq!(
        FeishuError::Http { status: 599, body: "b".into() }.message(),
        "Feishu API returned error: 599 <unknown status code> - b"
    );
    assert_eq!(
        FeishuError::Http { status: 42, body: "b".into() }.message(),
        "Feishu API returned error: 42 <unknown status code> - b"
    );
    assert_eq!(
        FeishuError::Api { code: 19001, msg: "param invalid".into() }.message(),
        "Feishu API error: 19001 - param invalid"
    );
    assert_eq!(FeishuError::Api { code: -1, msg: "x".into() }.message(), "Feishu API error: -1 - x");
    assert_eq!(FeishuError::Api { code: 0, msg: "".into() }.message(), "Feishu API error: 0 - ");
    assert_eq!(
        FeishuError::Api { code: i64::MIN, msg: "m".into() }.message(),
        "Feishu API error: -9223372036854775808 - m"
    );
}

#[test]
fn reply_error_message_from_a_body() {
    let e = check_reply(200, r#"{"code":19024,"msg":"Key Words Not Found"}"#.into()).unwrap_err();
    assert_eq!(e.message(), "Feishu API error: 19024 - Key Words Not Found");
    let e = check_reply(400, "bad request".into()).unwrap_err();
    assert_eq!(e.message(), "Feishu API returned error: 400 Bad Request - bad request");
}
