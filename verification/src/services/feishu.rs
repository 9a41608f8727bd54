use vstd::prelude::*;

use crate::text::{concat, decimal, opt_view, push_all, signed_decimal, signed_decimal_text, unwrap_or_str};

verus! {

/// Why Feishu did not take a message.
#[derive(Debug, Clone, PartialEq)]
pub enum FeishuError {
    /// The webhook answered with a non-success HTTP status, and this body.
    Http { status: u16, body: String },
    /// The webhook answered with a JSON body whose `code` is not 0.
    Api { code: i64, msg: String },
}

/// What `serde_json` finds in a JSON text under a member name: the member's value as
/// an `i64`, where the text is a JSON object with that member and the member is an
/// integer that fits.
pub uninterp spec fn json_i64_at(text: Seq<char>, key: Seq<char>) -> Option<i64>;

/// What `serde_json` finds in a JSON text under a member name: the member's value,
/// where the text is a JSON object with that member and the member is a string.
pub uninterp spec fn json_str_at(text: Seq<char>, key: Seq<char>) -> Option<Seq<char>>;

/// Parses `text` with `serde_json::from_str::<serde_json::Value>` and reads the member
/// `key` with `Value::get` and `Value::as_i64`; absent where the text is not JSON. The
/// result is named `json_i64_at`; nothing more is stated of it.
#[verifier::external_body]
fn json_i64_member(text: &str, key: &str) -> (r: Option<i64>)
    ensures
        r == json_i64_at(text@, key@),
{
    match serde_json::from_str::<serde_json::Value>(text) {
        Ok(v) => v.get(key).and_then(|m| m.as_i64()),
        Err(_) => None,
    }
}

/// Parses `text` with `serde_json::from_str::<serde_json::Value>` and reads the member
/// `key` with `Value::get` and `Value::as_str`; absent where the text is not JSON. The
/// result is named `json_str_at`; nothing more is stated of it.
#[verifier::external_body]
fn json_str_member(text: &str, key: &str) -> (r: Option<String>)
    ensures
        opt_view(r) == json_str_at(text@, key@),
{
    match serde_json::from_str::<serde_json::Value>(text) {
        Ok(v) => v.get(key).and_then(|m| m.as_str()).map(|m| m.to_owned()),
        Err(_) => None,
    }
}

/// The reason phrase that `http` (as `reqwest::StatusCode`) gives a status code.
pub uninterp spec fn canonical_reason(status: u16) -> Option<Seq<char>>;

/// `reqwest::StatusCode::from_u16` and `StatusCode::canonical_reason`: the reason
/// phrase of a status code, named `canonical_reason`; absent for a number that is
/// not a status code (outside 100 to 999), as `from_u16` refuses it.
#[verifier::external_body]
fn reason_phrase(status: u16) -> (r: Option<String>)
    ensures
        opt_view(r) == canonical_reason(status),
        !(100 <= status <= 999) ==> r is None,
{
    match reqwest::StatusCode::from_u16(status) {
        Ok(code) => code.canonical_reason().map(|p| p.to_owned()),
        Err(_) => None,
    }
}

/// A status as `StatusCode` shows it: the number and the reason phrase, or
/// `<unknown status code>` where there is none.
pub open spec fn status_text(status: u16) -> Seq<char> {
    decimal(status as nat) + " "@ + match canonical_reason(status) {
        Some(p) => p,
        None => "<unknown status code>"@,
    }
}

/// The members that settle the verdict on a reply body: its `code` and its `msg`.
pub open spec fn reply_fields(body: Seq<char>) -> (Option<i64>, Option<Seq<char>>) {
    (json_i64_at(body, "code"@), json_str_at(body, "msg"@))
}

/// An HTTP status in the success class (200 to 299).
pub open spec fn is_success_status(status: u16) -> bool {
    200 <= status < 300
}

/// The verdict on a reply, given what its body holds: a failure status is an error;
/// else a `code` other than 0 is an error with the reply's `msg` (or `Unknown error`);
/// else the message was taken.
pub open spec fn reply_verdict(status: u16, body: Seq<char>, fields: (Option<i64>, Option<Seq<char>>)) -> Result<(), (bool, i64, Seq<char>)> {
    if !is_success_status(status) {
        Err((true, status as i64, body))
    } else {
        match fields.0 {
            Some(code) => if code != 0 {
                Err((false, code, match fields.1 {
                    Some(m) => m,
                    None => "Unknown error"@,
                }))
            } else {
                Ok(())
            },
            None => Ok(()),
        }
    }
}

/// The text of an error, as the service reports and records it.
pub open spec fn error_text(e: FeishuError) -> Seq<char> {
    match e {
        FeishuError::Http { status, body } => "Feishu API returned error: "@ + status_text(status) + " - "@
            + body@,
        FeishuError::Api { code, msg } => "Feishu API error: "@ + signed_decimal(code as int) + " - "@ + msg@,
    }
}

impl FeishuError {
    /// The error as the service reports and records it.
    pub fn message(&self) -> (r: String)
        ensures
            r@ == error_text(*self),
    {
        match self {
            FeishuError::Http { status, body } => {
                let mut t = concat("Feishu API returned error: ", signed_decimal_text(*status as i64).as_str());
                push_all(&mut t, " ");
                match reason_phrase(*status) {
                    Some(p) => push_all(&mut t, p.as_str()),
                    None => push_all(&mut t, "<unknown status code>"),
                }
                push_all(&mut t, " - ");
                push_all(&mut t, body.as_str());
                t
            },
            FeishuError::Api { code, msg } => {
                let mut t = concat("Feishu API error: ", signed_decimal_text(*code).as_str());
                push_all(&mut t, " - ");
                push_all(&mut t, msg.as_str());
                t
            },
        }
    }

    /// The error as the verdict describes it: whether it is an HTTP failure, its code,
    /// and its text.
    pub open spec fn described(self) -> (bool, i64, Seq<char>) {
        match self {
            FeishuError::Http { status, body } => (true, status as i64, body@),
            FeishuError::Api { code, msg } => (false, code, msg@),
        }
    }
}

/// Checks a reply, given the fields read from its body.
pub fn reply_outcome(status: u16, body: String, code: Option<i64>, msg: Option<String>) -> (r: Result<(), FeishuError>)
    ensures
        match r {
            Ok(()) => reply_verdict(status, body@, (code, opt_view(msg))) is Ok,
            Err(e) => reply_verdict(status, body@, (code, opt_view(msg))) == Err::<(), (bool, i64, Seq<char>)>(e.described()),
        },
{
    if !(200 <= status && status < 300) {
        return Err(FeishuError::Http { status, body });
    }
    match code {
        Some(c) => {
            if c != 0 {
                Err(FeishuError::Api { code: c, msg: unwrap_or_str(msg, "Unknown error") })
            } else {
                Ok(())
            }
        },
        None => Ok(()),
    }
}

/// Checks Feishu's reply to a message: the HTTP status, then the `code` member of a
/// JSON body, and the `msg` member where the code is not 0.
pub fn check_reply(status: u16, body: String) -> (r: Result<(), FeishuError>)
    ensures
        match r {
            Ok(()) => reply_verdict(status, body@, reply_fields(body@)) is Ok,
            Err(e) => reply_verdict(status, body@, reply_fields(body@)) == Err::<(), (bool, i64, Seq<char>)>(e.described()),
        },
{
    if !(200 <= status && status < 300) {
        return Err(FeishuError::Http { status, body });
    }
    let code = json_i64_member(body.as_str(), "code");
    let msg = match code {
        Some(c) => if c != 0 {
            json_str_member(body.as_str(), "msg")
        } else {
            None
        },
        None => None,
    };
    let r = reply_outcome(status, body, code, msg);
    assert(reply_verdict(status, body@, (code, opt_view(msg))) == reply_verdict(status, body@, reply_fields(body@)));
    r
}

} // verus!
