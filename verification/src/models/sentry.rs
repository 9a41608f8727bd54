use vstd::prelude::*;

use crate::text::{
    chars_of, clone_opt, find_chars, first_occurrence, lemma_find_from_occurs, occurs_at, opt_view,
    string_of, subrange_chars,
};

verus! {

/// Sentry webhook payload for `event_alert` and `metric_alert` resources.
#[derive(Debug, Clone, PartialEq)]
pub struct SentryWebhookPayload {
    pub action: String,
    pub data: SentryData,
    pub actor: Option<SentryActor>,
}

#[derive(Debug, Clone, PartialEq)]
pub struct SentryData {
    pub event: Option<SentryEvent>,
    pub triggered_rule: Option<String>,
    pub issue_alert: Option<SentryIssueAlert>,
    /// Present for metric alerts.
    pub metric_alert: Option<SentryMetricAlert>,
    pub description_text: Option<String>,
    pub description_title: Option<String>,
    pub web_url: Option<String>,
}

#[derive(Debug, Clone, PartialEq)]
pub struct SentryEvent {
    pub event_id: Option<String>,
    pub url: Option<String>,
    pub web_url: Option<String>,
    pub issue_url: Option<String>,
    pub issue_id: Option<String>,
    pub project: Option<String>,
    pub project_slug: Option<String>,
    pub project_name: Option<String>,
    pub environment: Option<String>,
    pub event_type: Option<String>,
    pub message: Option<String>,
    pub title: Option<String>,
    pub culprit: Option<String>,
    pub timestamp: Option<String>,
    pub datetime: Option<String>,
    pub platform: Option<String>,
    pub level: Option<String>,
    pub tags: Vec<(String, String)>,
    pub user: Option<SentryUser>,
}

#[derive(Debug, Clone, PartialEq)]
pub struct SentryUser {
    pub id: Option<String>,
    pub username: Option<String>,
    pub email: Option<String>,
    pub ip_address: Option<String>,
}

#[derive(Debug, Clone, PartialEq)]
pub struct SentryIssueAlert {
    pub title: Option<String>,
    pub settings: Vec<SentryAlertSetting>,
}

#[derive(Debug, Clone, PartialEq)]
pub struct SentryAlertSetting {
    pub name: String,
    pub value: String,
}

#[derive(Debug, Clone, PartialEq)]
pub struct SentryMetricAlert {
    pub title: Option<String>,
    pub alert_rule: Option<SentryAlertRule>,
}

#[derive(Debug, Clone, PartialEq)]
pub struct SentryAlertRule {
    pub id: Option<i64>,
    pub name: Option<String>,
}

#[derive(Debug, Clone, PartialEq)]
pub struct SentryActor {
    pub actor_type: Option<String>,
    pub id: Option<String>,
    pub name: Option<String>,
}

/// A JSON value where the payload carries an identifier or a timestamp, by kind; a
/// number is held as the text that stands for it.
#[derive(Debug, Clone, PartialEq)]
pub enum JsonScalar {
    Text(String),
    Number(String),
    Null,
    /// An array, an object or a boolean.
    Other,
}

/// An identifier that is neither a string nor a number nor null.
#[derive(Debug, Clone, Copy, PartialEq)]
pub struct NotAnId;

/// Reads an identifier that Sentry sends as a string or as a number: a string as it
/// is, a number as its text, null as absent; anything else is an error.
pub fn id_from_json(v: JsonScalar) -> (r: Result<Option<String>, NotAnId>)
    ensures
        match v {
            JsonScalar::Text(s) => r == Ok::<Option<String>, NotAnId>(Some(s)),
            JsonScalar::Number(n) => r == Ok::<Option<String>, NotAnId>(Some(n)),
            JsonScalar::Null => r == Ok::<Option<String>, NotAnId>(None),
            JsonScalar::Other => r is Err,
        },
{
    match v {
        JsonScalar::Text(s) => Ok(Some(s)),
        JsonScalar::Number(n) => Ok(Some(n)),
        JsonScalar::Null => Ok(None),
        JsonScalar::Other => Err(NotAnId),
    }
}

/// Reads a timestamp that Sentry sends as a string or as a number: a string as it is,
/// a number as its text; anything else is absent.
pub fn timestamp_from_json(v: JsonScalar) -> (r: Option<String>)
    ensures
        match v {
            JsonScalar::Text(s) => r == Some(s),
            JsonScalar::Number(n) => r == Some(n),
            _ => r is None,
        },
{
    match v {
        JsonScalar::Text(s) => Some(s),
        JsonScalar::Number(n) => Some(n),
        _ => None,
    }
}

/// The first of two optional values that is present.
pub open spec fn or_else<T>(a: Option<T>, b: Option<T>) -> Option<T> {
    match a {
        Some(x) => Some(x),
        None => b,
    }
}

/// The query parameter name that marks a project in a Sentry URL.
pub open spec fn project_param() -> Seq<char> {
    seq!['p', 'r', 'o', 'j', 'e', 'c', 't', '=']
}

/// The value of the first `project=` parameter of a URL: what follows it, up to the
/// next `&` or the end.
pub open spec fn project_from_url(url: Seq<char>) -> Option<Seq<char>> {
    match first_occurrence(url, project_param()) {
        Some(pos) => {
            let rest = url.skip(pos + 8);
            let end = match first_occurrence(rest, seq!['&']) {
                Some(e) => e,
                None => rest.len() as int,
            };
            Some(rest.take(end))
        },
        None => None,
    }
}

impl SentryWebhookPayload {
    /// A field of the event, where there is an event.
    pub open spec fn event_field(self, f: spec_fn(SentryEvent) -> Option<String>) -> Option<Seq<char>> {
        match self.data.event {
            Some(e) => opt_view(f(e)),
            None => None,
        }
    }

    /// The project: the event's `project`, `project_slug` or `project_name`, the first
    /// present, else the `project=` parameter of `data.web_url`.
    pub open spec fn spec_project(self) -> Option<Seq<char>> {
        let from_event = match self.data.event {
            Some(e) => or_else(opt_view(e.project), or_else(opt_view(e.project_slug), opt_view(e.project_name))),
            None => None,
        };
        let from_url = match self.data.web_url {
            Some(u) => project_from_url(u@),
            None => None,
        };
        or_else(from_event, from_url)
    }

    pub open spec fn spec_environment(self) -> Option<Seq<char>> {
        self.event_field(|e: SentryEvent| e.environment)
    }

    pub open spec fn spec_level(self) -> Option<Seq<char>> {
        self.event_field(|e: SentryEvent| e.level)
    }

    /// The title: `description_title`, else the event's title, else the issue alert's,
    /// else the metric alert's.
    pub open spec fn spec_title(self) -> Option<Seq<char>> {
        let from_issue = match self.data.issue_alert {
            Some(a) => opt_view(a.title),
            None => None,
        };
        let from_metric = match self.data.metric_alert {
            Some(a) => opt_view(a.title),
            None => None,
        };
        or_else(
            opt_view(self.data.description_title),
            or_else(self.event_field(|e: SentryEvent| e.title), or_else(from_issue, from_metric)),
        )
    }

    /// The message: `description_text`, else the event's message.
    pub open spec fn spec_message(self) -> Option<Seq<char>> {
        or_else(opt_view(self.data.description_text), self.event_field(|e: SentryEvent| e.message))
    }

    /// The web URL: `data.web_url`, else the event's `web_url`.
    pub open spec fn spec_web_url(self) -> Option<Seq<char>> {
        or_else(opt_view(self.data.web_url), self.event_field(|e: SentryEvent| e.web_url))
    }

    pub open spec fn spec_triggered_rule(self) -> Option<Seq<char>> {
        opt_view(self.data.triggered_rule)
    }

    pub open spec fn spec_event_id(self) -> Option<Seq<char>> {
        self.event_field(|e: SentryEvent| e.event_id)
    }

    pub open spec fn spec_issue_id(self) -> Option<Seq<char>> {
        self.event_field(|e: SentryEvent| e.issue_id)
    }

    pub open spec fn spec_platform(self) -> Option<Seq<char>> {
        self.event_field(|e: SentryEvent| e.platform)
    }

    pub open spec fn spec_datetime(self) -> Option<Seq<char>> {
        self.event_field(|e: SentryEvent| e.datetime)
    }

    /// Extract project identifier from the payload.
    pub fn get_project(&self) -> (r: Option<String>)
        ensures
            opt_view(r) == self.spec_project(),
    {
        if let Some(e) = &self.data.event {
            if let Some(p) = &e.project {
                return Some(p.clone());
            }
            if let Some(p) = &e.project_slug {
                return Some(p.clone());
            }
            if let Some(p) = &e.project_name {
                return Some(p.clone());
            }
        }
        match &self.data.web_url {
            Some(url) => project_in_url(url.as_str()),
            None => None,
        }
    }

    /// Extract environment from the payload.
    pub fn get_environment(&self) -> (r: Option<String>)
        ensures
            opt_view(r) == self.spec_environment(),
    {
        match &self.data.event {
            Some(e) => clone_opt(&e.environment),
            None => None,
        }
    }

    /// Extract error level from the payload.
    pub fn get_level(&self) -> (r: Option<String>)
        ensures
            opt_view(r) == self.spec_level(),
    {
        match &self.data.event {
            Some(e) => clone_opt(&e.level),
            None => None,
        }
    }

    /// Extract title/error message from the payload.
    pub fn get_title(&self) -> (r: Option<String>)
        ensures
            opt_view(r) == self.spec_title(),
    {
        if let Some(t) = &self.data.description_title {
            return Some(t.clone());
        }
        if let Some(e) = &self.data.event {
            if let Some(t) = &e.title {
                return Some(t.clone());
            }
        }
        if let Some(a) = &self.data.issue_alert {
            if let Some(t) = &a.title {
                return Some(t.clone());
            }
        }
        match &self.data.metric_alert {
            Some(a) => clone_opt(&a.title),
            None => None,
        }
    }

    /// Extract detailed message from the payload.
    pub fn get_message(&self) -> (r: Option<String>)
        ensures
            opt_view(r) == self.spec_message(),
    {
        if let Some(t) = &self.data.description_text {
            return Some(t.clone());
        }
        match &self.data.event {
            Some(e) => clone_opt(&e.message),
            None => None,
        }
    }

    /// Extract web URL for the issue.
    pub fn get_web_url(&self) -> (r: Option<String>)
        ensures
            opt_view(r) == self.spec_web_url(),
    {
        if let Some(u) = &self.data.web_url {
            return Some(u.clone());
        }
        match &self.data.event {
            Some(e) => clone_opt(&e.web_url),
            None => None,
        }
    }

    /// Extract triggered rule name.
    pub fn get_triggered_rule(&self) -> (r: Option<String>)
        ensures
            opt_view(r) == self.spec_triggered_rule(),
    {
        clone_opt(&self.data.triggered_rule)
    }

    /// Extract event ID.
    pub fn get_event_id(&self) -> (r: Option<String>)
        ensures
            opt_view(r) == self.spec_event_id(),
    {
        match &self.data.event {
            Some(e) => clone_opt(&e.event_id),
            None => None,
        }
    }

    /// Extract issue ID.
    pub fn get_issue_id(&self) -> (r: Option<String>)
        ensures
            opt_view(r) == self.spec_issue_id(),
    {
        match &self.data.event {
            Some(e) => clone_opt(&e.issue_id),
            None => None,
        }
    }

    /// Extract platform.
    pub fn get_platform(&self) -> (r: Option<String>)
        ensures
            opt_view(r) == self.spec_platform(),
    {
        match &self.data.event {
            Some(e) => clone_opt(&e.platform),
            None => None,
        }
    }

    /// Extract datetime.
    pub fn get_datetime(&self) -> (r: Option<String>)
        ensures
            opt_view(r) == self.spec_datetime(),
    {
        match &self.data.event {
            Some(e) => clone_opt(&e.datetime),
            None => None,
        }
    }
}

/// The value of the `project=` parameter of a URL, if it has one.
pub fn project_in_url(url: &str) -> (r: Option<String>)
    ensures
        opt_view(r) == project_from_url(url@),
{
    let u = chars_of(url);
    let key: Vec<char> = vec!['p', 'r', 'o', 'j', 'e', 'c', 't', '='];
    assert(key@ =~= project_param());
    assert(key@.len() == 8);
    match find_chars(u.as_slice(), key.as_slice()) {
        Some(pos) => {
            proof {
                assert(occurs_at(u@, key@, pos as int)) by {
                    lemma_find_from_occurs(u@, key@, 0);
                }
            }
            assert(pos + 8 <= u@.len());
            assert(u@.len() == u.len());
            let rest = subrange_chars(u.as_slice(), pos + 8, u.len());
            assert(rest@ =~= u@.skip(pos + 8));
            let amp: Vec<char> = vec!['&'];
            assert(amp@ =~= seq!['&']);
            let end = match find_chars(rest.as_slice(), amp.as_slice()) {
                Some(e) => {
                    proof { lemma_find_from_occurs(rest@, amp@, 0); }
                    e
                },
                None => rest.len(),
            };
            let value = subrange_chars(rest.as_slice(), 0, end);
            assert(value@ =~= rest@.take(end as int));
            Some(string_of(value.as_slice()))
        },
        None => None,
    }
}


/// The `project=` parameter of `data.web_url` names the project whenever the payload's
/// event names none: there is no event (as in a metric alert), or the event has no
/// `project`, `project_slug` or `project_name`.
pub proof fn law_project_from_url_fallback(payload: SentryWebhookPayload)
    requires
        payload.data.event matches Some(e) ==> e.project is None && e.project_slug is None
            && e.project_name is None,
    ensures
        payload.spec_project() == match payload.data.web_url {
            Some(u) => project_from_url(u@),
            None => None,
        },
{
}

/// A project that the event names wins over the URL: the event's `project`, else its
/// `project_slug`, else its `project_name`.
pub proof fn law_event_project_first(payload: SentryWebhookPayload)
    requires
        payload.data.event is Some,
    ensures
        ({
            let e = payload.data.event->0;
            &&& e.project matches Some(p) ==> payload.spec_project() == Some(p@)
            &&& e.project is None ==> (e.project_slug matches Some(p) ==> payload.spec_project() == Some(p@))
            &&& e.project is None && e.project_slug is None ==> (e.project_name matches Some(p)
                ==> payload.spec_project() == Some(p@))
        }),
{
}

} // verus!
