use vstd::prelude::*;

use crate::db::groups::FeishuGroup;
use crate::models::feishu::{
    markdown_v, item_views, ActionV, CardAction, CardElement, CardField, CardHeader, CardMarkdown,
    CardText, CardV, ElementV, FeishuMessage, FieldV, HeaderV, TextV,
};
use crate::models::sentry::{or_else, SentryWebhookPayload, SentryEvent};
use crate::text::{
    lemma_replace_absent, chars_of, concat, join, opt_view, or_default, push_all, replace_all, replace_chars, str_equal,
    string_of, unwrap_or_str,
};

verus! {

/// Template variables that can be used in message templates.
#[derive(Debug, Clone, PartialEq)]
pub struct TemplateVars {
    pub project: String,
    pub environment: String,
    pub level: String,
    pub title: String,
    pub message: String,
    pub url: String,
    pub timestamp: String,
    pub triggered_rule: String,
    pub platform: String,
    pub event_id: String,
    pub issue_id: String,
    pub tags: String,
    pub culprit: String,
    pub user: String,
}

/// One field a card may show: the variable it shows, its label, and whether it is on.
#[derive(Debug, Clone, PartialEq)]
pub struct CardFieldConfig {
    pub key: String,
    pub label: String,
    pub enabled: bool,
}

/// What a group's cards show.
#[derive(Debug, Clone, PartialEq)]
pub struct CardConfig {
    pub show_fields: Vec<CardFieldConfig>,
    pub show_tags: bool,
    pub show_exception_detail: bool,
}

/// The characters of the template variables.
pub struct VarsV {
    pub project: Seq<char>,
    pub environment: Seq<char>,
    pub level: Seq<char>,
    pub title: Seq<char>,
    pub message: Seq<char>,
    pub url: Seq<char>,
    pub timestamp: Seq<char>,
    pub triggered_rule: Seq<char>,
    pub platform: Seq<char>,
    pub event_id: Seq<char>,
    pub issue_id: Seq<char>,
    pub tags: Seq<char>,
    pub culprit: Seq<char>,
    pub user: Seq<char>,
}

pub struct FieldConfigV {
    pub key: Seq<char>,
    pub label: Seq<char>,
    pub enabled: bool,
}

pub struct ConfigV {
    pub show_fields: Seq<FieldConfigV>,
    pub show_tags: bool,
    pub show_exception_detail: bool,
}

impl View for TemplateVars {
    type V = VarsV;

    open spec fn view(&self) -> VarsV {
        VarsV {
            project: self.project@,
            environment: self.environment@,
            level: self.level@,
            title: self.title@,
            message: self.message@,
            url: self.url@,
            timestamp: self.timestamp@,
            triggered_rule: self.triggered_rule@,
            platform: self.platform@,
            event_id: self.event_id@,
            issue_id: self.issue_id@,
            tags: self.tags@,
            culprit: self.culprit@,
            user: self.user@,
        }
    }
}

impl View for CardFieldConfig {
    type V = FieldConfigV;

    open spec fn view(&self) -> FieldConfigV {
        FieldConfigV { key: self.key@, label: self.label@, enabled: self.enabled }
    }
}

impl View for CardConfig {
    type V = ConfigV;

    open spec fn view(&self) -> ConfigV {
        ConfigV {
            show_fields: item_views(self.show_fields@),
            show_tags: self.show_tags,
            show_exception_detail: self.show_exception_detail,
        }
    }
}

// ---------------------------------------------------------------------------
// Specification
// ---------------------------------------------------------------------------

pub open spec fn field_config_v(key: Seq<char>, label: Seq<char>) -> FieldConfigV {
    FieldConfigV { key, label, enabled: true }
}

/// The card configuration used where a group has none: project, environment, level,
/// time, platform, source location and user, with tags and exception detail.
pub open spec fn default_config() -> ConfigV {
    ConfigV {
        show_fields: seq![
            field_config_v("project"@, "项目"@),
            field_config_v("environment"@, "环境"@),
            field_config_v("level"@, "级别"@),
            field_config_v("timestamp"@, "时间"@),
            field_config_v("platform"@, "平台"@),
            field_config_v("culprit"@, "源码位置"@),
            field_config_v("user"@, "触发用户"@),
        ],
        show_tags: true,
        show_exception_detail: true,
    }
}

impl VarsV {
    /// The value a card field shows for a variable name; `N/A` for names that have no
    /// field (title, message, url and tags among them).
    pub open spec fn value_of(self, key: Seq<char>) -> Seq<char> {
        if key == "project"@ {
            self.project
        } else if key == "environment"@ {
            self.environment
        } else if key == "level"@ {
            self.level
        } else if key == "platform"@ {
            self.platform
        } else if key == "culprit"@ {
            self.culprit
        } else if key == "user"@ {
            self.user
        } else if key == "timestamp"@ {
            self.timestamp
        } else if key == "triggered_rule"@ {
            self.triggered_rule
        } else if key == "event_id"@ {
            self.event_id
        } else if key == "issue_id"@ {
            self.issue_id
        } else {
            "N/A"@
        }
    }

    /// The placeholders of a template and the values that replace them, in the order
    /// of replacement.
    pub open spec fn placeholders(self) -> Seq<(Seq<char>, Seq<char>)> {
        seq![
            ("{{project}}"@, self.project),
            ("{{environment}}"@, self.environment),
            ("{{level}}"@, self.level),
            ("{{title}}"@, self.title),
            ("{{message}}"@, self.message),
            ("{{url}}"@, self.url),
            ("{{timestamp}}"@, self.timestamp),
            ("{{triggered_rule}}"@, self.triggered_rule),
            ("{{platform}}"@, self.platform),
            ("{{event_id}}"@, self.event_id),
            ("{{issue_id}}"@, self.issue_id),
            ("{{tags}}"@, self.tags),
            ("{{culprit}}"@, self.culprit),
            ("{{user}}"@, self.user),
        ]
    }

    /// A template with every placeholder replaced by its value.
    pub open spec fn fill(self, template: Seq<char>) -> Seq<char> {
        substitute(template, self.placeholders())
    }
}

/// `t` with each pair's placeholder replaced by its value, one pair after the other.
pub open spec fn substitute(t: Seq<char>, pairs: Seq<(Seq<char>, Seq<char>)>) -> Seq<char>
    decreases pairs.len(),
{
    if pairs.len() == 0 {
        t
    } else {
        substitute(replace_all(t, pairs[0].0, pairs[0].1), pairs.drop_first())
    }
}

/// The tag line of an event: `key: value` for each tag, separated by `, `.
pub open spec fn tag_line(tags: Seq<(String, String)>) -> Seq<char> {
    join(Seq::new(tags.len(), |i: int| tags[i].0@ + ": "@ + tags[i].1@), ", "@)
}

/// Who triggered the event: user name, else e-mail, else IP address.
pub open spec fn event_user(e: SentryEvent) -> Option<Seq<char>> {
    match e.user {
        Some(u) => or_else(opt_view(u.username), or_else(opt_view(u.email), opt_view(u.ip_address))),
        None => None,
    }
}

/// The template variables of a payload, given the project's display name and the
/// time shown.
pub open spec fn vars_from(payload: SentryWebhookPayload, project: Seq<char>, timestamp: Seq<char>) -> VarsV {
    let event = payload.data.event;
    VarsV {
        project,
        environment: or_default(payload.spec_environment(), "Unknown"@),
        level: or_default(payload.spec_level(), "error"@),
        title: or_default(payload.spec_title(), "No title"@),
        message: or_default(payload.spec_message(), "No message"@),
        url: or_default(payload.spec_web_url(), Seq::<char>::empty()),
        timestamp,
        triggered_rule: or_default(payload.spec_triggered_rule(), "N/A"@),
        platform: or_default(payload.spec_platform(), "N/A"@),
        event_id: or_default(payload.spec_event_id(), "N/A"@),
        issue_id: or_default(payload.spec_issue_id(), "N/A"@),
        tags: match event {
            Some(e) => tag_line(e.tags@),
            None => Seq::<char>::empty(),
        },
        culprit: or_default(
            match event {
                Some(e) => opt_view(e.culprit),
                None => None,
            },
            "N/A"@,
        ),
        user: or_default(
            match event {
                Some(e) => event_user(e),
                None => None,
            },
            "N/A"@,
        ),
    }
}

/// The variables of the test message sent to check a group's webhook.
pub open spec fn test_vars(timestamp: Seq<char>) -> VarsV {
    VarsV {
        project: "测试项目"@,
        environment: "production"@,
        level: "error"@,
        title: "这是一个测试告警"@,
        message: "飞书机器人连接测试成功！如果收到此消息，说明配置正确。"@,
        url: "https://sentry.io/test/issue"@,
        timestamp,
        triggered_rule: "测试规则"@,
        platform: "javascript"@,
        event_id: "test-event-123"@,
        issue_id: "test-issue-456"@,
        tags: "browser: chrome, os: macos"@,
        culprit: "?(index)"@,
        user: "ip:127.0.0.1"@,
    }
}

/// The fields a card shows: one short field per enabled entry, in order, with the
/// entry's label in bold above the variable's value.
pub open spec fn field_lines(cfgs: Seq<FieldConfigV>, vars: VarsV) -> Seq<FieldV>
    decreases cfgs.len(),
{
    if cfgs.len() == 0 {
        Seq::<FieldV>::empty()
    } else {
        let c = cfgs.last();
        let rest = field_lines(cfgs.drop_last(), vars);
        if c.enabled {
            rest.push(
                FieldV {
                    is_short: true,
                    text: markdown_v("**"@ + c.label + "**\n"@ + vars.value_of(c.key)),
                },
            )
        } else {
            rest
        }
    }
}

/// A `div` element with markdown text and the given fields.
pub open spec fn div_v(content: Seq<char>, fields: Seq<FieldV>) -> ElementV {
    ElementV::Div { text: Some(markdown_v(content)), fields: Some(fields) }
}

/// The exception detail: the title in bold over the message, then a rule.
pub open spec fn detail_part(config: ConfigV, vars: VarsV) -> Seq<ElementV> {
    if config.show_exception_detail {
        seq![div_v("**"@ + vars.title + "**\n"@ + vars.message, seq![]), ElementV::Hr]
    } else {
        seq![]
    }
}

/// The fields, in one element, where there are any.
pub open spec fn field_part(config: ConfigV, vars: VarsV) -> Seq<ElementV> {
    let fields = field_lines(config.show_fields, vars);
    if fields.len() > 0 {
        seq![ElementV::Div { text: Some(markdown_v(Seq::<char>::empty())), fields: Some(fields) }]
    } else {
        seq![]
    }
}

/// The tags, where they are shown and there are any.
pub open spec fn tags_part(config: ConfigV, vars: VarsV) -> Seq<ElementV> {
    if config.show_tags && vars.tags.len() > 0 {
        seq![div_v("**Tags**: "@ + vars.tags, seq![])]
    } else {
        seq![]
    }
}

/// The triggering rule with the issue and event ids.
pub open spec fn ids_part(vars: VarsV) -> Seq<ElementV> {
    seq![
        div_v(
            "**触发规则**: "@ + vars.triggered_rule + "\n**Issue ID**: "@ + vars.issue_id
                + " | **Event ID**: "@ + vars.event_id,
            seq![],
        ),
    ]
}

/// A button to the issue, where it is shown and there is a URL.
pub open spec fn button_part(vars: VarsV, show_button: bool) -> Seq<ElementV> {
    if show_button && vars.url.len() > 0 {
        seq![
            ElementV::Action {
                actions: seq![
                    ActionV::Button {
                        text: TextV { tag: "plain_text"@, content: "查看详情"@ },
                        url: vars.url,
                        button_type: "primary"@,
                        width: Some("fill"@),
                    },
                ],
            },
        ]
    } else {
        seq![]
    }
}

/// The elements of a card, in order: the exception detail and a rule (if shown), the
/// fields (if any), the tags (if shown and present), the triggering rule with issue and
/// event ids, and a button to the issue (if shown and there is a URL).
pub open spec fn card_elements(config: ConfigV, vars: VarsV, show_button: bool) -> Seq<ElementV> {
    detail_part(config, vars) + field_part(config, vars) + tags_part(config, vars) + ids_part(vars)
        + button_part(vars, show_button)
}

/// The title template of a group: its own, else the standard one.
pub open spec fn title_template_of(group: FeishuGroup) -> Seq<char> {
    or_default(opt_view(group.card_title_template), "🚨 Sentry 告警"@)
}

/// The header colour of a group: its own, else red.
pub open spec fn color_of(group: FeishuGroup) -> Seq<char> {
    or_default(opt_view(group.card_color), "red"@)
}

/// Whether a group's cards have a details button: unless it is stored as other than 1.
pub open spec fn shows_button(group: FeishuGroup) -> bool {
    match group.card_show_details_button {
        Some(n) => n == 1,
        None => true,
    }
}

/// The card configuration in force: the group's parsed one, else the default.
pub open spec fn config_in_force(parsed: Option<CardConfig>) -> ConfigV {
    match parsed {
        Some(c) => c@,
        None => default_config(),
    }
}

/// The card sent to a group for the given variables.
pub open spec fn card_for(group: FeishuGroup, config: ConfigV, vars: VarsV) -> CardV {
    CardV {
        header: Some(
            HeaderV {
                title: TextV { tag: "plain_text"@, content: vars.fill(title_template_of(group)) },
                template: Some(color_of(group)),
            },
        ),
        elements: card_elements(config, vars, shows_button(group)),
    }
}

proof fn lemma_substitute_absent(t: Seq<char>, pairs: Seq<(Seq<char>, Seq<char>)>)
    requires
        !t.contains('{'),
        forall|k: int| 0 <= k < pairs.len() ==> pairs[k].0.len() > 0 && pairs[k].0[0] == '{',
    ensures
        substitute(t, pairs) == t,
    decreases pairs.len(),
{
    if pairs.len() > 0 {
        lemma_replace_absent(t, pairs[0].0, pairs[0].1);
        lemma_substitute_absent(t, pairs.drop_first());
    }
}

/// A template without `{` holds no placeholder: filling it gives it back unchanged.
pub proof fn law_plain_template_unchanged(vars: VarsV, template: Seq<char>)
    requires
        !template.contains('{'),
    ensures
        vars.fill(template) == template,
{
    reveal_strlit("{{project}}");
    reveal_strlit("{{environment}}");
    reveal_strlit("{{level}}");
    reveal_strlit("{{title}}");
    reveal_strlit("{{message}}");
    reveal_strlit("{{url}}");
    reveal_strlit("{{timestamp}}");
    reveal_strlit("{{triggered_rule}}");
    reveal_strlit("{{platform}}");
    reveal_strlit("{{event_id}}");
    reveal_strlit("{{issue_id}}");
    reveal_strlit("{{tags}}");
    reveal_strlit("{{culprit}}");
    reveal_strlit("{{user}}");
    lemma_substitute_absent(template, vars.placeholders());
}

// ---------------------------------------------------------------------------
// Trusted calls into chrono
// ---------------------------------------------------------------------------

/// Whether `chrono::DateTime::parse_from_rfc3339` accepts a text.
pub uninterp spec fn rfc3339_accepts(s: Seq<char>) -> bool;

/// How cards show a time, in chrono's notation: `YYYY-MM-DD hh:mm:ss`.
pub open spec fn time_format() -> Seq<char> {
    "%Y-%m-%d %H:%M:%S"@
}

/// A decimal digit character.
pub open spec fn is_digit(c: char) -> bool {
    '0' <= c && c <= '9'
}

/// The value of a decimal digit character.
pub open spec fn digit_value(c: char) -> int {
    c as int - 48
}

/// The number written by the two digits at `i` and `i + 1`.
pub open spec fn two_digits(t: Seq<char>, i: int) -> int {
    digit_value(t[i]) * 10 + digit_value(t[i + 1])
}

/// The number written by a run of digits.
pub open spec fn digits_value(t: Seq<char>) -> int
    decreases t.len(),
{
    if t.len() == 0 {
        0
    } else {
        digits_value(t.drop_last()) * 10 + digit_value(t.last())
    }
}

/// A time as cards show it (`time_format`): a year of at least four digits (with a
/// sign where it is below 0 or above 9999), then `-MM-DD hh:mm:ss`.
pub open spec fn is_shown_time(t: Seq<char>) -> bool {
    let n = t.len() as int;
    &&& n >= 19
    &&& t[n - 15] == '-'
    &&& t[n - 12] == '-'
    &&& t[n - 9] == ' '
    &&& t[n - 6] == ':'
    &&& t[n - 3] == ':'
    &&& forall|k: int|
        n - 15 < k < n && k != n - 12 && k != n - 9 && k != n - 6 && k != n - 3 ==> is_digit(
            #[trigger] t[k],
        )
}

/// The year of a shown time.
pub open spec fn shown_year(t: Seq<char>) -> int {
    let y = t.take(t.len() - 15);
    if y.len() > 0 && y[0] == '-' {
        -digits_value(y.drop_first())
    } else if y.len() > 0 && y[0] == '+' {
        digits_value(y.drop_first())
    } else {
        digits_value(y)
    }
}

/// The number of a day of the proleptic Gregorian calendar, counted from 1970-01-01.
pub open spec fn civil_days(y: int, m: int, d: int) -> int {
    let y2 = if m <= 2 {
        y - 1
    } else {
        y
    };
    let era = y2 / 400;
    let yoe = y2 - era * 400;
    let mp = (m + 9) % 12;
    let doy = (153 * mp + 2) / 5 + d - 1;
    let doe = yoe * 365 + yoe / 4 - yoe / 100 + doy;
    era * 146097 + doe - 719468
}

/// The day a shown time falls on.
pub open spec fn shown_day(t: Seq<char>) -> int {
    let n = t.len() as int;
    civil_days(shown_year(t), two_digits(t, n - 14), two_digits(t, n - 11))
}

/// The day written at the start of an RFC 3339 date-time (`YYYY-MM-DD...`).
pub open spec fn written_day(dt: Seq<char>) -> int {
    civil_days(digits_value(dt.take(4)), two_digits(dt, 5), two_digits(dt, 8))
}

/// A shown time of the instant an RFC 3339 date-time writes: shown in a zone whose
/// offset is under a day, and written with an offset under a day, its day is at most
/// two days from the written one.
pub open spec fn shows_instant_of(t: Seq<char>, dt: Seq<char>) -> bool {
    is_shown_time(t) && -2 <= shown_day(t) - written_day(dt) <= 2
}

/// A time a card of a payload may show: a shown time, and where the event has a
/// datetime that chrono accepts, one of that instant.
pub open spec fn time_for(payload: SentryWebhookPayload, ts: Seq<char>) -> bool {
    &&& is_shown_time(ts)
    &&& match payload.spec_datetime() {
        Some(dt) => rfc3339_accepts(dt) ==> shows_instant_of(ts, dt),
        None => true,
    }
}

/// The time a card shows for an alert whose event has a datetime that chrono accepts is
/// tied to that datetime: any two times a card may show for it (say, when the alert
/// arrives and when it is resent much later) are at most four days apart, and each is
/// at most two days from the day the datetime writes. A card stamped with the time of
/// sending breaks this for an event older than that.
pub proof fn law_shown_time_follows_event(payload: SentryWebhookPayload, t1: Seq<char>, t2: Seq<char>)
    requires
        time_for(payload, t1),
        time_for(payload, t2),
        payload.spec_datetime() matches Some(dt) && rfc3339_accepts(dt),
    ensures
        -4 <= shown_day(t1) - shown_day(t2) <= 4,
        -2 <= shown_day(t1) - written_day(payload.spec_datetime()->0) <= 2,
        t1.len() >= 19,
{
}

/// Calls `chrono::DateTime::parse_from_rfc3339` and, where it accepts the text, shows
/// that instant in the machine's local time zone (`with_timezone(&Local)`) with
/// `format`. Only whether a text is accepted is stated (by name); the text shown
/// depends on the time zone. The format is the cards' one, which chrono can write
/// (with a format it cannot write, `to_string` panics). Stated of the text, from
/// chrono's documentation: the format's fields are zero-padded (`%Y` to four digits,
/// with a sign outside 0 to 9999; the others to two), so it is a shown time; the
/// parser reads `YYYY-MM-DD` at the start of an accepted text and accepts offsets up
/// to 23:59, and a local offset (`FixedOffset`) is under a day, so the day shown is
/// at most two days from the day written.
#[verifier::external_body]
fn local_time_of(s: &str, format: &str) -> (r: Option<String>)
    requires
        format@ == time_format(),
    ensures
        r is Some == rfc3339_accepts(s@),
        r matches Some(t) ==> shows_instant_of(t@, s@),
{
    match chrono::DateTime::parse_from_rfc3339(s) {
        Ok(dt) => Some(dt.with_timezone(&chrono::Local).format(format).to_string()),
        Err(_) => None,
    }
}

/// The current local time (`chrono::Local::now`) written with `format`, the cards'
/// format. Only its shape is stated, from chrono's documentation of the format's
/// zero-padded fields: it is a shown time. Which time depends on the clock and the
/// time zone.
#[verifier::external_body]
fn local_now_text(format: &str) -> (r: String)
    requires
        format@ == time_format(),
    ensures
        is_shown_time(r@),
{
    chrono::Local::now().format(format).to_string()
}

// ---------------------------------------------------------------------------
// Executable
// ---------------------------------------------------------------------------

fn field_config(key: &str, label: &str) -> (r: CardFieldConfig)
    ensures
        r@ == field_config_v(key@, label@),
{
    CardFieldConfig { key: key.to_owned(), label: label.to_owned(), enabled: true }
}

impl Default for CardConfig {
    fn default() -> (r: Self)
        ensures
            r@ == default_config(),
    {
        let mut show_fields: Vec<CardFieldConfig> = Vec::new();
        show_fields.push(field_config("project", "项目"));
        show_fields.push(field_config("environment", "环境"));
        show_fields.push(field_config("level", "级别"));
        show_fields.push(field_config("timestamp", "时间"));
        show_fields.push(field_config("platform", "平台"));
        show_fields.push(field_config("culprit", "源码位置"));
        show_fields.push(field_config("user", "触发用户"));
        let r = CardConfig { show_fields, show_tags: true, show_exception_detail: true };
        assert(r@.show_fields =~= default_config().show_fields);
        r
    }
}

/// The tag line of an event's tags.
pub fn format_tags(tags: &Vec<(String, String)>) -> (r: String)
    ensures
        r@ == tag_line(tags@),
{
    let ghost pieces = Seq::new(tags@.len(), |i: int| tags@[i].0@ + ": "@ + tags@[i].1@);
    let mut s = String::new();
    let n = tags.len();
    assert(pieces.take(0) =~= Seq::<Seq<char>>::empty());
    for i in 0..n
        invariant
            n == tags@.len(),
            pieces == Seq::new(tags@.len(), |i: int| tags@[i].0@ + ": "@ + tags@[i].1@),
            s@ == join(pieces.take(i as int), ", "@),
    {
        let ghost before = s@;
        if i > 0 {
            push_all(&mut s, ", ");
        }
        push_all(&mut s, tags[i].0.as_str());
        push_all(&mut s, ": ");
        push_all(&mut s, tags[i].1.as_str());
        assert(pieces.take(i + 1).drop_last() =~= pieces.take(i as int));
        assert(pieces.take(i + 1).last() == pieces[i as int]);
        if i == 0 {
            assert(s@ =~= pieces[0]);
        } else {
            assert(s@ =~= before + ", "@ + pieces[i as int]);
        }
    }
    assert(pieces.take(n as int) =~= pieces);
    s
}

impl TemplateVars {
    /// The project identifier under which a payload's display name is looked up:
    /// the payload's project, else `Unknown`.
    pub fn project_lookup_key(payload: &SentryWebhookPayload) -> (r: String)
        ensures
            r@ == or_default(payload.spec_project(), "Unknown"@),
    {
        unwrap_or_str(payload.get_project(), "Unknown")
    }

    /// The template variables of a payload, given the project's display name and the
    /// time to show.
    pub fn from_payload_at(
        payload: &SentryWebhookPayload,
        project_display: String,
        timestamp: String,
    ) -> (r: TemplateVars)
        ensures
            r@ == vars_from(*payload, project_display@, timestamp@),
    {
        let (tags, culprit, user) = match &payload.data.event {
            Some(e) => {
                let culprit = match &e.culprit {
                    Some(c) => c.clone(),
                    None => "N/A".to_owned(),
                };
                let user = match &e.user {
                    Some(u) => match (&u.username, &u.email, &u.ip_address) {
                        (Some(n), _, _) => n.clone(),
                        (None, Some(m), _) => m.clone(),
                        (None, None, Some(a)) => a.clone(),
                        (None, None, None) => "N/A".to_owned(),
                    },
                    None => "N/A".to_owned(),
                };
                (format_tags(&e.tags), culprit, user)
            },
            None => (String::new(), "N/A".to_owned(), "N/A".to_owned()),
        };
        proof {
            reveal_strlit("");
        }
        assert(tags@ == vars_from(*payload, project_display@, timestamp@).tags);
        assert(culprit@ == vars_from(*payload, project_display@, timestamp@).culprit);
        assert(user@ == vars_from(*payload, project_display@, timestamp@).user);
        let ghost want = vars_from(*payload, project_display@, timestamp@);
        let environment = unwrap_or_str(payload.get_environment(), "Unknown");
        let level = unwrap_or_str(payload.get_level(), "error");
        let title = unwrap_or_str(payload.get_title(), "No title");
        let message = unwrap_or_str(payload.get_message(), "No message");
        let url = unwrap_or_str(payload.get_web_url(), "");
        let triggered_rule = unwrap_or_str(payload.get_triggered_rule(), "N/A");
        let platform = unwrap_or_str(payload.get_platform(), "N/A");
        let event_id = unwrap_or_str(payload.get_event_id(), "N/A");
        let issue_id = unwrap_or_str(payload.get_issue_id(), "N/A");
        assert(environment@ == want.environment);
        assert(level@ == want.level);
        assert(title@ == want.title);
        assert(message@ == want.message);
        assert(url@ == want.url);
        assert(triggered_rule@ == want.triggered_rule);
        assert(platform@ == want.platform);
        assert(event_id@ == want.event_id);
        assert(issue_id@ == want.issue_id);
        let r = TemplateVars {
            project: project_display,
            environment,
            level,
            title,
            message,
            url,
            timestamp,
            triggered_rule,
            platform,
            event_id,
            issue_id,
            tags,
            culprit,
            user,
        };
        r
    }

    /// The template variables of a payload, given the project's display name. The time
    /// shown is the event's `datetime` in local time where chrono can read it, else the
    /// current local time.
    pub fn from_payload(payload: &SentryWebhookPayload, project_display: String) -> (r: TemplateVars)
        ensures
            r@ == vars_from(*payload, project_display@, r.timestamp@),
            time_for(*payload, r.timestamp@),
    {
        let timestamp = shown_timestamp(Self::event_local_time(payload), local_now_text("%Y-%m-%d %H:%M:%S"));
        Self::from_payload_at(payload, project_display, timestamp)
    }

    /// The event's own time as cards show it, in local time: present exactly where the
    /// payload has a datetime that chrono reads as RFC 3339.
    pub fn event_local_time(payload: &SentryWebhookPayload) -> (r: Option<String>)
        ensures
            r is Some <==> (payload.spec_datetime() matches Some(dt) && rfc3339_accepts(dt)),
            r matches Some(t) ==> (payload.spec_datetime() matches Some(dt) && shows_instant_of(t@, dt)),
    {
        match payload.get_datetime() {
            Some(dt) => local_time_of(dt.as_str(), "%Y-%m-%d %H:%M:%S"),
            None => None,
        }
    }

    /// The value a card field shows for a variable name.
    pub fn get_value(&self, key: &str) -> (r: String)
        ensures
            r@ == self@.value_of(key@),
    {
        if str_equal(key, "project") {
            self.project.clone()
        } else if str_equal(key, "environment") {
            self.environment.clone()
        } else if str_equal(key, "level") {
            self.level.clone()
        } else if str_equal(key, "platform") {
            self.platform.clone()
        } else if str_equal(key, "culprit") {
            self.culprit.clone()
        } else if str_equal(key, "user") {
            self.user.clone()
        } else if str_equal(key, "timestamp") {
            self.timestamp.clone()
        } else if str_equal(key, "triggered_rule") {
            self.triggered_rule.clone()
        } else if str_equal(key, "event_id") {
            self.event_id.clone()
        } else if str_equal(key, "issue_id") {
            self.issue_id.clone()
        } else {
            "N/A".to_owned()
        }
    }

    /// Replace template variables in a string: each `{{name}}` placeholder by the
    /// variable's value, one variable after the other.
    pub fn replace(&self, template: &str) -> (r: String)
        ensures
            r@ == self@.fill(template@),
    {
        let mut names: Vec<&str> = Vec::new();
        names.push("{{project}}");
        names.push("{{environment}}");
        names.push("{{level}}");
        names.push("{{title}}");
        names.push("{{message}}");
        names.push("{{url}}");
        names.push("{{timestamp}}");
        names.push("{{triggered_rule}}");
        names.push("{{platform}}");
        names.push("{{event_id}}");
        names.push("{{issue_id}}");
        names.push("{{tags}}");
        names.push("{{culprit}}");
        names.push("{{user}}");
        let mut values: Vec<&String> = Vec::new();
        values.push(&self.project);
        values.push(&self.environment);
        values.push(&self.level);
        values.push(&self.title);
        values.push(&self.message);
        values.push(&self.url);
        values.push(&self.timestamp);
        values.push(&self.triggered_rule);
        values.push(&self.platform);
        values.push(&self.event_id);
        values.push(&self.issue_id);
        values.push(&self.tags);
        values.push(&self.culprit);
        values.push(&self.user);
        let ghost pairs = self@.placeholders();
        proof {
            reveal_strlit("{{project}}");
            reveal_strlit("{{environment}}");
            reveal_strlit("{{level}}");
            reveal_strlit("{{title}}");
            reveal_strlit("{{message}}");
            reveal_strlit("{{url}}");
            reveal_strlit("{{timestamp}}");
            reveal_strlit("{{triggered_rule}}");
            reveal_strlit("{{platform}}");
            reveal_strlit("{{event_id}}");
            reveal_strlit("{{issue_id}}");
            reveal_strlit("{{tags}}");
            reveal_strlit("{{culprit}}");
            reveal_strlit("{{user}}");
            assert forall|k: int| 0 <= k < 14 implies names@[k]@ == pairs[k].0 && values@[k]@
                == pairs[k].1 && pairs[k].0.len() > 0 by {}
        }
        let mut t = chars_of(template);
        assert(pairs.skip(0) =~= pairs);
        for i in 0..14
            invariant
                names@.len() == 14,
                values@.len() == 14,
                pairs.len() == 14,
                forall|k: int| 0 <= k < 14 ==> names@[k]@ == pairs[k].0 && values@[k]@ == pairs[k].1
                    && pairs[k].0.len() > 0,
                substitute(template@, pairs) == substitute(t@, pairs.skip(i as int)),
        {
            let pat = chars_of(names[i]);
            let rep = chars_of(values[i].as_str());
            assert(pairs.skip(i as int).drop_first() =~= pairs.skip(i + 1));
            t = replace_chars(t.as_slice(), pat.as_slice(), rep.as_slice());
        }
        assert(pairs.skip(14) =~= Seq::<(Seq<char>, Seq<char>)>::empty());
        string_of(t.as_slice())
    }
}

/// The fields a card shows for the given field configuration.
pub fn field_cards(cfgs: &Vec<CardFieldConfig>, vars: &TemplateVars) -> (r: Vec<CardField>)
    ensures
        item_views(r@) == field_lines(item_views(cfgs@), vars@),
{
    let mut fields: Vec<CardField> = Vec::new();
    let n = cfgs.len();
    assert(item_views(cfgs@).take(0) =~= Seq::<FieldConfigV>::empty());
    assert(item_views(fields@) =~= Seq::<FieldV>::empty());
    for i in 0..n
        invariant
            n == cfgs@.len(),
            item_views(fields@) == field_lines(item_views(cfgs@).take(i as int), vars@),
    {
        let c = &cfgs[i];
        let ghost cs = item_views(cfgs@).take(i + 1);
        assert(cs.drop_last() =~= item_views(cfgs@).take(i as int));
        assert(cs.last() == c@);
        if c.enabled {
            let value = vars.get_value(c.key.as_str());
            let mut text = concat("**", c.label.as_str());
            push_all(&mut text, "**\n");
            push_all(&mut text, value.as_str());
            let ghost before = item_views(fields@);
            fields.push(CardField::new(text.as_str(), true));
            assert(item_views(fields@) =~= before.push(
                FieldV { is_short: true, text: markdown_v("**"@ + c@.label + "**\n"@ + vars@.value_of(c@.key)) },
            ));
        }
    }
    assert(item_views(cfgs@).take(n as int) =~= item_views(cfgs@));
    fields
}

/// A `div` element with markdown text and no fields.
fn text_div(content: &str) -> (r: CardElement)
    ensures
        r@ == div_v(content@, seq![]),
{
    let r = CardElement::Div { text: Some(CardMarkdown::new(content)), fields: Some(Vec::new()) };
    assert(item_views(Seq::<CardField>::empty()) =~= Seq::<FieldV>::empty());
    r
}

/// Build a Feishu card message from a group's configuration and the template
/// variables. `parsed_config` is the group's card configuration as read from its
/// `card_config_json`, where that held a valid configuration.
pub fn build_card_message(
    group: &FeishuGroup,
    parsed_config: Option<CardConfig>,
    vars: &TemplateVars,
) -> (r: FeishuMessage)
    ensures
        r@ == card_for(*group, config_in_force(parsed_config), vars@),
{
    let config = match parsed_config {
        Some(c) => c,
        None => CardConfig::default(),
    };
    let ghost cfg = config@;
    let ghost vs = vars@;
    let title_template = match &group.card_title_template {
        Some(t) => t.as_str(),
        None => "🚨 Sentry 告警",
    };
    let title = vars.replace(title_template);
    let color = match &group.card_color {
        Some(c) => c.as_str(),
        None => "red",
    };
    let show_button = match group.card_show_details_button {
        Some(n) => n == 1,
        None => true,
    };
    let header = CardHeader::new(title.as_str(), Some(color));
    let mut elements: Vec<CardElement> = Vec::new();
    if config.show_exception_detail {
        let mut text = concat("**", vars.title.as_str());
        push_all(&mut text, "**\n");
        push_all(&mut text, vars.message.as_str());
        elements.push(text_div(text.as_str()));
        elements.push(CardElement::Hr {  });
    }
    assert(item_views(elements@) =~= detail_part(cfg, vs));
    let fields = field_cards(&config.show_fields, vars);
    if fields.len() > 0 {
        proof {
            reveal_strlit("");
        }
        let ghost before = item_views(elements@);
        let ghost fv = item_views(fields@);
        let empty = CardMarkdown::new("");
        assert(empty@ == markdown_v(Seq::<char>::empty())) by {
            assert(""@ =~= Seq::<char>::empty());
        }
        let el = CardElement::Div { text: Some(empty), fields: Some(fields) };
        assert(el@ == ElementV::Div { text: Some(markdown_v(Seq::<char>::empty())), fields: Some(fv) });
        elements.push(el);
        assert(item_views(elements@) =~= before + seq![
            ElementV::Div { text: Some(markdown_v(Seq::<char>::empty())), fields: Some(fv) },
        ]);
    }
    assert(item_views(elements@) =~= detail_part(cfg, vs) + field_part(cfg, vs));
    if config.show_tags && !vars.tags.as_str().is_empty() {
        let text = concat("**Tags**: ", vars.tags.as_str());
        elements.push(text_div(text.as_str()));
    }
    assert(item_views(elements@) =~= detail_part(cfg, vs) + field_part(cfg, vs) + tags_part(cfg, vs));
    let mut ids = concat("**触发规则**: ", vars.triggered_rule.as_str());
    push_all(&mut ids, "\n**Issue ID**: ");
    push_all(&mut ids, vars.issue_id.as_str());
    push_all(&mut ids, " | **Event ID**: ");
    push_all(&mut ids, vars.event_id.as_str());
    elements.push(text_div(ids.as_str()));
    assert(item_views(elements@) =~= detail_part(cfg, vs) + field_part(cfg, vs) + tags_part(cfg, vs)
        + ids_part(vs));
    if show_button && !vars.url.as_str().is_empty() {
        let mut actions: Vec<CardAction> = Vec::new();
        actions.push(
            CardAction::Button {
                text: CardText { tag: "plain_text".to_owned(), content: "查看详情".to_owned() },
                url: vars.url.clone(),
                button_type: "primary".to_owned(),
                width: Some("fill".to_owned()),
            },
        );
        let ghost before = item_views(elements@);
        let ghost av = item_views(actions@);
        elements.push(CardElement::Action { actions });
        assert(item_views(elements@) =~= before + seq![ElementV::Action { actions: av }]);
        assert(av =~= seq![
            ActionV::Button {
                text: TextV { tag: "plain_text"@, content: "查看详情"@ },
                url: vs.url,
                button_type: "primary"@,
                width: Some("fill"@),
            },
        ]);
    }
    assert(item_views(elements@) =~= card_elements(cfg, vs, show_button));
    FeishuMessage::card(Some(header), elements)
}

/// The time a card shows: the event's own time where there is one, else the current
/// time.
pub fn shown_timestamp(event_time: Option<String>, now: String) -> (r: String)
    ensures
        r@ == match event_time {
            Some(t) => t@,
            None => now@,
        },
{
    match event_time {
        Some(t) => t,
        None => now,
    }
}

/// Build the test message sent to check a group's webhook: simulated alert data,
/// stamped with the current local time.
pub fn build_test_message(group: &FeishuGroup, parsed_config: Option<CardConfig>) -> (r: FeishuMessage)
    ensures
        exists|timestamp: Seq<char>|
            is_shown_time(timestamp) && r@ == card_for(
                *group,
                config_in_force(parsed_config),
                test_vars(timestamp),
            ),
{
    let now = local_now_text("%Y-%m-%d %H:%M:%S");
    let ghost ts = now@;
    let vars = TemplateVars::test_vars_at(now);
    let r = build_card_message(group, parsed_config, &vars);
    assert(is_shown_time(ts) && r@ == card_for(*group, config_in_force(parsed_config), test_vars(ts)));
    r
}

/// Build the card message for a payload, given the group's parsed card configuration
/// and the project's display name.
pub fn build_message(
    group: &FeishuGroup,
    payload: &SentryWebhookPayload,
    parsed_config: Option<CardConfig>,
    project_display: String,
) -> (r: FeishuMessage)
    ensures
        exists|timestamp: Seq<char>|
            time_for(*payload, timestamp) && r@ == card_for(
                *group,
                config_in_force(parsed_config),
                vars_from(*payload, project_display@, timestamp),
            ),
{
    let ghost name = project_display@;
    let vars = TemplateVars::from_payload(payload, project_display);
    let ghost ts = vars.timestamp@;
    let r = build_card_message(group, parsed_config, &vars);
    assert(time_for(*payload, ts) && r@ == card_for(
        *group,
        config_in_force(parsed_config),
        vars_from(*payload, name, ts),
    ));
    r
}

impl TemplateVars {
    /// The variables of the test message, with the given time.
    pub fn test_vars_at(timestamp: String) -> (r: TemplateVars)
        ensures
            r@ == test_vars(timestamp@),
    {
        TemplateVars {
            project: "测试项目".to_owned(),
            environment: "production".to_owned(),
            level: "error".to_owned(),
            title: "这是一个测试告警".to_owned(),
            message: "飞书机器人连接测试成功！如果收到此消息，说明配置正确。".to_owned(),
            url: "https://sentry.io/test/issue".to_owned(),
            timestamp,
            triggered_rule: "测试规则".to_owned(),
            platform: "javascript".to_owned(),
            event_id: "test-event-123".to_owned(),
            issue_id: "test-issue-456".to_owned(),
            tags: "browser: chrome, os: macos".to_owned(),
            culprit: "?(index)".to_owned(),
            user: "ip:127.0.0.1".to_owned(),
        }
    }
}

} // verus!
