use vstd::prelude::*;

use crate::db::rules::RoutingRule;
use crate::models::sentry::SentryWebhookPayload;
use crate::text::{
    contains_seq, ends_with, occurs_at, starts_with, chars_equal, chars_of, has_char, lowercase, opt_view, split_chars, split_on, string_of,
    to_lowercase, trim, trim_chars, views_of,
};

verus! {

// ---------------------------------------------------------------------------
// Specification
// ---------------------------------------------------------------------------

/// Wildcard matching: `*` stands for any sequence of characters, `?` for any one
/// character, every other character for itself.
pub open spec fn wildcard_match(p: Seq<char>, v: Seq<char>) -> bool
    decreases p.len() + v.len(),
{
    if p.len() == 0 {
        v.len() == 0
    } else if p[0] == '*' {
        wildcard_match(p.drop_first(), v) || (v.len() > 0 && wildcard_match(p, v.drop_first()))
    } else {
        v.len() > 0 && (p[0] == '?' || p[0] == v[0]) && wildcard_match(
            p.drop_first(),
            v.drop_first(),
        )
    }
}

/// The pattern holds a wildcard character.
pub open spec fn has_wildcard(p: Seq<char>) -> bool {
    p.contains('*') || p.contains('?')
}

/// One pattern against one value, given the lower-case forms of both: equal
/// characters match; a pattern with wildcards matches as a wildcard pattern; any
/// other pattern matches a value that is equal to it up to case.
pub open spec fn single_match(
    p: Seq<char>,
    v: Seq<char>,
    lower_p: Seq<char>,
    lower_v: Seq<char>,
) -> bool {
    if p == v {
        true
    } else if has_wildcard(p) {
        wildcard_match(p, v)
    } else {
        lower_p == lower_v
    }
}

/// One pattern against one value.
pub open spec fn single_pattern_matches(p: Seq<char>, v: Seq<char>) -> bool {
    single_match(p, v, lowercase(p), lowercase(v))
}

/// A pattern against a value. A pattern with commas is a list: it matches where one
/// of its comma-separated items, trimmed of white space, matches.
pub open spec fn pattern_matches(p: Seq<char>, v: Seq<char>) -> bool {
    if p.contains(',') {
        exists|i: int|
            0 <= i < split_on(p, ',').len() && single_pattern_matches(
                trim(#[trigger] split_on(p, ',')[i]),
                v,
            )
    } else {
        single_pattern_matches(p, v)
    }
}

/// One condition of a rule: an absent or empty pattern accepts anything; any other
/// pattern needs the attribute to be present and to match.
pub open spec fn condition_holds(pattern: Option<Seq<char>>, value: Option<Seq<char>>) -> bool {
    match pattern {
        Some(p) => p.len() == 0 || match value {
            Some(v) => pattern_matches(p, v),
            None => false,
        },
        None => true,
    }
}

/// A rule matches an alert's project, environment and level where each of its three
/// conditions holds.
pub open spec fn rule_matches(
    rule: RoutingRule,
    project: Option<Seq<char>>,
    environment: Option<Seq<char>>,
    level: Option<Seq<char>>,
) -> bool {
    &&& condition_holds(opt_view(rule.project_match), project)
    &&& condition_holds(opt_view(rule.environment_match), environment)
    &&& condition_holds(opt_view(rule.level_match), level)
}

/// A rule matches a payload.
pub open spec fn rule_matches_payload(rule: RoutingRule, payload: SentryWebhookPayload) -> bool {
    rule_matches(rule, payload.spec_project(), payload.spec_environment(), payload.spec_level())
}

// ---------------------------------------------------------------------------
// Wildcard matching
// ---------------------------------------------------------------------------

/// `wildcard_match` on the suffixes at `i` and `j`, one step unfolded.
proof fn lemma_wildcard_step(p: Seq<char>, v: Seq<char>, i: int, j: int)
    requires
        0 <= i < p.len(),
        0 <= j <= v.len(),
    ensures
        wildcard_match(p.skip(i), v.skip(j)) == if p[i] == '*' {
            wildcard_match(p.skip(i + 1), v.skip(j)) || (j < v.len() && wildcard_match(
                p.skip(i),
                v.skip(j + 1),
            ))
        } else {
            j < v.len() && (p[i] == '?' || p[i] == v[j]) && wildcard_match(
                p.skip(i + 1),
                v.skip(j + 1),
            )
        },
{
    let ps = p.skip(i);
    let vs = v.skip(j);
    assert(ps[0] == p[i]);
    assert(ps.drop_first() =~= p.skip(i + 1));
    if j < v.len() {
        assert(vs[0] == v[j]);
        assert(vs.drop_first() =~= v.skip(j + 1));
    }
}

/// `wildcard_match` on the empty pattern suffix.
proof fn lemma_wildcard_end(p: Seq<char>, v: Seq<char>, j: int)
    requires
        0 <= j <= v.len(),
    ensures
        wildcard_match(p.skip(p.len() as int), v.skip(j)) == (j == v.len()),
{
    assert(p.skip(p.len() as int).len() == 0);
}

/// Whether `v` matches the wildcard pattern `p`.
pub fn wildcard_matches(p: &[char], v: &[char]) -> (r: bool)
    ensures
        r == wildcard_match(p@, v@),
{
    let n = p.len();
    let m = v.len();
    // row[j] holds the match of p[i..] against v[j..]; tail that of p[i..] against nothing.
    let mut row: Vec<bool> = Vec::new();
    for j in 0..m
        invariant
            m == v@.len(),
            n == p@.len(),
            row@.len() == j,
            forall|k: int| 0 <= k < j ==> row@[k] == wildcard_match(p@.skip(n as int), v@.skip(k)),
    {
        proof {
            lemma_wildcard_end(p@, v@, j as int);
        }
        row.push(false);
    }
    let mut tail = true;
    proof {
        lemma_wildcard_end(p@, v@, m as int);
    }
    let mut i = n;
    while i > 0
        invariant
            m == v@.len(),
            n == p@.len(),
            i <= n,
            row@.len() == m,
            tail == wildcard_match(p@.skip(i as int), v@.skip(m as int)),
            forall|k: int| 0 <= k < m ==> row@[k] == wildcard_match(p@.skip(i as int), v@.skip(k)),
        decreases i,
    {
        let ii = i - 1;
        let star = p[ii] == '*';
        let new_tail = if star {
            tail
        } else {
            false
        };
        proof {
            lemma_wildcard_step(p@, v@, ii as int, m as int);
        }
        let mut cur: Vec<bool> = Vec::new();
        for k in 0..m
            invariant
                cur@.len() == k,
        {
            cur.push(false);
        }
        let mut right = new_tail;
        let mut j = m;
        while j > 0
            invariant
                m == v@.len(),
                n == p@.len(),
                ii < n,
                i == ii + 1,
                j <= m,
                row@.len() == m,
                cur@.len() == m,
                star == (p@[ii as int] == '*'),
                tail == wildcard_match(p@.skip(i as int), v@.skip(m as int)),
                forall|k: int| 0 <= k < m ==> row@[k] == wildcard_match(p@.skip(i as int), v@.skip(k)),
                right == wildcard_match(p@.skip(ii as int), v@.skip(j as int)),
                forall|k: int| j <= k < m ==> cur@[k] == wildcard_match(p@.skip(ii as int), v@.skip(k)),
            decreases j,
        {
            let jj = j - 1;
            proof {
                lemma_wildcard_step(p@, v@, ii as int, jj as int);
            }
            let val = if star {
                row[jj] || right
            } else {
                let next = if jj + 1 < m {
                    row[jj + 1]
                } else {
                    tail
                };
                (p[ii] == '?' || p[ii] == v[jj]) && next
            };
            cur.set(jj, val);
            right = val;
            j = jj;
        }
        row = cur;
        tail = new_tail;
        i = ii;
    }
    assert(p@.skip(0) =~= p@);
    assert(v@.skip(0) =~= v@);
    if m == 0 {
        tail
    } else {
        row[0]
    }
}

// ---------------------------------------------------------------------------
// Pattern matching
// ---------------------------------------------------------------------------

/// One pattern against one value, given the lower-case forms of both.
pub fn single_pattern_verdict(
    pattern: &[char],
    value: &[char],
    lower_pattern: &[char],
    lower_value: &[char],
) -> (r: bool)
    ensures
        r == single_match(pattern@, value@, lower_pattern@, lower_value@),
{
    if chars_equal(pattern, value) {
        return true;
    }
    if has_char(pattern, '*') || has_char(pattern, '?') {
        return wildcard_matches(pattern, value);
    }
    chars_equal(lower_pattern, lower_value)
}

/// Whether `value` matches the single pattern `pattern`: an exact match, a wildcard
/// match (`*` any sequence, `?` any one character), or for a pattern without
/// wildcards a match that ignores case.
pub fn matches_single_pattern(pattern: &str, value: &str) -> (r: bool)
    ensures
        r == single_pattern_matches(pattern@, value@),
{
    let p = chars_of(pattern);
    let v = chars_of(value);
    let lp = chars_of(to_lowercase(pattern).as_str());
    let lv = chars_of(to_lowercase(value).as_str());
    single_pattern_verdict(p.as_slice(), v.as_slice(), lp.as_slice(), lv.as_slice())
}

/// Simple wildcard pattern matching. A pattern with commas (such as
/// `production,staging`) is a list of patterns, each trimmed of white space, of which
/// one must match.
pub fn matches_pattern(pattern: &str, value: &str) -> (r: bool)
    ensures
        r == pattern_matches(pattern@, value@),
{
    let p = chars_of(pattern);
    if !has_char(p.as_slice(), ',') {
        return matches_single_pattern(pattern, value);
    }
    let parts = split_chars(p.as_slice(), ',');
    let n = parts.len();
    for i in 0..n
        invariant
            n == parts@.len(),
            p@ == pattern@,
            pattern@.contains(','),
            views_of(parts@) == split_on(p@, ','),
            forall|k: int|
                0 <= k < i ==> !single_pattern_matches(trim(#[trigger] split_on(p@, ',')[k]), value@),
    {
        let item = trim_chars(parts[i].as_slice());
        assert(views_of(parts@)[i as int] == parts@[i as int]@);
        if matches_single_pattern(string_of(item.as_slice()).as_str(), value) {
            assert(single_pattern_matches(trim(split_on(pattern@, ',')[i as int]), value@));
            return true;
        }
    }
    false
}

/// Whether one condition of a rule holds for an alert attribute.
fn condition_matches(pattern: &Option<String>, value: &Option<String>) -> (r: bool)
    ensures
        r == condition_holds(opt_view(*pattern), opt_view(*value)),
{
    match pattern {
        Some(p) => {
            if p.as_str().is_empty() {
                true
            } else {
                match value {
                    Some(v) => matches_pattern(p.as_str(), v.as_str()),
                    None => false,
                }
            }
        },
        None => true,
    }
}

/// Whether a rule matches an alert's project, environment and level.
pub fn matches_rule(
    rule: &RoutingRule,
    project: &Option<String>,
    environment: &Option<String>,
    level: &Option<String>,
) -> (r: bool)
    ensures
        r == rule_matches(*rule, opt_view(*project), opt_view(*environment), opt_view(*level)),
{
    condition_matches(&rule.project_match, project) && condition_matches(
        &rule.environment_match,
        environment,
    ) && condition_matches(&rule.level_match, level)
}

/// Match a Sentry payload against routing rules: the first rule, in the given order,
/// that matches.
pub fn match_rule<'a>(payload: &SentryWebhookPayload, rules: &'a [RoutingRule]) -> (r: Option<
    &'a RoutingRule,
>)
    ensures
        match r {
            Some(rule) => exists|i: int|
                0 <= i < rules@.len() && *rule == rules@[i] && rule_matches_payload(
                    rules@[i],
                    *payload,
                ) && forall|k: int| 0 <= k < i ==> !rule_matches_payload(rules@[k], *payload),
            None => forall|k: int| 0 <= k < rules@.len() ==> !rule_matches_payload(rules@[k], *payload),
        },
{
    let project = payload.get_project();
    let environment = payload.get_environment();
    let level = payload.get_level();
    let n = rules.len();
    for i in 0..n
        invariant
            n == rules@.len(),
            opt_view(project) == payload.spec_project(),
            opt_view(environment) == payload.spec_environment(),
            opt_view(level) == payload.spec_level(),
            forall|k: int| 0 <= k < i ==> !rule_matches_payload(rules@[k], *payload),
    {
        if matches_rule(&rules[i], &project, &environment, &level) {
            return Some(&rules[i]);
        }
    }
    None
}

// ---------------------------------------------------------------------------
// Laws of pattern matching
// ---------------------------------------------------------------------------

/// A pattern of ordinary characters: no wildcard and no list separator.
pub open spec fn is_literal(q: Seq<char>) -> bool {
    !q.contains('*') && !q.contains('?') && !q.contains(',')
}

proof fn lemma_star_alone(v: Seq<char>)
    ensures
        wildcard_match(seq!['*'], v),
    decreases v.len(),
{
    let p = seq!['*'];
    assert(p[0] == '*');
    assert(p.drop_first() =~= Seq::<char>::empty());
    if v.len() > 0 {
        lemma_star_alone(v.drop_first());
    } else {
        assert(wildcard_match(p.drop_first(), v));
    }
}

proof fn lemma_literal_wildcard(q: Seq<char>, v: Seq<char>)
    requires
        is_literal(q),
    ensures
        wildcard_match(q, v) == (q == v),
    decreases q.len(),
{
    if q.len() == 0 {
        if v.len() == 0 {
            assert(q =~= v);
        }
    } else {
        assert(q.drop_first().contains('*') ==> q.contains('*'));
        assert(q.drop_first().contains('?') ==> q.contains('?'));
        assert(q.drop_first().contains(',') ==> q.contains(','));
        assert(q[0] != '*' && q[0] != '?') by {
            assert(q.contains(q[0]));
        }
        lemma_literal_wildcard(q.drop_first(), v.drop_first());
        if v.len() > 0 && q[0] == v[0] && q.drop_first() == v.drop_first() {
            assert(q =~= seq![q[0]] + q.drop_first());
            assert(v =~= seq![v[0]] + v.drop_first());
        }
        if q == v {
            assert(q.drop_first() =~= v.drop_first());
        }
    }
}

proof fn lemma_prefix_wildcard(q: Seq<char>, v: Seq<char>)
    requires
        is_literal(q),
    ensures
        wildcard_match(q.push('*'), v) == starts_with(v, q),
    decreases q.len(),
{
    let p = q.push('*');
    if q.len() == 0 {
        assert(p =~= seq!['*']);
        lemma_star_alone(v);
        assert(v.take(0) =~= q);
    } else {
        assert(q.drop_first().contains('*') ==> q.contains('*'));
        assert(q.drop_first().contains('?') ==> q.contains('?'));
        assert(q.drop_first().contains(',') ==> q.contains(','));
        assert(q[0] != '*' && q[0] != '?') by {
            assert(q.contains(q[0]));
        }
        assert(p[0] == q[0]);
        assert(p.drop_first() =~= q.drop_first().push('*'));
        lemma_prefix_wildcard(q.drop_first(), v.drop_first());
        if v.len() > 0 {
            if starts_with(v, q) {
                assert(v.drop_first().take(q.drop_first().len() as int) =~= v.take(q.len() as int).drop_first());
            }
            if q[0] == v[0] && starts_with(v.drop_first(), q.drop_first()) {
                assert(v.take(q.len() as int) =~= seq![v[0]] + v.drop_first().take(q.drop_first().len() as int));
                assert(q =~= seq![q[0]] + q.drop_first());
            }
        }
    }
}

proof fn lemma_ends_with_step(v: Seq<char>, q: Seq<char>)
    requires
        v.len() > 0,
    ensures
        ends_with(v, q) == (q == v || ends_with(v.drop_first(), q)),
{
    if q.len() < v.len() {
        assert(v.drop_first().skip(v.drop_first().len() - q.len()) =~= v.skip(v.len() - q.len()));
        assert(q != v);
    } else if q.len() == v.len() {
        assert(v.skip(0) =~= v);
    }
}

proof fn lemma_suffix_wildcard(q: Seq<char>, v: Seq<char>)
    requires
        is_literal(q),
    ensures
        wildcard_match(seq!['*'] + q, v) == ends_with(v, q),
    decreases v.len(),
{
    let p = seq!['*'] + q;
    assert(p[0] == '*');
    assert(p.drop_first() =~= q);
    lemma_literal_wildcard(q, v);
    if v.len() == 0 {
        if q.len() == 0 {
            assert(v.skip(0) =~= q);
        }
    } else {
        lemma_suffix_wildcard(q, v.drop_first());
        lemma_ends_with_step(v, q);
    }
}

proof fn lemma_occurs_shift(v: Seq<char>, q: Seq<char>, i: int)
    requires
        v.len() > 0,
        i >= 1,
    ensures
        occurs_at(v, q, i) == occurs_at(v.drop_first(), q, i - 1),
{
    if 0 <= i && i + q.len() <= v.len() {
        assert(v.subrange(i, i + q.len()) =~= v.drop_first().subrange(i - 1, i - 1 + q.len()));
    }
}

proof fn lemma_contains_wildcard(q: Seq<char>, v: Seq<char>)
    requires
        is_literal(q),
    ensures
        wildcard_match(seq!['*'] + q.push('*'), v) == contains_seq(v, q),
    decreases v.len(),
{
    let p = seq!['*'] + q.push('*');
    assert(p[0] == '*');
    assert(p.drop_first() =~= q.push('*'));
    lemma_prefix_wildcard(q, v);
    assert(starts_with(v, q) == occurs_at(v, q, 0)) by {
        if q.len() <= v.len() {
            assert(v.take(q.len() as int) =~= v.subrange(0, q.len() as int));
        }
    }
    if v.len() == 0 {
        if contains_seq(v, q) {
            let i = choose|i: int| occurs_at(v, q, i);
            assert(i == 0);
        }
    } else {
        lemma_contains_wildcard(q, v.drop_first());
        if contains_seq(v, q) && !occurs_at(v, q, 0) {
            let i = choose|i: int| occurs_at(v, q, i);
            lemma_occurs_shift(v, q, i);
            assert(occurs_at(v.drop_first(), q, i - 1));
        }
        if contains_seq(v.drop_first(), q) {
            let i = choose|i: int| occurs_at(v.drop_first(), q, i);
            lemma_occurs_shift(v, q, i + 1);
            assert(occurs_at(v, q, i + 1));
        }
        if occurs_at(v, q, 0) {
            assert(contains_seq(v, q));
        }
    }
}

/// The pattern `*` matches every value.
pub proof fn law_star_matches_everything(v: Seq<char>)
    ensures
        pattern_matches(seq!['*'], v),
{
    assert(!seq!['*'].contains(',')) by {
        assert(seq!['*'][0] == '*');
    }
    assert(seq!['*'].contains('*')) by {
        assert(seq!['*'][0] == '*');
    }
    lemma_star_alone(v);
}

/// A pattern without commas matches the value that is spelled exactly like it.
pub proof fn law_exact_match(p: Seq<char>)
    requires
        !p.contains(','),
    ensures
        pattern_matches(p, p),
{
}

/// A pattern ending in `*` (`my-project-*`) matches exactly the values that start
/// with what precedes the `*`.
pub proof fn law_prefix_pattern(q: Seq<char>, v: Seq<char>)
    requires
        is_literal(q),
    ensures
        pattern_matches(q.push('*'), v) == starts_with(v, q),
{
    let p = q.push('*');
    assert(p[q.len() as int] == '*');
    assert(p.contains('*'));
    assert(!p.contains(',')) by {
        if p.contains(',') {
            let k = choose|k: int| 0 <= k < p.len() && p[k] == ',';
            assert(q[k] == ',');
        }
    }
    lemma_prefix_wildcard(q, v);
    if p == v {
        assert(p.take(q.len() as int) =~= q);
    }
    assert(pattern_matches(p, v) == (p == v || wildcard_match(p, v)));
}

/// A pattern starting with `*` (`*-api`) matches exactly the values that end with
/// what follows the `*`.
pub proof fn law_suffix_pattern(q: Seq<char>, v: Seq<char>)
    requires
        is_literal(q),
    ensures
        pattern_matches(seq!['*'] + q, v) == ends_with(v, q),
{
    let p = seq!['*'] + q;
    assert(p[0] == '*');
    assert(p.contains('*'));
    assert(!p.contains(',')) by {
        if p.contains(',') {
            let k = choose|k: int| 0 <= k < p.len() && p[k] == ',';
            assert(q[k - 1] == ',');
        }
    }
    lemma_suffix_wildcard(q, v);
    if p == v {
        assert(p.skip(p.len() - q.len()) =~= q);
    }
    assert(pattern_matches(p, v) == (p == v || wildcard_match(p, v)));
}

/// A pattern with `*` at both ends (`*api*`) matches exactly the values that contain
/// what stands between them.
pub proof fn law_contains_pattern(q: Seq<char>, v: Seq<char>)
    requires
        is_literal(q),
    ensures
        pattern_matches(seq!['*'] + q.push('*'), v) == contains_seq(v, q),
{
    let p = seq!['*'] + q.push('*');
    assert(p[0] == '*');
    assert(p.contains('*'));
    assert(!p.contains(',')) by {
        if p.contains(',') {
            let k = choose|k: int| 0 <= k < p.len() && p[k] == ',';
            assert(q.push('*')[k - 1] == ',');
            assert(q[k - 1] == ',');
        }
    }
    lemma_contains_wildcard(q, v);
    if p == v {
        assert(p.subrange(1, 1 + q.len() as int) =~= q);
        assert(occurs_at(p, q, 1));
    }
    assert(pattern_matches(p, v) == (p == v || wildcard_match(p, v)));
}

/// The pattern `?` matches exactly the values of one character.
pub proof fn law_question_mark(v: Seq<char>)
    ensures
        pattern_matches(seq!['?'], v) == (v.len() == 1),
{
    let p = seq!['?'];
    assert(p[0] == '?');
    assert(!p.contains(','));
    assert(p.contains('?'));
    assert(p.drop_first() =~= Seq::<char>::empty());
    if v.len() > 0 {
        assert(v.drop_first().len() == v.len() - 1);
        assert(wildcard_match(p, v) == wildcard_match(p.drop_first(), v.drop_first()));
    }
    assert(single_pattern_matches(p, v) == (p == v || wildcard_match(p, v)));
}

/// Each item of a comma-separated list, trimmed, is matched by a value spelled exactly
/// like it.
pub proof fn law_list_item_matches(p: Seq<char>, i: int)
    requires
        p.contains(','),
        0 <= i < split_on(p, ',').len(),
    ensures
        pattern_matches(p, trim(split_on(p, ',')[i])),
{
}

/// A rule whose three conditions are absent or empty matches every payload.
pub proof fn law_unconditional_rule(rule: RoutingRule, payload: SentryWebhookPayload)
    requires
        opt_view(rule.project_match) matches Some(p) ==> p.len() == 0,
        opt_view(rule.environment_match) matches Some(p) ==> p.len() == 0,
        opt_view(rule.level_match) matches Some(p) ==> p.len() == 0,
    ensures
        rule_matches_payload(rule, payload),
{
}

/// A rule with a non-empty project pattern never matches a payload without a project.
pub proof fn law_project_required(rule: RoutingRule, payload: SentryWebhookPayload)
    requires
        opt_view(rule.project_match) matches Some(p) && p.len() > 0,
        payload.spec_project() is None,
    ensures
        !rule_matches_payload(rule, payload),
{
}


/// A rule matches an alert exactly when each of its project, environment and level
/// patterns that is present and non-empty matches the alert's attribute, as a pattern
/// (a comma list, a wildcard pattern or a plain name); a missing attribute fails a
/// non-empty pattern.
pub proof fn law_rule_matches_by_patterns(
    rule: RoutingRule,
    project: Option<Seq<char>>,
    environment: Option<Seq<char>>,
    level: Option<Seq<char>>,
)
    ensures
        rule_matches(rule, project, environment, level) <==> {
            &&& match opt_view(rule.project_match) {
                Some(p) => p.len() == 0 || (project matches Some(v) && pattern_matches(p, v)),
                None => true,
            }
            &&& match opt_view(rule.environment_match) {
                Some(p) => p.len() == 0 || (environment matches Some(v) && pattern_matches(p, v)),
                None => true,
            }
            &&& match opt_view(rule.level_match) {
                Some(p) => p.len() == 0 || (level matches Some(v) && pattern_matches(p, v)),
                None => true,
            }
        },
{
}

/// A rule whose environment pattern is a comma list (`production,staging`), and that
/// puts no condition on project and level, matches every alert whose environment is
/// one of the list's items, trimmed.
pub proof fn law_environment_list_item(
    rule: RoutingRule,
    i: int,
    project: Option<Seq<char>>,
    level: Option<Seq<char>>,
)
    requires
        rule.project_match is None,
        rule.level_match is None,
        opt_view(rule.environment_match) matches Some(p) && p.contains(',') && 0 <= i < split_on(
            p,
            ',',
        ).len(),
    ensures
        rule_matches(
            rule,
            project,
            Some(trim(split_on(opt_view(rule.environment_match)->0, ',')[i])),
            level,
        ),
{
    let p = opt_view(rule.environment_match)->0;
    law_list_item_matches(p, i);
    law_rule_matches_by_patterns(rule, project, Some(trim(split_on(p, ',')[i])), level);
}

/// A rule whose environment pattern ends in `*` (`prod*`), and that puts no condition
/// on project and level, matches exactly the alerts whose environment starts with
/// what precedes the `*`.
pub proof fn law_environment_prefix(
    rule: RoutingRule,
    q: Seq<char>,
    project: Option<Seq<char>>,
    environment: Seq<char>,
    level: Option<Seq<char>>,
)
    requires
        rule.project_match is None,
        rule.level_match is None,
        opt_view(rule.environment_match) == Some(q.push('*')),
        is_literal(q),
    ensures
        rule_matches(rule, project, Some(environment), level) == starts_with(environment, q),
{
    law_prefix_pattern(q, environment);
    law_rule_matches_by_patterns(rule, project, Some(environment), level);
}

} // verus!
