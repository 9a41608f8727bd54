use vstd::prelude::*;

use rand::Rng;

use crate::text::{
    chars_of, concat, find_chars, first_occurrence, join, lemma_find_from_occurs, lowercase,
    occurs_at, push_all, str_equal, string_of, subrange_chars, to_lowercase, trim, trim_chars,
    trim_leading, trim_leading_exec,
};

verus! {

// ---------------------------------------------------------------------------
// Server banner
// ---------------------------------------------------------------------------

/// The host shown in the server's addresses: `localhost` for the wildcard address.
pub fn display_host(host: &str) -> (r: String)
    ensures
        r@ == if host@ == "0.0.0.0"@ {
            "localhost"@
        } else {
            host@
        },
{
    if str_equal(host, "0.0.0.0") {
        "localhost".to_owned()
    } else {
        host.to_owned()
    }
}

// ---------------------------------------------------------------------------
// Updating
// ---------------------------------------------------------------------------

/// How the latest release compares with the running version.
#[derive(Debug, Clone, PartialEq)]
pub enum UpdateCheck {
    /// The running version is the latest.
    UpToDate,
    /// A release with another version exists.
    Available { latest: String },
    /// The release could not be read from the answer.
    Unknown,
}

/// The marker of the release tag in GitHub's JSON answer: `"tag_name": "`.
pub open spec fn tag_marker() -> Seq<char> {
    seq!['"', 't', 'a', 'g', '_', 'n', 'a', 'm', 'e', '"', ':', ' ', '"']
}

/// The release tag in GitHub's answer: what follows the first tag marker, up to the
/// next `"`.
pub open spec fn release_tag(response: Seq<char>) -> Option<Seq<char>> {
    match first_occurrence(response, tag_marker()) {
        Some(pos) => {
            let rest = response.skip(pos + 13);
            let end = match first_occurrence(rest, seq!['"']) {
                Some(e) => e,
                None => rest.len() as int,
            };
            Some(rest.take(end))
        },
        None => None,
    }
}

/// The comparison of the running version with the release in GitHub's answer, whose
/// tag is read without its leading `v`s.
pub open spec fn update_check(current: Seq<char>, response: Seq<char>) -> Option<(bool, Seq<char>)> {
    match release_tag(response) {
        Some(tag) => {
            let latest = trim_leading(tag, 'v');
            Some((current == latest, latest))
        },
        None => None,
    }
}

/// The text after the first `marker` in `s`, up to the next `stop` character.
fn text_after(s: &[char], marker: &[char], stop: char) -> (r: Option<Vec<char>>)
    ensures
        match first_occurrence(s@, marker@) {
            Some(pos) => {
                let rest = s@.skip(pos + marker@.len());
                let end = match first_occurrence(rest, seq![stop]) {
                    Some(e) => e,
                    None => rest.len() as int,
                };
                r matches Some(v) && v@ == rest.take(end)
            },
            None => r is None,
        },
{
    match find_chars(s, marker) {
        Some(pos) => {
            proof {
                lemma_find_from_occurs(s@, marker@, 0);
            }
            assert(occurs_at(s@, marker@, pos as int));
            assert(pos + marker@.len() <= s@.len());
            assert(s@.len() == s.len());
            assert(marker@.len() == marker.len());
            let rest = subrange_chars(s, pos + marker.len(), s.len());
            assert(rest@ =~= s@.skip(pos + marker@.len()));
            let stop_seq: Vec<char> = vec![stop];
            assert(stop_seq@ =~= seq![stop]);
            let end = match find_chars(rest.as_slice(), stop_seq.as_slice()) {
                Some(e) => {
                    proof {
                        lemma_find_from_occurs(rest@, stop_seq@, 0);
                    }
                    e
                },
                None => rest.len(),
            };
            let v = subrange_chars(rest.as_slice(), 0, end);
            assert(v@ =~= rest@.take(end as int));
            Some(v)
        },
        None => None,
    }
}

impl UpdateCheck {
    pub open spec fn described(self) -> Option<(bool, Seq<char>)> {
        match self {
            UpdateCheck::UpToDate => None,
            UpdateCheck::Available { latest } => Some((false, latest@)),
            UpdateCheck::Unknown => None,
        }
    }
}

/// Compares the running version with the latest release in GitHub's answer.
pub fn check_release(current: &str, response: &str) -> (r: UpdateCheck)
    ensures
        match update_check(current@, response@) {
            None => r is Unknown,
            Some((same, latest)) => if same {
                r is UpToDate
            } else {
                r matches UpdateCheck::Available { latest: l } && l@ == latest
            },
        },
{
    let text = chars_of(response);
    let marker: Vec<char> = vec!['"', 't', 'a', 'g', '_', 'n', 'a', 'm', 'e', '"', ':', ' ', '"'];
    assert(marker@ =~= tag_marker());
    match text_after(text.as_slice(), marker.as_slice(), '"') {
        Some(tag) => {
            let latest = trim_leading_exec(tag.as_slice(), 'v');
            let latest = string_of(latest.as_slice());
            if str_equal(current, latest.as_str()) {
                UpdateCheck::UpToDate
            } else {
                UpdateCheck::Available { latest }
            }
        },
        None => UpdateCheck::Unknown,
    }
}

/// The tools an update needs: the command to look for, and the name to report.
pub open spec fn required_tools() -> Seq<(Seq<char>, Seq<char>)> {
    seq![("git"@, "git"@), ("pnpm"@, "pnpm"@), ("cargo"@, "Rust/Cargo"@)]
}

/// The commands an update looks for, in order.
pub fn dependency_commands() -> (r: Vec<&'static str>)
    ensures
        r@.len() == 3,
        forall|i: int| 0 <= i < 3 ==> r@[i]@ == required_tools()[i].0,
{
    let mut r: Vec<&'static str> = Vec::new();
    r.push("git");
    r.push("pnpm");
    r.push("cargo");
    r
}

/// The names of the tools that were not found, in order.
pub open spec fn missing_names(found: Seq<bool>, n: int) -> Seq<Seq<char>>
    decreases n,
{
    if n <= 0 {
        Seq::<Seq<char>>::empty()
    } else if found[n - 1] {
        missing_names(found, n - 1)
    } else {
        missing_names(found, n - 1).push(required_tools()[n - 1].1)
    }
}

/// The complaint about missing tools, where a tool is missing.
pub fn missing_dependencies(found: &[bool]) -> (r: Option<String>)
    requires
        found@.len() == 3,
    ensures
        missing_names(found@, 3).len() == 0 ==> r is None,
        missing_names(found@, 3).len() > 0 ==> (r matches Some(m) && m@ == "Missing required dependencies: "@
            + join(missing_names(found@, 3), ", "@) + ". Please install them first."@),
{
    let mut missing: Vec<&'static str> = Vec::new();
    if !found[0] {
        missing.push("git");
    }
    if !found[1] {
        missing.push("pnpm");
    }
    if !found[2] {
        missing.push("Rust/Cargo");
    }
    proof {
        reveal_with_fuel(missing_names, 4);
    }
    assert(missing@.len() == missing_names(found@, 3).len());
    assert(forall|k: int| 0 <= k < missing@.len() ==> missing@[k]@ == missing_names(found@, 3)[k]);
    if missing.len() == 0 {
        return None;
    }
    let ghost pieces = missing_names(found@, 3);
    let mut text = concat("Missing required dependencies: ", missing[0]);
    let ghost prefix = "Missing required dependencies: "@;
    let m = missing.len();
    assert(pieces.take(1) =~= seq![pieces[0]]);
    assert(join(pieces.take(1), ", "@) == pieces[0]);
    assert(missing@[0]@ == pieces[0]);
    assert(text@ == prefix + join(pieces.take(1), ", "@));
    for i in 1..m
        invariant
            1 <= m,
            m == missing@.len(),
            pieces == missing_names(found@, 3),
            m == pieces.len(),
            forall|k: int| 0 <= k < m ==> missing@[k]@ == pieces[k],
            text@ == prefix + join(pieces.take(i as int), ", "@),
    {
        push_all(&mut text, ", ");
        push_all(&mut text, missing[i]);
        assert(pieces.take(i + 1).drop_last() =~= pieces.take(i as int));
        assert(text@ =~= prefix + (join(pieces.take(i as int), ", "@) + ", "@ + pieces[i as int]));
    }
    assert(pieces.take(m as int) =~= pieces);
    push_all(&mut text, ". Please install them first.");
    Some(text)
}

// ---------------------------------------------------------------------------
// Admin password
// ---------------------------------------------------------------------------

/// An ASCII letter or digit.
pub open spec fn is_ascii_alphanumeric(c: char) -> bool {
    ('a' <= c && c <= 'z') || ('A' <= c && c <= 'Z') || ('0' <= c && c <= '9')
}

/// `n` characters sampled from `rand::distr::Alphanumeric` with the thread-local
/// generator `rand::rng()`. Stated: there are `n` of them, each an ASCII letter or
/// digit (the distribution's range). Which ones is left to chance.
#[verifier::external_body]
fn random_alphanumeric(n: usize) -> (r: String)
    ensures
        r@.len() == n,
        forall|i: int| 0 <= i < n ==> is_ascii_alphanumeric(#[trigger] r@[i]),
{
    rand::rng().sample_iter(&rand::distr::Alphanumeric).take(n).map(char::from).collect()
}

/// The password the admin account gets: the one given, else twelve random ASCII
/// letters and digits.
pub fn admin_password(given: Option<String>) -> (r: String)
    ensures
        match given {
            Some(p) => r@ == p@,
            None => r@.len() == 12 && forall|i: int| 0 <= i < 12 ==> is_ascii_alphanumeric(#[trigger] r@[i]),
        },
{
    match given {
        Some(p) => p,
        None => random_alphanumeric(12),
    }
}

// ---------------------------------------------------------------------------
// Uninstalling
// ---------------------------------------------------------------------------

/// Whether an already lower-cased answer starts with `y`.
pub fn answer_starts_with_y(lowered: &str) -> (r: bool)
    ensures
        r == (lowered@.len() > 0 && lowered@[0] == 'y'),
{
    let c = chars_of(lowered);
    c.len() > 0 && c[0] == 'y'
}

/// Whether an answer to a yes/no question is yes: trimmed and lower-cased, it starts
/// with `y`.
pub fn confirms(answer: &str) -> (r: bool)
    ensures
        r == (lowercase(trim(answer@)).len() > 0 && lowercase(trim(answer@))[0] == 'y'),
{
    let trimmed = trim_chars(chars_of(answer).as_slice());
    let trimmed = string_of(trimmed.as_slice());
    let lowered = to_lowercase(trimmed.as_str());
    answer_starts_with_y(lowered.as_str())
}

// ---------------------------------------------------------------------------
// Log retention
// ---------------------------------------------------------------------------

/// How long log files are kept: seven days, in seconds.
pub open spec fn retention_secs() -> int {
    604800int
}

/// The file-name prefix of the application's log files.
pub open spec fn log_prefix() -> Seq<char> {
    seq!['f', 'e', 'i', 's', 'h', 'u', '-', 'b', 'o', 't', '.', 'l', 'o', 'g']
}

/// Whether a file is an application log older than the retention period, given its
/// name and its age (seconds and nanoseconds).
pub fn is_expired_log(name: &str, age_secs: u64, age_nanos: u32) -> (r: bool)
    ensures
        r == (crate::text::starts_with(name@, log_prefix()) && (age_secs > retention_secs() || (
        age_secs == retention_secs() && age_nanos > 0))),
{
    let n = chars_of(name);
    let prefix: Vec<char> = vec!['f', 'e', 'i', 's', 'h', 'u', '-', 'b', 'o', 't', '.', 'l', 'o', 'g'];
    assert(prefix@ =~= log_prefix());
    let is_log = n.len() >= 14 && crate::text::chars_equal(
        subrange_chars(n.as_slice(), 0, 14).as_slice(),
        prefix.as_slice(),
    );
    assert(is_log == crate::text::starts_with(name@, log_prefix())) by {
        if n@.len() >= 14 {
            assert(n@.subrange(0, 14) =~= n@.take(14));
        }
    }
    is_log && (age_secs > 604800 || (age_secs == 604800 && age_nanos > 0))
}

} // verus!
