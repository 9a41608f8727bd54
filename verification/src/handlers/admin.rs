use vstd::prelude::*;

use sha2::Digest;

use crate::text::{
    chars_of, has_char, starts_with, string_of, subrange_chars, trim_leading, trim_leading_exec,
};

verus! {

/// The admin panel's static files, and how request paths map onto them.
pub struct AdminAssets;

/// A login attempt: the user name and the SHA-256 of the password, in hex.
#[derive(Debug, Clone, PartialEq)]
pub struct LoginRequest {
    pub username: String,
    pub password_hash: String,
}

/// The answer to a login or a password change.
#[derive(Debug, Clone, Copy, PartialEq)]
pub struct LoginResponse {
    pub success: bool,
}

/// A password change: the hashes of the old and the new password.
#[derive(Debug, Clone, PartialEq)]
pub struct ChangePasswordRequest {
    pub old_password_hash: String,
    pub new_password_hash: String,
}

/// Where a request for the admin panel goes.
#[derive(Debug, Clone, PartialEq)]
pub enum AdminTarget {
    /// Redirect (permanently) to this location.
    Redirect { location: String },
    /// Serve the embedded file at this path.
    Asset { path: String },
}

/// What is served for an admin panel file.
#[derive(Debug, Clone, PartialEq)]
pub enum AdminReply {
    /// The file itself, with its MIME type.
    Asset { path: String, mime: String },
    /// The panel's `index.html`, as `text/html`.
    Index,
    /// Nothing: 404.
    NotFound,
}

// ---------------------------------------------------------------------------
// Password hashing
// ---------------------------------------------------------------------------

/// What `sha2::Sha256` gives as the digest of some bytes.
pub uninterp spec fn sha256(data: Seq<u8>) -> Seq<u8>;

/// `sha2::Sha256::digest`: the SHA-256 digest of `data`, named `sha256`; the digest is
/// 32 bytes long (the output size of `Sha256`).
#[verifier::external_body]
pub(crate) fn sha256_digest(data: &[u8]) -> (r: Vec<u8>)
    ensures
        r@ == sha256(data@),
        r@.len() == 32,
{
    sha2::Sha256::digest(data).to_vec()
}

/// A lower-case hexadecimal digit.
pub open spec fn hex_digit(n: u8) -> char {
    if n < 10 {
        (48 + n) as char
    } else {
        (87 + n) as char
    }
}

/// Bytes in lower-case hexadecimal, two digits a byte, high digit first.
pub open spec fn hex_lower(b: Seq<u8>) -> Seq<char>
    decreases b.len(),
{
    if b.len() == 0 {
        Seq::<char>::empty()
    } else {
        hex_lower(b.drop_last()) + seq![hex_digit(b.last() / 16), hex_digit(b.last() % 16)]
    }
}

fn hex_digit_exec(n: u8) -> (r: char)
    requires
        n < 16,
    ensures
        r == hex_digit(n),
{
    if n < 10 {
        (48 + n) as char
    } else {
        (87 + n) as char
    }
}

/// Bytes in lower-case hexadecimal.
pub fn to_hex_lower(b: &[u8]) -> (r: String)
    ensures
        r@ == hex_lower(b@),
{
    let mut out: Vec<char> = Vec::new();
    let n = b.len();
    assert(b@.take(0) =~= Seq::<u8>::empty());
    for i in 0..n
        invariant
            n == b@.len(),
            out@ == hex_lower(b@.take(i as int)),
    {
        let x = b[i];
        out.push(hex_digit_exec(x / 16));
        out.push(hex_digit_exec(x % 16));
        assert(b@.take(i + 1).drop_last() =~= b@.take(i as int));
    }
    assert(b@.take(n as int) =~= b@);
    string_of(out.as_slice())
}

/// The password hash stored and compared: the SHA-256 of the password's UTF-8 bytes,
/// in lower-case hexadecimal.
pub fn hash_password(password: &str) -> (r: String)
    ensures
        r@ == hex_lower(sha256(vstd::utf8::encode_utf8(password@))),
{
    let digest = sha256_digest(password.as_bytes());
    to_hex_lower(digest.as_slice())
}

// ---------------------------------------------------------------------------
// Credentials
// ---------------------------------------------------------------------------

/// Whether a stored hash (where the lookup found one) equals the hash offered.
pub open spec fn hash_accepted(stored: Option<Seq<char>>, offered: Seq<char>) -> bool {
    match stored {
        Some(h) => h == offered,
        None => false,
    }
}

fn same_text(a: &str, b: &str) -> (r: bool)
    ensures
        r == (a@ == b@),
{
    crate::text::str_equal(a, b)
}

impl LoginRequest {
    /// Whether the login succeeds, given the hash stored for the user where the lookup
    /// found the user.
    pub fn accepted_by(&self, stored_hash: Option<&str>) -> (r: bool)
        ensures
            r == hash_accepted(
                match stored_hash {
                    Some(h) => Some(h@),
                    None => None,
                },
                self.password_hash@,
            ),
    {
        match stored_hash {
            Some(h) => same_text(self.password_hash.as_str(), h),
            None => false,
        }
    }
}

impl ChangePasswordRequest {
    /// Whether the change may be made, given the admin's stored hash where the lookup
    /// found it: the old hash offered must be the stored one.
    pub fn authorized_by(&self, stored_hash: Option<&str>) -> (r: bool)
        ensures
            r == hash_accepted(
                match stored_hash {
                    Some(h) => Some(h@),
                    None => None,
                },
                self.old_password_hash@,
            ),
    {
        match stored_hash {
            Some(h) => same_text(self.old_password_hash.as_str(), h),
            None => false,
        }
    }

    /// The answer to the change: success only where it was authorized and the new hash
    /// was stored.
    pub fn response(authorized: bool, stored: bool) -> (r: LoginResponse)
        ensures
            r.success == (authorized && stored),
    {
        LoginResponse { success: authorized && stored }
    }
}

/// Whether an API request passes the admin check: it carries an `X-Admin-Token`
/// header (`token`, its text where that is visible ASCII, else empty) equal to the
/// admin's stored hash, where the lookup found it.
pub fn token_authorized(token: Option<&str>, stored_hash: Option<&str>) -> (r: bool)
    ensures
        r == match token {
            Some(t) => hash_accepted(
                match stored_hash {
                    Some(h) => Some(h@),
                    None => None,
                },
                t@,
            ),
            None => false,
        },
{
    match (token, stored_hash) {
        (Some(t), Some(h)) => same_text(t, h),
        _ => false,
    }
}

// ---------------------------------------------------------------------------
// Admin panel files
// ---------------------------------------------------------------------------

/// The prefix that marks a path of the admin panel.
pub open spec fn admin_prefix() -> Seq<char> {
    seq!['a', 'd', 'm', 'i', 'n']
}

/// The embedded file a path asks for: under `admin`, the rest of the path, or
/// `index.html` where that is empty or names no file (has no `.`); any other path as
/// it is.
pub open spec fn asset_for(path: Seq<char>) -> Seq<char> {
    if starts_with(path, admin_prefix()) {
        let asset = trim_leading(path.skip(5), '/');
        if asset.len() == 0 || !asset.contains('.') {
            "index.html"@
        } else {
            asset
        }
    } else {
        path
    }
}

/// Where a request path goes: the root to `/admin`, anything else to a file.
pub open spec fn target_for(uri_path: Seq<char>) -> (bool, Seq<char>) {
    let path = trim_leading(uri_path, '/');
    if path.len() == 0 {
        (true, "/admin"@)
    } else {
        (false, asset_for(path))
    }
}

/// What `mime_guess::from_path(path).first_or_octet_stream()` gives for a path.
pub uninterp spec fn guessed_mime(path: Seq<char>) -> Seq<char>;

/// `mime_guess::from_path(path).first_or_octet_stream()` as text: named `guessed_mime`;
/// for a path without a `.` (so without an extension) it is
/// `application/octet-stream`, as the crate's documentation says.
#[verifier::external_body]
fn mime_for_path(path: &str) -> (r: String)
    ensures
        r@ == guessed_mime(path@),
        !path@.contains('.') ==> r@ == "application/octet-stream"@,
{
    mime_guess::from_path(path).first_or_octet_stream().as_ref().to_string()
}

impl AdminTarget {
    pub open spec fn described(self) -> (bool, Seq<char>) {
        match self {
            AdminTarget::Redirect { location } => (true, location@),
            AdminTarget::Asset { path } => (false, path@),
        }
    }
}

impl AdminAssets {
    /// Where a request for the admin panel goes.
    pub fn target(uri_path: &str) -> (r: AdminTarget)
        ensures
            r.described() == target_for(uri_path@),
    {
        let all = chars_of(uri_path);
        let path = trim_leading_exec(all.as_slice(), '/');
        if path.len() == 0 {
            return AdminTarget::Redirect { location: "/admin".to_owned() };
        }
        let prefix: Vec<char> = vec!['a', 'd', 'm', 'i', 'n'];
        assert(prefix@ =~= admin_prefix());
        let is_admin = path.len() >= 5 && crate::text::chars_equal(
            subrange_chars(path.as_slice(), 0, 5).as_slice(),
            prefix.as_slice(),
        );
        assert(is_admin == starts_with(path@, admin_prefix())) by {
            if path@.len() >= 5 {
                assert(path@.subrange(0, 5) =~= path@.take(5));
            }
        }
        if is_admin {
            let rest = subrange_chars(path.as_slice(), 5, path.len());
            assert(rest@ =~= path@.skip(5));
            let asset = trim_leading_exec(rest.as_slice(), '/');
            if asset.len() == 0 || !has_char(asset.as_slice(), '.') {
                AdminTarget::Asset { path: "index.html".to_owned() }
            } else {
                AdminTarget::Asset { path: string_of(asset.as_slice()) }
            }
        } else {
            AdminTarget::Asset { path: string_of(path.as_slice()) }
        }
    }

    /// What is served for a file path, given whether the file and `index.html` are
    /// embedded: the file with its guessed MIME type; else, for a path without a `.`,
    /// the panel's index page; else nothing.
    pub fn reply(path: &str, asset_found: bool, index_found: bool) -> (r: AdminReply)
        ensures
            asset_found ==> (r matches AdminReply::Asset { path: p, mime } && p@ == path@ && mime@
                == guessed_mime(path@)),
            !asset_found && !path@.contains('.') && index_found ==> r is Index,
            !asset_found && (path@.contains('.') || !index_found) ==> r is NotFound,
    {
        if asset_found {
            AdminReply::Asset { path: path.to_owned(), mime: mime_for_path(path) }
        } else if !has_char(chars_of(path).as_slice(), '.') && index_found {
            AdminReply::Index
        } else {
            AdminReply::NotFound
        }
    }
}

} // verus!
