use feishu_bot::handlers::admin::{
    token_authorized, AdminAssets, AdminReply, AdminTarget, ChangePasswordRequest, LoginRequest,
};

fn asset(p: &str) -> AdminTarget {
    AdminTarget::Asset { path: p.to_string() }
}

#[test]
fn root_redirects_to_the_panel() {
    let r = AdminTarget::Redirect { location: "/admin".to_string() };
    assert_eq!(AdminAssets::target("/"), r);
    assert_eq!(AdminAssets::target(""), r);
    assert_eq!(AdminAssets::target("///"), r);
}

#[test]
fn panel_routes_serve_the_index() {
    assert_eq!(AdminAssets::target("/admin"), asset("index.html"));
    assert_eq!(AdminAssets::target("/admin/"), asset("index.html"));
    assert_eq!(AdminAssets::target("/admin/settings/groups"), asset("index.html"));
}

#[test]
fn panel_files_are_served_by_path() {
    assert_eq!(AdminAssets::target("/admin/assets/app.js"), asset("assets/app.js"));
    assert_eq!(AdminAssets::target("/admin//favicon.ico"), asset("favicon.ico"));
    assert_eq!(AdminAssets::target("/favicon.ico"), asset("favicon.ico"));
    assert_eq!(AdminAssets::target("/other/page"), asset("other/page"));
}

#[test]
fn reply_for_found_and_missing_files() {
    assert_eq!(
        AdminAssets::reply("assets/app.js", true, true),
        AdminReply::Asset { path: "assets/app.js".to_string(), mime: "text/javascript".to_string() }
    );
    assert_eq!(
        AdminAssets::reply("index.html", true, true),
        AdminReply::Asset { path: "index.html".to_string(), mime: "text/html".to_string() }
    );
    assert_eq!(AdminAssets::reply("settings", false, true), AdminReply::Index);
    assert_eq!(AdminAssets::reply("settings", false, false), AdminReply::NotFound);
    assert_eq!(AdminAssets::reply("missing.png", false, true), AdminReply::NotFound);
}

#[test]
fn reply_for_a_file_without_extension_is_octet_stream() {
    assert_eq!(
        AdminAssets::reply("LICENSE", true, true),
        AdminReply::Asset { path: "LICENSE".to_string(), mime: "application/octet-stream".to_string() }
    );
}

#[test]
fn login_compares_the_stored_hash() {
    let req = LoginRequest { username: "admin".to_string(), password_hash: "abc".to_string() };
    assert!(req.accepted_by(Some("abc")));
    assert!(!req.accepted_by(Some("abd")));
    assert!(!req.accepted_by(None));
}

#[test]
fn password_change_needs_the_old_hash() {
    let req = ChangePasswordRequest {
        old_password_hash: "old".to_string(),
        new_password_hash: "new".to_string(),
    };
    assert!(req.authorized_by(Some("old")));
    assert!(!req.authorized_by(Some("new")));
    assert!(!req.authorized_by(None));
    assert!(ChangePasswordRequest::response(true, true).success);
    assert!(!ChangePasswordRequest::response(true, false).success);
    assert!(!ChangePasswordRequest::response(false, true).success);
}

#[test]
fn token_must_equal_the_stored_hash() {
    assert!(token_authorized(Some("h"), Some("h")));
    assert!(!token_authorized(Some("h"), Some("g")));
    assert!(!token_authorized(None, Some("h")));
    assert!(!token_authorized(Some("h"), None));
    assert!(!token_authorized(Some(""), Some("h")));
}
