use feishu_bot::commands::{
    admin_password,
    answer_starts_with_y, check_release, confirms, dependency_commands, display_host,
    is_expired_log, missing_dependencies, UpdateCheck,
};
use feishu_bot::config::Config;

#[test]
fn wildcard_host_is_shown_as_localhost() {
    assert_eq!(display_host("0.0.0.0"), "localhost");
    assert_eq!(display_host("127.0.0.1"), "127.0.0.1");
    assert_eq!(display_host("example.com"), "example.com");
}

#[test]
fn release_newer_than_running_is_available() {
    let body = r#"{"url": "x", "tag_name": "v1.3.0", "name": "Release 1.3.0"}"#;
    assert_eq!(check_release("1.2.0", body), UpdateCheck::Available { latest: "1.3.0".to_string() });
}

#[test]
fn release_equal_to_running_is_up_to_date() {
    assert_eq!(check_release("1.2.0", r#"{"tag_name": "v1.2.0"}"#), UpdateCheck::UpToDate);
    assert_eq!(check_release("1.2.0", r#"{"tag_name": "vv1.2.0"}"#), UpdateCheck::UpToDate);
    assert_eq!(check_release("1.2.0", r#"{"tag_name": "1.2.0"}"#), UpdateCheck::UpToDate);
}

#[test]
fn release_without_tag_is_unknown() {
    assert_eq!(check_release("1.2.0", "{}"), UpdateCheck::Unknown);
    assert_eq!(check_release("1.2.0", r#"{"tag_name":"v1.2.0"}"#), UpdateCheck::Unknown);
    assert_eq!(check_release("1.2.0", ""), UpdateCheck::Unknown);
}

#[test]
fn release_tag_without_closing_quote_runs_to_the_end() {
    assert_eq!(
        check_release("1.0.0", r#"{"tag_name": "v2.0"#),
        UpdateCheck::Available { latest: "2.0".to_string() }
    );
}

#[test]
fn dependencies_in_order() {
    assert_eq!(dependency_commands(), vec!["git", "pnpm", "cargo"]);
    assert_eq!(missing_dependencies(&[true, true, true]), None);
    assert_eq!(
        missing_dependencies(&[false, true, false]),
        Some("Missing required dependencies: git, Rust/Cargo. Please install them first.".to_string())
    );
    assert_eq!(
        missing_dependencies(&[true, false, true]),
        Some("Missing required dependencies: pnpm. Please install them first.".to_string())
    );
    assert_eq!(
        missing_dependencies(&[false, false, false]),
        Some("Missing required dependencies: git, pnpm, Rust/Cargo. Please install them first.".to_string())
    );
}

#[test]
fn yes_answers() {
    assert!(confirms("y"));
    assert!(confirms("  Yes \n"));
    assert!(confirms("Y"));
    assert!(!confirms("n"));
    assert!(!confirms(""));
    assert!(!confirms("   "));
    assert!(!confirms("no, yes"));
    assert!(answer_starts_with_y("yes"));
    assert!(!answer_starts_with_y("Yes"));
}

#[test]
fn logs_older_than_seven_days_expire() {
    assert!(is_expired_log("feishu-bot.log.2024-01-01", 604801, 0));
    assert!(is_expired_log("feishu-bot.log", 604800, 1));
    assert!(!is_expired_log("feishu-bot.log.2024-01-01", 604800, 0));
    assert!(!is_expired_log("feishu-bot.log.2024-01-01", 10, 0));
    assert!(!is_expired_log("other.log", 10_000_000, 0));
    assert!(!is_expired_log("feishu", 10_000_000, 0));
}

#[test]
fn config_defaults_to_sqlite_in_the_data_dir() {
    let c = Config::new("/home/u/.feishu-bot".to_string(), None, None);
    assert_eq!(c.database_url, "sqlite:/home/u/.feishu-bot/data.db?mode=rwc");
    assert_eq!(c.data_dir, "/home/u/.feishu-bot");
    assert_eq!(c.sentry_client_secret, None);
    let c = Config::new("d".to_string(), Some("sqlite::memory:".to_string()), Some("s".to_string()));
    assert_eq!(c.database_url, "sqlite::memory:");
    assert_eq!(c.sentry_client_secret, Some("s".to_string()));
}

#[test]
fn admin_password_is_given_or_random_alphanumeric() {
    assert_eq!(admin_password(Some("s3cret!".to_string())), "s3cret!");
    let p = admin_password(None);
    assert_eq!(p.chars().count(), 12);
    assert!(p.chars().all(|c| c.is_ascii_alphanumeric()));
}
