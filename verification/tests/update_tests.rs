use gemtts::error::AppError;
use gemtts::update::{
    compare_versions, install_source, interpret_crates_response, parse_version, update_message,
    update_status,
};
use std::cmp::Ordering;

#[test]
fn compares_semver_like_versions() {
    assert_eq!(compare_versions("0.1.1", "0.1.0"), Ordering::Greater);
    assert_eq!(compare_versions("0.1.0", "0.1.1"), Ordering::Less);
    assert_eq!(compare_versions("v0.1.1", "0.1.1"), Ordering::Equal);
}

#[test]
fn parses_version_components() {
    assert_eq!(parse_version("v1.20.3-beta"), vec![1, 20, 3]);
    assert_eq!(parse_version("1..2"), vec![1, 0, 2]);
    assert_eq!(parse_version(""), vec![0]);
    assert_eq!(parse_version("vv2.x"), vec![2, 0]);
    assert_eq!(parse_version("99999999999999999999.1"), vec![0, 1]);
}

#[test]
fn shorter_version_sorts_first() {
    assert_eq!(compare_versions("1.2", "1.2.0"), Ordering::Less);
    assert_eq!(compare_versions("1.10", "1.9"), Ordering::Greater);
    assert_eq!(compare_versions("2", "2"), Ordering::Equal);
}

#[test]
fn update_status_by_order_and_mode() {
    assert_eq!(update_status(Ordering::Equal, true), "up_to_date");
    assert_eq!(update_status(Ordering::Less, true), "update_available");
    assert_eq!(update_status(Ordering::Less, false), "manual_update_required");
    assert_eq!(update_status(Ordering::Greater, false), "ahead_of_registry");
}

#[test]
fn update_messages() {
    assert_eq!(update_message(Ordering::Equal, true, "gemtts", "x"), "gemtts is up to date.");
    assert_eq!(
        update_message(Ordering::Less, true, "gemtts", "cargo install gemtts --force"),
        "Update available. Run: cargo install gemtts --force"
    );
    assert_eq!(
        update_message(Ordering::Greater, true, "gemtts", "x"),
        "gemtts is newer than the latest crates.io version; publish before packaging."
    );
    assert_eq!(
        update_message(Ordering::Less, false, "gemtts", "brew upgrade paperfoot/tap/gemtts"),
        "Use the package manager that installed this binary: brew upgrade paperfoot/tap/gemtts"
    );
}

#[test]
fn install_source_detection() {
    let (src, cmd) = install_source("/opt/homebrew/Cellar/gemtts/0.1.0/bin/gemtts", "gemtts");
    assert_eq!(src, "homebrew");
    assert_eq!(cmd, "brew upgrade paperfoot/tap/gemtts");
    let (src, cmd) = install_source("/home/me/.cargo/bin/gemtts", "gemtts");
    assert_eq!(src, "cargo");
    assert_eq!(cmd, "cargo install gemtts --force");
    let (src, cmd) = install_source("/usr/local/bin/gemtts", "gemtts");
    assert_eq!(src, "local-build");
    assert_eq!(cmd, "cargo install gemtts --force");
}

#[test]
fn crates_io_answers() {
    assert_eq!(interpret_crates_response(200, "200 OK", "{}", Ok("0.2.0".to_string())).unwrap(), "0.2.0");
    match interpret_crates_response(404, "404 Not Found", "  missing \n", Ok("x".to_string())) {
        Err(AppError::Transient(m)) => assert_eq!(m, "crates.io version check failed (404 Not Found): missing"),
        other => panic!("unexpected {:?}", other),
    }
    match interpret_crates_response(200, "200 OK", "{", Err("EOF while parsing".to_string())) {
        Err(AppError::Transient(m)) => assert_eq!(m, "crates.io returned invalid JSON: EOF while parsing"),
        other => panic!("unexpected {:?}", other),
    }
}
