use aur_builder::errors::{AurRequestError, MissingFieldError};
use aur_builder::retry::{ConnectionRetry, RetryAction, RetryPolicy};
use aur_builder::text::decimal_string;
use aur_builder::types::{AurPackageSettings, EnvironmentVariable, GitPackageSettings};
use aur_builder::upstream::{aur_search_result, git_search_result, AurPackageInfo, AurResponse};

#[test]
fn broker_retries_ten_times_then_exits_with_five() {
    let mut r = ConnectionRetry::new(RetryPolicy::broker());
    for _ in 0..10 {
        assert_eq!(r.record_failure(), RetryAction::Wait { secs: 10 });
    }
    assert_eq!(r.record_failure(), RetryAction::Exit { code: 5 });
    assert_eq!(r.record_failure(), RetryAction::Exit { code: 5 });
}

#[test]
fn database_gives_up_with_four() {
    let mut r = ConnectionRetry::new(RetryPolicy::database());
    let mut last = RetryAction::Wait { secs: 0 };
    for _ in 0..11 {
        last = r.record_failure();
    }
    assert_eq!(last, RetryAction::Exit { code: 4 });
}

#[test]
fn error_messages() {
    assert_eq!(MissingFieldError::new("results".to_string()).message(), "Field 'results' is missing");
    assert_eq!(
        AurRequestError::new("foo".to_string(), 404).message(),
        "Aur request for 'foo' failed with code 404"
    );
}

#[test]
fn decimal_rendering() {
    assert_eq!(decimal_string(0), "0");
    assert_eq!(decimal_string(907), "907");
    assert_eq!(decimal_string(u64::MAX), "18446744073709551615");
}

#[test]
fn aur_answer_takes_first_package() {
    let settings = AurPackageSettings {
        name: "foo".to_string(),
        env: Some(vec![EnvironmentVariable { name: "X".to_string(), value: "y".to_string() }]),
        options: Some("-o".to_string()),
    };
    let resp = AurResponse {
        results: vec![AurPackageInfo {
            name: "foo".to_string(),
            version: "1.2-1".to_string(),
            maintainer: None,
            last_modified: 1700000000,
        }],
    };
    let p = aur_search_result(&resp, &settings).unwrap();
    assert_eq!(p.name, "foo");
    assert_eq!(p.version, "1.2-1");
    assert_eq!(p.maintainer, "");
    assert_eq!(p.last_modified, 1700000000);
    assert_eq!(p.source, None);
    assert_eq!(p.options, Some("-o".to_string()));
    assert_eq!(p.environment.unwrap()[0].name, "X");
    let empty = AurResponse { results: vec![] };
    let e = aur_search_result(&empty, &settings).unwrap_err();
    assert_eq!(e.field_name(), "results");
}

#[test]
fn git_data_keeps_configured_source() {
    let pkg = GitPackageSettings {
        source: "https://example.org/p.git".to_string(),
        subfolder: Some("dir".to_string()),
        env: None,
        options: None,
    };
    let p = git_search_result("pbase".to_string(), "3.1".to_string(), 42, &pkg);
    assert_eq!(p.name, "pbase");
    assert_eq!(p.version, "3.1");
    assert_eq!(p.maintainer, "unknown");
    assert_eq!(p.last_modified, 42);
    assert_eq!(p.source, Some("https://example.org/p.git".to_string()));
    assert_eq!(p.subfolder, Some("dir".to_string()));
}

#[test]
fn random_strings_are_decimal() {
    let s = aur_builder::orchestrator::get_rand_string();
    assert!(!s.is_empty());
    assert!(s.chars().all(|c| c.is_ascii_digit()));
    assert!(s.parse::<u32>().is_ok());
}
