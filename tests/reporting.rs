use aur_builder::dispatch::detect_change;
use aur_builder::reporter::{build_result_record, plan_report, ReportError};
use aur_builder::store::PackageStore;
use aur_builder::types::{
    BuildResultTransmissionFormat, BuildTaskTransmissionFormat, PackageSearchResult, Timestamp,
    Timestamps,
};

fn task(id: i32) -> BuildTaskTransmissionFormat {
    BuildTaskTransmissionFormat {
        id,
        name: "foo".to_string(),
        version: "1.0".to_string(),
        source: None,
        subfolder: None,
        options: None,
        env: None,
    }
}

fn result(id: i32, status_code: i64, success: bool) -> BuildResultTransmissionFormat {
    BuildResultTransmissionFormat {
        task: task(id),
        status_code,
        log_lines: vec!["stdout: a\n".to_string(), "stderr: b\n".to_string()],
        success,
        timestamps: Timestamps {
            start: Timestamp { secs: 10, nanos: 1 },
            end: Timestamp { secs: 20, nanos: 2 },
        },
    }
}

fn store_with_foo() -> (PackageStore, i32) {
    let mut store = PackageStore::new();
    let data = PackageSearchResult {
        name: "foo".to_string(),
        version: "1.0".to_string(),
        maintainer: String::new(),
        last_modified: 100,
        source: None,
        subfolder: None,
        options: None,
        environment: None,
    };
    let t = detect_change(&mut store, &data).unwrap().unwrap();
    (store, t.id)
}

#[test]
fn unknown_package_is_a_hard_error_and_writes_nothing() {
    let (mut store, _) = store_with_foo();
    let r = store.save_build_results(&result(42, 0, true));
    assert_eq!(r, Err(ReportError::UnknownPackage { id: 42 }));
    assert!(store.results().is_empty());
    assert!(plan_report(&None, &result(42, 0, true)).is_err());
}

#[test]
fn replayed_result_duplicates_the_record_and_keeps_packages() {
    let (mut store, id) = store_with_foo();
    let before = store.get_packages();
    let msg = result(id, 1, false);
    store.save_build_results(&msg).unwrap();
    store.save_build_results(&msg).unwrap();
    let after = store.get_packages();
    assert_eq!(before.len(), after.len());
    assert_eq!(before[0].id, after[0].id);
    assert_eq!(before[0].last_modified, after[0].last_modified);
    assert_eq!(before[0].version, after[0].version);
    let records = store.results();
    assert_eq!(records.len(), 2);
    assert_eq!(records[0].build_log, records[1].build_log);
    assert_eq!(records[0].package_id, records[1].package_id);
}

#[test]
fn record_joins_log_and_keeps_the_outcome() {
    let (store, id) = store_with_foo();
    let p = store.get_package(id).unwrap();
    let rec = build_result_record(&p, &result(id, 3, false));
    assert_eq!(rec.package_id, id as i64);
    assert_eq!(rec.exit_code, 3);
    assert_eq!(rec.build_log, Some("stdout: a\nstderr: b\n".to_string()));
    assert!(!rec.success);
    assert_eq!(rec.started_at, Some(Timestamp { secs: 10, nanos: 1 }));
    assert_eq!(rec.finished_at, Some(Timestamp { secs: 20, nanos: 2 }));
    assert_eq!(rec.version, Some("1.0".to_string()));
}
