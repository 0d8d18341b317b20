use aur_builder::dispatch::{build_task_for, detect_change, detect_changes};
use aur_builder::store::{plan_metadata_update, MetadataWrite, PackageState, PackageStore};
use aur_builder::types::{EnvironmentVariable, PackageSearchResult};

fn fetched(name: &str, version: &str, last_modified: i64) -> PackageSearchResult {
    PackageSearchResult {
        name: name.to_string(),
        version: version.to_string(),
        maintainer: "alice".to_string(),
        last_modified,
        source: None,
        subfolder: None,
        options: Some("--nocheck".to_string()),
        environment: Some(vec![EnvironmentVariable {
            name: "CC".to_string(),
            value: "clang".to_string(),
        }]),
    }
}

#[test]
fn newer_timestamp_updates_store_and_emits_one_task() {
    let mut store = PackageStore::new();
    let first = detect_change(&mut store, &fetched("foo", "0.9", 100)).unwrap();
    assert!(first.is_some());
    let id = store.get_package_by_name(&"foo".to_string()).unwrap().id;

    let task = detect_change(&mut store, &fetched("foo", "1.0", 150)).unwrap().unwrap();
    let stored = store.get_package_by_name(&"foo".to_string()).unwrap();
    assert_eq!(stored.last_modified, 150);
    assert_eq!(stored.version, "1.0");
    assert_eq!(stored.id, id);
    assert_eq!(task.id, id);
    assert_eq!(task.name, "foo");
    assert_eq!(task.version, "1.0");
    assert_eq!(task.options, Some("--nocheck".to_string()));
    assert_eq!(task.env.as_ref().unwrap()[0].value, "clang");
    assert_eq!(store.get_packages().len(), 1);
}

#[test]
fn equal_or_older_timestamp_emits_no_task() {
    let mut store = PackageStore::new();
    detect_change(&mut store, &fetched("foo", "1.0", 100)).unwrap();
    assert!(detect_change(&mut store, &fetched("foo", "1.1", 100)).unwrap().is_none());
    assert!(detect_change(&mut store, &fetched("foo", "0.5", 40)).unwrap().is_none());
    let stored = store.get_package_by_name(&"foo".to_string()).unwrap();
    assert_eq!(stored.last_modified, 100);
    assert_eq!(stored.version, "1.0");
}

#[test]
fn new_package_always_yields_a_task() {
    let mut store = PackageStore::new();
    let a = detect_change(&mut store, &fetched("foo", "1.0", 0)).unwrap().unwrap();
    let b = detect_change(&mut store, &fetched("bar", "2.0", -7)).unwrap().unwrap();
    assert_eq!(a.name, "foo");
    assert_eq!(b.name, "bar");
    assert_ne!(a.id, b.id);
    assert_eq!(store.get_package(a.id).unwrap().name, "foo");
    assert_eq!(store.get_package(b.id).unwrap().name, "bar");
}

#[test]
fn reset_forces_the_next_pass_to_rebuild() {
    let mut store = PackageStore::new();
    let t = detect_change(&mut store, &fetched("foo", "1.0", 100)).unwrap().unwrap();
    assert!(detect_change(&mut store, &fetched("foo", "1.0", 100)).unwrap().is_none());
    assert!(store.reset_package_last_modified(t.id));
    assert_eq!(store.get_package(t.id).unwrap().last_modified, 0);
    assert!(detect_change(&mut store, &fetched("foo", "1.0", 100)).unwrap().is_some());
    assert!(!store.reset_package_last_modified(t.id + 1000));
}

#[test]
fn plan_inserts_updates_or_skips() {
    let data = fetched("foo", "1.0", 150);
    match plan_metadata_update(&None, &data) {
        Some(MetadataWrite::Insert(row)) => {
            assert_eq!(row.name, "foo");
            assert_eq!(row.last_modified, 150);
        }
        other => panic!("expected an insert, got {:?}", other),
    }
    let stored = PackageState {
        id: 7,
        name: "foo".to_string(),
        version: "0.9".to_string(),
        maintainer: "bob".to_string(),
        last_modified: 100,
        source: None,
        subfolder: None,
    };
    match plan_metadata_update(&Some(stored.clone()), &data) {
        Some(MetadataWrite::Update { id, row }) => {
            assert_eq!(id, 7);
            assert_eq!(row.version, "1.0");
            assert_eq!(row.maintainer, "alice");
        }
        other => panic!("expected an update, got {:?}", other),
    }
    let same = fetched("foo", "1.0", 100);
    assert!(plan_metadata_update(&Some(stored), &same).is_none());
}

#[test]
fn task_takes_identity_from_store_and_version_from_fetch() {
    let stored = PackageState {
        id: 3,
        name: "foo".to_string(),
        version: "0.1".to_string(),
        maintainer: "bob".to_string(),
        last_modified: 1,
        source: Some("https://example.org/foo.git".to_string()),
        subfolder: Some("pkg".to_string()),
    };
    let task = build_task_for(&stored, &fetched("foo", "2.0", 5));
    assert_eq!(task.id, 3);
    assert_eq!(task.name, "foo");
    assert_eq!(task.version, "2.0");
    assert_eq!(task.source, Some("https://example.org/foo.git".to_string()));
    assert_eq!(task.subfolder, Some("pkg".to_string()));
    assert_eq!(task.options, Some("--nocheck".to_string()));
}

#[test]
fn pass_emits_tasks_only_for_new_or_newer_packages() {
    let mut store = PackageStore::new();
    let first = detect_changes(&mut store, &vec![fetched("foo", "1", 100), fetched("bar", "1", 100)])
        .unwrap();
    assert_eq!(first.len(), 2);
    assert_eq!(first[0].name, "foo");
    assert_eq!(first[1].name, "bar");

    let second = detect_changes(
        &mut store,
        &vec![fetched("foo", "1", 100), fetched("bar", "2", 150), fetched("baz", "1", 1)],
    )
    .unwrap();
    let names: Vec<&str> = second.iter().map(|t| t.name.as_str()).collect();
    assert_eq!(names, vec!["bar", "baz"]);
    assert_eq!(second[0].version, "2");
    assert_eq!(store.get_package_by_name(&"foo".to_string()).unwrap().last_modified, 100);
    assert_eq!(store.get_package_by_name(&"bar".to_string()).unwrap().last_modified, 150);

    assert!(detect_changes(&mut store, &vec![]).unwrap().is_empty());
}
