use aur_builder::catalog::{get_error_descriptions, parse_i64, ErrorCatalog};
use aur_builder::reporter::notification_subject;
use aur_builder::types::{
    BuildResultTransmissionFormat, BuildTaskTransmissionFormat, Timestamp, Timestamps,
};

#[test]
fn integers_parse_as_std_does() {
    for s in ["0", "42", "-7", "+13", "007", "9223372036854775807", "-9223372036854775808"] {
        assert_eq!(parse_i64(s), s.parse::<i64>().ok(), "{}", s);
    }
    for s in ["", "-", "+", "1a", " 1", "9223372036854775808", "-9223372036854775809", "99999999999999999999999", "٣"] {
        assert_eq!(parse_i64(s), None, "{}", s);
        assert!(s.parse::<i64>().is_err());
    }
}

#[test]
fn catalog_from_json_describes_codes() {
    let c = ErrorCatalog::from_json(r#"{"1": "Build failed", "4": "No source", "x": "odd", "5": 3}"#)
        .unwrap();
    assert_eq!(get_error_descriptions(&c, 1), "Build failed");
    assert_eq!(get_error_descriptions(&c, 4), "No source");
    assert_eq!(get_error_descriptions(&c, -1), "odd");
    assert_eq!(get_error_descriptions(&c, 5), "");
    assert_eq!(get_error_descriptions(&c, 2), "Unknown error");
}

#[test]
fn catalog_edge_cases() {
    assert!(ErrorCatalog::from_json("not json").is_none());
    let empty = ErrorCatalog::from_json("[1, 2]").unwrap();
    assert_eq!(empty.describe(0), "Unknown error");
    let mut c = ErrorCatalog::new();
    c.insert(3, "first".to_string());
    c.insert(3, "second".to_string());
    assert_eq!(c.describe(3), "second");
    let twice = ErrorCatalog::from_members(&vec![
        ("01".to_string(), Some("a".to_string())),
        ("1".to_string(), Some("b".to_string())),
    ]);
    assert_eq!(twice.describe(1), "b");
}

#[test]
fn notification_subject_reflects_success() {
    let mut r = BuildResultTransmissionFormat {
        task: BuildTaskTransmissionFormat {
            id: 1,
            name: "foo".to_string(),
            version: "1".to_string(),
            source: None,
            subfolder: None,
            options: None,
            env: None,
        },
        status_code: 0,
        log_lines: vec![],
        success: true,
        timestamps: Timestamps {
            start: Timestamp { secs: 0, nanos: 0 },
            end: Timestamp { secs: 0, nanos: 0 },
        },
    };
    assert_eq!(notification_subject(&r), "Updated foo");
    r.success = false;
    assert_eq!(notification_subject(&r), "Failed to update foo");
}
