use motorsport_backend::data_quality::{
    count_query, duplicate_anomalies, duplicate_query, entity_meta, fnv1a_hash,
    missing_field_anomalies, missing_query, outlier_query, resolve_scan, scan_steps,
    validate_checks, KeyRow, ScanListQuery, ScanStep,
};
use motorsport_backend::data_quality::scan_not_found;
use motorsport_backend::errors::AppError;

fn strings(v: &[&str]) -> Vec<String> {
    v.iter().map(|s| s.to_string()).collect()
}

fn bad_request(e: AppError) -> String {
    match e {
        AppError::BadRequest(m) => m,
        other => panic!("expected a bad request, got {other:?}"),
    }
}

#[test]
fn fnv1a_known_values() {
    assert_eq!(fnv1a_hash(""), 0xcbf29ce484222325);
    assert_eq!(fnv1a_hash("a"), 0xaf63dc4c8601ec8c);
    assert_eq!(fnv1a_hash("foobar"), 0x85944171f73967e8);
}

#[test]
fn fnv1a_hashes_utf8_bytes() {
    assert_eq!(fnv1a_hash("é"), {
        let mut h: u64 = 0xcbf29ce484222325;
        for b in "é".bytes() {
            h ^= b as u64;
            h = h.wrapping_mul(0x100000001b3);
        }
        h
    });
}

#[test]
fn entity_meta_covers_entities() {
    let ev = entity_meta("events").unwrap();
    assert_eq!(ev.table, "events");
    assert_eq!(ev.default_hash, vec!["name", "venue_identifier"]);
    let pay = entity_meta("payments").unwrap();
    assert_eq!(pay.table, "payment_entries");
    assert!(entity_meta("payment_entries").is_some());
    assert!(entity_meta("users").is_none());
}

#[test]
fn checks_must_be_known() {
    assert_eq!(
        bad_request(validate_checks(&Vec::new()).unwrap_err()),
        "At least one check must be specified in 'checks'"
    );
    assert_eq!(
        bad_request(validate_checks(&strings(&["outliers", "typos"])).unwrap_err()),
        "Unknown check 'typos'. Supported: [missing_fields, outliers, duplicates]"
    );
    assert!(validate_checks(&strings(&["duplicates", "missing_fields"])).is_ok());
}

#[test]
fn scan_resolution_applies_defaults() {
    let plan = resolve_scan("events", None, None).unwrap();
    assert!(plan.numeric_fields.is_empty());
    assert_eq!(plan.hash_fields, strings(&["name", "venue_identifier"]));
    assert_eq!(
        bad_request(resolve_scan("users", None, None).unwrap_err()),
        "Unknown entity 'users'. Supported: events, assets, vehicles, invoices, results, payments"
    );
}

#[test]
fn scan_resolution_checks_allow_lists() {
    let err = resolve_scan("events", Some(strings(&["price"])), None).unwrap_err();
    assert_eq!(
        bad_request(err),
        "Field 'price' is not valid for outlier analysis on 'events'. Allowed: []"
    );
    let err = resolve_scan("events", None, Some(strings(&["name", "secret"]))).unwrap_err();
    assert_eq!(
        bad_request(err),
        "Field 'secret' is not valid for duplicate detection on 'events'. Allowed: [name, venue_identifier, schedule_group, status]"
    );
}

#[test]
fn scan_list_limit_defaults_and_caps() {
    assert_eq!(ScanListQuery { entity: None, limit: None }.effective_limit(), 20);
    assert_eq!(ScanListQuery { entity: None, limit: Some(7) }.effective_limit(), 7);
    assert_eq!(ScanListQuery { entity: None, limit: Some(1000) }.effective_limit(), 100);
}

#[test]
fn missing_field_findings() {
    let a = missing_field_anomalies("notes", &vec![4, 9]);
    assert_eq!(a.len(), 2);
    assert_eq!(a[0].check, "missing_fields");
    assert_eq!(a[0].record_id, 4);
    assert_eq!(a[1].record_id, 9);
    assert_eq!(a[0].field.as_deref(), Some("notes"));
    assert_eq!(a[0].detail, "Required field 'notes' is null or empty");
    assert_eq!(a[0].severity, "high");
}

#[test]
fn duplicates_need_identical_values() {
    let rows = vec![
        KeyRow { id: 1, values: vec![Some("a|b".to_string()), Some("c".to_string())] },
        KeyRow { id: 2, values: vec![Some("a".to_string()), Some("b|c".to_string())] },
        KeyRow { id: 3, values: vec![None, Some("x".to_string())] },
        KeyRow { id: 4, values: vec![Some("NULL".to_string()), Some("x".to_string())] },
    ];
    assert!(duplicate_anomalies(&strings(&["name", "venue_identifier"]), &rows).is_empty());
}

#[test]
fn duplicate_groups_list_members() {
    let rows = vec![
        KeyRow { id: 1, values: vec![Some("A".to_string()), Some("v1".to_string())] },
        KeyRow { id: 2, values: vec![Some("B".to_string()), None] },
        KeyRow { id: 3, values: vec![Some("A".to_string()), Some("v1".to_string())] },
        KeyRow { id: 4, values: vec![Some("B".to_string()), None] },
        KeyRow { id: 5, values: vec![Some("C".to_string()), None] },
        KeyRow { id: 6, values: vec![Some("A".to_string()), Some("v1".to_string())] },
    ];
    let fields = strings(&["name", "venue_identifier"]);
    let a = duplicate_anomalies(&fields, &rows);
    let ids: Vec<i64> = a.iter().map(|x| x.record_id).collect();
    assert_eq!(ids, vec![1, 3, 6, 2, 4]);
    assert_eq!(
        a[0].detail,
        "Duplicate group on fields [name, venue_identifier]: records [1, 3, 6]"
    );
    assert_eq!(a[3].detail, "Duplicate group on fields [name, venue_identifier]: records [2, 4]");
    assert!(a.iter().all(|x| x.check == "duplicates" && x.severity == "medium" && x.field.is_none()));
}

#[test]
fn no_duplicates_no_findings() {
    let rows = vec![
        KeyRow { id: 1, values: vec![Some("A".to_string())] },
        KeyRow { id: 2, values: vec![Some("B".to_string())] },
    ];
    assert!(duplicate_anomalies(&strings(&["name"]), &rows).is_empty());
}

#[test]
fn scan_steps_follow_checks() {
    let steps = scan_steps(&strings(&["duplicates", "outliers", "missing_fields"]), false, true);
    assert_eq!(steps, vec![ScanStep::Duplicates, ScanStep::MissingFields]);
}

#[test]
fn scan_queries() {
    assert_eq!(count_query("assets"), "SELECT COUNT(*) AS cnt FROM assets");
    assert_eq!(
        missing_query("assets", "brand IS NULL"),
        "SELECT id FROM assets WHERE brand IS NULL"
    );
    assert_eq!(
        outlier_query("invoices", "total"),
        "SELECT id, CAST(total AS REAL) AS val FROM invoices WHERE total IS NOT NULL"
    );
    assert_eq!(
        duplicate_query("events", &strings(&["name", "status"])),
        "SELECT id, CAST(name AS TEXT) AS name, CAST(status AS TEXT) AS status FROM events"
    );
}

#[test]
fn scan_not_found_names_the_scan() {
    match scan_not_found(9) {
        AppError::NotFound(m) => assert_eq!(m, "Scan 9 not found"),
        other => panic!("unexpected {other:?}"),
    }
}
