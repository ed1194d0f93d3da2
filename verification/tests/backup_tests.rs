use std::path::PathBuf;

use motorsport_backend::backup::{
    backup_created_response, backup_entries, backup_filename, backup_not_found, check_sqlite_header,
    db_path_from_url, entry_from_name, list_backups, restore_staged_response, rotation_victims,
    seconds_until_midnight, sort_newest_first, validate_restore_filename, BackupEntry, Timestamp,
    BACKUP_EXT, BACKUP_PREFIX,
};
use motorsport_backend::backup::vacuum_into_sql;
use motorsport_backend::errors::AppError;

fn sample_time() -> Timestamp {
    Timestamp { year: 2026, month: 4, day: 7, hour: 23, minute: 0, second: 5, micros: 42 }
}

fn entry(name: &str) -> BackupEntry {
    entry_from_name(name, 10).unwrap()
}

// ── db_path_from_url ────────────────────────────────────────────────────────

#[test]
fn db_path_from_url_absolute() {
    let p = db_path_from_url("sqlite:///app/data/motorsport.db").unwrap();
    assert_eq!(PathBuf::from(p), PathBuf::from("/app/data/motorsport.db"));
}

#[test]
fn db_path_from_url_relative_dot() {
    let p = db_path_from_url("sqlite://./local.db").unwrap();
    assert_eq!(PathBuf::from(p), PathBuf::from("./local.db"));
}

#[test]
fn db_path_from_url_relative_bare() {
    let p = db_path_from_url("sqlite://data.db").unwrap();
    assert_eq!(PathBuf::from(p), PathBuf::from("data.db"));
}

#[test]
fn db_path_from_url_rejects_non_sqlite() {
    assert!(db_path_from_url("postgres://localhost/db").is_none());
    assert!(db_path_from_url("mysql://host/db").is_none());
}

#[test]
fn db_path_from_url_rejects_empty() {
    assert!(db_path_from_url("").is_none());
}

// ── backup_filename format ──────────────────────────────────────────────────

#[test]
fn backup_filename_starts_with_prefix() {
    let name = backup_filename(sample_time());
    assert!(name.starts_with(BACKUP_PREFIX));
}

#[test]
fn backup_filename_ends_with_extension() {
    let name = backup_filename(sample_time());
    assert!(name.ends_with(&format!(".{BACKUP_EXT}")));
}

#[test]
fn backup_filename_has_reasonable_length() {
    let name = backup_filename(sample_time());
    assert!(name.len() > 20, "backup filename too short: {name}");
}

#[test]
fn backup_filename_exact_text() {
    assert_eq!(backup_filename(sample_time()), "backup_20260407_230005_000042.sqlite");
}

// ── stage_restore input validation ──────────────────────────────────────────

#[test]
fn stage_restore_rejects_path_traversal() {
    let err = validate_restore_filename("../evil.sqlite").unwrap_err();
    assert!(matches!(err, AppError::BadRequest(_)));
}

#[test]
fn stage_restore_rejects_forward_slash() {
    let err = validate_restore_filename("sub/backup.sqlite").unwrap_err();
    assert!(matches!(err, AppError::BadRequest(_)));
}

#[test]
fn stage_restore_rejects_backslash() {
    let err = validate_restore_filename("sub\\backup.sqlite").unwrap_err();
    assert!(matches!(err, AppError::BadRequest(_)));
}

#[test]
fn stage_restore_rejects_wrong_prefix() {
    let err = validate_restore_filename("evil_20260101_000000.sqlite").unwrap_err();
    assert!(matches!(err, AppError::BadRequest(_)));
}

#[test]
fn stage_restore_rejects_wrong_extension() {
    let err = validate_restore_filename("backup_20260101_000000.db").unwrap_err();
    assert!(matches!(err, AppError::BadRequest(_)));
}

#[test]
fn stage_restore_rejects_nonexistent_file() {
    // The name is well formed, so only the missing file is refused.
    assert!(validate_restore_filename("backup_20260101_000000.sqlite").is_ok());
    let err = backup_not_found("backup_20260101_000000.sqlite");
    assert!(matches!(err, AppError::NotFound(_)));
}

#[test]
fn restore_filename_errors_carry_messages() {
    match validate_restore_filename("a..b") {
        Err(AppError::BadRequest(m)) => {
            assert_eq!(m, "filename must not contain path separators or '..'")
        }
        _ => panic!("expected a bad request"),
    }
    match validate_restore_filename("other.sqlite") {
        Err(AppError::BadRequest(m)) => {
            assert_eq!(m, "filename must match backup_YYYYMMDD_HHMMSS.sqlite")
        }
        _ => panic!("expected a bad request"),
    }
    match backup_not_found("backup_x.sqlite") {
        AppError::NotFound(m) => assert_eq!(m, "Backup 'backup_x.sqlite' not found"),
        _ => panic!("expected not found"),
    }
}

// ── validate_sqlite_file ────────────────────────────────────────────────────

#[test]
fn validate_sqlite_rejects_non_sqlite_file() {
    let data = b"This is not a real SQLite file at all!";
    let err = check_sqlite_header("fake.sqlite", &data[..16]).unwrap_err();
    assert!(matches!(err, AppError::BadRequest(_)));
}

#[test]
fn validate_sqlite_accepts_valid_header() {
    let mut data = b"SQLite format 3\0".to_vec();
    data.extend_from_slice(&[0u8; 100]);
    assert!(check_sqlite_header("valid.sqlite", &data[..16]).is_ok());
}

#[test]
fn sqlite_header_error_message() {
    match check_sqlite_header("x.sqlite", &[1u8; 16]) {
        Err(AppError::BadRequest(m)) => assert_eq!(m, "'x.sqlite' is not a valid SQLite database"),
        _ => panic!("expected a bad request"),
    }
}

// ── rotate_backups ──────────────────────────────────────────────────────────

#[test]
fn rotate_backups_keeps_at_most_n_files() {
    let mut files = Vec::new();
    for i in 0..5 {
        files.push((format!("backup_20260101_00000{i}.sqlite"), 11u64));
    }
    let entries = backup_entries(files);
    let victims = rotation_victims(&entries, 3);
    let remaining = entries.len() - victims.len();
    assert!(remaining <= 3, "expected <=3 files, got {}", remaining);
}

#[test]
fn rotate_backups_on_empty_dir_is_ok() {
    let entries = backup_entries(Vec::new());
    assert!(rotation_victims(&entries, 7).is_empty());
}

#[test]
fn rotation_deletes_oldest_first() {
    let mut files = Vec::new();
    for i in 0..5 {
        files.push((format!("backup_20260101_00000{i}.sqlite"), 11u64));
    }
    let entries = backup_entries(files);
    let victims = rotation_victims(&entries, 3);
    assert_eq!(
        victims,
        vec![
            "backup_20260101_000000.sqlite".to_string(),
            "backup_20260101_000001.sqlite".to_string()
        ]
    );
}

// ── listing ─────────────────────────────────────────────────────────────────

#[test]
fn entry_from_name_reads_timestamp() {
    let e = entry("backup_20260407_230000.sqlite");
    assert_eq!(e.filename, "backup_20260407_230000.sqlite");
    assert_eq!(e.size_bytes, 10);
    assert_eq!(e.created_at, "2026-04-07T23:00:00Z");
    assert!(entry_from_name("notes.txt", 1).is_none());
    assert!(entry_from_name("backup_x.db", 1).is_none());
}

#[test]
fn entry_from_name_reads_microsecond_stamps() {
    let name = backup_filename(Timestamp { year: 2026, month: 4, day: 7, hour: 23, minute: 0, second: 0, micros: 123456 });
    assert_eq!(name, "backup_20260407_230000_123456.sqlite");
    let e = entry(&name);
    assert_eq!(e.created_at, "2026-04-07T23:00:00.123456Z");
    assert!(e.created_at.starts_with("2026-04-07T23:00:00"));
}

#[test]
fn entry_from_name_keeps_other_stamps() {
    let e = entry("backup_nightly.sqlite");
    assert_eq!(e.created_at, "nightly");
}

#[test]
fn entry_from_name_keeps_non_ascii_stamps_raw() {
    let e = entry("backup_2026é407_230000.sqlite");
    assert_eq!(e.created_at, "2026é407_230000");
    let listing = list_backups("./backups", 3, vec![("backup_2026é407_230000.sqlite".to_string(), 5u64)]);
    assert_eq!(listing.backups.len(), 1);
    assert_eq!(listing.backups[0].created_at, "2026é407_230000");
    assert_eq!(listing.backups[0].size_bytes, 5);
}

#[test]
fn listing_is_newest_first() {
    let files = vec![
        ("backup_20260101_000000.sqlite".to_string(), 1u64),
        ("readme.txt".to_string(), 2u64),
        ("backup_20260301_000000.sqlite".to_string(), 3u64),
        ("backup_20260201_000000.sqlite".to_string(), 4u64),
    ];
    let listing = list_backups("./backups", 7, files);
    let names: Vec<&str> = listing.backups.iter().map(|b| b.filename.as_str()).collect();
    assert_eq!(
        names,
        vec![
            "backup_20260301_000000.sqlite",
            "backup_20260201_000000.sqlite",
            "backup_20260101_000000.sqlite"
        ]
    );
    assert_eq!(listing.backup_dir, "./backups");
    assert_eq!(listing.retain_days, 7);
}

#[test]
fn sort_newest_first_orders_by_name() {
    let v = vec![entry("backup_20250101_000000.sqlite"), entry("backup_20270101_000000.sqlite")];
    let s = sort_newest_first(v);
    assert_eq!(s[0].filename, "backup_20270101_000000.sqlite");
}

#[test]
fn seconds_until_midnight_values() {
    assert_eq!(seconds_until_midnight(0, 0, 0), 86400);
    assert_eq!(seconds_until_midnight(23, 59, 59), 1);
    assert_eq!(seconds_until_midnight(12, 0, 0), 43200);
    assert_eq!(seconds_until_midnight(24, 0, 0), 1);
}

#[test]
fn action_responses() {
    let r = backup_created_response(entry("backup_20260407_230000.sqlite"));
    assert_eq!(r.status, "ok");
    assert_eq!(r.message, "Backup 'backup_20260407_230000.sqlite' created successfully.");
    assert!(r.backup.is_some());
    let s = restore_staged_response("backup_1.sqlite", "/b/.restore_pending");
    assert_eq!(s.status, "pending_restart");
    assert_eq!(
        s.message,
        "Restore of 'backup_1.sqlite' staged at '/b/.restore_pending'. Restart the server to apply."
    );
    assert!(s.backup.is_none());
}

#[test]
fn vacuum_into_sql_quotes_the_path() {
    assert_eq!(
        vacuum_into_sql("./backups/backup_20260407_230000_000042.sqlite").unwrap(),
        "VACUUM INTO './backups/backup_20260407_230000_000042.sqlite'"
    );
}

#[test]
fn vacuum_into_sql_refuses_a_quote() {
    match vacuum_into_sql("./it's/backup.sqlite") {
        Err(AppError::Internal(m)) => assert_eq!(m, "Backup path must not contain single-quote characters"),
        other => panic!("unexpected {other:?}"),
    }
}
