use motorsport_backend::competition::{
    apply_event_update, check_ruleset_input, coerce_optional_text, ensure_editable,
    ensure_publishable, event_not_found, parse_datetime, parse_status, publish,
    rollback_target_not_found, ruleset_exists_error, ruleset_not_found, status_str,
    to_event_response, to_ruleset_response, validate_semver, EventFilterQuery, EventRecord,
    EventStatus, RulesetRecord, UpdateEventRequest,
};
use motorsport_backend::errors::AppError;

fn draft() -> EventRecord {
    EventRecord {
        id: 12,
        name: "Monza GP".to_string(),
        description: Some("Season opener".to_string()),
        schedule_group: None,
        venue_identifier: Some("VENUE-MONZA-01".to_string()),
        status: EventStatus::Draft,
        published_version_id: None,
        is_championship_class: false,
        created_by: 1,
        created_at: "2026-01-01T00:00:00+00:00".to_string(),
        updated_at: "2026-01-02T00:00:00+00:00".to_string(),
    }
}

fn detail(e: AppError) -> String {
    match e {
        AppError::BadRequest(m) | AppError::Conflict(m) | AppError::NotFound(m) => m,
        other => panic!("unexpected error {other:?}"),
    }
}

#[test]
fn semver_accepts_core_and_suffixes() {
    assert!(validate_semver("2.1.0").is_ok());
    assert!(validate_semver("1.2.3-rollback").is_ok());
    assert!(validate_semver("0.5.0-rb").is_ok());
    assert!(validate_semver("1.2.3+build.7").is_ok());
    assert!(validate_semver("01.002.3").is_ok());
    assert!(validate_semver("4294967295.0.0").is_ok());
}

#[test]
fn semver_rejects_malformed() {
    for v in ["1.2", "1.2.3.4", "1..3", "a.b.c", "", "4294967296.0.0", "+1.2.3", "1.2.-3", " 1.2.3"] {
        assert!(validate_semver(v).is_err(), "{v} should be rejected");
    }
    assert_eq!(
        detail(validate_semver("1.2").unwrap_err()),
        "'1.2' is not a valid semantic version (expected X.Y.Z)"
    );
}

#[test]
fn event_status_names_roundtrip() {
    for s in [
        EventStatus::Draft,
        EventStatus::Published,
        EventStatus::InProgress,
        EventStatus::Completed,
        EventStatus::Cancelled,
    ] {
        assert_eq!(parse_status(status_str(&s)).unwrap(), s);
    }
    assert_eq!(detail(parse_status("open").unwrap_err()), "Unknown event status 'open'");
}

#[test]
fn datetimes_parse_rfc3339() {
    let t = parse_datetime("2026-05-01T10:00:00Z").unwrap();
    assert_eq!(t.secs, 1777629600);
    assert_eq!(
        detail(parse_datetime("tomorrow").unwrap_err()),
        "Invalid datetime 'tomorrow'; expected RFC 3339"
    );
}

#[test]
fn ruleset_input_checks_version_then_time() {
    assert!(detail(check_ruleset_input("x", "bad").unwrap_err()).contains("semantic version"));
    assert!(detail(check_ruleset_input("1.0.0", "bad").unwrap_err()).starts_with("Invalid datetime"));
    assert!(check_ruleset_input("1.0.0", "2026-01-01T00:00:00+02:00").is_ok());
}

#[test]
fn empty_text_clears_fields() {
    assert_eq!(coerce_optional_text(Some("".to_string())), None);
    assert_eq!(coerce_optional_text(Some("x".to_string())), Some("x".to_string()));
    assert_eq!(coerce_optional_text(None), None);
}

#[test]
fn only_drafts_are_edited_or_published() {
    assert!(ensure_editable(12, EventStatus::Draft).is_ok());
    assert_eq!(
        detail(ensure_editable(12, EventStatus::Published).unwrap_err()),
        "Event 12 has status 'published' and cannot be modified; only draft events are editable"
    );
    assert_eq!(
        detail(ensure_publishable(12, EventStatus::Completed).unwrap_err()),
        "Event 12 is already 'completed'; only draft events can be published"
    );
}

#[test]
fn published_events_are_frozen() {
    let p = publish(draft(), 4);
    assert_eq!(p.status, EventStatus::Published);
    assert_eq!(p.published_version_id, Some(4));
    assert!(ensure_editable(p.id, p.status).is_err());
    assert!(ensure_publishable(p.id, p.status).is_err());
}

#[test]
fn patches_apply_present_fields() {
    let req = UpdateEventRequest {
        name: Some("Monza Grand Prix".to_string()),
        description: Some("".to_string()),
        schedule_group: Some("Round 1".to_string()),
        venue_identifier: None,
        is_championship_class: Some(true),
        asset_ids: None,
    };
    let e = apply_event_update(draft(), req);
    assert_eq!(e.name, "Monza Grand Prix");
    assert_eq!(e.description, None);
    assert_eq!(e.schedule_group.as_deref(), Some("Round 1"));
    assert_eq!(e.venue_identifier.as_deref(), Some("VENUE-MONZA-01"));
    assert!(e.is_championship_class);
    assert_eq!(e.status, EventStatus::Draft);
}

#[test]
fn responses_mirror_rows() {
    let r = to_event_response(draft(), vec![3, 5]);
    assert_eq!(r.status, "draft");
    assert_eq!(r.asset_ids, vec![3, 5]);
    let v = to_ruleset_response(RulesetRecord {
        id: 2,
        semantic_version: "1.0.1".to_string(),
        description: None,
        effective_at: "2026-01-01T00:00:00+00:00".to_string(),
        created_by: 1,
        rollback_of: Some(1),
        created_at: "2026-01-01T00:00:00+00:00".to_string(),
    });
    assert!(v.is_rollback);
    assert_eq!(v.rollback_of, Some(1));
}

#[test]
fn error_messages() {
    assert_eq!(detail(ruleset_exists_error("1.0.0")), "Ruleset version '1.0.0' already exists");
    assert_eq!(detail(event_not_found(9)), "Event 9 not found");
    assert_eq!(detail(ruleset_not_found(9)), "Ruleset version 9 not found");
    assert_eq!(
        detail(rollback_target_not_found(9)),
        "Ruleset version 9 not found \u{2014} cannot rollback"
    );
}

#[test]
fn event_filter_status() {
    let q = EventFilterQuery { status: Some("in_progress".to_string()), schedule_group: None };
    assert_eq!(q.status_filter().unwrap(), Some(EventStatus::InProgress));
    let q = EventFilterQuery { status: Some("x".to_string()), schedule_group: None };
    assert!(q.status_filter().is_err());
}
