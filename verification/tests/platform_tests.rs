use motorsport_backend::audit::{audit_entry_not_found, audit_write_error, AuditLogQuery};
use motorsport_backend::auth::{
    bearer_token, check_password, check_session, hash_new_password, new_token, session_expired,
    session_not_found, role_from_name, AuthenticatedUser, Permission, Role, SessionCheck,
};
use motorsport_backend::config::{AppConfig, ConfigVars};
use motorsport_backend::dates::{ymd_text, Instant, Ymd};
use motorsport_backend::decimal::{eq_value, gt, lt, max, min, Dec};
use motorsport_backend::errors::{error_body, unauthorized_body, unprocessable_body, AppError};
use motorsport_backend::middleware::{
    CorrelationFairing, CorrelationId, LogLevel, RateLimitedToken, RateWindow,
    RequestLoggerFairing, RATE_LIMIT,
};
use motorsport_backend::text::{i64_text, join_strings, trim, u64_text};

fn user(perms: Vec<Permission>) -> AuthenticatedUser {
    AuthenticatedUser {
        user_id: 1,
        username: "director".to_string(),
        session_token: "t".to_string(),
        roles: vec![
            Role { name: "referee".to_string(), permissions: vec![Permission::EventsRead] },
            Role { name: "other".to_string(), permissions: perms },
        ],
    }
}

// ── permissions ─────────────────────────────────────────────────────────────

#[test]
fn permissions_come_from_any_role() {
    let u = user(vec![Permission::EventsWrite]);
    assert!(u.has_permission(Permission::EventsRead));
    assert!(u.has_permission(Permission::EventsWrite));
    assert!(!u.has_permission(Permission::SystemAdmin));
    assert!(u.require(Permission::EventsWrite).is_ok());
    match u.require(Permission::FinancialsWrite) {
        Err(AppError::Forbidden(m)) => assert_eq!(m, "Insufficient permissions"),
        _ => panic!("expected forbidden"),
    }
    let nobody = AuthenticatedUser {
        user_id: 2,
        username: "x".to_string(),
        session_token: "t".to_string(),
        roles: Vec::new(),
    };
    assert!(!nobody.has_permission(Permission::AuditRead));
}

// ── bearer tokens and sessions ──────────────────────────────────────────────

#[test]
fn bearer_tokens() {
    assert_eq!(bearer_token(Some("Bearer abc123")), Some("abc123".to_string()));
    assert_eq!(bearer_token(Some("Bearer   spaced  ")), Some("spaced".to_string()));
    assert_eq!(bearer_token(Some("Bearer    ")), None);
    assert_eq!(bearer_token(Some("Basic abc")), None);
    assert_eq!(bearer_token(Some("bearer abc")), None);
    assert_eq!(bearer_token(None), None);
}

#[test]
fn sessions_slide_or_expire() {
    let now = Instant { secs: 1_000_000, nanos: 5 };
    assert!(matches!(check_session(Instant { secs: 999_999, nanos: 0 }, now), SessionCheck::Expired));
    assert!(matches!(check_session(now, now), SessionCheck::Expired));
    match check_session(Instant { secs: 1_000_000, nanos: 6 }, now) {
        SessionCheck::Extended(t) => assert_eq!(t, Instant { secs: 1_001_800, nanos: 5 }),
        SessionCheck::Expired => panic!("expected a live session"),
    }
    assert!(matches!(session_not_found(), AppError::Unauthorized(m) if m == "Session not found"));
    assert!(matches!(session_expired(), AppError::Unauthorized(m) if m == "Session expired"));
}

#[test]
fn tokens_are_64_hex_digits() {
    let a = new_token();
    let b = new_token();
    assert_eq!(a.len(), 64);
    assert_eq!(a.chars().nth(12), Some('4'));
    assert_eq!(a.chars().nth(44), Some('4'));
    assert!(a.chars().all(|c| c.is_ascii_hexdigit() && !c.is_ascii_uppercase()));
    assert_ne!(a, b);
}

#[test]
fn passwords_hash_and_check() {
    let h = hash_new_password("Secret123!").unwrap();
    assert!(h.starts_with("$argon2"));
    assert!(check_password("Secret123!", &h, "Invalid credentials").is_ok());
    match check_password("wrong", &h, "Invalid credentials") {
        Err(AppError::Unauthorized(m)) => assert_eq!(m, "Invalid credentials"),
        _ => panic!("expected unauthorized"),
    }
    match check_password("x", "not-a-hash", "Invalid credentials") {
        Err(AppError::Internal(m)) => assert!(m.starts_with("hash parse: ")),
        _ => panic!("expected an internal error"),
    }
}

// ── configuration ───────────────────────────────────────────────────────────

fn vars() -> ConfigVars {
    ConfigVars {
        database_url: None,
        encryption_key: Some("k".to_string()),
        host: None,
        port: None,
        log_level: None,
        backup_retain_days: None,
        backup_dir: None,
    }
}

#[test]
fn config_defaults() {
    let c = AppConfig::from_vars(vars()).unwrap();
    assert_eq!(c.database_url, "sqlite:///app/data/motorsport.db");
    assert_eq!(c.host, "0.0.0.0");
    assert_eq!(c.port, 8000);
    assert_eq!(c.log_level, "info");
    assert_eq!(c.backup_retain_days, 7);
    assert_eq!(c.backup_dir, "./backups");
}

#[test]
fn config_values_and_errors() {
    let mut v = vars();
    v.port = Some("8080".to_string());
    v.backup_retain_days = Some("many".to_string());
    let c = AppConfig::from_vars(v).unwrap();
    assert_eq!(c.port, 8080);
    assert_eq!(c.backup_retain_days, 7);
    let mut v = vars();
    v.port = Some("70000".to_string());
    assert_eq!(AppConfig::from_vars(v).err().unwrap(), "PORT must be a valid u16 (1\u{2013}65535)");
    let mut v = vars();
    v.encryption_key = None;
    assert!(AppConfig::from_vars(v).err().unwrap().starts_with("ENCRYPTION_KEY is required"));
    let mut v = vars();
    v.backup_retain_days = Some("+30".to_string());
    assert_eq!(AppConfig::from_vars(v).unwrap().backup_retain_days, 30);
}

// ── middleware ──────────────────────────────────────────────────────────────

#[test]
fn correlation_ids() {
    let f = CorrelationFairing;
    assert_eq!(f.request_id(Some("abc")).0, "abc");
    let fresh = f.request_id(Some(""));
    assert_eq!(fresh.0.len(), 36);
    let id = f.request_id(None).0;
    assert_eq!(id.len(), 36);
    for (i, c) in id.chars().enumerate() {
        if [8, 13, 18, 23].contains(&i) {
            assert_eq!(c, '-');
        } else {
            assert!(c.is_ascii_hexdigit() && !c.is_ascii_uppercase());
        }
    }
    assert_eq!(id.chars().nth(14), Some('4'));
    assert_eq!(f.response_header(&CorrelationId("x".to_string())), Some("x".to_string()));
    assert_eq!(f.response_header(&CorrelationId(String::new())), None);
}

#[test]
fn log_levels_by_status() {
    let l = RequestLoggerFairing;
    assert_eq!(l.response_event(503), (LogLevel::Error, "request.error"));
    assert_eq!(l.response_event(404), (LogLevel::Warn, "request.client_error"));
    assert_eq!(l.response_event(200), (LogLevel::Info, "request.completed"));
}

#[test]
fn rate_limit_windows() {
    assert_eq!(RateLimitedToken::caller(Some("Bearer  tok "), None), "tok");
    assert_eq!(RateLimitedToken::caller(Some("Basic x"), Some("10.0.0.1".to_string())), "10.0.0.1");
    assert_eq!(RateLimitedToken::caller(None, None), "unknown");
    let (ok, w) = RateLimitedToken::register_request(None, 100);
    assert!(ok);
    assert_eq!(w, RateWindow { count: 1, started: 100 });
    let full = RateWindow { count: RATE_LIMIT, started: 100 };
    let (ok, w) = RateLimitedToken::register_request(Some(full), 200);
    assert!(!ok);
    assert_eq!(w, full);
    let (ok, w) = RateLimitedToken::register_request(Some(full), 100 + 60_000_000_001);
    assert!(ok);
    assert_eq!(w, RateWindow { count: 1, started: 100 + 60_000_000_001 });
}

// ── audit ───────────────────────────────────────────────────────────────────

#[test]
fn audit_listing_plans() {
    let q = AuditLogQuery {
        actor_id: Some(3),
        entity_type: Some("invoice".to_string()),
        entity_id: None,
        action: None,
        from: Some("2026-01-01T00:00:00Z".to_string()),
        to: None,
        limit: Some(1000),
        offset: None,
    };
    let f = q.plan().unwrap();
    assert_eq!(f.limit, 500);
    assert_eq!(f.offset, 0);
    assert_eq!(f.from, Some(Instant { secs: 1767225600, nanos: 0 }));
    let bad = AuditLogQuery {
        actor_id: None,
        entity_type: None,
        entity_id: None,
        action: None,
        from: None,
        to: Some("yesterday".to_string()),
        limit: None,
        offset: None,
    };
    match bad.plan() {
        Err(AppError::BadRequest(m)) => assert_eq!(m, "Invalid 'to' timestamp: yesterday"),
        _ => panic!("expected a bad request"),
    }
    assert!(matches!(audit_write_error("full"), AppError::Internal(m) if m == "audit write failed: full"));
    assert!(matches!(audit_entry_not_found(5), AppError::NotFound(m) if m == "Audit log entry 5 not found"));
}

// ── errors ──────────────────────────────────────────────────────────────────

#[test]
fn error_bodies() {
    let b = error_body(&AppError::NotFound("Invoice 7 not found".to_string()), "cid-1");
    assert_eq!(b.code, "NOT_FOUND");
    assert_eq!(b.message, "Resource not found: Invoice 7 not found");
    assert_eq!(b.correlation_id.as_deref(), Some("cid-1"));
    let i = error_body(&AppError::Internal("db down".to_string()), "");
    assert_eq!(i.code, "INTERNAL_ERROR");
    assert_eq!(i.message, "INTERNAL_ERROR: db down (correlation_id: )");
    assert_eq!(i.correlation_id, None);
    assert_eq!(AppError::Conflict("x".to_string()).status(), 409);
    assert_eq!(AppError::Config("x".to_string()).status(), 500);
    assert_eq!(unauthorized_body("c").message, "Authentication required or session expired");
    assert_eq!(unprocessable_body("").code, "UNPROCESSABLE_ENTITY");
}

// ── text, dates and decimals ────────────────────────────────────────────────

#[test]
fn text_helpers() {
    assert_eq!(trim("\t a b \n"), "a b");
    assert_eq!(i64_text(-42), "-42");
    assert_eq!(i64_text(i64::MIN), "-9223372036854775808");
    assert_eq!(u64_text(0), "0");
    assert_eq!(join_strings(&vec!["a".to_string(), "b".to_string()], ", "), "a, b");
    assert_eq!(ymd_text(&Ymd { year: 2026, month: 3, day: 9 }), "2026-03-09");
    assert_eq!(ymd_text(&Ymd { year: 12345, month: 1, day: 2 }), "+12345-01-02");
    assert_eq!(ymd_text(&Ymd { year: -7, month: 1, day: 2 }), "-0007-01-02");
}

#[test]
fn decimal_order_and_text() {
    let a = Dec::new(150, 2).unwrap();
    let b = Dec::new(15, 1).unwrap();
    let c = Dec::new(-3, 0).unwrap();
    assert!(eq_value(&a, &b));
    assert!(lt(&c, &a));
    assert!(gt(&a, &c));
    assert_eq!(max(c, a).to_text(), "1.50");
    assert_eq!(min(c, a).to_text(), "-3");
    assert_eq!(Dec::new(5, 3).unwrap().to_text(), "0.005");
    assert!(Dec::new(1, 29).is_none());
}

#[test]
fn role_table_grants_by_name() {
    let admin = role_from_name("administrator").unwrap();
    assert_eq!(admin.name, "administrator");
    assert_eq!(admin.permissions.len(), 6);
    assert!(admin.permissions.contains(&Permission::SystemAdmin));
    let referee = role_from_name("referee").unwrap();
    assert_eq!(referee.permissions, vec![Permission::EventsRead]);
    let clerk = role_from_name("finance_clerk").unwrap();
    assert_eq!(clerk.permissions, vec![Permission::FinancialsRead, Permission::FinancialsWrite]);
    let director = role_from_name("event_director").unwrap();
    assert!(director.permissions.contains(&Permission::AuditRead));
    assert!(!director.permissions.contains(&Permission::FinancialsRead));
    let auditor = role_from_name("auditor").unwrap();
    assert_eq!(auditor.permissions.len(), 3);
    assert!(role_from_name("mechanic").is_none());
    assert!(role_from_name("Administrator").is_none());
}
