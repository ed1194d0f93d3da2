use motorsport_backend::analytics::{
    active_assets_query, bucket_fmt, build_funnel_steps, escape_csv, funnel_csv, funnel_stages,
    initial_version, keep_cohort, metric_insert_error, metric_not_found, metric_to_response,
    parse_date_param, parse_funnel_type, parse_retention_type, parse_trend_metric, plan_export,
    plan_funnel, plan_metric_update, plan_retention, plan_trend, prepare_metric,
    resolve_window, result_review_queries, results_trend_query, retention_csv, retention_periods,
    retention_rate, retention_row, trend_response, trends_csv, validate_category,
    check_metric_update, version_to_response, CreateMetricRequest, CsvDownload, DateWindow,
    ExportPlan, ExportQuery, FunnelQuery, FunnelType, MetricRecord, MetricVersionRecord,
    RetentionQuery, RetentionType, SqlParam, TrendMetric, TrendPoint, TrendQuery,
    UpdateMetricRequest,
};
use motorsport_backend::analytics::{retention_cohort_query, retention_period_query};
use motorsport_backend::dates::Ymd;
use motorsport_backend::errors::AppError;

fn detail(e: AppError) -> String {
    match e {
        AppError::BadRequest(m) | AppError::Conflict(m) | AppError::NotFound(m) | AppError::Internal(m) => m,
        other => panic!("unexpected error {other:?}"),
    }
}

fn today() -> Ymd {
    Ymd { year: 2026, month: 3, day: 9 }
}

fn metric(active: bool) -> MetricRecord {
    MetricRecord {
        id: 4,
        name: "invoice_revenue_monthly".to_string(),
        definition: "Sum of totals".to_string(),
        unit: Some("dollars".to_string()),
        category: "financial".to_string(),
        version: 2,
        owner_id: None,
        is_active: active,
        created_at: "t0".to_string(),
        updated_at: "t1".to_string(),
    }
}

#[test]
fn escape_csv_quotes_when_needed() {
    assert_eq!(escape_csv("plain"), "plain");
    assert_eq!(escape_csv("a,b"), "\"a,b\"");
    assert_eq!(escape_csv("say \"hi\""), "\"say \"\"hi\"\"\"");
    assert_eq!(escape_csv("two\nlines"), "\"two\nlines\"");
    assert_eq!(escape_csv(""), "");
}

#[test]
fn bucket_formats() {
    assert_eq!(bucket_fmt("day").unwrap(), "%Y-%m-%d");
    assert_eq!(bucket_fmt("week").unwrap(), "%Y-%W");
    assert_eq!(bucket_fmt("month").unwrap(), "%Y-%m");
    assert_eq!(bucket_fmt("").unwrap(), "%Y-%m");
    assert_eq!(detail(bucket_fmt("year").unwrap_err()), "Unknown bucket 'year'. Valid: day, week, month");
}

#[test]
fn metric_categories() {
    for c in ["financial", "operational", "results", "assets"] {
        assert!(validate_category(c).is_ok());
    }
    assert_eq!(
        detail(validate_category("misc").unwrap_err()),
        "Unknown category 'misc'. Valid: financial, operational, results, assets"
    );
}

#[test]
fn new_metrics() {
    let req = CreateMetricRequest {
        name: "  active_assets ".to_string(),
        definition: " Assets in service ".to_string(),
        unit: Some("count".to_string()),
        category: "assets".to_string(),
        owner_id: Some(2),
    };
    let m = prepare_metric(&req).unwrap();
    assert_eq!(m.name, "active_assets");
    assert_eq!(m.definition, "Assets in service");
    assert_eq!(m.version, 1);
    assert!(m.is_active);
    let blank = CreateMetricRequest { name: " ".to_string(), ..req };
    assert_eq!(detail(prepare_metric(&blank).unwrap_err()), "name is required");
    let v = initial_version(9, "Assets in service", 2);
    assert_eq!(v.version, 1);
    assert_eq!(v.change_reason.as_deref(), Some("Initial version"));
    assert_eq!(detail(metric_insert_error("m", "UNIQUE constraint failed")), "Metric 'm' already exists");
    assert_eq!(detail(metric_not_found(3)), "Metric 3 not found");
}

#[test]
fn metric_updates_bump_version() {
    let req = UpdateMetricRequest {
        definition: " New definition ".to_string(),
        unit: None,
        change_reason: " clarified ".to_string(),
    };
    assert!(check_metric_update(&req).is_ok());
    let u = plan_metric_update(&metric(true), &req, 8).unwrap();
    assert_eq!(u.version, 3);
    assert_eq!(u.definition, "New definition");
    assert_eq!(u.unit, None);
    assert_eq!(u.snapshot.version, 3);
    assert_eq!(u.snapshot.change_reason.as_deref(), Some("clarified"));
    assert_eq!(u.snapshot.changed_by, Some(8));
    assert_eq!(detail(plan_metric_update(&metric(false), &req, 8).unwrap_err()), "Metric 4 is inactive");
    let bad = UpdateMetricRequest {
        definition: "d".to_string(),
        unit: None,
        change_reason: "".to_string(),
    };
    assert_eq!(detail(check_metric_update(&bad).unwrap_err()), "change_reason is required");
}

#[test]
fn metric_responses() {
    let r = metric_to_response(&metric(true));
    assert_eq!(r.name, "invoice_revenue_monthly");
    assert_eq!(r.version, 2);
    let v = version_to_response(&MetricVersionRecord {
        id: 1,
        metric_id: 4,
        version: 2,
        definition: "d".to_string(),
        changed_by: Some(1),
        change_reason: None,
        created_at: "t".to_string(),
    });
    assert_eq!(v.metric_id, 4);
}

#[test]
fn windows_default_and_parse() {
    let w = resolve_window(&None, &None, Ymd { year: 2020, month: 1, day: 1 }, today()).unwrap();
    assert_eq!(w.start, Ymd { year: 2020, month: 1, day: 1 });
    assert_eq!(w.end, today());
    let w = resolve_window(&Some("2025-02-03".to_string()), &None, today(), today()).unwrap();
    assert_eq!(w.start, Ymd { year: 2025, month: 2, day: 3 });
    assert_eq!(
        detail(resolve_window(&Some("x".to_string()), &Some("y".to_string()), today(), today()).unwrap_err()),
        "Invalid start_date 'x'; expected YYYY-MM-DD"
    );
    assert_eq!(
        detail(parse_date_param("2025-13-01", "end_date").unwrap_err()),
        "Invalid end_date '2025-13-01'; expected YYYY-MM-DD"
    );
}

#[test]
fn report_kinds_parse() {
    assert_eq!(parse_trend_metric("active_assets").unwrap(), TrendMetric::ActiveAssets);
    assert!(detail(parse_trend_metric("x").unwrap_err()).starts_with("Unknown metric 'x'. Valid: "));
    assert_eq!(parse_funnel_type("refund_approval").unwrap(), FunnelType::RefundApproval);
    assert_eq!(parse_retention_type("invoice_payment").unwrap(), RetentionType::InvoicePayment);
    assert_eq!(
        detail(parse_retention_type("x").unwrap_err()),
        "Unknown retention_type 'x'. Valid: event_participation, invoice_payment"
    );
    assert_eq!(funnel_stages(FunnelType::InvoiceLifecycle), vec!["draft_created", "issued", "paid"]);
    assert_eq!(retention_periods(None), 3);
    assert_eq!(retention_periods(Some(0)), 1);
    assert_eq!(retention_periods(Some(9)), 6);
    assert_eq!(retention_periods(Some(4)), 4);
}

#[test]
fn funnel_steps_rates_and_drop_offs() {
    let steps = build_funnel_steps(vec![("draft_created", 4), ("issued", 3), ("paid", 1)]);
    assert_eq!(steps.len(), 3);
    assert_eq!(steps[0].conversion_rate, "1");
    assert_eq!(steps[0].drop_off, 0);
    assert_eq!(steps[1].conversion_rate, "0.75");
    assert_eq!(steps[1].drop_off, 1);
    assert_eq!(steps[2].conversion_rate, "0.25");
    assert_eq!(steps[2].drop_off, 2);
    let thirds = build_funnel_steps(vec![("a", 3), ("b", 1), ("c", 5)]);
    assert_eq!(thirds[1].conversion_rate, "0.3333");
    assert_eq!(thirds[2].drop_off, 0);
    let empty = build_funnel_steps(vec![("a", 0), ("b", 0)]);
    assert_eq!(empty[0].conversion_rate, "0");
    assert_eq!(empty[0].drop_off, 1);
}

#[test]
fn retention_rows() {
    assert!(keep_cohort("2024-01", 3));
    assert!(!keep_cohort("", 3));
    assert!(!keep_cohort("2024-01", 0));
    assert_eq!(retention_rate(1, 3), "0.3333");
    assert_eq!(retention_rate(1, 0), "0.0000");
    let row = retention_row("2024-01".to_string(), 4, &vec![2, 1]);
    assert_eq!(row.periods.len(), 2);
    assert_eq!(row.periods[0].period, 1);
    assert_eq!(row.periods[0].rate, "0.50");
    assert_eq!(row.periods[1].period, 2);
    assert_eq!(row.periods[1].count, 1);
}

#[test]
fn csv_exports() {
    let pts = vec![
        TrendPoint { bucket: "2024-01".to_string(), value: "10.5".to_string() },
        TrendPoint { bucket: "2024,02".to_string(), value: "3".to_string() },
    ];
    assert_eq!(
        trends_csv("invoice_revenue", &pts),
        "bucket,metric,value\n2024-01,invoice_revenue,10.5\n\"2024,02\",invoice_revenue,3\n"
    );
    let steps = build_funnel_steps(vec![("requested", 2), ("fully_approved", 1)]);
    assert_eq!(
        funnel_csv(&steps),
        "stage,count,conversion_rate,drop_off\nrequested,2,1,0\nfully_approved,1,0.50,1\n"
    );
    let rows = vec![
        retention_row("2024-01".to_string(), 4, &vec![2, 1]),
        retention_row("2024-02".to_string(), 2, &vec![1]),
    ];
    assert_eq!(
        retention_csv(&rows),
        "cohort,cohort_size,period_1_count,period_1_rate,period_2_count,period_2_rate\n2024-01,4,2,0.50,1,0.25\n2024-02,2,1,0.50\n"
    );
    assert_eq!(retention_csv(&Vec::new()), "cohort,cohort_size\n");
}

#[test]
fn plans_check_in_order() {
    let q = TrendQuery {
        metric: "invoice_count".to_string(),
        start_date: None,
        end_date: None,
        bucket: Some("week".to_string()),
        event_id: None,
        is_championship_class: None,
        venue: None,
        asset_category: None,
    };
    let p = plan_trend(&q, today()).unwrap();
    assert_eq!(p.format, "%Y-%W");
    assert_eq!(p.metric, TrendMetric::InvoiceCount);
    assert_eq!(p.window.start, Ymd { year: 2020, month: 1, day: 1 });
    let r = trend_response("invoice_count", &p, Vec::new());
    assert_eq!(r.start_date, "2020-01-01");
    assert_eq!(r.end_date, "2026-03-09");
    assert_eq!(r.bucket_size, "week");
    let bad = TrendQuery { bucket: Some("hour".to_string()), metric: "nope".to_string(), ..q };
    assert!(detail(plan_trend(&bad, today()).unwrap_err()).starts_with("Unknown bucket"));

    let f = FunnelQuery {
        funnel_type: "result_review".to_string(),
        start_date: None,
        end_date: Some("2026-01-31".to_string()),
        event_id: None,
        is_championship_class: None,
        venue: None,
    };
    let (w, t) = plan_funnel(&f, today()).unwrap();
    assert_eq!(t, FunnelType::ResultReview);
    assert_eq!(w.end, Ymd { year: 2026, month: 1, day: 31 });

    let rq = RetentionQuery {
        retention_type: "event_participation".to_string(),
        start_date: None,
        end_date: None,
        periods: Some(10),
    };
    let (w, n, t) = plan_retention(&rq, today()).unwrap();
    assert_eq!(w.start, Ymd { year: 2023, month: 1, day: 1 });
    assert_eq!(n, 6);
    assert_eq!(t, RetentionType::EventParticipation);
}

fn export(report: &str) -> ExportQuery {
    ExportQuery {
        report_type: report.to_string(),
        metric: None,
        funnel_type: None,
        retention_type: None,
        start_date: None,
        end_date: None,
        bucket: None,
        event_id: None,
        is_championship_class: None,
        venue: None,
        asset_category: None,
        periods: None,
    }
}

#[test]
fn export_defaults() {
    match plan_export(export("trends")).unwrap() {
        ExportPlan::Trends(t) => assert_eq!(t.metric, "invoice_revenue"),
        _ => panic!("expected trends"),
    }
    match plan_export(export("funnel")).unwrap() {
        ExportPlan::Funnel(f) => assert_eq!(f.funnel_type, "invoice_lifecycle"),
        _ => panic!("expected a funnel"),
    }
    match plan_export(export("retention")).unwrap() {
        ExportPlan::Retention(r) => assert_eq!(r.retention_type, "invoice_payment"),
        _ => panic!("expected retention"),
    }
    assert_eq!(
        detail(plan_export(export("pie")).unwrap_err()),
        "Unknown report_type 'pie'. Valid: trends, funnel, retention"
    );
    let d = CsvDownload { filename: "export.csv", body: String::new() };
    assert_eq!(d.content_disposition(), "attachment; filename=\"export.csv\"");
}

#[test]
fn filtered_queries() {
    let w = DateWindow { start: Ymd { year: 2024, month: 1, day: 1 }, end: Ymd { year: 2024, month: 12, day: 31 } };
    let q = results_trend_query("%Y-%m", &w, Some(7), Some(true), &None);
    assert_eq!(
        q.sql,
        "SELECT strftime(?, r.created_at) AS bucket, CAST(COUNT(*) AS REAL) AS value FROM results r JOIN events e ON r.event_id = e.id WHERE date(r.created_at) >= ? AND date(r.created_at) <= ? AND r.event_id = ? AND e.is_championship_class = ? GROUP BY bucket ORDER BY bucket"
    );
    assert_eq!(q.params.len(), 5);
    assert!(matches!(&q.params[1], SqlParam::Text(s) if s == "2024-01-01"));
    assert!(matches!(q.params[4], SqlParam::Int(1)));
    let a = active_assets_query("%Y", &w, &Some("vehicle".to_string()));
    assert!(a.sql.ends_with("WHERE status != 'retired' AND date(created_at) >= ? AND date(created_at) <= ? AND category = ? GROUP BY bucket ORDER BY bucket"));
    assert_eq!(a.params.len(), 4);
    let (qs, ps) = result_review_queries(&w, None, None, &Some("V1".to_string()));
    assert_eq!(
        qs[0],
        "SELECT COUNT(DISTINCT r.id) AS n FROM results r JOIN events e ON r.event_id = e.id WHERE date(r.created_at) >= ? AND date(r.created_at) <= ? AND e.venue_identifier = ?"
    );
    assert_eq!(ps.len(), 3);
    let (qs, ps) = result_review_queries(&w, None, None, &None);
    assert_eq!(
        qs[3],
        "SELECT COUNT(DISTINCT r.id) AS n FROM results r WHERE r.reviewed_state = 'rejected' AND date(r.created_at) >= ? AND date(r.created_at) <= ?"
    );
    assert_eq!(ps.len(), 2);
}

#[test]
fn retention_query_texts() {
    assert_eq!(
        retention_cohort_query(RetentionType::InvoicePayment),
        "SELECT strftime('%Y-%m', CAST(issue_date AS TEXT)) AS cohort, COUNT(*) AS cohort_size FROM invoices WHERE issue_date >= ? AND issue_date <= ? GROUP BY cohort ORDER BY cohort"
    );
    assert!(retention_cohort_query(RetentionType::EventParticipation)
        .starts_with("SELECT strftime('%Y-%m', e.created_at) AS cohort, COUNT(DISTINCT r.participant_id) AS cohort_size"));
    let q = retention_period_query(RetentionType::InvoicePayment, 2, "2026-01");
    assert_eq!(
        q.sql,
        "SELECT COUNT(*) AS n FROM invoices WHERE strftime('%Y-%m', CAST(issue_date AS TEXT)) = ? AND status = 'paid' AND julianday(updated_at) - julianday(CAST(issue_date AS TEXT)) <= 60"
    );
    assert_eq!(q.params.len(), 1);
    assert!(matches!(&q.params[0], SqlParam::Text(s) if s == "2026-01"));
    let q = retention_period_query(RetentionType::EventParticipation, 3, "2026-02");
    assert!(q.sql.contains("date(? || '-01', '+3 month')"));
    assert_eq!(q.params.len(), 2);
    assert!(matches!(&q.params[1], SqlParam::Text(s) if s == "2026-02"));
}
