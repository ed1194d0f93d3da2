use rust_decimal::Decimal;

use motorsport_backend::billing::{
    adjustment_type_str, check_discount_value, check_invoice_header, check_line_description,
    check_tax_rate, compute_line_total, ensure_draft, invoice_totals, issue_transition,
    parse_adjustment_type, parse_date, parse_discount_type, parse_pricing_model,
    parse_status_filter, pricing_model_str, status_str, validate_line_adjustment, AdjustmentType,
    DiscountKind, DraftOp, InvoiceFilterQuery, InvoiceStatus, PricingModel,
};
use motorsport_backend::billing::{plan_add_line, plan_discount};
use motorsport_backend::billing::{
    invoice_insert_error, invoice_not_found, invoice_to_response, line_to_response, InvoiceRecord,
    LineRecord,
};
use motorsport_backend::dates::Ymd;
use motorsport_backend::decimal::Dec;
use motorsport_backend::errors::AppError;

fn d(s: &str) -> Dec {
    let x = Decimal::from_str_exact(s).unwrap();
    Dec::new(x.mantissa(), x.scale()).unwrap()
}

fn val(x: &Dec) -> Decimal {
    Decimal::from_i128_with_scale(x.mantissa(), x.scale())
}

fn dv(s: &str) -> Decimal {
    Decimal::from_str_exact(s).unwrap()
}

// ── parse_pricing_model ─────────────────────────────────────────────────────

#[test]
fn parse_pricing_model_all_valid() {
    assert_eq!(parse_pricing_model("fixed").unwrap(), PricingModel::Fixed);
    assert_eq!(parse_pricing_model("per_unit").unwrap(), PricingModel::PerUnit);
    assert_eq!(parse_pricing_model("percentage").unwrap(), PricingModel::Percentage);
    assert_eq!(parse_pricing_model("per_duration").unwrap(), PricingModel::PerDuration);
    assert_eq!(parse_pricing_model("package").unwrap(), PricingModel::Package);
}

#[test]
fn parse_pricing_model_rejects_unknown() {
    assert!(parse_pricing_model("hourly").is_err());
    assert!(parse_pricing_model("").is_err());
}

#[test]
fn pricing_model_str_roundtrips() {
    let variants = [
        PricingModel::Fixed,
        PricingModel::PerUnit,
        PricingModel::Percentage,
        PricingModel::PerDuration,
        PricingModel::Package,
    ];
    for v in variants {
        assert_eq!(parse_pricing_model(pricing_model_str(&v)).unwrap(), v);
    }
}

// ── parse_adjustment_type ───────────────────────────────────────────────────

#[test]
fn parse_adjustment_type_valid() {
    assert_eq!(parse_adjustment_type("discount").unwrap(), AdjustmentType::Discount);
    assert_eq!(parse_adjustment_type("surcharge").unwrap(), AdjustmentType::Surcharge);
}

#[test]
fn parse_adjustment_type_rejects_unknown() {
    assert!(parse_adjustment_type("rebate").is_err());
}

#[test]
fn adjustment_type_names_roundtrip() {
    for a in [AdjustmentType::Discount, AdjustmentType::Surcharge] {
        assert_eq!(parse_adjustment_type(adjustment_type_str(&a)).unwrap(), a);
    }
}

// ── compute_line_total ──────────────────────────────────────────────────────

#[test]
fn line_total_no_adjustment() {
    let total = compute_line_total(&d("2.0"), &d("100.0"), None, false, None).unwrap();
    assert_eq!(val(&total), dv("200.0"));
}

#[test]
fn line_total_fixed_discount() {
    let total = compute_line_total(
        &d("1.0"),
        &d("500.0"),
        Some(AdjustmentType::Discount),
        false,
        Some(d("50.0")),
    )
    .unwrap();
    assert_eq!(val(&total), dv("450.0"));
}

#[test]
fn line_total_percentage_discount() {
    let total = compute_line_total(
        &d("1.0"),
        &d("1000.0"),
        Some(AdjustmentType::Discount),
        true,
        Some(d("10.0")),
    )
    .unwrap();
    assert_eq!(val(&total), dv("900.0"));
}

#[test]
fn line_total_surcharge() {
    let total = compute_line_total(
        &d("1.0"),
        &d("200.0"),
        Some(AdjustmentType::Surcharge),
        false,
        Some(d("25.0")),
    )
    .unwrap();
    assert_eq!(val(&total), dv("225.0"));
}

#[test]
fn line_total_discount_never_goes_negative() {
    let total = compute_line_total(
        &d("1.0"),
        &d("10.0"),
        Some(AdjustmentType::Discount),
        false,
        Some(d("999.0")),
    )
    .unwrap();
    assert_eq!(val(&total), dv("0.0"));
}

#[test]
fn line_total_percentage_surcharge() {
    let total = compute_line_total(
        &d("2.0"),
        &d("100.0"),
        Some(AdjustmentType::Surcharge),
        true,
        Some(d("20.0")),
    )
    .unwrap();
    // base=200, surcharge=200*20/100=40 → 240
    assert_eq!(val(&total), dv("240.0"));
}

#[test]
fn line_total_rounds_base_to_four_places() {
    let total = compute_line_total(&d("3"), &d("0.33333"), None, false, None).unwrap();
    assert_eq!(val(&total), dv("1.0000"));
}

#[test]
fn line_total_without_adjustment_is_floored_at_zero() {
    let total = compute_line_total(&d("-1"), &d("1"), None, false, None).unwrap();
    assert_eq!(val(&total), dv("0"));
    let positive = compute_line_total(&d("1"), &d("1"), None, false, None).unwrap();
    assert_eq!(val(&positive), dv("1"));
}

// ── status_str / parse_date ─────────────────────────────────────────────────

#[test]
fn status_str_covers_all_invoice_statuses() {
    assert_eq!(status_str(&InvoiceStatus::Draft), "draft");
    assert_eq!(status_str(&InvoiceStatus::Issued), "issued");
    assert_eq!(status_str(&InvoiceStatus::Paid), "paid");
    assert_eq!(status_str(&InvoiceStatus::Cancelled), "cancelled");
    assert_eq!(status_str(&InvoiceStatus::Overdue), "overdue");
}

#[test]
fn parse_date_valid() {
    let day = parse_date("2026-06-15").unwrap();
    assert_eq!(day, Ymd { year: 2026, month: 6, day: 15 });
}

#[test]
fn parse_date_invalid_rejects() {
    assert!(parse_date("not-a-date").is_err());
    assert!(parse_date("2026-13-01").is_err());
}

#[test]
fn parse_date_error_message() {
    match parse_date("2026-02-30") {
        Err(AppError::BadRequest(m)) => {
            assert_eq!(m, "Invalid issue_date '2026-02-30'; expected YYYY-MM-DD")
        }
        _ => panic!("expected a bad request"),
    }
}

// ── validation rules ────────────────────────────────────────────────────────

#[test]
fn invoice_header_checks_in_order() {
    match check_invoice_header("  ", "", "x") {
        Err(AppError::BadRequest(m)) => assert_eq!(m, "invoice_no is required"),
        _ => panic!("expected a bad request"),
    }
    match check_invoice_header("INV-1", " ", "x") {
        Err(AppError::BadRequest(m)) => assert_eq!(m, "counterparty is required"),
        _ => panic!("expected a bad request"),
    }
    let h = check_invoice_header(" INV-1 ", " ACME ", "2026-01-31").unwrap();
    assert_eq!(h.invoice_no, "INV-1");
    assert_eq!(h.counterparty, "ACME");
    assert_eq!(h.issue_date, Ymd { year: 2026, month: 1, day: 31 });
}

#[test]
fn tax_rate_must_be_a_fraction() {
    assert!(check_tax_rate(&d("0.2")).is_ok());
    assert!(check_tax_rate(&d("0")).is_ok());
    assert!(check_tax_rate(&d("1")).is_ok());
    assert!(check_tax_rate(&d("1.01")).is_err());
    assert!(check_tax_rate(&d("-0.1")).is_err());
}

#[test]
fn line_description_is_trimmed() {
    assert_eq!(check_line_description("  Entry fee ").unwrap(), "Entry fee");
    match check_line_description("   ") {
        Err(AppError::BadRequest(m)) => assert_eq!(m, "description is required"),
        _ => panic!("expected a bad request"),
    }
}

#[test]
fn line_adjustment_limits() {
    assert!(validate_line_adjustment(Some(AdjustmentType::Discount), true, Some(&d("30"))).is_ok());
    match validate_line_adjustment(Some(AdjustmentType::Discount), true, Some(&d("30.5"))) {
        Err(AppError::UnprocessableEntity(m)) => {
            assert_eq!(m, "Percentage discount must be in [0, 30]; got 30.5")
        }
        _ => panic!("expected unprocessable"),
    }
    assert!(validate_line_adjustment(Some(AdjustmentType::Discount), false, Some(&d("-1"))).is_err());
    assert!(validate_line_adjustment(Some(AdjustmentType::Surcharge), false, Some(&d("-1"))).is_err());
    assert!(validate_line_adjustment(None, false, Some(&d("-1"))).is_ok());
}

#[test]
fn discount_type_and_value() {
    assert_eq!(parse_discount_type("percentage").unwrap(), DiscountKind::Percentage);
    assert_eq!(parse_discount_type("fixed_amount").unwrap(), DiscountKind::FixedAmount);
    assert!(parse_discount_type("bogus").is_err());
    assert!(check_discount_value(DiscountKind::Percentage, &d("31")).is_err());
    assert!(check_discount_value(DiscountKind::FixedAmount, &d("1000")).is_ok());
    assert!(check_discount_value(DiscountKind::FixedAmount, &d("-1")).is_err());
}

// ── totals ──────────────────────────────────────────────────────────────────

#[test]
fn invoice_totals_with_tax() {
    let lines = vec![d("100"), d("50.5")];
    let t = invoice_totals(&lines, &d("0.1"), None, None).unwrap();
    assert_eq!(val(&t.subtotal), dv("150.5"));
    assert_eq!(val(&t.tax), dv("15.05"));
    assert_eq!(val(&t.discount_amount), dv("0"));
    assert_eq!(val(&t.total), dv("165.55"));
}

#[test]
fn invoice_discount_is_capped_at_500() {
    let lines = vec![d("10000")];
    let t = invoice_totals(&lines, &d("0"), Some("percentage"), Some(&d("30"))).unwrap();
    assert_eq!(val(&t.discount_amount), dv("500"));
    assert_eq!(val(&t.total), dv("9500"));
    let f = invoice_totals(&lines, &d("0"), Some("fixed_amount"), Some(&d("20"))).unwrap();
    assert_eq!(val(&f.discount_amount), dv("20"));
}

#[test]
fn invoice_total_never_negative() {
    let lines = vec![d("10")];
    let t = invoice_totals(&lines, &d("0"), Some("fixed_amount"), Some(&d("400"))).unwrap();
    assert_eq!(val(&t.total), dv("0"));
}

// ── draft rules ─────────────────────────────────────────────────────────────

#[test]
fn only_drafts_change() {
    assert!(ensure_draft(7, InvoiceStatus::Draft, DraftOp::AddLine).is_ok());
    match ensure_draft(7, InvoiceStatus::Issued, DraftOp::AddLine) {
        Err(AppError::Conflict(m)) => assert_eq!(
            m,
            "Invoice 7 is 'issued' — line items can only be added to draft invoices"
        ),
        _ => panic!("expected a conflict"),
    }
    assert!(ensure_draft(7, InvoiceStatus::Paid, DraftOp::ApplyDiscount).is_err());
}

#[test]
fn issue_needs_lines() {
    assert_eq!(issue_transition(3, InvoiceStatus::Draft, &d("12.5")).unwrap(), InvoiceStatus::Issued);
    match issue_transition(3, InvoiceStatus::Draft, &d("0")) {
        Err(AppError::UnprocessableEntity(m)) => {
            assert_eq!(m, "Cannot issue an invoice with no line items")
        }
        _ => panic!("expected unprocessable"),
    }
    assert!(matches!(
        issue_transition(3, InvoiceStatus::Issued, &d("1")),
        Err(AppError::Conflict(_))
    ));
}

#[test]
fn status_filter_parsing() {
    assert_eq!(parse_status_filter("overdue").unwrap(), InvoiceStatus::Overdue);
    let q = InvoiceFilterQuery { status: Some("nope".to_string()), counterparty: None };
    match q.status_filter() {
        Err(AppError::BadRequest(m)) => {
            assert_eq!(m, "Unknown status 'nope'. Valid: draft, issued, paid, cancelled, overdue")
        }
        _ => panic!("expected a bad request"),
    }
    let none = InvoiceFilterQuery { status: None, counterparty: None };
    assert_eq!(none.status_filter().unwrap(), None);
}

// ── Responses and errors ────────────────────────────────────────────────────

#[test]
fn invoice_to_response_renders_amounts_and_status() {
    let r = invoice_to_response(InvoiceRecord {
        id: 7,
        invoice_no: "INV-7".to_string(),
        counterparty: "Acme".to_string(),
        issue_date: Ymd { year: 2026, month: 6, day: 5 },
        tax_rate: d("0.10"),
        subtotal: d("200.0000"),
        tax: d("20.0000"),
        discount_type: Some("percentage".to_string()),
        discount_value: Some(d("5")),
        discount_amount: d("10.0000"),
        total: d("210.0000"),
        status: InvoiceStatus::Issued,
        created_by: 3,
        created_at: "2026-06-05T10:00:00+00:00".to_string(),
        updated_at: "2026-06-05T11:00:00+00:00".to_string(),
    });
    assert_eq!(r.id, 7);
    assert_eq!(r.invoice_no, "INV-7");
    assert_eq!(r.issue_date, "2026-06-05");
    assert_eq!(r.tax_rate, "0.10");
    assert_eq!(r.subtotal, "200.0000");
    assert_eq!(r.discount_value.as_deref(), Some("5"));
    assert_eq!(r.total, "210.0000");
    assert_eq!(r.status, "issued");
    assert_eq!(r.created_by, 3);
    assert_eq!(r.updated_at, "2026-06-05T11:00:00+00:00");
}

#[test]
fn line_to_response_renders_model_and_adjustment() {
    let r = line_to_response(&LineRecord {
        id: 1,
        invoice_id: 7,
        description: "Track rental".to_string(),
        pricing_model: PricingModel::PerDuration,
        unit_price: d("150.5"),
        adjustment_type: Some(AdjustmentType::Surcharge),
        adjustment_is_percentage: true,
        adjustment_value: Some(d("20")),
        line_total: d("361.2000"),
        is_refund: false,
        created_at: "2026-06-05T10:00:00+00:00".to_string(),
    });
    assert_eq!(r.pricing_model, "per_duration");
    assert_eq!(r.unit_price, "150.5");
    assert_eq!(r.adjustment_type.as_deref(), Some("surcharge"));
    assert_eq!(r.adjustment_value.as_deref(), Some("20"));
    assert_eq!(r.line_total, "361.2000");
    assert!(r.adjustment_is_percentage);
    assert!(!r.is_refund);
}

#[test]
fn invoice_insert_error_maps_unique_violation_to_conflict() {
    match invoice_insert_error("INV-1", "UNIQUE constraint failed: invoices.invoice_no") {
        AppError::Conflict(m) => assert_eq!(m, "Invoice number 'INV-1' already exists"),
        other => panic!("unexpected {other:?}"),
    }
    match invoice_insert_error("INV-1", "disk I/O error") {
        AppError::Internal(m) => assert_eq!(m, "disk I/O error"),
        other => panic!("unexpected {other:?}"),
    }
}

#[test]
fn invoice_not_found_names_the_invoice() {
    match invoice_not_found(42) {
        AppError::NotFound(m) => assert_eq!(m, "Invoice 42 not found"),
        other => panic!("unexpected {other:?}"),
    }
}

// ── adding lines and discounts ──────────────────────────────────────────────

fn draft_invoice(status: InvoiceStatus) -> InvoiceRecord {
    InvoiceRecord {
        id: 5,
        invoice_no: "INV-5".to_string(),
        counterparty: "Acme".to_string(),
        issue_date: Ymd { year: 2026, month: 6, day: 5 },
        tax_rate: d("0.1"),
        subtotal: d("100"),
        tax: d("10"),
        discount_type: Some("fixed_amount".to_string()),
        discount_value: Some(d("20")),
        discount_amount: d("20"),
        total: d("90"),
        status,
        created_by: 1,
        created_at: "2026-06-05T10:00:00+00:00".to_string(),
        updated_at: "2026-06-05T10:00:00+00:00".to_string(),
    }
}

#[test]
fn adding_a_line_recomputes_totals_with_stored_discount() {
    let inv = draft_invoice(InvoiceStatus::Draft);
    let (line, t) = plan_add_line(&inv, &vec![d("100")], &d("2"), &d("25"), None, false, None).unwrap();
    assert_eq!(val(&line), dv("50"));
    assert_eq!(val(&t.subtotal), dv("150"));
    assert_eq!(val(&t.tax), dv("15"));
    assert_eq!(val(&t.discount_amount), dv("20"));
    assert_eq!(val(&t.total), dv("145"));
    match plan_add_line(&draft_invoice(InvoiceStatus::Issued), &vec![], &d("1"), &d("1"), None, false, None) {
        Err(AppError::Conflict(m)) => assert_eq!(
            m,
            "Invoice 5 is 'issued' — line items can only be added to draft invoices"
        ),
        _ => panic!("expected a conflict"),
    }
}

#[test]
fn a_discount_replaces_the_stored_one() {
    let inv = draft_invoice(InvoiceStatus::Draft);
    let lines = vec![d("100"), d("50")];
    let t = plan_discount(&inv, &lines, DiscountKind::Percentage, &d("10")).unwrap();
    assert_eq!(val(&t.subtotal), dv("150"));
    assert_eq!(val(&t.tax), dv("15"));
    assert_eq!(val(&t.discount_amount), dv("15"));
    assert_eq!(val(&t.total), dv("150"));
    let again = plan_discount(&inv, &lines, DiscountKind::Percentage, &d("10")).unwrap();
    assert_eq!(val(&again.total), val(&t.total));
    assert!(matches!(
        plan_discount(&draft_invoice(InvoiceStatus::Paid), &lines, DiscountKind::FixedAmount, &d("5")),
        Err(AppError::Conflict(_))
    ));
}
