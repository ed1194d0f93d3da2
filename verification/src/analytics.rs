//! Analytics: the metric catalog, query windows and buckets, funnels, retention rows
//! and CSV export.
use vstd::prelude::*;

use crate::dates::{date_text, naive_date_ymd, parse_ymd, ymd_text, Ymd};
use crate::decimal::{checked_div, dec_text, decimal_quotient, round_dp, round_dp_view, Dec, DecView};
use crate::errors::{
    fails_bad_request, fails_conflict, is_bad_request, is_conflict, is_internal_with, is_not_found,
    AppError, AppResult,
};
use crate::text::{
    blank, chars_of, contains_str, copy_opt, has_char, has_substr, i64_text, int_text, is_blank,
    opt_chars, owned, push_char, push_str, str_eq, trim, trimmed,
};

verus! {

// ── Metric catalog ────────────────────────────────────────────────────────────

/// A new catalog metric.
#[derive(Debug)]
pub struct CreateMetricRequest {
    /// A unique machine-readable name.
    pub name: String,
    /// What the metric measures and how.
    pub definition: String,
    pub unit: Option<String>,
    /// `financial`, `operational`, `results` or `assets`.
    pub category: String,
    pub owner_id: Option<i64>,
}

/// A new definition of a metric; each one is a new version.
#[derive(Debug)]
pub struct UpdateMetricRequest {
    pub definition: String,
    pub unit: Option<String>,
    /// Why the definition changed.
    pub change_reason: String,
}

/// A stored metric; its times are RFC 3339 texts.
#[derive(Debug)]
pub struct MetricRecord {
    pub id: i64,
    pub name: String,
    pub definition: String,
    pub unit: Option<String>,
    pub category: String,
    pub version: i32,
    pub owner_id: Option<i64>,
    pub is_active: bool,
    pub created_at: String,
    pub updated_at: String,
}

/// A stored version of a metric's definition.
#[derive(Debug)]
pub struct MetricVersionRecord {
    pub id: i64,
    pub metric_id: i64,
    pub version: i32,
    pub definition: String,
    pub changed_by: Option<i64>,
    pub change_reason: Option<String>,
    pub created_at: String,
}

/// A metric as clients see it.
#[derive(Debug)]
pub struct MetricResponse {
    pub id: i64,
    pub name: String,
    pub definition: String,
    pub unit: Option<String>,
    pub category: String,
    pub version: i32,
    pub owner_id: Option<i64>,
    pub is_active: bool,
    pub created_at: String,
    pub updated_at: String,
}

/// A version of a metric as clients see it.
#[derive(Debug)]
pub struct MetricVersionResponse {
    pub id: i64,
    pub metric_id: i64,
    pub version: i32,
    pub definition: String,
    pub changed_by: Option<i64>,
    pub change_reason: Option<String>,
    pub created_at: String,
}

/// A metric with its version history.
#[derive(Debug)]
pub struct MetricDetailResponse {
    pub metric: MetricResponse,
    pub history: Vec<MetricVersionResponse>,
}

/// The response for a stored metric.
pub fn metric_to_response(m: &MetricRecord) -> (r: MetricResponse)
    ensures
        r.id == m.id,
        r.name@ == m.name@,
        r.definition@ == m.definition@,
        opt_chars(r.unit) == opt_chars(m.unit),
        r.category@ == m.category@,
        r.version == m.version,
        r.owner_id == m.owner_id,
        r.is_active == m.is_active,
        r.created_at@ == m.created_at@,
        r.updated_at@ == m.updated_at@,
{
    MetricResponse {
        id: m.id,
        name: owned(m.name.as_str()),
        definition: owned(m.definition.as_str()),
        unit: copy_opt(&m.unit),
        category: owned(m.category.as_str()),
        version: m.version,
        owner_id: m.owner_id,
        is_active: m.is_active,
        created_at: owned(m.created_at.as_str()),
        updated_at: owned(m.updated_at.as_str()),
    }
}

/// The response for a stored metric version.
pub fn version_to_response(v: &MetricVersionRecord) -> (r: MetricVersionResponse)
    ensures
        r.id == v.id,
        r.metric_id == v.metric_id,
        r.version == v.version,
        r.definition@ == v.definition@,
        r.changed_by == v.changed_by,
        opt_chars(r.change_reason) == opt_chars(v.change_reason),
        r.created_at@ == v.created_at@,
{
    MetricVersionResponse {
        id: v.id,
        metric_id: v.metric_id,
        version: v.version,
        definition: owned(v.definition.as_str()),
        changed_by: v.changed_by,
        change_reason: copy_opt(&v.change_reason),
        created_at: owned(v.created_at.as_str()),
    }
}

/// The categories a metric may have.
pub open spec fn valid_metric_category(s: Seq<char>) -> bool {
    s == "financial"@ || s == "operational"@ || s == "results"@ || s == "assets"@
}

pub open spec fn unknown_metric_category(s: Seq<char>) -> Seq<char> {
    "Unknown category '"@ + s + "'. Valid: financial, operational, results, assets"@
}

/// Checks a metric category.
pub fn validate_category(s: &str) -> (r: AppResult<()>)
    ensures
        r is Ok <==> valid_metric_category(s@),
        r matches Err(e) ==> is_bad_request(e, unknown_metric_category(s@)),
{
    if str_eq(s, "financial") || str_eq(s, "operational") || str_eq(s, "results") || str_eq(
        s,
        "assets",
    ) {
        Ok(())
    } else {
        let mut m = owned("Unknown category '");
        push_str(&mut m, s);
        push_str(&mut m, "'. Valid: financial, operational, results, assets");
        Err(AppError::BadRequest(m))
    }
}

/// A metric to insert: at version 1 and active.
#[derive(Debug)]
pub struct NewMetric {
    pub name: String,
    pub definition: String,
    pub unit: Option<String>,
    pub category: String,
    pub owner_id: Option<i64>,
    pub version: i32,
    pub is_active: bool,
}

/// A version of a metric's definition to insert.
#[derive(Debug)]
pub struct NewMetricVersion {
    pub metric_id: i64,
    pub version: i32,
    pub definition: String,
    pub changed_by: Option<i64>,
    pub change_reason: Option<String>,
}

/// The first error in a new metric, if any.
pub open spec fn new_metric_error(req: CreateMetricRequest) -> Option<Seq<char>> {
    if blank(req.name@) {
        Some("name is required"@)
    } else if blank(req.definition@) {
        Some("definition is required"@)
    } else if !valid_metric_category(req.category@) {
        Some(unknown_metric_category(req.category@))
    } else {
        None
    }
}

/// The metric to insert for `req`: name and definition trimmed, at version 1, active.
pub fn prepare_metric(req: &CreateMetricRequest) -> (r: AppResult<NewMetric>)
    ensures
        r is Ok <==> new_metric_error(*req) is None,
        r is Err ==> fails_bad_request(r, new_metric_error(*req)->0),
        r matches Ok(m) ==> m.name@ == trimmed(req.name@) && m.definition@ == trimmed(
            req.definition@,
        ) && opt_chars(m.unit) == opt_chars(req.unit) && m.category@ == req.category@ && m.owner_id
            == req.owner_id && m.version == 1 && m.is_active,
{
    if is_blank(req.name.as_str()) {
        return Err(AppError::BadRequest(owned("name is required")));
    }
    if is_blank(req.definition.as_str()) {
        return Err(AppError::BadRequest(owned("definition is required")));
    }
    validate_category(req.category.as_str())?;
    Ok(
        NewMetric {
            name: trim(req.name.as_str()),
            definition: trim(req.definition.as_str()),
            unit: copy_opt(&req.unit),
            category: owned(req.category.as_str()),
            owner_id: req.owner_id,
            version: 1,
            is_active: true,
        },
    )
}

/// The first version of a new metric, recorded by `user_id`.
pub fn initial_version(metric_id: i64, definition: &str, user_id: i64) -> (r: NewMetricVersion)
    ensures
        r.metric_id == metric_id,
        r.version == 1,
        r.definition@ == definition@,
        r.changed_by == Some(user_id),
        opt_chars(r.change_reason) == Some("Initial version"@),
{
    NewMetricVersion {
        metric_id,
        version: 1,
        definition: owned(definition),
        changed_by: Some(user_id),
        change_reason: Some(owned("Initial version")),
    }
}

/// The error for a failed insert of metric `name`: a conflict where the database
/// reports a uniqueness violation, else an internal error with its message.
pub fn metric_insert_error(name: &str, db_message: &str) -> (r: AppError)
    ensures
        has_substr(db_message@, "UNIQUE"@) ==> is_conflict(
            r,
            "Metric '"@ + name@ + "' already exists"@,
        ),
        !has_substr(db_message@, "UNIQUE"@) ==> is_internal_with(r, db_message@),
{
    if contains_str(db_message, "UNIQUE") {
        let mut m = owned("Metric '");
        push_str(&mut m, name);
        push_str(&mut m, "' already exists");
        AppError::Conflict(m)
    } else {
        AppError::Internal(owned(db_message))
    }
}

/// The error for a metric that does not exist.
pub fn metric_not_found(id: i64) -> (r: AppError)
    ensures
        is_not_found(r, "Metric "@ + int_text(id as int) + " not found"@),
{
    let mut m = owned("Metric ");
    push_str(&mut m, &i64_text(id));
    push_str(&mut m, " not found");
    AppError::NotFound(m)
}

/// The first error in a new definition, if any.
pub open spec fn metric_update_error(req: UpdateMetricRequest) -> Option<Seq<char>> {
    if blank(req.definition@) {
        Some("definition is required"@)
    } else if blank(req.change_reason@) {
        Some("change_reason is required"@)
    } else {
        None
    }
}

/// Checks a new definition: it and its reason are not blank.
pub fn check_metric_update(req: &UpdateMetricRequest) -> (r: AppResult<()>)
    ensures
        r is Ok <==> metric_update_error(*req) is None,
        r is Err ==> fails_bad_request(r, metric_update_error(*req)->0),
{
    if is_blank(req.definition.as_str()) {
        return Err(AppError::BadRequest(owned("definition is required")));
    }
    if is_blank(req.change_reason.as_str()) {
        return Err(AppError::BadRequest(owned("change_reason is required")));
    }
    Ok(())
}

/// What an update writes: the metric's new version, definition and unit, and the
/// version record that goes with them.
#[derive(Debug)]
pub struct MetricUpdate {
    pub version: i32,
    pub definition: String,
    pub unit: Option<String>,
    pub snapshot: NewMetricVersion,
}

/// Plans the update of stored metric `metric` by `user_id`: an inactive metric is a
/// conflict; otherwise the version goes up by one, the definition (trimmed) and the
/// unit are replaced, and the new version is recorded with its trimmed reason.
pub fn plan_metric_update(metric: &MetricRecord, req: &UpdateMetricRequest, user_id: i64) -> (r: AppResult<MetricUpdate>)
    requires
        metric_update_error(*req) is None,
        metric.version < i32::MAX,
    ensures
        r is Ok <==> metric.is_active,
        r matches Err(e) ==> is_conflict(e, "Metric "@ + int_text(metric.id as int) + " is inactive"@),
        r matches Ok(u) ==> {
            &&& u.version == metric.version + 1
            &&& u.definition@ == trimmed(req.definition@)
            &&& opt_chars(u.unit) == opt_chars(req.unit)
            &&& u.snapshot.metric_id == metric.id
            &&& u.snapshot.version == u.version
            &&& u.snapshot.definition@ == trimmed(req.definition@)
            &&& u.snapshot.changed_by == Some(user_id)
            &&& opt_chars(u.snapshot.change_reason) == Some(trimmed(req.change_reason@))
        },
{
    if !metric.is_active {
        let mut m = owned("Metric ");
        push_str(&mut m, &i64_text(metric.id));
        push_str(&mut m, " is inactive");
        return Err(AppError::Conflict(m));
    }
    let version = metric.version + 1;
    Ok(
        MetricUpdate {
            version,
            definition: trim(req.definition.as_str()),
            unit: copy_opt(&req.unit),
            snapshot: NewMetricVersion {
                metric_id: metric.id,
                version,
                definition: trim(req.definition.as_str()),
                changed_by: Some(user_id),
                change_reason: Some(trim(req.change_reason.as_str())),
            },
        },
    )
}

} // verus!

verus! {

// ── Query windows and kinds ───────────────────────────────────────────────────

/// Common time-window and drill-down parameters of the analytics endpoints.
#[derive(Debug)]
pub struct AnalyticsQuery {
    /// First day of the window, `YYYY-MM-DD`.
    pub start_date: Option<String>,
    /// Last day of the window, `YYYY-MM-DD`.
    pub end_date: Option<String>,
    /// `day`, `week` or `month` (the default).
    pub bucket: Option<String>,
    pub event_id: Option<i64>,
    pub is_championship_class: Option<bool>,
    pub venue: Option<String>,
    pub asset_category: Option<String>,
}

/// A trend request: which metric, over which window.
#[derive(Debug)]
pub struct TrendQuery {
    pub metric: String,
    pub start_date: Option<String>,
    pub end_date: Option<String>,
    pub bucket: Option<String>,
    pub event_id: Option<i64>,
    pub is_championship_class: Option<bool>,
    pub venue: Option<String>,
    pub asset_category: Option<String>,
}

/// A funnel request.
#[derive(Debug)]
pub struct FunnelQuery {
    pub funnel_type: String,
    pub start_date: Option<String>,
    pub end_date: Option<String>,
    pub event_id: Option<i64>,
    pub is_championship_class: Option<bool>,
    pub venue: Option<String>,
}

/// A retention request.
#[derive(Debug)]
pub struct RetentionQuery {
    pub retention_type: String,
    pub start_date: Option<String>,
    pub end_date: Option<String>,
    /// Follow-up periods to track: 1 to 6, 3 by default.
    pub periods: Option<i32>,
}

/// An export request: the report and every parameter it may need.
#[derive(Debug)]
pub struct ExportQuery {
    /// `trends`, `funnel` or `retention`.
    pub report_type: String,
    pub metric: Option<String>,
    pub funnel_type: Option<String>,
    pub retention_type: Option<String>,
    pub start_date: Option<String>,
    pub end_date: Option<String>,
    pub bucket: Option<String>,
    pub event_id: Option<i64>,
    pub is_championship_class: Option<bool>,
    pub venue: Option<String>,
    pub asset_category: Option<String>,
    pub periods: Option<i32>,
}

pub open spec fn bad_date_param(field: Seq<char>, s: Seq<char>) -> Seq<char> {
    "Invalid "@ + field + " '"@ + s + "'; expected YYYY-MM-DD"@
}

/// Parses the date parameter `field`, `YYYY-MM-DD`.
pub fn parse_date_param(s: &str, field: &str) -> (r: AppResult<Ymd>)
    ensures
        r matches Ok(d) ==> naive_date_ymd(s@) == Some((d.year as int, d.month as int, d.day as int)),
        r matches Err(e) ==> is_bad_request(e, bad_date_param(field@, s@)),
        r is Ok <==> naive_date_ymd(s@) is Some,
{
    match parse_ymd(s) {
        Some(d) => Ok(d),
        None => {
            let mut m = owned("Invalid ");
            push_str(&mut m, field);
            push_str(&mut m, " '");
            push_str(&mut m, s);
            push_str(&mut m, "'; expected YYYY-MM-DD");
            Err(AppError::BadRequest(m))
        },
    }
}

/// The window a query covers.
#[derive(Debug, Clone, Copy)]
pub struct DateWindow {
    pub start: Ymd,
    pub end: Ymd,
}

pub open spec fn ymd_of(d: Ymd) -> (int, int, int) {
    (d.year as int, d.month as int, d.day as int)
}

/// Whether `d` is the window bound given by the parameter `p`, or `default` without one.
pub open spec fn window_bound(p: Option<String>, default: Ymd, d: Ymd) -> bool {
    match p {
        Some(s) => naive_date_ymd(s@) == Some(ymd_of(d)),
        None => d == default,
    }
}

/// Resolves a query window: the start date (else `default_start`) and the end date
/// (else `today`), each parsed when given.
pub fn resolve_window(
    start_date: &Option<String>,
    end_date: &Option<String>,
    default_start: Ymd,
    today: Ymd,
) -> (r: AppResult<DateWindow>)
    ensures
        start_date is Some && naive_date_ymd(start_date->0@) is None ==> fails_bad_request(
            r,
            bad_date_param("start_date"@, start_date->0@),
        ),
        (start_date is None || naive_date_ymd(start_date->0@) is Some) && end_date is Some
            && naive_date_ymd(end_date->0@) is None ==> fails_bad_request(
            r,
            bad_date_param("end_date"@, end_date->0@),
        ),
        r is Ok <==> (start_date is None || naive_date_ymd(start_date->0@) is Some) && (end_date is None
            || naive_date_ymd(end_date->0@) is Some),
        r matches Ok(w) ==> window_bound(*start_date, default_start, w.start) && window_bound(
            *end_date,
            today,
            w.end,
        ),
{
    let start = match start_date {
        Some(s) => parse_date_param(s.as_str(), "start_date")?,
        None => default_start,
    };
    let end = match end_date {
        Some(s) => parse_date_param(s.as_str(), "end_date")?,
        None => today,
    };
    Ok(DateWindow { start, end })
}

/// The `strftime` format of a bucket size: `day`, `week`, or `month` (also for the
/// empty name).
pub fn bucket_fmt(bucket: &str) -> (r: AppResult<&'static str>)
    ensures
        bucket@ == "day"@ ==> (r matches Ok(f) && f@ == "%Y-%m-%d"@),
        bucket@ == "week"@ ==> (r matches Ok(f) && f@ == "%Y-%W"@),
        bucket@ == "month"@ || bucket@.len() == 0 ==> (r matches Ok(f) && f@ == "%Y-%m"@),
        r is Ok <==> bucket@ == "day"@ || bucket@ == "week"@ || bucket@ == "month"@ || bucket@.len()
            == 0,
        r matches Err(e) ==> is_bad_request(
            e,
            "Unknown bucket '"@ + bucket@ + "'. Valid: day, week, month"@,
        ),
{
    proof {
        reveal_strlit("day");
        reveal_strlit("week");
        reveal_strlit("month");
        reveal_strlit("");
        assert("day"@.len() == 3 && "week"@.len() == 4 && "month"@.len() == 5);
        assert(""@ =~= Seq::<char>::empty());
        assert(bucket@.len() == 0 ==> bucket@ =~= ""@);
    }
    if str_eq(bucket, "day") {
        Ok("%Y-%m-%d")
    } else if str_eq(bucket, "week") {
        Ok("%Y-%W")
    } else if str_eq(bucket, "month") || str_eq(bucket, "") {
        proof {
            reveal_strlit("");
        }
        Ok("%Y-%m")
    } else {
        proof {
            reveal_strlit("");
        }
        let mut m = owned("Unknown bucket '");
        push_str(&mut m, bucket);
        push_str(&mut m, "'. Valid: day, week, month");
        Err(AppError::BadRequest(m))
    }
}

/// The metrics a trend can follow.
#[derive(Debug, Clone, Copy, PartialEq, Eq, Structural)]
pub enum TrendMetric {
    InvoiceRevenue,
    InvoiceCount,
    PaymentVolume,
    PaymentCount,
    ResultsSubmitted,
    ActiveAssets,
}

pub open spec fn trend_metric_of(s: Seq<char>) -> Option<TrendMetric> {
    if s == "invoice_revenue"@ {
        Some(TrendMetric::InvoiceRevenue)
    } else if s == "invoice_count"@ {
        Some(TrendMetric::InvoiceCount)
    } else if s == "payment_volume"@ {
        Some(TrendMetric::PaymentVolume)
    } else if s == "payment_count"@ {
        Some(TrendMetric::PaymentCount)
    } else if s == "results_submitted"@ {
        Some(TrendMetric::ResultsSubmitted)
    } else if s == "active_assets"@ {
        Some(TrendMetric::ActiveAssets)
    } else {
        None
    }
}

/// Parses a trend metric name.
pub fn parse_trend_metric(s: &str) -> (r: AppResult<TrendMetric>)
    ensures
        r matches Ok(m) ==> trend_metric_of(s@) == Some(m),
        r is Ok <==> trend_metric_of(s@) is Some,
        r matches Err(e) ==> is_bad_request(
            e,
            "Unknown metric '"@ + s@
                + "'. Valid: invoice_revenue, invoice_count, payment_volume, payment_count, results_submitted, active_assets"@,
        ),
{
    if str_eq(s, "invoice_revenue") {
        Ok(TrendMetric::InvoiceRevenue)
    } else if str_eq(s, "invoice_count") {
        Ok(TrendMetric::InvoiceCount)
    } else if str_eq(s, "payment_volume") {
        Ok(TrendMetric::PaymentVolume)
    } else if str_eq(s, "payment_count") {
        Ok(TrendMetric::PaymentCount)
    } else if str_eq(s, "results_submitted") {
        Ok(TrendMetric::ResultsSubmitted)
    } else if str_eq(s, "active_assets") {
        Ok(TrendMetric::ActiveAssets)
    } else {
        let mut m = owned("Unknown metric '");
        push_str(&mut m, s);
        push_str(
            &mut m,
            "'. Valid: invoice_revenue, invoice_count, payment_volume, payment_count, results_submitted, active_assets",
        );
        Err(AppError::BadRequest(m))
    }
}

/// The funnels that can be computed.
#[derive(Debug, Clone, Copy, PartialEq, Eq, Structural)]
pub enum FunnelType {
    InvoiceLifecycle,
    ResultReview,
    RefundApproval,
}

pub open spec fn funnel_type_of(s: Seq<char>) -> Option<FunnelType> {
    if s == "invoice_lifecycle"@ {
        Some(FunnelType::InvoiceLifecycle)
    } else if s == "result_review"@ {
        Some(FunnelType::ResultReview)
    } else if s == "refund_approval"@ {
        Some(FunnelType::RefundApproval)
    } else {
        None
    }
}

/// Parses a funnel type name.
pub fn parse_funnel_type(s: &str) -> (r: AppResult<FunnelType>)
    ensures
        r matches Ok(f) ==> funnel_type_of(s@) == Some(f),
        r is Ok <==> funnel_type_of(s@) is Some,
        r matches Err(e) ==> is_bad_request(
            e,
            "Unknown funnel_type '"@ + s@
                + "'. Valid: invoice_lifecycle, result_review, refund_approval"@,
        ),
{
    if str_eq(s, "invoice_lifecycle") {
        Ok(FunnelType::InvoiceLifecycle)
    } else if str_eq(s, "result_review") {
        Ok(FunnelType::ResultReview)
    } else if str_eq(s, "refund_approval") {
        Ok(FunnelType::RefundApproval)
    } else {
        let mut m = owned("Unknown funnel_type '");
        push_str(&mut m, s);
        push_str(&mut m, "'. Valid: invoice_lifecycle, result_review, refund_approval");
        Err(AppError::BadRequest(m))
    }
}

/// The stages of a funnel, in order.
pub open spec fn funnel_stage_names(f: FunnelType) -> Seq<Seq<char>> {
    match f {
        FunnelType::InvoiceLifecycle => seq!["draft_created"@, "issued"@, "paid"@],
        FunnelType::ResultReview => seq!["submitted"@, "reviewed"@, "approved"@, "rejected"@],
        FunnelType::RefundApproval => seq!["requested"@, "finance_approved"@, "fully_approved"@],
    }
}

/// The stages of a funnel, in order.
pub fn funnel_stages(f: FunnelType) -> (r: Vec<&'static str>)
    ensures
        r@.map_values(|s: &'static str| s@) == funnel_stage_names(f),
{
    let r = match f {
        FunnelType::InvoiceLifecycle => vec!["draft_created", "issued", "paid"],
        FunnelType::ResultReview => vec!["submitted", "reviewed", "approved", "rejected"],
        FunnelType::RefundApproval => vec!["requested", "finance_approved", "fully_approved"],
    };
    assert(r@.map_values(|s: &'static str| s@) =~= funnel_stage_names(f));
    r
}

/// The retention analyses.
#[derive(Debug, Clone, Copy, PartialEq, Eq, Structural)]
pub enum RetentionType {
    EventParticipation,
    InvoicePayment,
}

pub open spec fn retention_type_of(s: Seq<char>) -> Option<RetentionType> {
    if s == "event_participation"@ {
        Some(RetentionType::EventParticipation)
    } else if s == "invoice_payment"@ {
        Some(RetentionType::InvoicePayment)
    } else {
        None
    }
}

/// Parses a retention type name.
pub fn parse_retention_type(s: &str) -> (r: AppResult<RetentionType>)
    ensures
        r matches Ok(t) ==> retention_type_of(s@) == Some(t),
        r is Ok <==> retention_type_of(s@) is Some,
        r matches Err(e) ==> is_bad_request(
            e,
            "Unknown retention_type '"@ + s@ + "'. Valid: event_participation, invoice_payment"@,
        ),
{
    if str_eq(s, "event_participation") {
        Ok(RetentionType::EventParticipation)
    } else if str_eq(s, "invoice_payment") {
        Ok(RetentionType::InvoicePayment)
    } else {
        let mut m = owned("Unknown retention_type '");
        push_str(&mut m, s);
        push_str(&mut m, "'. Valid: event_participation, invoice_payment");
        Err(AppError::BadRequest(m))
    }
}

/// The number of follow-up periods: 3 by default, held between 1 and 6.
pub fn retention_periods(periods: Option<i32>) -> (r: i32)
    ensures
        1 <= r <= 6,
        r == (match periods {
            Some(p) => if p < 1 {
                1
            } else if p > 6 {
                6
            } else {
                p
            },
            None => 3,
        }),
{
    let p = match periods {
        Some(p) => p,
        None => 3,
    };
    if p < 1 {
        1
    } else if p > 6 {
        6
    } else {
        p
    }
}

} // verus!

verus! {

// ── Funnels and retention ─────────────────────────────────────────────────────

/// One stage of a funnel.
#[derive(Debug)]
pub struct FunnelStep {
    pub stage: String,
    pub count: i64,
    /// The stage's count as a fraction of the first stage's, e.g. `0.7500`.
    pub conversion_rate: String,
    /// How many fewer than the stage before; never negative.
    pub drop_off: i64,
}

/// A computed funnel.
#[derive(Debug)]
pub struct FunnelResponse {
    pub funnel_type: String,
    pub start_date: String,
    pub end_date: String,
    pub steps: Vec<FunnelStep>,
}

/// One follow-up period of a retention cohort.
#[derive(Debug)]
pub struct RetentionPeriod {
    pub period: i32,
    pub count: i64,
    /// `count / cohort_size`, to 4 decimal places.
    pub rate: String,
}

/// One cohort of a retention matrix.
#[derive(Debug)]
pub struct RetentionRow {
    /// The cohort's month, e.g. `2024-01`.
    pub cohort: String,
    pub cohort_size: i64,
    /// Periods 1 to N after the cohort's month.
    pub periods: Vec<RetentionPeriod>,
}

/// A computed retention matrix.
#[derive(Debug)]
pub struct RetentionResponse {
    pub retention_type: String,
    pub start_date: String,
    pub end_date: String,
    pub rows: Vec<RetentionRow>,
}

/// One bucket of a trend.
#[derive(Debug)]
pub struct TrendPoint {
    pub bucket: String,
    /// The value as decimal text.
    pub value: String,
}

/// A computed trend.
#[derive(Debug)]
pub struct TrendResponse {
    pub metric: String,
    pub bucket_size: String,
    pub start_date: String,
    pub end_date: String,
    pub data: Vec<TrendPoint>,
}

/// The integer `n` as a decimal.
pub open spec fn int_dec(n: int) -> DecView {
    DecView { mantissa: n, scale: 0 }
}

/// The text of `count / divisor` rounded to 4 decimal places, as `Decimal` computes it.
pub open spec fn ratio_text(count: int, divisor: int) -> Seq<char> {
    dec_text(round_dp_view(decimal_quotient(int_dec(count), int_dec(divisor))->0, 4))
}

fn ratio(count: i64, divisor: i64) -> (r: String)
    requires
        divisor != 0,
    ensures
        r@ == ratio_text(count as int, divisor as int),
        decimal_quotient(int_dec(count as int), int_dec(divisor as int)) is Some,
{
    let a = Dec::from_i64(count);
    let b = Dec::from_i64(divisor);
    proof {
        assert(crate::decimal::abs(a@.mantissa) < 0x1_0000_0000_0000_0000);
    }
    match checked_div(&a, &b) {
        Some(q) => round_dp(&q, 4).to_text(),
        None => vstd::pervasive::unreached(),
    }
}

/// The count that a funnel's rates are relative to: the first stage's, at least 1.
pub open spec fn funnel_baseline(counts: Seq<i64>) -> int {
    if counts.len() > 0 && counts[0] > 1 {
        counts[0] as int
    } else {
        1
    }
}

/// The count before stage `i`: the baseline for the first.
pub open spec fn funnel_prev(counts: Seq<i64>, i: int) -> int {
    if i == 0 {
        funnel_baseline(counts)
    } else {
        counts[i - 1] as int
    }
}

pub open spec fn raw_counts(raw: Seq<(&'static str, i64)>) -> Seq<i64> {
    raw.map_values(|p: (&'static str, i64)| p.1)
}

/// Whether `step` is stage `i` of a funnel whose stages and counts are `raw`.
pub open spec fn funnel_step_at(raw: Seq<(&'static str, i64)>, i: int, step: FunnelStep) -> bool {
    let counts = raw_counts(raw);
    let drop = funnel_prev(counts, i) - counts[i];
    &&& step.stage@ == raw[i].0@
    &&& step.count == counts[i]
    &&& step.conversion_rate@ == ratio_text(counts[i] as int, funnel_baseline(counts))
    &&& step.drop_off == (if drop > 0 {
        drop
    } else {
        0
    })
}

/// The steps of a funnel from its stages and counts: each with its rate against the
/// first stage's count (at least 1) and its drop-off from the stage before.
pub fn build_funnel_steps(raw: Vec<(&'static str, i64)>) -> (r: Vec<FunnelStep>)
    requires
        forall|i: int|
            0 <= i < raw@.len() ==> i64::MIN <= funnel_prev(raw_counts(raw@), i) - (#[trigger] raw@[i]).1
                <= i64::MAX,
    ensures
        r@.len() == raw@.len(),
        forall|i: int| 0 <= i < raw@.len() ==> funnel_step_at(raw@, i, #[trigger] r@[i]),
{
    let ghost counts = raw_counts(raw@);
    let baseline: i64 = if raw.len() > 0 && raw[0].1 > 1 {
        raw[0].1
    } else {
        1
    };
    let mut prev = baseline;
    let mut out: Vec<FunnelStep> = Vec::new();
    let mut i: usize = 0;
    while i < raw.len()
        invariant
            i <= raw@.len(),
            counts == raw_counts(raw@),
            baseline == funnel_baseline(counts),
            i < raw@.len() ==> prev == funnel_prev(counts, i as int),
            out@.len() == i,
            forall|k: int| 0 <= k < i ==> funnel_step_at(raw@, k, #[trigger] out@[k]),
            forall|k: int|
                0 <= k < raw@.len() ==> i64::MIN <= funnel_prev(counts, k) - (#[trigger] raw@[k]).1
                    <= i64::MAX,
        decreases raw.len() - i,
    {
        let (stage, count) = raw[i];
        assert(counts[i as int] == count);
        let rate = ratio(count, baseline);
        let drop: i64 = prev - count;
        let step = FunnelStep {
            stage: owned(stage),
            count,
            conversion_rate: rate,
            drop_off: if drop > 0 {
                drop
            } else {
                0
            },
        };
        out.push(step);
        prev = count;
        i = i + 1;
    }
    out
}

/// Whether a cohort row is reported: it has a name and members.
pub fn keep_cohort(cohort: &str, cohort_size: i64) -> (r: bool)
    ensures
        r == (cohort@.len() > 0 && cohort_size != 0),
{
    !crate::text::is_empty_str(cohort) && cohort_size != 0
}

/// The retention rate of `count` members of a cohort of `cohort_size`, to 4 decimal
/// places (`0.0000` for a cohort that is not positive).
pub fn retention_rate(count: i64, cohort_size: i64) -> (r: String)
    ensures
        cohort_size > 0 ==> r@ == ratio_text(count as int, cohort_size as int),
        cohort_size <= 0 ==> r@ == "0.0000"@,
{
    if cohort_size > 0 {
        ratio(count, cohort_size)
    } else {
        owned("0.0000")
    }
}

/// The row of cohort `cohort` with `cohort_size` members, whose follow-up counts for
/// periods 1, 2, … are `counts`.
pub fn retention_row(cohort: String, cohort_size: i64, counts: &Vec<i64>) -> (r: RetentionRow)
    requires
        counts@.len() <= i32::MAX,
    ensures
        r.cohort@ == cohort@,
        r.cohort_size == cohort_size,
        r.periods@.len() == counts@.len(),
        forall|k: int|
            0 <= k < counts@.len() ==> (#[trigger] r.periods@[k]).period == k + 1 && r.periods@[k].count
                == counts@[k] && (cohort_size > 0 ==> r.periods@[k].rate@ == ratio_text(
                counts@[k] as int,
                cohort_size as int,
            )) && (cohort_size <= 0 ==> r.periods@[k].rate@ == "0.0000"@),
{
    let mut periods: Vec<RetentionPeriod> = Vec::new();
    let mut k: usize = 0;
    while k < counts.len()
        invariant
            k <= counts@.len() <= i32::MAX,
            periods@.len() == k,
            forall|j: int|
                0 <= j < k ==> (#[trigger] periods@[j]).period == j + 1 && periods@[j].count
                    == counts@[j] && (cohort_size > 0 ==> periods@[j].rate@ == ratio_text(
                    counts@[j] as int,
                    cohort_size as int,
                )) && (cohort_size <= 0 ==> periods@[j].rate@ == "0.0000"@),
        decreases counts.len() - k,
    {
        let p = RetentionPeriod {
            period: (k + 1) as i32,
            count: counts[k],
            rate: retention_rate(counts[k], cohort_size),
        };
        periods.push(p);
        k = k + 1;
    }
    RetentionRow { cohort, cohort_size, periods }
}

} // verus!

verus! {

// ── CSV export ────────────────────────────────────────────────────────────────

/// Whether a CSV field must be quoted: it holds a comma, a quote or a newline.
pub open spec fn needs_quoting(s: Seq<char>) -> bool {
    has_char(s, ',') || has_char(s, '"') || has_char(s, '\n')
}

/// `s` with every quote doubled.
pub open spec fn double_quotes(s: Seq<char>) -> Seq<char>
    decreases s.len(),
{
    if s.len() == 0 {
        Seq::empty()
    } else {
        double_quotes(s.drop_last()) + if s.last() == '"' {
            seq!['"', '"']
        } else {
            seq![s.last()]
        }
    }
}

/// A CSV field: quoted, with its quotes doubled, when it needs quoting; else as is.
pub open spec fn csv_field(s: Seq<char>) -> Seq<char> {
    if needs_quoting(s) {
        seq!['"'] + double_quotes(s) + seq!['"']
    } else {
        s
    }
}

/// Escapes a CSV field.
pub fn escape_csv(s: &str) -> (r: String)
    ensures
        r@ == csv_field(s@),
{
    if crate::text::contains_char(s, ',') || crate::text::contains_char(s, '"')
        || crate::text::contains_char(s, '\n') {
        let v = chars_of(s);
        let mut out = String::new();
        push_char(&mut out, '"');
        let mut i: usize = 0;
        while i < v.len()
            invariant
                i <= v@.len(),
                v@ == s@,
                out@ == seq!['"'] + double_quotes(v@.take(i as int)),
            decreases v.len() - i,
        {
            assert(v@.take(i + 1).drop_last() =~= v@.take(i as int));
            let c = v[i];
            if c == '"' {
                push_char(&mut out, '"');
                push_char(&mut out, '"');
            } else {
                push_char(&mut out, c);
            }
            proof {
                let t = v@.take(i + 1);
                assert(t.last() == c);
                assert(out@ =~= seq!['"'] + double_quotes(t));
            }
            i = i + 1;
        }
        push_char(&mut out, '"');
        assert(v@.take(v@.len() as int) =~= v@);
        assert(out@ =~= csv_field(s@));
        out
    } else {
        owned(s)
    }
}

pub open spec fn point_views(v: Seq<TrendPoint>) -> Seq<(Seq<char>, Seq<char>)> {
    v.map_values(|p: TrendPoint| (p.bucket@, p.value@))
}

/// The data lines of a trend export.
pub open spec fn trend_lines(metric: Seq<char>, pts: Seq<(Seq<char>, Seq<char>)>) -> Seq<char>
    decreases pts.len(),
{
    if pts.len() == 0 {
        Seq::empty()
    } else {
        trend_lines(metric, pts.drop_last()) + csv_field(pts.last().0) + ","@ + csv_field(metric)
            + ","@ + csv_field(pts.last().1) + "\n"@
    }
}

/// A trend as CSV: a header, then one line per bucket.
pub fn trends_csv(metric: &str, data: &Vec<TrendPoint>) -> (r: String)
    ensures
        r@ == "bucket,metric,value\n"@ + trend_lines(metric@, point_views(data@)),
{
    let mut out = owned("bucket,metric,value\n");
    let ghost head = out@;
    let mut i: usize = 0;
    while i < data.len()
        invariant
            i <= data@.len(),
            out@ == head + trend_lines(metric@, point_views(data@.take(i as int))),
        decreases data.len() - i,
    {
        assert(point_views(data@.take(i + 1)).drop_last() =~= point_views(data@.take(i as int)));
        push_str(&mut out, &escape_csv(data[i].bucket.as_str()));
        push_str(&mut out, ",");
        push_str(&mut out, &escape_csv(metric));
        push_str(&mut out, ",");
        push_str(&mut out, &escape_csv(data[i].value.as_str()));
        push_str(&mut out, "\n");
        proof {
            let pv = point_views(data@.take(i + 1));
            assert(pv.last() == (data@[i as int].bucket@, data@[i as int].value@));
            assert(out@ =~= head + trend_lines(metric@, pv));
        }
        i = i + 1;
    }
    assert(data@.take(data@.len() as int) =~= data@);
    out
}

pub open spec fn step_views(v: Seq<FunnelStep>) -> Seq<(Seq<char>, i64, Seq<char>, i64)> {
    v.map_values(|s: FunnelStep| (s.stage@, s.count, s.conversion_rate@, s.drop_off))
}

/// The data lines of a funnel export.
pub open spec fn funnel_lines(steps: Seq<(Seq<char>, i64, Seq<char>, i64)>) -> Seq<char>
    decreases steps.len(),
{
    if steps.len() == 0 {
        Seq::empty()
    } else {
        let s = steps.last();
        funnel_lines(steps.drop_last()) + csv_field(s.0) + ","@ + int_text(s.1 as int) + ","@
            + csv_field(s.2) + ","@ + int_text(s.3 as int) + "\n"@
    }
}

/// A funnel as CSV: a header, then one line per stage.
pub fn funnel_csv(steps: &Vec<FunnelStep>) -> (r: String)
    ensures
        r@ == "stage,count,conversion_rate,drop_off\n"@ + funnel_lines(step_views(steps@)),
{
    let mut out = owned("stage,count,conversion_rate,drop_off\n");
    let ghost head = out@;
    let mut i: usize = 0;
    while i < steps.len()
        invariant
            i <= steps@.len(),
            out@ == head + funnel_lines(step_views(steps@.take(i as int))),
        decreases steps.len() - i,
    {
        assert(step_views(steps@.take(i + 1)).drop_last() =~= step_views(steps@.take(i as int)));
        let st = &steps[i];
        push_str(&mut out, &escape_csv(st.stage.as_str()));
        push_str(&mut out, ",");
        push_str(&mut out, &i64_text(st.count));
        push_str(&mut out, ",");
        push_str(&mut out, &escape_csv(st.conversion_rate.as_str()));
        push_str(&mut out, ",");
        push_str(&mut out, &i64_text(st.drop_off));
        push_str(&mut out, "\n");
        proof {
            let sv = step_views(steps@.take(i + 1));
            assert(out@ =~= head + funnel_lines(sv));
        }
        i = i + 1;
    }
    assert(steps@.take(steps@.len() as int) =~= steps@);
    out
}

/// The largest number of periods of any row (0 for none).
pub open spec fn max_periods(rows: Seq<RetentionRow>) -> nat
    decreases rows.len(),
{
    if rows.len() == 0 {
        0
    } else {
        let m = max_periods(rows.drop_last());
        let n = rows.last().periods@.len();
        if n > m {
            n
        } else {
            m
        }
    }
}

/// The header columns of periods 1 to `n`.
pub open spec fn period_columns(n: nat) -> Seq<char>
    decreases n,
{
    if n == 0 {
        Seq::empty()
    } else {
        period_columns((n - 1) as nat) + ",period_"@ + int_text(n as int) + "_count,period_"@
            + int_text(n as int) + "_rate"@
    }
}

/// The period cells of a row.
pub open spec fn period_cells(ps: Seq<RetentionPeriod>) -> Seq<char>
    decreases ps.len(),
{
    if ps.len() == 0 {
        Seq::empty()
    } else {
        period_cells(ps.drop_last()) + ","@ + int_text(ps.last().count as int) + ","@ + csv_field(
            ps.last().rate@,
        )
    }
}

/// The data lines of a retention export.
pub open spec fn retention_lines(rows: Seq<RetentionRow>) -> Seq<char>
    decreases rows.len(),
{
    if rows.len() == 0 {
        Seq::empty()
    } else {
        let r = rows.last();
        retention_lines(rows.drop_last()) + csv_field(r.cohort@) + ","@ + int_text(
            r.cohort_size as int,
        ) + period_cells(r.periods@) + "\n"@
    }
}

fn period_line(row: &RetentionRow) -> (r: String)
    ensures
        r@ == csv_field(row.cohort@) + ","@ + int_text(row.cohort_size as int) + period_cells(
            row.periods@,
        ) + "\n"@,
{
    let mut line = escape_csv(row.cohort.as_str());
    push_str(&mut line, ",");
    push_str(&mut line, &i64_text(row.cohort_size));
    let ghost head = line@;
    let mut k: usize = 0;
    while k < row.periods.len()
        invariant
            k <= row.periods@.len(),
            line@ == head + period_cells(row.periods@.take(k as int)),
        decreases row.periods.len() - k,
    {
        assert(row.periods@.take(k + 1).drop_last() =~= row.periods@.take(k as int));
        let p = &row.periods[k];
        push_str(&mut line, ",");
        push_str(&mut line, &i64_text(p.count));
        push_str(&mut line, ",");
        push_str(&mut line, &escape_csv(p.rate.as_str()));
        assert(line@ =~= head + period_cells(row.periods@.take(k + 1)));
        k = k + 1;
    }
    assert(row.periods@.take(row.periods@.len() as int) =~= row.periods@);
    push_str(&mut line, "\n");
    line
}

/// A retention matrix as CSV: a header with the count and rate columns of as many
/// periods as the longest row has, then one line per cohort.
pub fn retention_csv(rows: &Vec<RetentionRow>) -> (r: String)
    ensures
        r@ == "cohort,cohort_size"@ + period_columns(max_periods(rows@)) + "\n"@ + retention_lines(
            rows@,
        ),
{
    let mut maxp: usize = 0;
    let mut i: usize = 0;
    while i < rows.len()
        invariant
            i <= rows@.len(),
            maxp == max_periods(rows@.take(i as int)),
        decreases rows.len() - i,
    {
        assert(rows@.take(i + 1).drop_last() =~= rows@.take(i as int));
        if rows[i].periods.len() > maxp {
            maxp = rows[i].periods.len();
        }
        i = i + 1;
    }
    assert(rows@.take(rows@.len() as int) =~= rows@);
    let mut out = owned("cohort,cohort_size");
    let ghost h0 = out@;
    let mut q: usize = 0;
    while q < maxp
        invariant
            q <= maxp,
            maxp == max_periods(rows@),
            out@ == h0 + period_columns(q as nat),
        decreases maxp - q,
    {
        let p: usize = q + 1;
        push_str(&mut out, ",period_");
        push_str(&mut out, &crate::text::u64_text(p as u64));
        push_str(&mut out, "_count,period_");
        push_str(&mut out, &crate::text::u64_text(p as u64));
        push_str(&mut out, "_rate");
        assert(out@ =~= h0 + period_columns(p as nat));
        q = p;
    }
    push_str(&mut out, "\n");
    let ghost head = out@;
    let mut j: usize = 0;
    while j < rows.len()
        invariant
            j <= rows@.len(),
            out@ == head + retention_lines(rows@.take(j as int)),
        decreases rows.len() - j,
    {
        assert(rows@.take(j + 1).drop_last() =~= rows@.take(j as int));
        push_str(&mut out, &period_line(&rows[j]));
        assert(out@ =~= head + retention_lines(rows@.take(j + 1)));
        j = j + 1;
    }
    assert(rows@.take(rows@.len() as int) =~= rows@);
    out
}

} // verus!

verus! {

// ── Plans of the analytics requests ───────────────────────────────────────────

/// The first day of a trend or funnel window when none is given.
pub open spec fn trend_default_start() -> Ymd {
    Ymd { year: 2020, month: 1, day: 1 }
}

/// The first day of a retention window when none is given.
pub open spec fn retention_default_start() -> Ymd {
    Ymd { year: 2023, month: 1, day: 1 }
}

/// What a trend request asks for once checked.
#[derive(Debug)]
pub struct TrendPlan {
    pub window: DateWindow,
    /// The bucket size as named (`month` by default).
    pub bucket: String,
    /// Its `strftime` format.
    pub format: &'static str,
    pub metric: TrendMetric,
}

/// The bucket a trend asks for: the one named, else `month`.
pub open spec fn requested_bucket(b: Option<String>) -> Seq<char> {
    match b {
        Some(s) => s@,
        None => "month"@,
    }
}

pub open spec fn valid_bucket(b: Seq<char>) -> bool {
    b == "day"@ || b == "week"@ || b == "month"@ || b.len() == 0
}

/// Checks a trend request on day `today`: the window, then the bucket, then the metric.
pub fn plan_trend(q: &TrendQuery, today: Ymd) -> (r: AppResult<TrendPlan>)
    ensures
        r is Ok <==> (q.start_date is None || naive_date_ymd(q.start_date->0@) is Some) && (
        q.end_date is None || naive_date_ymd(q.end_date->0@) is Some) && valid_bucket(
            requested_bucket(q.bucket),
        ) && trend_metric_of(q.metric@) is Some,
        r matches Ok(p) ==> window_bound(q.start_date, trend_default_start(), p.window.start)
            && window_bound(q.end_date, today, p.window.end) && p.bucket@ == requested_bucket(
            q.bucket,
        ) && trend_metric_of(q.metric@) == Some(p.metric),
        (q.start_date is None || naive_date_ymd(q.start_date->0@) is Some) && (q.end_date is None
            || naive_date_ymd(q.end_date->0@) is Some) && !valid_bucket(requested_bucket(q.bucket))
            ==> fails_bad_request(
            r,
            "Unknown bucket '"@ + requested_bucket(q.bucket) + "'. Valid: day, week, month"@,
        ),
        (q.start_date is None || naive_date_ymd(q.start_date->0@) is Some) && (q.end_date is None
            || naive_date_ymd(q.end_date->0@) is Some) && valid_bucket(requested_bucket(q.bucket))
            && trend_metric_of(q.metric@) is None ==> fails_bad_request(
            r,
            "Unknown metric '"@ + q.metric@
                + "'. Valid: invoice_revenue, invoice_count, payment_volume, payment_count, results_submitted, active_assets"@,
        ),
        r is Err ==> (r matches Err(e) && e is BadRequest),
{
    let window = resolve_window(
        &q.start_date,
        &q.end_date,
        Ymd { year: 2020, month: 1, day: 1 },
        today,
    )?;
    let bucket = match &q.bucket {
        Some(b) => owned(b.as_str()),
        None => owned("month"),
    };
    let format = bucket_fmt(bucket.as_str())?;
    let metric = parse_trend_metric(q.metric.as_str())?;
    Ok(TrendPlan { window, bucket, format, metric })
}

/// Checks a funnel request on day `today`: the window, then the funnel type.
pub fn plan_funnel(q: &FunnelQuery, today: Ymd) -> (r: AppResult<(DateWindow, FunnelType)>)
    ensures
        r is Ok <==> (q.start_date is None || naive_date_ymd(q.start_date->0@) is Some) && (
        q.end_date is None || naive_date_ymd(q.end_date->0@) is Some) && funnel_type_of(
            q.funnel_type@,
        ) is Some,
        r matches Ok(p) ==> window_bound(q.start_date, trend_default_start(), p.0.start)
            && window_bound(q.end_date, today, p.0.end) && funnel_type_of(q.funnel_type@) == Some(p.1),
        (q.start_date is None || naive_date_ymd(q.start_date->0@) is Some) && (q.end_date is None
            || naive_date_ymd(q.end_date->0@) is Some) && funnel_type_of(q.funnel_type@) is None
            ==> fails_bad_request(
            r,
            "Unknown funnel_type '"@ + q.funnel_type@
                + "'. Valid: invoice_lifecycle, result_review, refund_approval"@,
        ),
        r is Err ==> (r matches Err(e) && e is BadRequest),
{
    let window = resolve_window(
        &q.start_date,
        &q.end_date,
        Ymd { year: 2020, month: 1, day: 1 },
        today,
    )?;
    let f = parse_funnel_type(q.funnel_type.as_str())?;
    Ok((window, f))
}

/// Checks a retention request on day `today`: the window, then the type; the periods
/// are clamped.
pub fn plan_retention(q: &RetentionQuery, today: Ymd) -> (r: AppResult<(DateWindow, i32, RetentionType)>)
    ensures
        r is Ok <==> (q.start_date is None || naive_date_ymd(q.start_date->0@) is Some) && (
        q.end_date is None || naive_date_ymd(q.end_date->0@) is Some) && retention_type_of(
            q.retention_type@,
        ) is Some,
        r matches Ok(p) ==> window_bound(q.start_date, retention_default_start(), p.0.start)
            && window_bound(q.end_date, today, p.0.end) && 1 <= p.1 <= 6 && retention_type_of(
            q.retention_type@,
        ) == Some(p.2),
        (q.start_date is None || naive_date_ymd(q.start_date->0@) is Some) && (q.end_date is None
            || naive_date_ymd(q.end_date->0@) is Some) && retention_type_of(q.retention_type@) is None
            ==> fails_bad_request(
            r,
            "Unknown retention_type '"@ + q.retention_type@
                + "'. Valid: event_participation, invoice_payment"@,
        ),
        r is Err ==> (r matches Err(e) && e is BadRequest),
{
    let window = resolve_window(
        &q.start_date,
        &q.end_date,
        Ymd { year: 2023, month: 1, day: 1 },
        today,
    )?;
    let periods = retention_periods(q.periods);
    let t = parse_retention_type(q.retention_type.as_str())?;
    Ok((window, periods, t))
}

/// The response of a computed trend.
pub fn trend_response(metric: &str, plan: &TrendPlan, data: Vec<TrendPoint>) -> (r: TrendResponse)
    ensures
        r.metric@ == metric@,
        r.bucket_size@ == plan.bucket@,
        r.start_date@ == date_text(plan.window.start),
        r.end_date@ == date_text(plan.window.end),
        point_views(r.data@) == point_views(data@),
{
    TrendResponse {
        metric: owned(metric),
        bucket_size: owned(plan.bucket.as_str()),
        start_date: ymd_text(&plan.window.start),
        end_date: ymd_text(&plan.window.end),
        data,
    }
}

/// The report an export asks for, with the request it stands for.
#[derive(Debug)]
pub enum ExportPlan {
    Trends(TrendQuery),
    Funnel(FunnelQuery),
    Retention(RetentionQuery),
}

fn or_default(v: Option<String>, d: &str) -> (r: String)
    ensures
        r@ == (match v {
            Some(s) => s@,
            None => d@,
        }),
{
    match v {
        Some(s) => s,
        None => owned(d),
    }
}

/// Turns an export request into the request of its report: a trend of
/// `invoice_revenue`, a funnel of `invoice_lifecycle` or a retention of
/// `invoice_payment` unless another is named.
pub fn plan_export(q: ExportQuery) -> (r: AppResult<ExportPlan>)
    ensures
        q.report_type@ == "trends"@ ==> (r matches Ok(ExportPlan::Trends(t)) && t.metric@ == (match q.metric {
            Some(m) => m@,
            None => "invoice_revenue"@,
        }) && opt_chars(t.start_date) == opt_chars(q.start_date) && opt_chars(t.end_date)
            == opt_chars(q.end_date) && opt_chars(t.bucket) == opt_chars(q.bucket) && t.event_id
            == q.event_id && t.is_championship_class == q.is_championship_class && opt_chars(t.venue)
            == opt_chars(q.venue) && opt_chars(t.asset_category) == opt_chars(q.asset_category)),
        q.report_type@ == "funnel"@ ==> (r matches Ok(ExportPlan::Funnel(f)) && f.funnel_type@ == (
        match q.funnel_type {
            Some(m) => m@,
            None => "invoice_lifecycle"@,
        }) && opt_chars(f.start_date) == opt_chars(q.start_date) && opt_chars(f.end_date)
            == opt_chars(q.end_date) && f.event_id == q.event_id && f.is_championship_class
            == q.is_championship_class && opt_chars(f.venue) == opt_chars(q.venue)),
        q.report_type@ == "retention"@ ==> (r matches Ok(ExportPlan::Retention(t))
            && t.retention_type@ == (match q.retention_type {
            Some(m) => m@,
            None => "invoice_payment"@,
        }) && opt_chars(t.start_date) == opt_chars(q.start_date) && opt_chars(t.end_date)
            == opt_chars(q.end_date) && t.periods == q.periods),
        r is Err <==> !(q.report_type@ == "trends"@ || q.report_type@ == "funnel"@
            || q.report_type@ == "retention"@),
        r matches Err(e) ==> is_bad_request(
            e,
            "Unknown report_type '"@ + q.report_type@ + "'. Valid: trends, funnel, retention"@,
        ),
{
    proof {
        reveal_strlit("trends");
        reveal_strlit("funnel");
        reveal_strlit("retention");
        assert("trends"@[0] != "funnel"@[0]);
        assert("trends"@.len() != "retention"@.len());
        assert("funnel"@.len() != "retention"@.len());
    }
    if str_eq(q.report_type.as_str(), "trends") {
        Ok(
            ExportPlan::Trends(
                TrendQuery {
                    metric: or_default(q.metric, "invoice_revenue"),
                    start_date: q.start_date,
                    end_date: q.end_date,
                    bucket: q.bucket,
                    event_id: q.event_id,
                    is_championship_class: q.is_championship_class,
                    venue: q.venue,
                    asset_category: q.asset_category,
                },
            ),
        )
    } else if str_eq(q.report_type.as_str(), "funnel") {
        Ok(
            ExportPlan::Funnel(
                FunnelQuery {
                    funnel_type: or_default(q.funnel_type, "invoice_lifecycle"),
                    start_date: q.start_date,
                    end_date: q.end_date,
                    event_id: q.event_id,
                    is_championship_class: q.is_championship_class,
                    venue: q.venue,
                },
            ),
        )
    } else if str_eq(q.report_type.as_str(), "retention") {
        Ok(
            ExportPlan::Retention(
                RetentionQuery {
                    retention_type: or_default(q.retention_type, "invoice_payment"),
                    start_date: q.start_date,
                    end_date: q.end_date,
                    periods: q.periods,
                },
            ),
        )
    } else {
        let mut m = owned("Unknown report_type '");
        push_str(&mut m, q.report_type.as_str());
        push_str(&mut m, "'. Valid: trends, funnel, retention");
        Err(AppError::BadRequest(m))
    }
}

/// A CSV file to download.
#[derive(Debug)]
pub struct CsvDownload {
    pub filename: &'static str,
    pub body: String,
}

impl CsvDownload {
    /// The `Content-Disposition` header: an attachment with the file's name.
    pub fn content_disposition(&self) -> (r: String)
        ensures
            r@ == "attachment; filename=\""@ + self.filename@ + "\""@,
    {
        let mut h = owned("attachment; filename=\"");
        push_str(&mut h, self.filename);
        push_str(&mut h, "\"");
        h
    }
}

} // verus!

verus! {

// ── Queries with drill-down filters ───────────────────────────────────────────

/// A value bound to a `?` of a query.
#[derive(Debug)]
pub enum SqlParam {
    Int(i64),
    Text(String),
}

pub enum ParamView {
    Int(int),
    Text(Seq<char>),
}

pub open spec fn param_view(p: SqlParam) -> ParamView {
    match p {
        SqlParam::Int(n) => ParamView::Int(n as int),
        SqlParam::Text(s) => ParamView::Text(s@),
    }
}

pub open spec fn param_views(v: Seq<SqlParam>) -> Seq<ParamView> {
    v.map_values(|p: SqlParam| param_view(p))
}

/// A query with its parameters, in the order of its `?`s.
#[derive(Debug)]
pub struct SqlQuery {
    pub sql: String,
    pub params: Vec<SqlParam>,
}

/// The conditions that the event drill-down filters add, in order.
pub open spec fn event_filter_clauses(
    event_id: Option<i64>,
    champ: Option<bool>,
    venue: Option<String>,
) -> Seq<Seq<char>> {
    (if event_id is Some {
        seq!["r.event_id = ?"@]
    } else {
        Seq::empty()
    }) + (if champ is Some {
        seq!["e.is_championship_class = ?"@]
    } else {
        Seq::empty()
    }) + (if venue is Some {
        seq!["e.venue_identifier = ?"@]
    } else {
        Seq::empty()
    })
}

/// The parameters of the event drill-down filters, in order (a flag as 1 or 0).
pub open spec fn event_filter_params(
    event_id: Option<i64>,
    champ: Option<bool>,
    venue: Option<String>,
) -> Seq<ParamView> {
    (if event_id is Some {
        seq![ParamView::Int(event_id->0 as int)]
    } else {
        Seq::empty()
    }) + (if champ is Some {
        seq![ParamView::Int(if champ->0 { 1int } else { 0int })]
    } else {
        Seq::empty()
    }) + (if venue is Some {
        seq![ParamView::Text(venue->0@)]
    } else {
        Seq::empty()
    })
}

fn push_event_filters(
    clauses: &mut Vec<String>,
    params: &mut Vec<SqlParam>,
    event_id: Option<i64>,
    champ: Option<bool>,
    venue: &Option<String>,
)
    ensures
        crate::text::string_views(final(clauses)@) == crate::text::string_views(old(clauses)@)
            + event_filter_clauses(event_id, champ, *venue),
        param_views(final(params)@) == param_views(old(params)@) + event_filter_params(
            event_id,
            champ,
            *venue,
        ),
{
    let ghost c0 = crate::text::string_views(clauses@);
    let ghost p0 = param_views(params@);
    if let Some(eid) = event_id {
        clauses.push(owned("r.event_id = ?"));
        params.push(SqlParam::Int(eid));
    }
    let ghost c1 = crate::text::string_views(clauses@);
    let ghost p1 = param_views(params@);
    assert(c1 =~= c0 + (if event_id is Some {
        seq!["r.event_id = ?"@]
    } else {
        Seq::<Seq<char>>::empty()
    }));
    assert(p1 =~= p0 + (if event_id is Some {
        seq![ParamView::Int(event_id->0 as int)]
    } else {
        Seq::<ParamView>::empty()
    }));
    if let Some(c) = champ {
        clauses.push(owned("e.is_championship_class = ?"));
        params.push(SqlParam::Int(if c { 1 } else { 0 }));
    }
    let ghost c2 = crate::text::string_views(clauses@);
    let ghost p2 = param_views(params@);
    assert(c2 =~= c1 + (if champ is Some {
        seq!["e.is_championship_class = ?"@]
    } else {
        Seq::<Seq<char>>::empty()
    }));
    assert(p2 =~= p1 + (if champ is Some {
        seq![ParamView::Int(if champ->0 { 1int } else { 0int })]
    } else {
        Seq::<ParamView>::empty()
    }));
    if let Some(v) = venue {
        clauses.push(owned("e.venue_identifier = ?"));
        params.push(SqlParam::Text(owned(v.as_str())));
    }
    assert(crate::text::string_views(clauses@) =~= c2 + (if venue is Some {
        seq!["e.venue_identifier = ?"@]
    } else {
        Seq::<Seq<char>>::empty()
    }));
    assert(param_views(params@) =~= p2 + (if venue is Some {
        seq![ParamView::Text(venue->0@)]
    } else {
        Seq::<ParamView>::empty()
    }));
    assert(crate::text::string_views(clauses@) =~= c0 + event_filter_clauses(event_id, champ, *venue));
    assert(param_views(params@) =~= p0 + event_filter_params(event_id, champ, *venue));
}

} // verus!

verus! {

/// The query of the `results_submitted` trend: results per bucket of `format` in the
/// window, narrowed by the event filters.
pub fn results_trend_query(
    format: &str,
    window: &DateWindow,
    event_id: Option<i64>,
    champ: Option<bool>,
    venue: &Option<String>,
) -> (r: SqlQuery)
    ensures
        r.sql@ == "SELECT strftime(?, r.created_at) AS bucket, CAST(COUNT(*) AS REAL) AS value FROM results r JOIN events e ON r.event_id = e.id WHERE "@
            + join_spec_and(
            seq!["date(r.created_at) >= ?"@, "date(r.created_at) <= ?"@] + event_filter_clauses(
                event_id,
                champ,
                *venue,
            ),
        ) + " GROUP BY bucket ORDER BY bucket"@,
        param_views(r.params@) == seq![
            ParamView::Text(format@),
            ParamView::Text(date_text(window.start)),
            ParamView::Text(date_text(window.end)),
        ] + event_filter_params(event_id, champ, *venue),
{
    let mut clauses: Vec<String> = vec![owned("date(r.created_at) >= ?"), owned("date(r.created_at) <= ?")];
    let mut params: Vec<SqlParam> = vec![
        SqlParam::Text(owned(format)),
        SqlParam::Text(ymd_text(&window.start)),
        SqlParam::Text(ymd_text(&window.end)),
    ];
    assert(crate::text::string_views(clauses@) =~= seq![
        "date(r.created_at) >= ?"@,
        "date(r.created_at) <= ?"@,
    ]);
    assert(param_views(params@) =~= seq![
        ParamView::Text(format@),
        ParamView::Text(date_text(window.start)),
        ParamView::Text(date_text(window.end)),
    ]);
    push_event_filters(&mut clauses, &mut params, event_id, champ, venue);
    let mut sql = owned(
        "SELECT strftime(?, r.created_at) AS bucket, CAST(COUNT(*) AS REAL) AS value FROM results r JOIN events e ON r.event_id = e.id WHERE ",
    );
    push_str(&mut sql, &crate::text::join_strings(&clauses, " AND "));
    push_str(&mut sql, " GROUP BY bucket ORDER BY bucket");
    SqlQuery { sql, params }
}

/// Conditions joined by ` AND `.
pub open spec fn join_spec_and(parts: Seq<Seq<char>>) -> Seq<char> {
    crate::text::join_spec(parts, " AND "@)
}

/// The query of the `active_assets` trend: assets not retired created per bucket of
/// `format` in the window, of one category when asked.
pub fn active_assets_query(format: &str, window: &DateWindow, category: &Option<String>) -> (r: SqlQuery)
    ensures
        r.sql@ == "SELECT strftime(?, created_at) AS bucket, CAST(COUNT(*) AS REAL) AS value FROM assets WHERE "@
            + join_spec_and(
            seq![
                "status != 'retired'"@,
                "date(created_at) >= ?"@,
                "date(created_at) <= ?"@,
            ] + (if category is Some {
                seq!["category = ?"@]
            } else {
                Seq::empty()
            }),
        ) + " GROUP BY bucket ORDER BY bucket"@,
        param_views(r.params@) == seq![
            ParamView::Text(format@),
            ParamView::Text(date_text(window.start)),
            ParamView::Text(date_text(window.end)),
        ] + (if category is Some {
            seq![ParamView::Text(category->0@)]
        } else {
            Seq::empty()
        }),
{
    let mut clauses: Vec<String> = vec![
        owned("status != 'retired'"),
        owned("date(created_at) >= ?"),
        owned("date(created_at) <= ?"),
    ];
    let mut params: Vec<SqlParam> = vec![
        SqlParam::Text(owned(format)),
        SqlParam::Text(ymd_text(&window.start)),
        SqlParam::Text(ymd_text(&window.end)),
    ];
    let ghost c0 = crate::text::string_views(clauses@);
    let ghost p0 = param_views(params@);
    assert(c0 =~= seq!["status != 'retired'"@, "date(created_at) >= ?"@, "date(created_at) <= ?"@]);
    if let Some(c) = category {
        clauses.push(owned("category = ?"));
        params.push(SqlParam::Text(owned(c.as_str())));
    }
    assert(crate::text::string_views(clauses@) =~= c0 + (if category is Some {
        seq!["category = ?"@]
    } else {
        Seq::<Seq<char>>::empty()
    }));
    assert(param_views(params@) =~= p0 + (if category is Some {
        seq![ParamView::Text(category->0@)]
    } else {
        Seq::<ParamView>::empty()
    }));
    let mut sql = owned(
        "SELECT strftime(?, created_at) AS bucket, CAST(COUNT(*) AS REAL) AS value FROM assets WHERE ",
    );
    push_str(&mut sql, &crate::text::join_strings(&clauses, " AND "));
    push_str(&mut sql, " GROUP BY bucket ORDER BY bucket");
    SqlQuery { sql, params }
}

/// The join that the event filters need: the events table when any filter is set.
pub open spec fn review_join(event_id: Option<i64>, champ: Option<bool>, venue: Option<String>) -> Seq<char> {
    if event_id is Some || champ is Some || venue is Some {
        " JOIN events e ON r.event_id = e.id"@
    } else {
        Seq::empty()
    }
}

/// The conditions that the event filters add to the review funnel's queries.
pub open spec fn review_extra_where(event_id: Option<i64>, champ: Option<bool>, venue: Option<String>) -> Seq<char> {
    (if event_id is Some {
        " AND r.event_id = ?"@
    } else {
        Seq::empty()
    }) + (if champ is Some {
        " AND e.is_championship_class = ?"@
    } else {
        Seq::empty()
    }) + (if venue is Some {
        " AND e.venue_identifier = ?"@
    } else {
        Seq::empty()
    })
}

/// The count queries of the result-review funnel, one per stage: submitted, reviewed,
/// approved and rejected results in the window, narrowed by the event filters; every
/// query takes the same parameters.
pub fn result_review_queries(
    window: &DateWindow,
    event_id: Option<i64>,
    champ: Option<bool>,
    venue: &Option<String>,
) -> (r: (Vec<String>, Vec<SqlParam>))
    ensures
        r.0@.len() == 4,
        ({
            let j = review_join(event_id, champ, *venue);
            let w = "date(r.created_at) >= ? AND date(r.created_at) <= ?"@ + review_extra_where(
                event_id,
                champ,
                *venue,
            );
            &&& r.0@[0]@ == "SELECT COUNT(DISTINCT r.id) AS n FROM results r"@ + j + " WHERE "@ + w
            &&& r.0@[1]@ == "SELECT COUNT(DISTINCT r.id) AS n FROM results r"@ + j
                + " JOIN result_reviews rv ON rv.result_id = r.id WHERE "@ + w
            &&& r.0@[2]@ == "SELECT COUNT(DISTINCT r.id) AS n FROM results r"@ + j
                + " WHERE r.reviewed_state = 'approved' AND "@ + w
            &&& r.0@[3]@ == "SELECT COUNT(DISTINCT r.id) AS n FROM results r"@ + j
                + " WHERE r.reviewed_state = 'rejected' AND "@ + w
        }),
        param_views(r.1@) == seq![
            ParamView::Text(date_text(window.start)),
            ParamView::Text(date_text(window.end)),
        ] + event_filter_params(event_id, champ, *venue),
{
    let mut join = String::new();
    let mut extra = String::new();
    let mut params: Vec<SqlParam> = vec![
        SqlParam::Text(ymd_text(&window.start)),
        SqlParam::Text(ymd_text(&window.end)),
    ];
    let ghost p0 = param_views(params@);
    assert(p0 =~= seq![ParamView::Text(date_text(window.start)), ParamView::Text(date_text(window.end))]);
    if event_id.is_some() || champ.is_some() || venue.is_some() {
        push_str(&mut join, " JOIN events e ON r.event_id = e.id");
        if let Some(eid) = event_id {
            push_str(&mut extra, " AND r.event_id = ?");
            params.push(SqlParam::Int(eid));
        }
        let ghost e1 = extra@;
        let ghost p1 = param_views(params@);
        if let Some(c) = champ {
            push_str(&mut extra, " AND e.is_championship_class = ?");
            params.push(SqlParam::Int(if c { 1 } else { 0 }));
        }
        let ghost e2 = extra@;
        let ghost p2 = param_views(params@);
        if let Some(v) = venue {
            push_str(&mut extra, " AND e.venue_identifier = ?");
            params.push(SqlParam::Text(owned(v.as_str())));
        }
        proof {
            assert(e1 =~= (if event_id is Some {
                " AND r.event_id = ?"@
            } else {
                Seq::<char>::empty()
            }));
            assert(e2 =~= e1 + (if champ is Some {
                " AND e.is_championship_class = ?"@
            } else {
                Seq::<char>::empty()
            }));
            assert(extra@ =~= e2 + (if venue is Some {
                " AND e.venue_identifier = ?"@
            } else {
                Seq::<char>::empty()
            }));
            assert(p1 =~= p0 + (if event_id is Some {
                seq![ParamView::Int(event_id->0 as int)]
            } else {
                Seq::<ParamView>::empty()
            }));
            assert(p2 =~= p1 + (if champ is Some {
                seq![ParamView::Int(if champ->0 { 1int } else { 0int })]
            } else {
                Seq::<ParamView>::empty()
            }));
            assert(param_views(params@) =~= p2 + (if venue is Some {
                seq![ParamView::Text(venue->0@)]
            } else {
                Seq::<ParamView>::empty()
            }));
            assert(extra@ =~= review_extra_where(event_id, champ, *venue));
            assert(param_views(params@) =~= p0 + event_filter_params(event_id, champ, *venue));
        }
    } else {
        proof {
            assert(extra@ =~= review_extra_where(event_id, champ, *venue));
            assert(join@ =~= review_join(event_id, champ, *venue));
            assert(param_views(params@) =~= p0 + event_filter_params(event_id, champ, *venue));
        }
    }
    let mut w = owned("date(r.created_at) >= ? AND date(r.created_at) <= ?");
    push_str(&mut w, extra.as_str());
    let mut q0 = owned("SELECT COUNT(DISTINCT r.id) AS n FROM results r");
    push_str(&mut q0, join.as_str());
    push_str(&mut q0, " WHERE ");
    push_str(&mut q0, w.as_str());
    let mut q1 = owned("SELECT COUNT(DISTINCT r.id) AS n FROM results r");
    push_str(&mut q1, join.as_str());
    push_str(&mut q1, " JOIN result_reviews rv ON rv.result_id = r.id WHERE ");
    push_str(&mut q1, w.as_str());
    let mut q2 = owned("SELECT COUNT(DISTINCT r.id) AS n FROM results r");
    push_str(&mut q2, join.as_str());
    push_str(&mut q2, " WHERE r.reviewed_state = 'approved' AND ");
    push_str(&mut q2, w.as_str());
    let mut q3 = owned("SELECT COUNT(DISTINCT r.id) AS n FROM results r");
    push_str(&mut q3, join.as_str());
    push_str(&mut q3, " WHERE r.reviewed_state = 'rejected' AND ");
    push_str(&mut q3, w.as_str());
    (vec![q0, q1, q2, q3], params)
}

} // verus!

verus! {

/// The parameters of a query over a window: its first and last day, `YYYY-MM-DD`.
pub fn window_params(w: &DateWindow) -> (r: Vec<SqlParam>)
    ensures
        param_views(r@) == seq![ParamView::Text(date_text(w.start)), ParamView::Text(date_text(w.end))],
{
    let r = vec![SqlParam::Text(ymd_text(&w.start)), SqlParam::Text(ymd_text(&w.end))];
    assert(param_views(r@) =~= seq![
        ParamView::Text(date_text(w.start)),
        ParamView::Text(date_text(w.end)),
    ]);
    r
}

/// The count queries of the invoice-lifecycle funnel, one per stage: invoices issued in
/// the window, those no longer drafts, and those paid; each takes `window_params`.
pub fn invoice_lifecycle_queries() -> (r: Vec<String>)
    ensures
        r@.len() == 3,
        r@[0]@ == "SELECT COUNT(*) AS n FROM invoices WHERE issue_date >= ? AND issue_date <= ?"@,
        r@[1]@
            == "SELECT COUNT(*) AS n FROM invoices WHERE status != 'draft' AND issue_date >= ? AND issue_date <= ?"@,
        r@[2]@
            == "SELECT COUNT(*) AS n FROM invoices WHERE status = 'paid' AND issue_date >= ? AND issue_date <= ?"@,
{
    vec![
        owned("SELECT COUNT(*) AS n FROM invoices WHERE issue_date >= ? AND issue_date <= ?"),
        owned(
            "SELECT COUNT(*) AS n FROM invoices WHERE status != 'draft' AND issue_date >= ? AND issue_date <= ?",
        ),
        owned(
            "SELECT COUNT(*) AS n FROM invoices WHERE status = 'paid' AND issue_date >= ? AND issue_date <= ?",
        ),
    ]
}

/// The count queries of the refund-approval funnel, one per stage: refunds requested
/// in the window, those approved by finance (pending the auditor or approved), and
/// those fully approved; each takes `window_params`.
pub fn refund_approval_queries() -> (r: Vec<String>)
    ensures
        r@.len() == 3,
        r@[0]@
            == "SELECT COUNT(*) AS n FROM payment_refunds WHERE date(created_at) >= ? AND date(created_at) <= ?"@,
        r@[1]@
            == "SELECT COUNT(*) AS n FROM payment_refunds WHERE status IN ('pending_auditor','approved') AND date(created_at) >= ? AND date(created_at) <= ?"@,
        r@[2]@
            == "SELECT COUNT(*) AS n FROM payment_refunds WHERE status = 'approved' AND date(created_at) >= ? AND date(created_at) <= ?"@,
{
    vec![
        owned(
            "SELECT COUNT(*) AS n FROM payment_refunds WHERE date(created_at) >= ? AND date(created_at) <= ?",
        ),
        owned(
            "SELECT COUNT(*) AS n FROM payment_refunds WHERE status IN ('pending_auditor','approved') AND date(created_at) >= ? AND date(created_at) <= ?",
        ),
        owned(
            "SELECT COUNT(*) AS n FROM payment_refunds WHERE status = 'approved' AND date(created_at) >= ? AND date(created_at) <= ?",
        ),
    ]
}

} // verus!

verus! {

pub open spec fn invoice_revenue_sql() -> Seq<char> {
    "SELECT strftime(?, CAST(issue_date AS TEXT)) AS bucket, COALESCE(SUM(CAST(total AS REAL)), 0.0) AS value FROM invoices WHERE issue_date >= ? AND issue_date <= ? GROUP BY bucket ORDER BY bucket"@
}

/// The invoice revenue trend buckets invoices by issue date, adds up their `total`
/// column (tax included, the discount taken off) over the invoices issued in the
/// window, reports zero for a bucket with no amount, and lists the buckets in order.
pub proof fn lemma_revenue_sums_invoice_totals()
    ensures
        has_substr(
            invoice_revenue_sql(),
            ", COALESCE(SUM(CAST(total AS REAL)), 0.0) AS value FROM invoices WHERE "@,
        ),
        has_substr(invoice_revenue_sql(), "WHERE issue_date >= ? AND issue_date <= ?"@),
        has_substr(invoice_revenue_sql(), "SELECT strftime(?, CAST(issue_date AS TEXT)) AS bucket"@),
        has_substr(invoice_revenue_sql(), "GROUP BY bucket ORDER BY bucket"@),
{
    reveal_strlit(
        "SELECT strftime(?, CAST(issue_date AS TEXT)) AS bucket, COALESCE(SUM(CAST(total AS REAL)), 0.0) AS value FROM invoices WHERE issue_date >= ? AND issue_date <= ? GROUP BY bucket ORDER BY bucket",
    );
    reveal_strlit(", COALESCE(SUM(CAST(total AS REAL)), 0.0) AS value FROM invoices WHERE ");
    reveal_strlit("WHERE issue_date >= ? AND issue_date <= ?");
    let sql = invoice_revenue_sql();
    let v = ", COALESCE(SUM(CAST(total AS REAL)), 0.0) AS value FROM invoices WHERE "@;
    let w = "WHERE issue_date >= ? AND issue_date <= ?"@;
    assert(sql.subrange(54, 54 + v.len() as int) =~= v);
    assert(sql.subrange(119, 119 + w.len() as int) =~= w);
    reveal_strlit("SELECT strftime(?, CAST(issue_date AS TEXT)) AS bucket");
    reveal_strlit("GROUP BY bucket ORDER BY bucket");
    let b = "SELECT strftime(?, CAST(issue_date AS TEXT)) AS bucket"@;
    let g = "GROUP BY bucket ORDER BY bucket"@;
    let z: int = 0;
    assert(sql.subrange(z, z + b.len()) =~= b);
    assert(sql.subrange(161, 161 + g.len() as int) =~= g);
}

pub open spec fn invoice_count_sql() -> Seq<char> {
    "SELECT strftime(?, CAST(issue_date AS TEXT)) AS bucket, CAST(COUNT(*) AS REAL) AS value FROM invoices WHERE issue_date >= ? AND issue_date <= ? GROUP BY bucket ORDER BY bucket"@
}

pub open spec fn payment_volume_sql() -> Seq<char> {
    "SELECT strftime(?, received_at) AS bucket, COALESCE(SUM(CAST(amount AS REAL)), 0.0) AS value FROM payment_entries WHERE status = 'active' AND date(received_at) >= ? AND date(received_at) <= ? GROUP BY bucket ORDER BY bucket"@
}

pub open spec fn payment_count_sql() -> Seq<char> {
    "SELECT strftime(?, received_at) AS bucket, CAST(COUNT(*) AS REAL) AS value FROM payment_entries WHERE status = 'active' AND date(received_at) >= ? AND date(received_at) <= ? GROUP BY bucket ORDER BY bucket"@
}

/// The query of a trend that has no drill-down filters (invoice revenue and count,
/// payment volume and count): values per bucket of `format` in the window. The other
/// trends have their own queries (`results_trend_query`, `active_assets_query`).
pub fn plain_trend_query(format: &str, window: &DateWindow, metric: TrendMetric) -> (r: Option<SqlQuery>)
    ensures
        metric == TrendMetric::InvoiceRevenue ==> (r matches Some(q) && q.sql@ == invoice_revenue_sql()),
        metric == TrendMetric::InvoiceCount ==> (r matches Some(q) && q.sql@ == invoice_count_sql()),
        metric == TrendMetric::PaymentVolume ==> (r matches Some(q) && q.sql@ == payment_volume_sql()),
        metric == TrendMetric::PaymentCount ==> (r matches Some(q) && q.sql@ == payment_count_sql()),
        metric == TrendMetric::ResultsSubmitted || metric == TrendMetric::ActiveAssets ==> r is None,
        r matches Some(q) ==> param_views(q.params@) == seq![
            ParamView::Text(format@),
            ParamView::Text(date_text(window.start)),
            ParamView::Text(date_text(window.end)),
        ],
{
    let sql = match metric {
        TrendMetric::InvoiceRevenue => owned(
            "SELECT strftime(?, CAST(issue_date AS TEXT)) AS bucket, COALESCE(SUM(CAST(total AS REAL)), 0.0) AS value FROM invoices WHERE issue_date >= ? AND issue_date <= ? GROUP BY bucket ORDER BY bucket",
        ),
        TrendMetric::InvoiceCount => owned(
            "SELECT strftime(?, CAST(issue_date AS TEXT)) AS bucket, CAST(COUNT(*) AS REAL) AS value FROM invoices WHERE issue_date >= ? AND issue_date <= ? GROUP BY bucket ORDER BY bucket",
        ),
        TrendMetric::PaymentVolume => owned(
            "SELECT strftime(?, received_at) AS bucket, COALESCE(SUM(CAST(amount AS REAL)), 0.0) AS value FROM payment_entries WHERE status = 'active' AND date(received_at) >= ? AND date(received_at) <= ? GROUP BY bucket ORDER BY bucket",
        ),
        TrendMetric::PaymentCount => owned(
            "SELECT strftime(?, received_at) AS bucket, CAST(COUNT(*) AS REAL) AS value FROM payment_entries WHERE status = 'active' AND date(received_at) >= ? AND date(received_at) <= ? GROUP BY bucket ORDER BY bucket",
        ),
        _ => {
            return None;
        },
    };
    let params = vec![
        SqlParam::Text(owned(format)),
        SqlParam::Text(ymd_text(&window.start)),
        SqlParam::Text(ymd_text(&window.end)),
    ];
    assert(param_views(params@) =~= seq![
        ParamView::Text(format@),
        ParamView::Text(date_text(window.start)),
        ParamView::Text(date_text(window.end)),
    ]);
    Some(SqlQuery { sql, params })
}

} // verus!

verus! {

/// The query of the cohorts of a retention matrix over a window: each cohort month
/// with its size (distinct participants of the month's events, or invoices issued in
/// the month); it takes `window_params`.
pub open spec fn retention_cohort_sql(t: RetentionType) -> Seq<char> {
    match t {
        RetentionType::EventParticipation => "SELECT strftime('%Y-%m', e.created_at) AS cohort, COUNT(DISTINCT r.participant_id) AS cohort_size FROM results r JOIN events e ON r.event_id = e.id WHERE date(e.created_at) >= ? AND date(e.created_at) <= ? GROUP BY strftime('%Y-%m', e.created_at) ORDER BY cohort"@,
        RetentionType::InvoicePayment => "SELECT strftime('%Y-%m', CAST(issue_date AS TEXT)) AS cohort, COUNT(*) AS cohort_size FROM invoices WHERE issue_date >= ? AND issue_date <= ? GROUP BY cohort ORDER BY cohort"@,
    }
}

/// The cohort query of a retention matrix (see `retention_cohort_sql`).
pub fn retention_cohort_query(t: RetentionType) -> (r: String)
    ensures
        r@ == retention_cohort_sql(t),
{
    match t {
        RetentionType::EventParticipation => owned(
            "SELECT strftime('%Y-%m', e.created_at) AS cohort, COUNT(DISTINCT r.participant_id) AS cohort_size FROM results r JOIN events e ON r.event_id = e.id WHERE date(e.created_at) >= ? AND date(e.created_at) <= ? GROUP BY strftime('%Y-%m', e.created_at) ORDER BY cohort",
        ),
        RetentionType::InvoicePayment => owned(
            "SELECT strftime('%Y-%m', CAST(issue_date AS TEXT)) AS cohort, COUNT(*) AS cohort_size FROM invoices WHERE issue_date >= ? AND issue_date <= ? GROUP BY cohort ORDER BY cohort",
        ),
    }
}

/// The query counting the members of a cohort retained in period `p`: participants of
/// the cohort who took part again `p` months later, or invoices of the cohort paid
/// within `30 × p` days of issue.
pub open spec fn retention_period_sql(t: RetentionType, p: int) -> Seq<char> {
    match t {
        RetentionType::EventParticipation => "SELECT COUNT(DISTINCT r.participant_id) AS n FROM results r JOIN events e ON r.event_id = e.id WHERE strftime('%Y-%m', e.created_at) = strftime('%Y-%m', date(? || '-01', '+"@
            + int_text(p)
            + " month')) AND r.participant_id IN (SELECT DISTINCT r2.participant_id FROM results r2 JOIN events e2 ON r2.event_id = e2.id WHERE strftime('%Y-%m', e2.created_at) = ?)"@,
        RetentionType::InvoicePayment => "SELECT COUNT(*) AS n FROM invoices WHERE strftime('%Y-%m', CAST(issue_date AS TEXT)) = ? AND status = 'paid' AND julianday(updated_at) - julianday(CAST(issue_date AS TEXT)) <= "@
            + int_text(p * 30),
    }
}

/// The period query of cohort `cohort` for period `p` (see `retention_period_sql`): the
/// cohort's month is bound once per `?`.
pub fn retention_period_query(t: RetentionType, p: i32, cohort: &str) -> (r: SqlQuery)
    requires
        1 <= p <= 6,
    ensures
        r.sql@ == retention_period_sql(t, p as int),
        param_views(r.params@) == (match t {
            RetentionType::EventParticipation => seq![ParamView::Text(cohort@), ParamView::Text(cohort@)],
            RetentionType::InvoicePayment => seq![ParamView::Text(cohort@)],
        }),
{
    match t {
        RetentionType::EventParticipation => {
            let mut sql = owned(
                "SELECT COUNT(DISTINCT r.participant_id) AS n FROM results r JOIN events e ON r.event_id = e.id WHERE strftime('%Y-%m', e.created_at) = strftime('%Y-%m', date(? || '-01', '+",
            );
            push_str(&mut sql, &i64_text(p as i64));
            push_str(
                &mut sql,
                " month')) AND r.participant_id IN (SELECT DISTINCT r2.participant_id FROM results r2 JOIN events e2 ON r2.event_id = e2.id WHERE strftime('%Y-%m', e2.created_at) = ?)",
            );
            let params = vec![SqlParam::Text(owned(cohort)), SqlParam::Text(owned(cohort))];
            assert(param_views(params@) =~= seq![ParamView::Text(cohort@), ParamView::Text(cohort@)]);
            SqlQuery { sql, params }
        },
        RetentionType::InvoicePayment => {
            let mut sql = owned(
                "SELECT COUNT(*) AS n FROM invoices WHERE strftime('%Y-%m', CAST(issue_date AS TEXT)) = ? AND status = 'paid' AND julianday(updated_at) - julianday(CAST(issue_date AS TEXT)) <= ",
            );
            push_str(&mut sql, &i64_text((p * 30) as i64));
            let params = vec![SqlParam::Text(owned(cohort))];
            assert(param_views(params@) =~= seq![ParamView::Text(cohort@)]);
            SqlQuery { sql, params }
        },
    }
}

} // verus!
