//! Invoices: pricing models, line totals, invoice totals and the rules on when an
//! invoice may change.
use vstd::prelude::*;

use crate::dates::{parse_ymd, naive_date_ymd, Ymd};
use crate::decimal::{
    checked_add, checked_div, checked_mul, checked_sub, dec_text, decimal_difference,
    decimal_product, decimal_quotient, decimal_sum, eq_value, gt, lt, max, max_view, min, min_view, round_dp,
    round_dp_view, value_order, Dec, DecView,
};
use crate::decimal::{exact_product, exact_sum, negated, product_fits, sum_fits};
use crate::errors::{
    fails_bad_request, fails_conflict, fails_unprocessable, is_bad_request, is_conflict,
    is_unprocessable, AppError, AppResult,
};
use crate::text::{i64_text, int_text, is_blank, owned, push_str, str_eq, trim, trimmed, blank};

verus! {

/// Decimal places kept by every monetary amount.
pub const MONEY_DP: u32 = 4;

/// How a line item is priced.
#[derive(Debug, Clone, Copy, PartialEq, Eq, Structural)]
pub enum PricingModel {
    Fixed,
    PerUnit,
    Percentage,
    PerDuration,
    Package,
}

/// A line-level adjustment.
#[derive(Debug, Clone, Copy, PartialEq, Eq, Structural)]
pub enum AdjustmentType {
    Discount,
    Surcharge,
}

/// The lifecycle state of an invoice.
#[derive(Debug, Clone, Copy, PartialEq, Eq, Structural)]
pub enum InvoiceStatus {
    Draft,
    Issued,
    Paid,
    Cancelled,
    Overdue,
}

// ── Names ─────────────────────────────────────────────────────────────────────

pub open spec fn pricing_model_name(m: PricingModel) -> Seq<char> {
    match m {
        PricingModel::Fixed => "fixed"@,
        PricingModel::PerUnit => "per_unit"@,
        PricingModel::Percentage => "percentage"@,
        PricingModel::PerDuration => "per_duration"@,
        PricingModel::Package => "package"@,
    }
}

pub open spec fn pricing_model_of(s: Seq<char>) -> Option<PricingModel> {
    if s == "fixed"@ {
        Some(PricingModel::Fixed)
    } else if s == "per_unit"@ {
        Some(PricingModel::PerUnit)
    } else if s == "percentage"@ {
        Some(PricingModel::Percentage)
    } else if s == "per_duration"@ {
        Some(PricingModel::PerDuration)
    } else if s == "package"@ {
        Some(PricingModel::Package)
    } else {
        None
    }
}

pub open spec fn adjustment_type_name(a: AdjustmentType) -> Seq<char> {
    match a {
        AdjustmentType::Discount => "discount"@,
        AdjustmentType::Surcharge => "surcharge"@,
    }
}

pub open spec fn adjustment_type_of(s: Seq<char>) -> Option<AdjustmentType> {
    if s == "discount"@ {
        Some(AdjustmentType::Discount)
    } else if s == "surcharge"@ {
        Some(AdjustmentType::Surcharge)
    } else {
        None
    }
}

pub open spec fn invoice_status_name(s: InvoiceStatus) -> Seq<char> {
    match s {
        InvoiceStatus::Draft => "draft"@,
        InvoiceStatus::Issued => "issued"@,
        InvoiceStatus::Paid => "paid"@,
        InvoiceStatus::Cancelled => "cancelled"@,
        InvoiceStatus::Overdue => "overdue"@,
    }
}

pub open spec fn invoice_status_of(s: Seq<char>) -> Option<InvoiceStatus> {
    if s == "draft"@ {
        Some(InvoiceStatus::Draft)
    } else if s == "issued"@ {
        Some(InvoiceStatus::Issued)
    } else if s == "paid"@ {
        Some(InvoiceStatus::Paid)
    } else if s == "cancelled"@ {
        Some(InvoiceStatus::Cancelled)
    } else if s == "overdue"@ {
        Some(InvoiceStatus::Overdue)
    } else {
        None
    }
}

/// Parses a pricing model name.
pub fn parse_pricing_model(s: &str) -> (r: AppResult<PricingModel>)
    ensures
        r matches Ok(m) ==> pricing_model_of(s@) == Some(m),
        r matches Err(e) ==> pricing_model_of(s@) is None && is_bad_request(
            e,
            "Unknown pricing_model '"@ + s@
                + "'. Valid: per_unit, per_duration, package, fixed, percentage"@,
        ),
        r is Ok <==> pricing_model_of(s@) is Some,
{
    if str_eq(s, "fixed") {
        Ok(PricingModel::Fixed)
    } else if str_eq(s, "per_unit") {
        Ok(PricingModel::PerUnit)
    } else if str_eq(s, "percentage") {
        Ok(PricingModel::Percentage)
    } else if str_eq(s, "per_duration") {
        Ok(PricingModel::PerDuration)
    } else if str_eq(s, "package") {
        Ok(PricingModel::Package)
    } else {
        let mut m = owned("Unknown pricing_model '");
        push_str(&mut m, s);
        push_str(&mut m, "'. Valid: per_unit, per_duration, package, fixed, percentage");
        Err(AppError::BadRequest(m))
    }
}

/// The name of a pricing model.
pub fn pricing_model_str(m: &PricingModel) -> (r: &'static str)
    ensures
        r@ == pricing_model_name(*m),
{
    match m {
        PricingModel::Fixed => "fixed",
        PricingModel::PerUnit => "per_unit",
        PricingModel::Percentage => "percentage",
        PricingModel::PerDuration => "per_duration",
        PricingModel::Package => "package",
    }
}

/// Parses an adjustment type name.
pub fn parse_adjustment_type(s: &str) -> (r: AppResult<AdjustmentType>)
    ensures
        r matches Ok(a) ==> adjustment_type_of(s@) == Some(a),
        r matches Err(e) ==> adjustment_type_of(s@) is None && is_bad_request(
            e,
            "Unknown adjustment_type '"@ + s@ + "'. Valid: discount, surcharge"@,
        ),
        r is Ok <==> adjustment_type_of(s@) is Some,
{
    if str_eq(s, "discount") {
        Ok(AdjustmentType::Discount)
    } else if str_eq(s, "surcharge") {
        Ok(AdjustmentType::Surcharge)
    } else {
        let mut m = owned("Unknown adjustment_type '");
        push_str(&mut m, s);
        push_str(&mut m, "'. Valid: discount, surcharge");
        Err(AppError::BadRequest(m))
    }
}

/// The name of an adjustment type.
pub fn adjustment_type_str(a: &AdjustmentType) -> (r: &'static str)
    ensures
        r@ == adjustment_type_name(*a),
{
    match a {
        AdjustmentType::Discount => "discount",
        AdjustmentType::Surcharge => "surcharge",
    }
}

/// The name of an invoice status.
pub fn status_str(s: &InvoiceStatus) -> (r: &'static str)
    ensures
        r@ == invoice_status_name(*s),
{
    match s {
        InvoiceStatus::Draft => "draft",
        InvoiceStatus::Issued => "issued",
        InvoiceStatus::Paid => "paid",
        InvoiceStatus::Cancelled => "cancelled",
        InvoiceStatus::Overdue => "overdue",
    }
}

/// Checks a status filter of the invoice listing.
pub fn parse_status_filter(s: &str) -> (r: AppResult<InvoiceStatus>)
    ensures
        r matches Ok(st) ==> invoice_status_of(s@) == Some(st),
        r matches Err(e) ==> invoice_status_of(s@) is None && is_bad_request(
            e,
            "Unknown status '"@ + s@ + "'. Valid: draft, issued, paid, cancelled, overdue"@,
        ),
        r is Ok <==> invoice_status_of(s@) is Some,
{
    if str_eq(s, "draft") {
        Ok(InvoiceStatus::Draft)
    } else if str_eq(s, "issued") {
        Ok(InvoiceStatus::Issued)
    } else if str_eq(s, "paid") {
        Ok(InvoiceStatus::Paid)
    } else if str_eq(s, "cancelled") {
        Ok(InvoiceStatus::Cancelled)
    } else if str_eq(s, "overdue") {
        Ok(InvoiceStatus::Overdue)
    } else {
        let mut m = owned("Unknown status '");
        push_str(&mut m, s);
        push_str(&mut m, "'. Valid: draft, issued, paid, cancelled, overdue");
        Err(AppError::BadRequest(m))
    }
}

/// Parses an issue date `YYYY-MM-DD`.
pub fn parse_date(s: &str) -> (r: AppResult<Ymd>)
    ensures
        r matches Ok(d) ==> naive_date_ymd(s@) == Some(
            (d.year as int, d.month as int, d.day as int),
        ),
        r matches Err(e) ==> naive_date_ymd(s@) is None && is_bad_request(
            e,
            "Invalid issue_date '"@ + s@ + "'; expected YYYY-MM-DD"@,
        ),
        r is Ok <==> naive_date_ymd(s@) is Some,
{
    match parse_ymd(s) {
        Some(d) => Ok(d),
        None => {
            let mut m = owned("Invalid issue_date '");
            push_str(&mut m, s);
            push_str(&mut m, "'; expected YYYY-MM-DD");
            Err(AppError::BadRequest(m))
        },
    }
}

// ── Laws on names ─────────────────────────────────────────────────────────────

/// Parsing the name of a pricing model gives that model back.
pub proof fn lemma_pricing_model_roundtrip(m: PricingModel)
    ensures
        pricing_model_of(pricing_model_name(m)) == Some(m),
{
    reveal_strlit("fixed");
    reveal_strlit("per_unit");
    reveal_strlit("percentage");
    reveal_strlit("per_duration");
    reveal_strlit("package");
    assert("fixed"@.len() == 5);
    assert("per_unit"@.len() == 8);
    assert("percentage"@.len() == 10);
    assert("per_duration"@.len() == 12);
    assert("package"@.len() == 7);
}

/// Parsing the name of an adjustment type gives that type back.
pub proof fn lemma_adjustment_type_roundtrip(a: AdjustmentType)
    ensures
        adjustment_type_of(adjustment_type_name(a)) == Some(a),
{
    reveal_strlit("discount");
    reveal_strlit("surcharge");
    assert("discount"@.len() == 8);
    assert("surcharge"@.len() == 9);
}

/// Parsing the name of an invoice status gives that status back.
pub proof fn lemma_invoice_status_roundtrip(s: InvoiceStatus)
    ensures
        invoice_status_of(invoice_status_name(s)) == Some(s),
{
    reveal_strlit("draft");
    reveal_strlit("issued");
    reveal_strlit("paid");
    reveal_strlit("cancelled");
    reveal_strlit("overdue");
    assert("draft"@.len() == 5);
    assert("issued"@.len() == 6);
    assert("paid"@.len() == 4);
    assert("cancelled"@.len() == 9);
    assert("overdue"@.len() == 7);
}

} // verus!

verus! {

// ── Calculation engine ────────────────────────────────────────────────────────

pub open spec fn zero_v() -> DecView {
    DecView { mantissa: 0, scale: 0 }
}

pub open spec fn int_v(n: int) -> DecView {
    DecView { mantissa: n, scale: 0 }
}

/// The largest percentage discount, 30 %.
pub open spec fn max_discount_pct() -> DecView {
    int_v(30)
}

/// The largest discount in dollars per invoice, $500.
pub open spec fn max_discount_amount() -> DecView {
    int_v(500)
}

/// The adjustment amount of a line with base amount `base`: a percentage of the base,
/// or the value itself, rounded to the money scale.
pub open spec fn adjustment_amount(base: DecView, pct: bool, value: DecView) -> Option<DecView> {
    if pct {
        match decimal_quotient(value, int_v(100)) {
            None => None,
            Some(f) => match decimal_product(base, f) {
                None => None,
                Some(x) => Some(round_dp_view(x, 4)),
            },
        }
    } else {
        Some(round_dp_view(value, 4))
    }
}

/// The total of a line:
/// `base = round(quantity × unit_price)`; with an adjustment, `base − adj` for a discount
/// or `base + adj` for a surcharge; in every case never below zero. `None` when a step
/// overflows.
pub open spec fn line_total_spec(
    quantity: DecView,
    unit_price: DecView,
    adj_type: Option<AdjustmentType>,
    adj_is_pct: bool,
    adj_value: Option<DecView>,
) -> Option<DecView> {
    match decimal_product(quantity, unit_price) {
        None => None,
        Some(p) => {
            let base = round_dp_view(p, 4);
            match adj_type {
                None => Some(max_view(base, zero_v())),
                Some(t) => {
                    let v = match adj_value {
                        Some(x) => x,
                        None => zero_v(),
                    };
                    match adjustment_amount(base, adj_is_pct, v) {
                        None => None,
                        Some(amt) => {
                            let tot = match t {
                                AdjustmentType::Discount => decimal_difference(base, amt),
                                AdjustmentType::Surcharge => decimal_sum(base, amt),
                            };
                            match tot {
                                None => None,
                                Some(x) => Some(max_view(x, zero_v())),
                            }
                        },
                    }
                },
            }
        },
    }
}

/// The signed amount a fixed adjustment of `value` adds to a line: the value rounded to
/// the money scale, subtracted for a discount and added for a surcharge.
pub open spec fn fixed_adjustment(t: AdjustmentType, value: DecView) -> DecView {
    match t {
        AdjustmentType::Discount => negated(round_dp_view(value, 4)),
        AdjustmentType::Surcharge => round_dp_view(value, 4),
    }
}

/// Whether a line with a fixed adjustment stays within what a decimal holds when
/// computed exactly: the exact product of two nonzero factors fits, and so does the
/// sum of its rounding and the nonzero signed adjustment.
pub open spec fn fixed_line_fits(
    quantity: DecView,
    unit_price: DecView,
    t: AdjustmentType,
    value: DecView,
) -> bool {
    &&& product_fits(quantity, unit_price)
    &&& sum_fits(round_dp_view(exact_product(quantity, unit_price), 4), fixed_adjustment(t, value))
}

/// The exact total of a line with a fixed adjustment: `max(0, round4(quantity ×
/// unit_price) ± round4(value))`. The adjustment is taken once, whatever the quantity.
pub open spec fn fixed_line_total(
    quantity: DecView,
    unit_price: DecView,
    t: AdjustmentType,
    value: DecView,
) -> DecView {
    max_view(
        exact_sum(round_dp_view(exact_product(quantity, unit_price), 4), fixed_adjustment(t, value)),
        zero_v(),
    )
}

pub open spec fn opt_dec_view(o: Option<Dec>) -> Option<DecView> {
    match o {
        Some(d) => Some(d@),
        None => None,
    }
}

/// Whether `e` is the error reported when decimal arithmetic overflows.
pub open spec fn is_overflow(e: AppError) -> bool {
    e matches AppError::Internal(m) && m@ == "decimal arithmetic overflow"@
}

fn overflow() -> (e: AppError)
    ensures
        is_overflow(e),
{
    AppError::Internal(owned("decimal arithmetic overflow"))
}

/// Computes the total of a new line item (see `line_total_spec`); arithmetic that
/// overflows what a decimal holds is reported as an internal error.
pub fn compute_line_total(
    quantity: &Dec,
    unit_price: &Dec,
    adj_type: Option<AdjustmentType>,
    adj_is_pct: bool,
    adj_value: Option<Dec>,
) -> (r: AppResult<Dec>)
    ensures
        r matches Ok(t) ==> line_total_spec(
            quantity@,
            unit_price@,
            adj_type,
            adj_is_pct,
            opt_dec_view(adj_value),
        ) == Some(t@),
        r matches Err(e) ==> is_overflow(e) && line_total_spec(
            quantity@,
            unit_price@,
            adj_type,
            adj_is_pct,
            opt_dec_view(adj_value),
        ) is None,
        adj_type is Some && !adj_is_pct && adj_value is Some && fixed_line_fits(
            quantity@,
            unit_price@,
            adj_type->0,
            adj_value->0@,
        ) ==> (r is Ok && r->Ok_0@ == fixed_line_total(
            quantity@,
            unit_price@,
            adj_type->0,
            adj_value->0@,
        )),
{
    let p = match checked_mul(quantity, unit_price) {
        Some(p) => p,
        None => return Err(overflow()),
    };
    let base = round_dp(&p, MONEY_DP);
    let t = match adj_type {
        None => return Ok(max(base, Dec::zero())),
        Some(t) => t,
    };
    let v = match adj_value {
        Some(x) => x,
        None => Dec::zero(),
    };
    let amount = if adj_is_pct {
        let f = match checked_div(&v, &Dec::from_i64(100)) {
            Some(f) => f,
            None => return Err(overflow()),
        };
        match checked_mul(&base, &f) {
            Some(x) => round_dp(&x, MONEY_DP),
            None => return Err(overflow()),
        }
    } else {
        round_dp(&v, MONEY_DP)
    };
    let tot = match t {
        AdjustmentType::Discount => checked_sub(&base, &amount),
        AdjustmentType::Surcharge => checked_add(&base, &amount),
    };
    match tot {
        Some(x) => Ok(max(x, Dec::zero())),
        None => Err(overflow()),
    }
}

/// A line total is never negative: every total is floored at zero.
pub proof fn lemma_line_total_nonnegative(
    quantity: DecView,
    unit_price: DecView,
    adj_type: Option<AdjustmentType>,
    adj_is_pct: bool,
    adj_value: Option<DecView>,
    t: DecView,
)
    requires
        line_total_spec(quantity, unit_price, adj_type, adj_is_pct, adj_value) == Some(t),
    ensures
        value_order(t, zero_v()) >= 0,
{
    let p = decimal_product(quantity, unit_price)->0;
    let base = round_dp_view(p, 4);
    if adj_type is None {
        assert(t == max_view(base, zero_v()));
    } else {
        let v = match adj_value {
            Some(x) => x,
            None => zero_v(),
        };
        let amt = adjustment_amount(base, adj_is_pct, v)->0;
        let x = match adj_type->0 {
            AdjustmentType::Discount => decimal_difference(base, amt)->0,
            AdjustmentType::Surcharge => decimal_sum(base, amt)->0,
        };
        assert(t == max_view(x, zero_v()));
    }
}

/// A line total depends on the quantity and unit price only through the rounded base
/// amount: two lines with the same base and the same adjustment (fixed or percentage)
/// have the same total, however the base was made up. In particular a fixed
/// adjustment is taken once, never per unit.
pub proof fn lemma_total_depends_only_on_base(
    q1: DecView,
    p1: DecView,
    q2: DecView,
    p2: DecView,
    adj_type: Option<AdjustmentType>,
    adj_is_pct: bool,
    adj_value: Option<DecView>,
)
    requires
        decimal_product(q1, p1) is Some,
        decimal_product(q2, p2) is Some,
        round_dp_view(decimal_product(q1, p1)->0, 4) == round_dp_view(decimal_product(q2, p2)->0, 4),
    ensures
        line_total_spec(q1, p1, adj_type, adj_is_pct, adj_value) == line_total_spec(
            q2,
            p2,
            adj_type,
            adj_is_pct,
            adj_value,
        ),
{
}

/// The subtotal of line totals: their sum from zero, left to right.
pub open spec fn sum_spec(lines: Seq<DecView>) -> Option<DecView>
    decreases lines.len(),
{
    if lines.len() == 0 {
        Some(zero_v())
    } else {
        match sum_spec(lines.drop_last()) {
            None => None,
            Some(acc) => decimal_sum(acc, lines.last()),
        }
    }
}

/// The invoice-level discount: a percentage of the subtotal or a fixed amount,
/// rounded to the money scale and capped at $500; zero when no discount is set.
pub open spec fn discount_spec(
    subtotal: DecView,
    discount_type: Option<Seq<char>>,
    discount_value: Option<DecView>,
) -> Option<DecView> {
    if discount_type == Some("percentage"@) && discount_value is Some {
        match decimal_quotient(discount_value->0, int_v(100)) {
            None => None,
            Some(f) => match decimal_product(subtotal, f) {
                None => None,
                Some(x) => Some(min_view(round_dp_view(x, 4), max_discount_amount())),
            },
        }
    } else if discount_type == Some("fixed_amount"@) && discount_value is Some {
        Some(min_view(round_dp_view(discount_value->0, 4), max_discount_amount()))
    } else {
        Some(zero_v())
    }
}

/// The amounts of an invoice.
#[derive(Debug)]
pub struct InvoiceTotals {
    pub subtotal: Dec,
    pub tax: Dec,
    pub discount_amount: Dec,
    pub total: Dec,
}

pub struct TotalsView {
    pub subtotal: DecView,
    pub tax: DecView,
    pub discount_amount: DecView,
    pub total: DecView,
}

/// The amounts of an invoice with the given line totals, tax rate and discount:
/// `subtotal = round(Σ lines)`, `tax = round(subtotal × tax_rate)`,
/// `total = max(0, subtotal + tax − discount)`. `None` when a step overflows.
pub open spec fn totals_spec(
    lines: Seq<DecView>,
    tax_rate: DecView,
    discount_type: Option<Seq<char>>,
    discount_value: Option<DecView>,
) -> Option<TotalsView> {
    match sum_spec(lines) {
        None => None,
        Some(s) => {
            let subtotal = round_dp_view(s, 4);
            match decimal_product(subtotal, tax_rate) {
                None => None,
                Some(tx) => {
                    let tax = round_dp_view(tx, 4);
                    match discount_spec(subtotal, discount_type, discount_value) {
                        None => None,
                        Some(d) => match decimal_sum(subtotal, tax) {
                            None => None,
                            Some(st) => match decimal_difference(st, d) {
                                None => None,
                                Some(x) => Some(
                                    TotalsView {
                                        subtotal,
                                        tax,
                                        discount_amount: d,
                                        total: max_view(x, zero_v()),
                                    },
                                ),
                            },
                        },
                    }
                },
            }
        },
    }
}

pub open spec fn opt_ref_view(o: Option<&Dec>) -> Option<DecView> {
    match o {
        Some(d) => Some(d@),
        None => None,
    }
}

pub open spec fn opt_str_view(o: Option<&str>) -> Option<Seq<char>> {
    match o {
        Some(s) => Some(s@),
        None => None,
    }
}

pub open spec fn dec_views(v: Seq<Dec>) -> Seq<DecView> {
    v.map_values(|d: Dec| d@)
}

impl InvoiceTotals {
    pub open spec fn view(&self) -> TotalsView {
        TotalsView {
            subtotal: self.subtotal@,
            tax: self.tax@,
            discount_amount: self.discount_amount@,
            total: self.total@,
        }
    }
}

/// Sums line totals from zero, left to right.
fn sum_lines(lines: &Vec<Dec>) -> (r: Option<Dec>)
    ensures
        opt_dec_view(r) == sum_spec(dec_views(lines@)),
{
    let mut acc = Dec::zero();
    let mut i: usize = 0;
    while i < lines.len()
        invariant
            i <= lines.len(),
            sum_spec(dec_views(lines@.take(i as int))) == Some(acc@),
        decreases lines.len() - i,
    {
        proof {
            assert(dec_views(lines@.take(i + 1)).drop_last() =~= dec_views(lines@.take(i as int)));
            assert(dec_views(lines@.take(i + 1)).last() == lines@[i as int]@);
        }
        match checked_add(&acc, &lines[i]) {
            Some(x) => {
                acc = x;
            },
            None => {
                proof {
                    assert(dec_views(lines@).take(i + 1) =~= dec_views(lines@.take(i + 1)));
                    lemma_sum_none_extends(dec_views(lines@), (i + 1) as int);
                }
                return None;
            },
        }
        i = i + 1;
    }
    assert(lines@.take(lines.len() as int) =~= lines@);
    Some(acc)
}

proof fn lemma_sum_none_extends(s: Seq<DecView>, k: int)
    requires
        0 <= k <= s.len(),
        sum_spec(s.take(k)) is None,
    ensures
        sum_spec(s) is None,
    decreases s.len() - k,
{
    if k < s.len() {
        assert(s.take(k + 1).drop_last() =~= s.take(k));
        lemma_sum_none_extends(s, k + 1);
    } else {
        assert(s.take(k) =~= s);
    }
}

/// Recomputes the amounts of an invoice from its line totals and discount settings
/// (see `totals_spec`); arithmetic that overflows what a decimal holds is reported as an
/// internal error.
pub fn invoice_totals(
    line_totals: &Vec<Dec>,
    tax_rate: &Dec,
    discount_type: Option<&str>,
    discount_value: Option<&Dec>,
) -> (r: AppResult<InvoiceTotals>)
    ensures
        r matches Ok(t) ==> totals_spec(
            dec_views(line_totals@),
            tax_rate@,
            opt_str_view(discount_type),
            opt_ref_view(discount_value),
        ) == Some(t.view()),
        r matches Err(e) ==> is_overflow(e) && totals_spec(
            dec_views(line_totals@),
            tax_rate@,
            opt_str_view(discount_type),
            opt_ref_view(discount_value),
        ) is None,
{
    let s = match sum_lines(line_totals) {
        Some(s) => s,
        None => return Err(overflow()),
    };
    let subtotal = round_dp(&s, MONEY_DP);
    let tax = match checked_mul(&subtotal, tax_rate) {
        Some(x) => round_dp(&x, MONEY_DP),
        None => return Err(overflow()),
    };
    let cap = Dec::from_i64(500);
    let mut is_pct = false;
    let mut is_fixed = false;
    match discount_type {
        Some(t) => {
            is_pct = str_eq(t, "percentage");
            is_fixed = str_eq(t, "fixed_amount");
        },
        None => {},
    }
    let discount_amount = match discount_value {
        Some(v) if is_pct => {
            let f = match checked_div(v, &Dec::from_i64(100)) {
                Some(f) => f,
                None => return Err(overflow()),
            };
            match checked_mul(&subtotal, &f) {
                Some(x) => min(round_dp(&x, MONEY_DP), cap),
                None => return Err(overflow()),
            }
        },
        Some(v) if is_fixed => min(round_dp(v, MONEY_DP), cap),
        _ => Dec::zero(),
    };
    let st = match checked_add(&subtotal, &tax) {
        Some(x) => x,
        None => return Err(overflow()),
    };
    let total = match checked_sub(&st, &discount_amount) {
        Some(x) => max(x, Dec::zero()),
        None => return Err(overflow()),
    };
    proof {
        reveal_strlit("percentage");
        reveal_strlit("fixed_amount");
        assert("percentage"@.len() == 10);
        assert("fixed_amount"@.len() == 12);
    }
    Ok(InvoiceTotals { subtotal, tax, discount_amount, total })
}

/// The discount of an invoice never exceeds $500, and its total is never negative.
pub proof fn lemma_totals_bounds(
    lines: Seq<DecView>,
    tax_rate: DecView,
    discount_type: Option<Seq<char>>,
    discount_value: Option<DecView>,
    t: TotalsView,
)
    requires
        totals_spec(lines, tax_rate, discount_type, discount_value) == Some(t),
    ensures
        value_order(t.discount_amount, max_discount_amount()) <= 0,
        value_order(t.total, zero_v()) >= 0,
{
    let s = sum_spec(lines)->0;
    let subtotal = round_dp_view(s, 4);
    let d = discount_spec(subtotal, discount_type, discount_value)->0;
    assert(d == t.discount_amount);
    if discount_type == Some("percentage"@) && discount_value is Some {
    } else if discount_type == Some("fixed_amount"@) && discount_value is Some {
    } else {
        assert(value_order(zero_v(), max_discount_amount()) == -1);
    }
}

} // verus!

verus! {

// ── Validation and lifecycle rules ────────────────────────────────────────────

/// The validated header of a new invoice: trimmed reference and counterparty.
#[derive(Debug)]
pub struct InvoiceHeader {
    pub invoice_no: String,
    pub counterparty: String,
    pub issue_date: Ymd,
}

/// Checks the header of a new invoice: reference and counterparty must not be blank
/// and the issue date must be a `YYYY-MM-DD` date; both texts are returned trimmed.
pub fn check_invoice_header(invoice_no: &str, counterparty: &str, issue_date: &str) -> (r: AppResult<
    InvoiceHeader,
>)
    ensures
        blank(invoice_no@) ==> fails_bad_request(r, "invoice_no is required"@),
        !blank(invoice_no@) && blank(counterparty@) ==> fails_bad_request(
            r,
            "counterparty is required"@,
        ),
        !blank(invoice_no@) && !blank(counterparty@) && naive_date_ymd(issue_date@) is None
            ==> fails_bad_request(
            r,
            "Invalid issue_date '"@ + issue_date@ + "'; expected YYYY-MM-DD"@,
        ),
        r is Ok <==> !blank(invoice_no@) && !blank(counterparty@) && naive_date_ymd(issue_date@) is Some,
        r matches Ok(h) ==> h.invoice_no@ == trimmed(invoice_no@) && h.counterparty@ == trimmed(
            counterparty@,
        ) && naive_date_ymd(issue_date@) == Some(
            (h.issue_date.year as int, h.issue_date.month as int, h.issue_date.day as int),
        ),
{
    if is_blank(invoice_no) {
        return Err(AppError::BadRequest(owned("invoice_no is required")));
    }
    if is_blank(counterparty) {
        return Err(AppError::BadRequest(owned("counterparty is required")));
    }
    let d = parse_date(issue_date)?;
    Ok(InvoiceHeader { invoice_no: trim(invoice_no), counterparty: trim(counterparty), issue_date: d })
}

/// Checks that a tax rate lies in [0, 1].
pub fn check_tax_rate(tax_rate: &Dec) -> (r: AppResult<()>)
    ensures
        r is Ok <==> value_order(tax_rate@, zero_v()) >= 0 && value_order(tax_rate@, int_v(1)) <= 0,
        r matches Err(e) ==> is_bad_request(e, "tax_rate must be in [0, 1] (e.g. 0.10 for 10 %)"@),
{
    if lt(tax_rate, &Dec::zero()) || gt(tax_rate, &Dec::from_i64(1)) {
        return Err(AppError::BadRequest(owned("tax_rate must be in [0, 1] (e.g. 0.10 for 10 %)")));
    }
    Ok(())
}

/// Checks the description of a new line and returns it trimmed.
pub fn check_line_description(description: &str) -> (r: AppResult<String>)
    ensures
        r is Ok <==> !blank(description@),
        r matches Ok(d) ==> d@ == trimmed(description@),
        r matches Err(e) ==> is_bad_request(e, "description is required"@),
{
    if is_blank(description) {
        return Err(AppError::BadRequest(owned("description is required")));
    }
    Ok(trim(description))
}

/// Checks the adjustment of a new line: a percentage discount must lie in [0, 30],
/// a fixed discount and a surcharge must not be negative (a missing value counts as 0).
pub fn validate_line_adjustment(
    adj_type: Option<AdjustmentType>,
    adj_is_pct: bool,
    adj_value: Option<&Dec>,
) -> (r: AppResult<()>)
    ensures
        ({
            let v = match opt_ref_view(adj_value) {
                Some(x) => x,
                None => zero_v(),
            };
            &&& adj_type == Some(AdjustmentType::Discount) && adj_is_pct ==> (r is Ok <==> value_order(
                v,
                zero_v(),
            ) >= 0 && value_order(v, max_discount_pct()) <= 0)
            &&& adj_type == Some(AdjustmentType::Discount) && adj_is_pct ==> (r matches Err(e)
                ==> is_unprocessable(e, "Percentage discount must be in [0, 30]; got "@ + dec_text(v)))
            &&& adj_type == Some(AdjustmentType::Discount) && !adj_is_pct ==> (r is Ok <==> value_order(
                v,
                zero_v(),
            ) >= 0)
            &&& adj_type == Some(AdjustmentType::Discount) && !adj_is_pct ==> (r matches Err(e)
                ==> is_unprocessable(e, "Fixed discount amount must be ≥ 0"@))
            &&& adj_type == Some(AdjustmentType::Surcharge) ==> (r is Ok <==> value_order(v, zero_v())
                >= 0)
            &&& adj_type == Some(AdjustmentType::Surcharge) ==> (r matches Err(e) ==> is_unprocessable(
                e,
                "Surcharge value must be ≥ 0"@,
            ))
            &&& adj_type is None ==> r is Ok
        }),
{
    let zero = Dec::zero();
    let v = match adj_value {
        Some(x) => *x,
        None => Dec::zero(),
    };
    match adj_type {
        Some(AdjustmentType::Discount) => {
            if adj_is_pct {
                if lt(&v, &zero) || gt(&v, &Dec::from_i64(30)) {
                    let mut m = owned("Percentage discount must be in [0, 30]; got ");
                    push_str(&mut m, &v.to_text());
                    return Err(AppError::UnprocessableEntity(m));
                }
            } else if lt(&v, &zero) {
                return Err(AppError::UnprocessableEntity(owned("Fixed discount amount must be ≥ 0")));
            }
            Ok(())
        },
        Some(AdjustmentType::Surcharge) => {
            if lt(&v, &zero) {
                return Err(AppError::UnprocessableEntity(owned("Surcharge value must be ≥ 0")));
            }
            Ok(())
        },
        None => Ok(()),
    }
}

/// The kind of an invoice-level discount.
#[derive(Debug, Clone, Copy, PartialEq, Eq, Structural)]
pub enum DiscountKind {
    Percentage,
    FixedAmount,
}

pub open spec fn discount_kind_of(s: Seq<char>) -> Option<DiscountKind> {
    if s == "percentage"@ {
        Some(DiscountKind::Percentage)
    } else if s == "fixed_amount"@ {
        Some(DiscountKind::FixedAmount)
    } else {
        None
    }
}

/// Parses the kind of an invoice-level discount.
pub fn parse_discount_type(s: &str) -> (r: AppResult<DiscountKind>)
    ensures
        r matches Ok(k) ==> discount_kind_of(s@) == Some(k),
        r is Ok <==> discount_kind_of(s@) is Some,
        r matches Err(e) ==> is_bad_request(e, "discount_type must be 'percentage' or 'fixed_amount'"@),
{
    if str_eq(s, "percentage") {
        Ok(DiscountKind::Percentage)
    } else if str_eq(s, "fixed_amount") {
        Ok(DiscountKind::FixedAmount)
    } else {
        Err(AppError::BadRequest(owned("discount_type must be 'percentage' or 'fixed_amount'")))
    }
}

/// Checks an invoice-level discount value: a percentage must lie in [0, 30], a fixed
/// amount must not be negative.
pub fn check_discount_value(kind: DiscountKind, value: &Dec) -> (r: AppResult<()>)
    ensures
        kind == DiscountKind::Percentage ==> (r is Ok <==> value_order(value@, zero_v()) >= 0
            && value_order(value@, max_discount_pct()) <= 0),
        kind == DiscountKind::Percentage ==> (r matches Err(e) ==> is_unprocessable(
            e,
            "Percentage discount must be in [0, 30]; got "@ + dec_text(value@),
        )),
        kind == DiscountKind::FixedAmount ==> (r is Ok <==> value_order(value@, zero_v()) >= 0),
        kind == DiscountKind::FixedAmount ==> (r matches Err(e) ==> is_unprocessable(
            e,
            "Fixed discount amount must be ≥ 0"@,
        )),
{
    let zero = Dec::zero();
    match kind {
        DiscountKind::Percentage => {
            if lt(value, &zero) || gt(value, &Dec::from_i64(30)) {
                let mut m = owned("Percentage discount must be in [0, 30]; got ");
                push_str(&mut m, &value.to_text());
                return Err(AppError::UnprocessableEntity(m));
            }
            Ok(())
        },
        DiscountKind::FixedAmount => {
            if lt(value, &zero) {
                return Err(AppError::UnprocessableEntity(owned("Fixed discount amount must be ≥ 0")));
            }
            Ok(())
        },
    }
}

/// The operations that only a draft invoice accepts.
#[derive(Debug, Clone, Copy, PartialEq, Eq, Structural)]
pub enum DraftOp {
    AddLine,
    ApplyDiscount,
    Issue,
}

/// The conflict reported when `op` is attempted on invoice `id` in status `st`.
pub open spec fn not_draft_message(id: int, st: InvoiceStatus, op: DraftOp) -> Seq<char> {
    match op {
        DraftOp::AddLine => "Invoice "@ + int_text(id) + " is '"@ + invoice_status_name(st)
            + "' — line items can only be added to draft invoices"@,
        DraftOp::ApplyDiscount => "Invoice "@ + int_text(id) + " is '"@ + invoice_status_name(st)
            + "' — discounts can only be applied to draft invoices"@,
        DraftOp::Issue => "Invoice "@ + int_text(id) + " is already '"@ + invoice_status_name(st)
            + "'; only draft invoices can be issued"@,
    }
}

/// Checks that invoice `invoice_id`, in status `status`, still accepts `op`: only draft
/// invoices accept new lines, discounts and issuing.
pub fn ensure_draft(invoice_id: i64, status: InvoiceStatus, op: DraftOp) -> (r: AppResult<()>)
    ensures
        r is Ok <==> status == InvoiceStatus::Draft,
        r matches Err(e) ==> is_conflict(e, not_draft_message(invoice_id as int, status, op)),
{
    if status == InvoiceStatus::Draft {
        return Ok(());
    }
    let mut m = owned("Invoice ");
    push_str(&mut m, &i64_text(invoice_id));
    match op {
        DraftOp::AddLine => {
            push_str(&mut m, " is '");
            push_str(&mut m, status_str(&status));
            push_str(&mut m, "' — line items can only be added to draft invoices");
        },
        DraftOp::ApplyDiscount => {
            push_str(&mut m, " is '");
            push_str(&mut m, status_str(&status));
            push_str(&mut m, "' — discounts can only be applied to draft invoices");
        },
        DraftOp::Issue => {
            push_str(&mut m, " is already '");
            push_str(&mut m, status_str(&status));
            push_str(&mut m, "'; only draft invoices can be issued");
        },
    }
    Err(AppError::Conflict(m))
}

/// The status an invoice takes when issued: only a draft with a nonzero subtotal can
/// be issued, and it becomes `Issued`.
pub fn issue_transition(invoice_id: i64, status: InvoiceStatus, subtotal: &Dec) -> (r: AppResult<
    InvoiceStatus,
>)
    ensures
        r is Ok <==> status == InvoiceStatus::Draft && value_order(subtotal@, zero_v()) != 0,
        r matches Ok(s) ==> s == InvoiceStatus::Issued,
        status != InvoiceStatus::Draft ==> fails_conflict(
            r,
            not_draft_message(invoice_id as int, status, DraftOp::Issue),
        ),
        status == InvoiceStatus::Draft && value_order(subtotal@, zero_v()) == 0
            ==> fails_unprocessable(r, "Cannot issue an invoice with no line items"@),
{
    ensure_draft(invoice_id, status, DraftOp::Issue)?;
    if eq_value(subtotal, &Dec::zero()) {
        return Err(AppError::UnprocessableEntity(owned("Cannot issue an invoice with no line items")));
    }
    Ok(InvoiceStatus::Issued)
}

} // verus!

verus! {

/// Issuing an invoice takes no fields: it moves a draft to issued.
#[derive(Debug)]
pub struct IssueInvoiceRequest {}

/// Filters of the invoice listing.
#[derive(Debug)]
pub struct InvoiceFilterQuery {
    /// `draft`, `issued`, `paid`, `cancelled` or `overdue`.
    pub status: Option<String>,
    pub counterparty: Option<String>,
}

impl InvoiceFilterQuery {
    /// The status filter, checked.
    pub fn status_filter(&self) -> (r: AppResult<Option<InvoiceStatus>>)
        ensures
            self.status is None ==> r is Ok && r->Ok_0 is None,
            self.status is Some ==> (r is Ok <==> invoice_status_of(self.status->0@) is Some),
            r is Ok && r->Ok_0 is Some ==> self.status is Some && invoice_status_of(self.status->0@)
                == r->Ok_0,
            r matches Err(e) ==> self.status is Some && is_bad_request(
                e,
                "Unknown status '"@ + self.status->0@
                    + "'. Valid: draft, issued, paid, cancelled, overdue"@,
            ),
    {
        match &self.status {
            Some(s) => Ok(Some(parse_status_filter(s.as_str())?)),
            None => Ok(None),
        }
    }
}

} // verus!

verus! {

// ── Responses ─────────────────────────────────────────────────────────────────

/// A stored invoice; its times are RFC 3339 texts.
#[derive(Debug)]
pub struct InvoiceRecord {
    pub id: i64,
    pub invoice_no: String,
    pub counterparty: String,
    pub issue_date: Ymd,
    pub tax_rate: Dec,
    pub subtotal: Dec,
    pub tax: Dec,
    pub discount_type: Option<String>,
    pub discount_value: Option<Dec>,
    pub discount_amount: Dec,
    pub total: Dec,
    pub status: InvoiceStatus,
    pub created_by: i64,
    pub created_at: String,
    pub updated_at: String,
}

/// A stored line item (its quantity aside); its time is an RFC 3339 text.
#[derive(Debug)]
pub struct LineRecord {
    pub id: i64,
    pub invoice_id: i64,
    pub description: String,
    pub pricing_model: PricingModel,
    pub unit_price: Dec,
    pub adjustment_type: Option<AdjustmentType>,
    pub adjustment_is_percentage: bool,
    pub adjustment_value: Option<Dec>,
    pub line_total: Dec,
    pub is_refund: bool,
    pub created_at: String,
}

/// An invoice as clients see it, its lines aside; amounts are decimal texts.
#[derive(Debug)]
pub struct InvoiceResponse {
    pub id: i64,
    pub invoice_no: String,
    pub counterparty: String,
    pub issue_date: String,
    pub tax_rate: String,
    pub subtotal: String,
    pub tax: String,
    pub discount_type: Option<String>,
    pub discount_value: Option<String>,
    pub discount_amount: String,
    pub total: String,
    pub status: String,
    pub created_by: i64,
    pub created_at: String,
    pub updated_at: String,
}

/// A line item as clients see it, its quantity aside; amounts are decimal texts.
#[derive(Debug)]
pub struct LineResponse {
    pub id: i64,
    pub invoice_id: i64,
    pub description: String,
    pub pricing_model: String,
    pub unit_price: String,
    pub adjustment_type: Option<String>,
    pub adjustment_is_percentage: bool,
    pub adjustment_value: Option<String>,
    pub line_total: String,
    pub is_refund: bool,
    pub created_at: String,
}

pub open spec fn opt_dec_text(d: Option<Dec>) -> Option<Seq<char>> {
    match d {
        Some(x) => Some(dec_text(x@)),
        None => None,
    }
}

fn opt_to_text(d: Option<Dec>) -> (r: Option<String>)
    ensures
        crate::text::opt_chars(r) == opt_dec_text(d),
{
    match d {
        Some(x) => Some(x.to_text()),
        None => None,
    }
}

/// The response for a stored invoice, its lines aside.
pub fn invoice_to_response(inv: InvoiceRecord) -> (r: InvoiceResponse)
    ensures
        r.id == inv.id,
        r.invoice_no@ == inv.invoice_no@,
        r.counterparty@ == inv.counterparty@,
        r.issue_date@ == crate::dates::date_text(inv.issue_date),
        r.tax_rate@ == dec_text(inv.tax_rate@),
        r.subtotal@ == dec_text(inv.subtotal@),
        r.tax@ == dec_text(inv.tax@),
        crate::text::opt_chars(r.discount_type) == crate::text::opt_chars(inv.discount_type),
        crate::text::opt_chars(r.discount_value) == opt_dec_text(inv.discount_value),
        r.discount_amount@ == dec_text(inv.discount_amount@),
        r.total@ == dec_text(inv.total@),
        r.status@ == invoice_status_name(inv.status),
        r.created_by == inv.created_by,
        r.created_at@ == inv.created_at@,
        r.updated_at@ == inv.updated_at@,
{
    InvoiceResponse {
        id: inv.id,
        issue_date: crate::dates::ymd_text(&inv.issue_date),
        tax_rate: inv.tax_rate.to_text(),
        subtotal: inv.subtotal.to_text(),
        tax: inv.tax.to_text(),
        discount_value: opt_to_text(inv.discount_value),
        discount_amount: inv.discount_amount.to_text(),
        total: inv.total.to_text(),
        status: owned(status_str(&inv.status)),
        invoice_no: inv.invoice_no,
        counterparty: inv.counterparty,
        discount_type: inv.discount_type,
        created_by: inv.created_by,
        created_at: inv.created_at,
        updated_at: inv.updated_at,
    }
}

/// The response for a stored line item, its quantity aside.
pub fn line_to_response(m: &LineRecord) -> (r: LineResponse)
    ensures
        r.id == m.id,
        r.invoice_id == m.invoice_id,
        r.description@ == m.description@,
        r.pricing_model@ == pricing_model_name(m.pricing_model),
        r.unit_price@ == dec_text(m.unit_price@),
        crate::text::opt_chars(r.adjustment_type) == (match m.adjustment_type {
            Some(a) => Some(adjustment_type_name(a)),
            None => None,
        }),
        r.adjustment_is_percentage == m.adjustment_is_percentage,
        crate::text::opt_chars(r.adjustment_value) == opt_dec_text(m.adjustment_value),
        r.line_total@ == dec_text(m.line_total@),
        r.is_refund == m.is_refund,
        r.created_at@ == m.created_at@,
{
    LineResponse {
        id: m.id,
        invoice_id: m.invoice_id,
        description: owned(m.description.as_str()),
        pricing_model: owned(pricing_model_str(&m.pricing_model)),
        unit_price: m.unit_price.to_text(),
        adjustment_type: match &m.adjustment_type {
            Some(a) => Some(owned(adjustment_type_str(a))),
            None => None,
        },
        adjustment_is_percentage: m.adjustment_is_percentage,
        adjustment_value: opt_to_text(m.adjustment_value),
        line_total: m.line_total.to_text(),
        is_refund: m.is_refund,
        created_at: owned(m.created_at.as_str()),
    }
}

/// The error for an invoice that does not exist.
pub fn invoice_not_found(invoice_id: i64) -> (r: AppError)
    ensures
        r matches AppError::NotFound(m) && m@ == "Invoice "@ + int_text(invoice_id as int)
            + " not found"@,
{
    let mut m = owned("Invoice ");
    push_str(&mut m, &i64_text(invoice_id));
    push_str(&mut m, " not found");
    AppError::NotFound(m)
}

} // verus!

verus! {

/// The error for a failed insert of invoice `invoice_no`: a conflict where the database
/// reports a uniqueness violation, else an internal error with its message.
pub fn invoice_insert_error(invoice_no: &str, db_message: &str) -> (r: AppError)
    ensures
        crate::text::has_substr(db_message@, "UNIQUE"@) ==> is_conflict(
            r,
            "Invoice number '"@ + invoice_no@ + "' already exists"@,
        ),
        !crate::text::has_substr(db_message@, "UNIQUE"@) ==> (r matches AppError::Internal(m) && m@
            == db_message@),
{
    if crate::text::contains_str(db_message, "UNIQUE") {
        let mut m = owned("Invoice number '");
        push_str(&mut m, invoice_no);
        push_str(&mut m, "' already exists");
        AppError::Conflict(m)
    } else {
        AppError::Internal(owned(db_message))
    }
}

} // verus!

verus! {

// ── Adding a line and applying a discount ─────────────────────────────────────

pub open spec fn opt_text_view(o: Option<String>) -> Option<Seq<char>> {
    match o {
        Some(s) => Some(s@),
        None => None,
    }
}

/// The amounts of invoice `inv` once a line of total `t` joins its stored line totals
/// `lines`, under its stored tax rate and discount.
pub open spec fn totals_after_line(inv: InvoiceRecord, lines: Seq<DecView>, t: DecView) -> Option<
    TotalsView,
> {
    totals_spec(
        lines.push(t),
        inv.tax_rate@,
        opt_text_view(inv.discount_type),
        opt_dec_view(inv.discount_value),
    )
}

fn copy_decs(v: &Vec<Dec>) -> (r: Vec<Dec>)
    ensures
        dec_views(r@) == dec_views(v@),
{
    let mut out: Vec<Dec> = Vec::new();
    let mut i: usize = 0;
    while i < v.len()
        invariant
            i <= v.len(),
            dec_views(out@) == dec_views(v@.take(i as int)),
        decreases v.len() - i,
    {
        let ghost before = out@;
        out.push(v[i]);
        assert(dec_views(out@) =~= dec_views(before).push(v@[i as int]@));
        assert(dec_views(v@.take(i + 1)) =~= dec_views(v@.take(i as int)).push(v@[i as int]@));
        i = i + 1;
    }
    assert(v@.take(v@.len() as int) =~= v@);
    out
}

/// Adds a line to invoice `inv`, whose stored line totals are `lines`: the new line's
/// total is computed, the invoice must be a draft, and its amounts are recomputed over
/// its stored lines followed by the new one, with its tax rate and discount as stored.
/// Returns the new line's total and the invoice's amounts.
pub fn plan_add_line(
    inv: &InvoiceRecord,
    lines: &Vec<Dec>,
    quantity: &Dec,
    unit_price: &Dec,
    adj_type: Option<AdjustmentType>,
    adj_is_pct: bool,
    adj_value: Option<Dec>,
) -> (r: AppResult<(Dec, InvoiceTotals)>)
    ensures
        ({
            let lt = line_total_spec(
                quantity@,
                unit_price@,
                adj_type,
                adj_is_pct,
                opt_dec_view(adj_value),
            );
            &&& r is Ok <==> lt is Some && inv.status == InvoiceStatus::Draft && totals_after_line(
                *inv,
                dec_views(lines@),
                lt->0,
            ) is Some
            &&& r matches Ok(p) ==> lt == Some(p.0@) && totals_after_line(
                *inv,
                dec_views(lines@),
                p.0@,
            ) == Some(p.1.view())
            &&& lt is None ==> (r matches Err(e) && is_overflow(e))
            &&& lt is Some && inv.status != InvoiceStatus::Draft ==> fails_conflict(
                r,
                not_draft_message(inv.id as int, inv.status, DraftOp::AddLine),
            )
            &&& lt is Some && inv.status == InvoiceStatus::Draft && totals_after_line(
                *inv,
                dec_views(lines@),
                lt->0,
            ) is None ==> (r matches Err(e) && is_overflow(e))
        }),
{
    let t = compute_line_total(quantity, unit_price, adj_type, adj_is_pct, adj_value)?;
    ensure_draft(inv.id, inv.status, DraftOp::AddLine)?;
    let mut all = copy_decs(lines);
    let ghost before = all@;
    all.push(t);
    assert(dec_views(all@) =~= dec_views(before).push(t@));
    let dt: Option<&str> = match &inv.discount_type {
        Some(s) => Some(s.as_str()),
        None => None,
    };
    let dv: Option<&Dec> = match &inv.discount_value {
        Some(d) => Some(d),
        None => None,
    };
    let tot = invoice_totals(&all, &inv.tax_rate, dt, dv)?;
    Ok((t, tot))
}

pub open spec fn discount_kind_name(k: DiscountKind) -> Seq<char> {
    match k {
        DiscountKind::Percentage => "percentage"@,
        DiscountKind::FixedAmount => "fixed_amount"@,
    }
}

/// The stored name of a discount kind.
pub fn discount_kind_str(k: DiscountKind) -> (r: &'static str)
    ensures
        r@ == discount_kind_name(k),
{
    match k {
        DiscountKind::Percentage => "percentage",
        DiscountKind::FixedAmount => "fixed_amount",
    }
}

/// The amounts of invoice `inv`, whose stored line totals are `lines`, with the
/// discount of kind `kind` and value `v` in place of any stored one.
pub open spec fn totals_with_discount(
    inv: InvoiceRecord,
    lines: Seq<DecView>,
    kind: DiscountKind,
    v: DecView,
) -> Option<TotalsView> {
    totals_spec(lines, inv.tax_rate@, Some(discount_kind_name(kind)), Some(v))
}

/// Applies a discount to invoice `inv`, whose stored line totals are `lines`: the
/// invoice must be a draft, and its amounts are recomputed over its lines with the new
/// discount replacing any earlier one.
pub fn plan_discount(inv: &InvoiceRecord, lines: &Vec<Dec>, kind: DiscountKind, value: &Dec) -> (r:
    AppResult<InvoiceTotals>)
    ensures
        r is Ok <==> inv.status == InvoiceStatus::Draft && totals_with_discount(
            *inv,
            dec_views(lines@),
            kind,
            value@,
        ) is Some,
        r matches Ok(t) ==> totals_with_discount(*inv, dec_views(lines@), kind, value@) == Some(
            t.view(),
        ),
        inv.status != InvoiceStatus::Draft ==> fails_conflict(
            r,
            not_draft_message(inv.id as int, inv.status, DraftOp::ApplyDiscount),
        ),
        inv.status == InvoiceStatus::Draft && totals_with_discount(
            *inv,
            dec_views(lines@),
            kind,
            value@,
        ) is None ==> (r matches Err(e) && is_overflow(e)),
{
    ensure_draft(inv.id, inv.status, DraftOp::ApplyDiscount)?;
    invoice_totals(lines, &inv.tax_rate, Some(discount_kind_str(kind)), Some(value))
}

/// A discount replaces any earlier one: the amounts it gives do not depend on the
/// discount stored before, so applying the same discount again gives the same amounts.
pub proof fn lemma_discount_replaces_earlier(
    a: InvoiceRecord,
    b: InvoiceRecord,
    lines: Seq<DecView>,
    kind: DiscountKind,
    v: DecView,
)
    requires
        a.tax_rate@ == b.tax_rate@,
    ensures
        totals_with_discount(a, lines, kind, v) == totals_with_discount(b, lines, kind, v),
{
}

} // verus!
