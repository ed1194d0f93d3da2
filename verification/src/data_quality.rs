//! Data-quality scans: per-entity metadata, request validation, FNV-1a hashing and
//! duplicate grouping.
use vstd::prelude::*;
use vstd::utf8::encode_utf8;

use crate::errors::{fails_bad_request, AppError, AppResult};
use crate::text::{
    int_text, i64_text, join_spec, join_strings, join_strs, owned, push_str, str_eq, str_views,
    string_views,
};

verus! {

// ── Per-entity metadata ───────────────────────────────────────────────────────

/// What a scan knows of a table: its name, the mandatory columns with the SQL
/// condition that is true when the value is missing, and the columns allowed (and used
/// by default) for outlier and duplicate checks.
#[derive(Debug)]
pub struct EntityMeta {
    pub table: &'static str,
    pub mandatory: Vec<(&'static str, &'static str)>,
    pub allowed_numeric: Vec<&'static str>,
    pub default_numeric: Vec<&'static str>,
    pub allowed_hash: Vec<&'static str>,
    pub default_hash: Vec<&'static str>,
}

#[verifier::ext_equal]
pub struct MetaView {
    pub table: Seq<char>,
    pub mandatory: Seq<(Seq<char>, Seq<char>)>,
    pub allowed_numeric: Seq<Seq<char>>,
    pub default_numeric: Seq<Seq<char>>,
    pub allowed_hash: Seq<Seq<char>>,
    pub default_hash: Seq<Seq<char>>,
}

pub open spec fn pair_views(v: Seq<(&'static str, &'static str)>) -> Seq<(Seq<char>, Seq<char>)> {
    v.map_values(|p: (&'static str, &'static str)| (p.0@, p.1@))
}

impl EntityMeta {
    pub open spec fn view(&self) -> MetaView {
        MetaView {
            table: self.table@,
            mandatory: pair_views(self.mandatory@),
            allowed_numeric: str_views(self.allowed_numeric@),
            default_numeric: str_views(self.default_numeric@),
            allowed_hash: str_views(self.allowed_hash@),
            default_hash: str_views(self.default_hash@),
        }
    }
}

pub open spec fn events_meta() -> MetaView {
    MetaView {
        table: "events"@,
        mandatory: seq![
            ("name"@, "TRIM(name) = ''"@),
            ("description"@, "description IS NULL OR TRIM(description) = ''"@),
            ("venue_identifier"@, "venue_identifier IS NULL OR TRIM(venue_identifier) = ''"@),
            ("schedule_group"@, "schedule_group IS NULL OR TRIM(schedule_group) = ''"@),
        ],
        allowed_numeric: seq![],
        default_numeric: seq![],
        allowed_hash: seq!["name"@, "venue_identifier"@, "schedule_group"@, "status"@],
        default_hash: seq!["name"@, "venue_identifier"@],
    }
}

pub open spec fn assets_meta() -> MetaView {
    MetaView {
        table: "assets"@,
        mandatory: seq![
            ("asset_code"@, "TRIM(asset_code) = ''"@),
            ("brand"@, "TRIM(brand) = ''"@),
            ("model"@, "TRIM(model) = ''"@),
            ("serial_number"@, "serial_number IS NULL OR TRIM(serial_number) = ''"@),
            ("procurement_cost"@, "procurement_cost IS NULL"@),
            ("procurement_date"@, "procurement_date IS NULL OR TRIM(procurement_date) = ''"@),
        ],
        allowed_numeric: seq!["procurement_cost"@, "useful_life_months"@],
        default_numeric: seq!["procurement_cost"@],
        allowed_hash: seq!["asset_code"@, "brand"@, "model"@, "serial_number"@, "category"@],
        default_hash: seq!["brand"@, "model"@, "serial_number"@],
    }
}

pub open spec fn vehicles_meta() -> MetaView {
    MetaView {
        table: "vehicles"@,
        mandatory: seq![
            ("vin"@, "TRIM(vin) = ''"@),
            ("registration_id"@, "TRIM(registration_id) = ''"@),
            ("make"@, "TRIM(make) = ''"@),
            ("model"@, "TRIM(model) = ''"@),
            ("color"@, "color IS NULL OR TRIM(color) = ''"@),
        ],
        allowed_numeric: seq!["year"@, "mileage"@, "title_transfer_count"@],
        default_numeric: seq!["mileage"@],
        allowed_hash: seq!["vin"@, "make"@, "model"@, "registration_id"@],
        default_hash: seq!["vin"@],
    }
}

pub open spec fn invoices_meta() -> MetaView {
    MetaView {
        table: "invoices"@,
        mandatory: seq![
            ("invoice_no"@, "TRIM(invoice_no) = ''"@),
            ("counterparty"@, "TRIM(counterparty) = ''"@),
        ],
        allowed_numeric: seq!["subtotal"@, "tax"@, "total"@],
        default_numeric: seq!["total"@],
        allowed_hash: seq!["invoice_no"@, "counterparty"@, "status"@],
        default_hash: seq!["invoice_no"@, "counterparty"@],
    }
}

pub open spec fn results_meta() -> MetaView {
    MetaView {
        table: "results"@,
        mandatory: seq![],
        allowed_numeric: seq!["value_numeric"@],
        default_numeric: seq!["value_numeric"@],
        allowed_hash: seq!["event_id"@, "participant_id"@, "attempt_no"@, "unit_enum"@],
        default_hash: seq!["event_id"@, "participant_id"@, "attempt_no"@],
    }
}

pub open spec fn payments_meta() -> MetaView {
    MetaView {
        table: "payment_entries"@,
        mandatory: seq![
            ("external_reference"@, "TRIM(external_reference) = ''"@),
            ("notes"@, "notes IS NULL OR TRIM(notes) = ''"@),
        ],
        allowed_numeric: seq!["amount"@],
        default_numeric: seq!["amount"@],
        allowed_hash: seq!["invoice_id"@, "external_reference"@, "method"@],
        default_hash: seq!["invoice_id"@, "external_reference"@],
    }
}

/// The metadata of the scannable entity named `entity` (its table name, or `payments`
/// for `payment_entries`).
pub open spec fn entity_meta_spec(entity: Seq<char>) -> Option<MetaView> {
    if entity == "events"@ {
        Some(events_meta())
    } else if entity == "assets"@ {
        Some(assets_meta())
    } else if entity == "vehicles"@ {
        Some(vehicles_meta())
    } else if entity == "invoices"@ {
        Some(invoices_meta())
    } else if entity == "results"@ {
        Some(results_meta())
    } else if entity == "payment_entries"@ || entity == "payments"@ {
        Some(payments_meta())
    } else {
        None
    }
}

pub open spec fn opt_meta_view(o: Option<EntityMeta>) -> Option<MetaView> {
    match o {
        Some(m) => Some(m.view()),
        None => None,
    }
}

/// The metadata of the entity named `entity`, if it can be scanned.
pub fn entity_meta(entity: &str) -> (r: Option<EntityMeta>)
    ensures
        opt_meta_view(r) == entity_meta_spec(entity@),
{
    if str_eq(entity, "events") {
        let m = EntityMeta {
            table: "events",
            mandatory: vec![
                ("name", "TRIM(name) = ''"),
                ("description", "description IS NULL OR TRIM(description) = ''"),
                ("venue_identifier", "venue_identifier IS NULL OR TRIM(venue_identifier) = ''"),
                ("schedule_group", "schedule_group IS NULL OR TRIM(schedule_group) = ''"),
            ],
            allowed_numeric: vec![],
            default_numeric: vec![],
            allowed_hash: vec!["name", "venue_identifier", "schedule_group", "status"],
            default_hash: vec!["name", "venue_identifier"],
        };
        proof {
            let want = events_meta();
            assert(m.view().table == want.table);
            assert(m.view().mandatory =~= want.mandatory);
            assert(m.view().allowed_numeric =~= want.allowed_numeric);
            assert(m.view().default_numeric =~= want.default_numeric);
            assert(m.view().allowed_hash =~= want.allowed_hash);
            assert(m.view().default_hash =~= want.default_hash);
        }
        Some(m)
    } else if str_eq(entity, "assets") {
        let m = EntityMeta {
            table: "assets",
            mandatory: vec![
                ("asset_code", "TRIM(asset_code) = ''"),
                ("brand", "TRIM(brand) = ''"),
                ("model", "TRIM(model) = ''"),
                ("serial_number", "serial_number IS NULL OR TRIM(serial_number) = ''"),
                ("procurement_cost", "procurement_cost IS NULL"),
                ("procurement_date", "procurement_date IS NULL OR TRIM(procurement_date) = ''"),
            ],
            allowed_numeric: vec!["procurement_cost", "useful_life_months"],
            default_numeric: vec!["procurement_cost"],
            allowed_hash: vec!["asset_code", "brand", "model", "serial_number", "category"],
            default_hash: vec!["brand", "model", "serial_number"],
        };
        proof {
            let want = assets_meta();
            assert(m.view().table == want.table);
            assert(m.view().mandatory =~= want.mandatory);
            assert(m.view().allowed_numeric =~= want.allowed_numeric);
            assert(m.view().default_numeric =~= want.default_numeric);
            assert(m.view().allowed_hash =~= want.allowed_hash);
            assert(m.view().default_hash =~= want.default_hash);
        }
        Some(m)
    } else if str_eq(entity, "vehicles") {
        let m = EntityMeta {
            table: "vehicles",
            mandatory: vec![
                ("vin", "TRIM(vin) = ''"),
                ("registration_id", "TRIM(registration_id) = ''"),
                ("make", "TRIM(make) = ''"),
                ("model", "TRIM(model) = ''"),
                ("color", "color IS NULL OR TRIM(color) = ''"),
            ],
            allowed_numeric: vec!["year", "mileage", "title_transfer_count"],
            default_numeric: vec!["mileage"],
            allowed_hash: vec!["vin", "make", "model", "registration_id"],
            default_hash: vec!["vin"],
        };
        proof {
            let want = vehicles_meta();
            assert(m.view().table == want.table);
            assert(m.view().mandatory =~= want.mandatory);
            assert(m.view().allowed_numeric =~= want.allowed_numeric);
            assert(m.view().default_numeric =~= want.default_numeric);
            assert(m.view().allowed_hash =~= want.allowed_hash);
            assert(m.view().default_hash =~= want.default_hash);
        }
        Some(m)
    } else if str_eq(entity, "invoices") {
        let m = EntityMeta {
            table: "invoices",
            mandatory: vec![
                ("invoice_no", "TRIM(invoice_no) = ''"),
                ("counterparty", "TRIM(counterparty) = ''"),
            ],
            allowed_numeric: vec!["subtotal", "tax", "total"],
            default_numeric: vec!["total"],
            allowed_hash: vec!["invoice_no", "counterparty", "status"],
            default_hash: vec!["invoice_no", "counterparty"],
        };
        proof {
            let want = invoices_meta();
            assert(m.view().table == want.table);
            assert(m.view().mandatory =~= want.mandatory);
            assert(m.view().allowed_numeric =~= want.allowed_numeric);
            assert(m.view().default_numeric =~= want.default_numeric);
            assert(m.view().allowed_hash =~= want.allowed_hash);
            assert(m.view().default_hash =~= want.default_hash);
        }
        Some(m)
    } else if str_eq(entity, "results") {
        let m = EntityMeta {
            table: "results",
            mandatory: vec![],
            allowed_numeric: vec!["value_numeric"],
            default_numeric: vec!["value_numeric"],
            allowed_hash: vec!["event_id", "participant_id", "attempt_no", "unit_enum"],
            default_hash: vec!["event_id", "participant_id", "attempt_no"],
        };
        proof {
            let want = results_meta();
            assert(m.view().table == want.table);
            assert(m.view().mandatory =~= want.mandatory);
            assert(m.view().allowed_numeric =~= want.allowed_numeric);
            assert(m.view().default_numeric =~= want.default_numeric);
            assert(m.view().allowed_hash =~= want.allowed_hash);
            assert(m.view().default_hash =~= want.default_hash);
        }
        Some(m)
    } else if str_eq(entity, "payment_entries") || str_eq(entity, "payments") {
        let m = EntityMeta {
            table: "payment_entries",
            mandatory: vec![
                ("external_reference", "TRIM(external_reference) = ''"),
                ("notes", "notes IS NULL OR TRIM(notes) = ''"),
            ],
            allowed_numeric: vec!["amount"],
            default_numeric: vec!["amount"],
            allowed_hash: vec!["invoice_id", "external_reference", "method"],
            default_hash: vec!["invoice_id", "external_reference"],
        };
        proof {
            let want = payments_meta();
            assert(m.view().table == want.table);
            assert(m.view().mandatory =~= want.mandatory);
            assert(m.view().allowed_numeric =~= want.allowed_numeric);
            assert(m.view().default_numeric =~= want.default_numeric);
            assert(m.view().allowed_hash =~= want.allowed_hash);
            assert(m.view().default_hash =~= want.default_hash);
        }
        Some(m)
    } else {
        None
    }
}

} // verus!

verus! {

// ── Request validation ────────────────────────────────────────────────────────

/// The checks a scan can run.
pub open spec fn valid_check(c: Seq<char>) -> bool {
    c == "missing_fields"@ || c == "outliers"@ || c == "duplicates"@
}

/// Checks the list of requested checks: at least one, each of them known.
pub fn validate_checks(checks: &Vec<String>) -> (r: AppResult<()>)
    ensures
        checks@.len() == 0 ==> fails_bad_request(
            r,
            "At least one check must be specified in 'checks'"@,
        ),
        r is Ok <==> checks@.len() > 0 && forall|i: int|
            0 <= i < checks@.len() ==> valid_check(#[trigger] checks@[i]@),
        checks@.len() > 0 && r is Err ==> exists|i: int|
            0 <= i < checks@.len() && !valid_check(#[trigger] checks@[i]@) && (forall|j: int|
                0 <= j < i ==> valid_check(#[trigger] checks@[j]@)) && fails_bad_request(
                r,
                "Unknown check '"@ + checks@[i]@
                    + "'. Supported: [missing_fields, outliers, duplicates]"@,
            ),
{
    if checks.len() == 0 {
        return Err(AppError::BadRequest(owned("At least one check must be specified in 'checks'")));
    }
    let mut i: usize = 0;
    while i < checks.len()
        invariant
            i <= checks.len(),
            forall|j: int| 0 <= j < i ==> valid_check(#[trigger] checks@[j]@),
        decreases checks.len() - i,
    {
        let c = checks[i].as_str();
        if !(str_eq(c, "missing_fields") || str_eq(c, "outliers") || str_eq(c, "duplicates")) {
            let mut m = owned("Unknown check '");
            push_str(&mut m, c);
            push_str(&mut m, "'. Supported: [missing_fields, outliers, duplicates]");
            let r = Err(AppError::BadRequest(m));
            assert(fails_bad_request(
                r,
                "Unknown check '"@ + checks@[i as int]@
                    + "'. Supported: [missing_fields, outliers, duplicates]"@,
            ));
            return r;
        }
        i = i + 1;
    }
    Ok(())
}

/// The fields a scan analyses, with defaults applied and checked against the entity.
#[derive(Debug)]
pub struct ScanPlan {
    pub meta: EntityMeta,
    pub numeric_fields: Vec<String>,
    pub hash_fields: Vec<String>,
}

/// Whether every one of `fields` is on the allow-list.
pub open spec fn all_allowed(fields: Seq<Seq<char>>, allowed: Seq<Seq<char>>) -> bool {
    forall|i: int| 0 <= i < fields.len() ==> allowed.contains(#[trigger] fields[i])
}

/// Whether `fields[i]` is the first field that is not on the allow-list.
pub open spec fn is_first_disallowed(fields: Seq<Seq<char>>, allowed: Seq<Seq<char>>, i: int) -> bool {
    &&& 0 <= i < fields.len()
    &&& !allowed.contains(fields[i])
    &&& forall|j: int| 0 <= j < i ==> allowed.contains(#[trigger] fields[j])
}

fn strs_to_strings(v: &Vec<&'static str>) -> (r: Vec<String>)
    ensures
        string_views(r@) == str_views(v@),
{
    let mut out: Vec<String> = Vec::new();
    let mut i: usize = 0;
    while i < v.len()
        invariant
            i <= v.len(),
            string_views(out@) == str_views(v@.take(i as int)),
        decreases v.len() - i,
    {
        let ghost before = out@;
        out.push(owned(v[i]));
        proof {
            assert(string_views(out@) =~= string_views(before).push(v@[i as int]@));
            assert(str_views(v@.take(i + 1)) =~= str_views(v@.take(i as int)).push(v@[i as int]@));
        }
        i = i + 1;
    }
    assert(v@.take(v.len() as int) =~= v@);
    out
}

fn find_disallowed(fields: &Vec<String>, allowed: &Vec<&'static str>) -> (r: Option<usize>)
    ensures
        r is None ==> forall|i: int|
            0 <= i < fields@.len() ==> str_views(allowed@).contains(#[trigger] fields@[i]@),
        r matches Some(i) ==> i < fields@.len() && !str_views(allowed@).contains(fields@[i as int]@)
            && forall|j: int| 0 <= j < i ==> str_views(allowed@).contains(#[trigger] fields@[j]@),
{
    let mut i: usize = 0;
    while i < fields.len()
        invariant
            i <= fields.len(),
            forall|j: int| 0 <= j < i ==> str_views(allowed@).contains(#[trigger] fields@[j]@),
        decreases fields.len() - i,
    {
        let mut found = false;
        let mut k: usize = 0;
        while k < allowed.len()
            invariant
                i < fields.len(),
                k <= allowed.len(),
                found ==> str_views(allowed@).contains(fields@[i as int]@),
                !found ==> forall|t: int| 0 <= t < k ==> allowed@[t]@ != fields@[i as int]@,
            decreases allowed.len() - k,
        {
            if !found && str_eq(fields[i].as_str(), allowed[k]) {
                found = true;
                assert(str_views(allowed@)[k as int] == fields@[i as int]@);
            }
            k = k + 1;
        }
        if !found {
            assert(!str_views(allowed@).contains(fields@[i as int]@)) by {
                if str_views(allowed@).contains(fields@[i as int]@) {
                    let t = choose|t: int| 0 <= t < str_views(allowed@).len() && str_views(allowed@)[t] == fields@[i as int]@;
                    assert(allowed@[t]@ == fields@[i as int]@);
                }
            }
            return Some(i);
        }
        i = i + 1;
    }
    None
}

/// The fields actually used: the requested ones, or the entity's defaults.
pub open spec fn effective_fields(requested: Option<Seq<Seq<char>>>, default: Seq<Seq<char>>) -> Seq<Seq<char>> {
    match requested {
        Some(f) => f,
        None => default,
    }
}

pub open spec fn opt_strings_view(o: Option<Vec<String>>) -> Option<Seq<Seq<char>>> {
    match o {
        Some(v) => Some(string_views(v@)),
        None => None,
    }
}

/// The message for a requested numeric field that is not on the entity's allow-list.
pub open spec fn bad_numeric_message(field: Seq<char>, entity: Seq<char>, m: MetaView) -> Seq<char> {
    "Field '"@ + field + "' is not valid for outlier analysis on '"@ + entity + "'. Allowed: ["@
        + join_spec(m.allowed_numeric, ", "@) + "]"@
}

/// The message for a requested hash field that is not on the entity's allow-list.
pub open spec fn bad_hash_message(field: Seq<char>, entity: Seq<char>, m: MetaView) -> Seq<char> {
    "Field '"@ + field + "' is not valid for duplicate detection on '"@ + entity + "'. Allowed: ["@
        + join_spec(m.allowed_hash, ", "@) + "]"@
}

/// What resolving a scan of a known entity `m` with the fields `nf` and `hf` gives:
/// the plan when every field is allowed; else the error for the first numeric field
/// that is not, or failing that the first hash field that is not.
pub open spec fn scan_outcome(
    entity: Seq<char>,
    m: MetaView,
    nf: Seq<Seq<char>>,
    hf: Seq<Seq<char>>,
    r: AppResult<ScanPlan>,
) -> bool {
    &&& (r is Ok <==> all_allowed(nf, m.allowed_numeric) && all_allowed(hf, m.allowed_hash))
    &&& (r matches Ok(p) ==> p.meta.view() == m && string_views(p.numeric_fields@) == nf
        && string_views(p.hash_fields@) == hf)
    &&& forall|i: int| #[trigger]
        is_first_disallowed(nf, m.allowed_numeric, i) ==> fails_bad_request(
            r,
            bad_numeric_message(nf[i], entity, m),
        )
    &&& forall|i: int|
        all_allowed(nf, m.allowed_numeric) && #[trigger] is_first_disallowed(hf, m.allowed_hash, i)
            ==> fails_bad_request(r, bad_hash_message(hf[i], entity, m))
}

/// Resolves the entity and the fields of a scan: the entity must be known; the numeric
/// and hash fields default to the entity's, and each must be on its allow-list.
pub fn resolve_scan(
    entity: &str,
    numeric_fields: Option<Vec<String>>,
    hash_fields: Option<Vec<String>>,
) -> (r: AppResult<ScanPlan>)
    ensures
        entity_meta_spec(entity@) is None ==> fails_bad_request(
            r,
            "Unknown entity '"@ + entity@
                + "'. Supported: events, assets, vehicles, invoices, results, payments"@,
        ),
        entity_meta_spec(entity@) is Some ==> scan_outcome(
            entity@,
            entity_meta_spec(entity@)->0,
            effective_fields(
                opt_strings_view(numeric_fields),
                entity_meta_spec(entity@)->0.default_numeric,
            ),
            effective_fields(opt_strings_view(hash_fields), entity_meta_spec(entity@)->0.default_hash),
            r,
        ),
{
    let meta = match entity_meta(entity) {
        Some(m) => m,
        None => {
            let mut m = owned("Unknown entity '");
            push_str(&mut m, entity);
            push_str(&mut m, "'. Supported: events, assets, vehicles, invoices, results, payments");
            return Err(AppError::BadRequest(m));
        },
    };
    let numeric: Vec<String> = match numeric_fields {
        Some(v) => v,
        None => strs_to_strings(&meta.default_numeric),
    };
    let hash: Vec<String> = match hash_fields {
        Some(v) => v,
        None => strs_to_strings(&meta.default_hash),
    };
    match find_disallowed(&numeric, &meta.allowed_numeric) {
        Some(i) => {
            let mut m = owned("Field '");
            push_str(&mut m, numeric[i].as_str());
            push_str(&mut m, "' is not valid for outlier analysis on '");
            push_str(&mut m, entity);
            push_str(&mut m, "'. Allowed: [");
            push_str(&mut m, &join_strs(&meta.allowed_numeric, ", "));
            push_str(&mut m, "]");
            proof {
                let nf = string_views(numeric@);
                let mv = meta.view();
                assert(nf[i as int] == numeric@[i as int]@);
                assert(is_first_disallowed(nf, mv.allowed_numeric, i as int));
                assert forall|j: int| is_first_disallowed(nf, mv.allowed_numeric, j) implies j
                    == i by {
                    if j < i {
                        assert(mv.allowed_numeric.contains(numeric@[j]@));
                    }
                }
                assert(m@ == bad_numeric_message(nf[i as int], entity@, mv));
            }
            return Err(AppError::BadRequest(m));
        },
        None => {},
    }
    match find_disallowed(&hash, &meta.allowed_hash) {
        Some(i) => {
            let mut m = owned("Field '");
            push_str(&mut m, hash[i].as_str());
            push_str(&mut m, "' is not valid for duplicate detection on '");
            push_str(&mut m, entity);
            push_str(&mut m, "'. Allowed: [");
            push_str(&mut m, &join_strs(&meta.allowed_hash, ", "));
            push_str(&mut m, "]");
            proof {
                let nf = string_views(numeric@);
                let hf = string_views(hash@);
                let mv = meta.view();
                assert(all_allowed(nf, mv.allowed_numeric)) by {
                    assert forall|j: int| 0 <= j < nf.len() implies mv.allowed_numeric.contains(
                        #[trigger] nf[j],
                    ) by {
                        assert(mv.allowed_numeric.contains(numeric@[j]@));
                    }
                }
                assert(hf[i as int] == hash@[i as int]@);
                assert(is_first_disallowed(hf, mv.allowed_hash, i as int));
                assert forall|j: int| is_first_disallowed(hf, mv.allowed_hash, j) implies j == i by {
                    if j < i {
                        assert(mv.allowed_hash.contains(hash@[j]@));
                    }
                }
                assert(m@ == bad_hash_message(hf[i as int], entity@, mv));
            }
            return Err(AppError::BadRequest(m));
        },
        None => {},
    }
    Ok(ScanPlan { meta, numeric_fields: numeric, hash_fields: hash })
}

} // verus!

verus! {

// ── FNV-1a ────────────────────────────────────────────────────────────────────

/// The 64-bit FNV offset basis.
pub const FNV_OFFSET: u64 = 14695981039346656037u64;

/// The 64-bit FNV prime.
pub const FNV_PRIME: u64 = 1099511628211u64;

/// One FNV-1a round: xor the byte in, then multiply by the prime modulo 2^64.
pub open spec fn fnv1a_step(h: u64, b: u8) -> u64 {
    (((h ^ (b as u64)) as nat * FNV_PRIME as nat) % 0x1_0000_0000_0000_0000nat) as u64
}

/// FNV-1a of a byte string.
pub open spec fn fnv1a_bytes(bytes: Seq<u8>) -> u64
    decreases bytes.len(),
{
    if bytes.len() == 0 {
        FNV_OFFSET
    } else {
        fnv1a_step(fnv1a_bytes(bytes.drop_last()), bytes.last())
    }
}

/// FNV-1a (64-bit) of the UTF-8 bytes of `data`.
pub fn fnv1a_hash(data: &str) -> (h: u64)
    ensures
        h == fnv1a_bytes(encode_utf8(data@)),
{
    let bytes = data.as_bytes();
    let mut h: u64 = FNV_OFFSET;
    let mut i: usize = 0;
    while i < bytes.len()
        invariant
            i <= bytes@.len(),
            bytes@ == encode_utf8(data@),
            h == fnv1a_bytes(bytes@.take(i as int)),
        decreases bytes.len() - i,
    {
        assert(bytes@.take(i + 1).drop_last() =~= bytes@.take(i as int));
        let x: u64 = h ^ (bytes[i] as u64);
        h = x.wrapping_mul(FNV_PRIME);
        i = i + 1;
    }
    assert(bytes@.take(bytes@.len() as int) =~= bytes@);
    h
}

} // verus!

verus! {

// ── Anomalies ─────────────────────────────────────────────────────────────────

/// One data-quality finding on one record.
#[derive(Debug)]
pub struct Anomaly {
    /// The check that raised it: `missing_fields`, `outliers` or `duplicates`.
    pub check: String,
    /// The primary key of the record.
    pub record_id: i64,
    /// The column concerned (none for duplicates).
    pub field: Option<String>,
    pub detail: String,
    /// `low`, `medium` or `high`.
    pub severity: String,
}

#[verifier::ext_equal]
pub struct AnomalyView {
    pub check: Seq<char>,
    pub record_id: i64,
    pub field: Option<Seq<char>>,
    pub detail: Seq<char>,
    pub severity: Seq<char>,
}

impl Anomaly {
    pub open spec fn view(&self) -> AnomalyView {
        AnomalyView {
            check: self.check@,
            record_id: self.record_id,
            field: match self.field {
                Some(f) => Some(f@),
                None => None,
            },
            detail: self.detail@,
            severity: self.severity@,
        }
    }
}

pub open spec fn anomaly_views(v: Seq<Anomaly>) -> Seq<AnomalyView> {
    v.map_values(|a: Anomaly| a.view())
}

/// The finding for a record whose mandatory column `col` is null or empty.
pub open spec fn missing_anomaly(col: Seq<char>, id: i64) -> AnomalyView {
    AnomalyView {
        check: "missing_fields"@,
        record_id: id,
        field: Some(col),
        detail: "Required field '"@ + col + "' is null or empty"@,
        severity: "high"@,
    }
}

/// The findings for the records `ids` whose mandatory column `col` is null or empty,
/// one each, in the order given.
pub fn missing_field_anomalies(col: &str, ids: &Vec<i64>) -> (r: Vec<Anomaly>)
    ensures
        anomaly_views(r@) == ids@.map_values(|id: i64| missing_anomaly(col@, id)),
{
    let mut out: Vec<Anomaly> = Vec::new();
    let mut i: usize = 0;
    while i < ids.len()
        invariant
            i <= ids.len(),
            anomaly_views(out@) == ids@.take(i as int).map_values(|id: i64| missing_anomaly(col@, id)),
        decreases ids.len() - i,
    {
        let mut detail = owned("Required field '");
        push_str(&mut detail, col);
        push_str(&mut detail, "' is null or empty");
        let a = Anomaly {
            check: owned("missing_fields"),
            record_id: ids[i],
            field: Some(owned(col)),
            detail,
            severity: owned("high"),
        };
        let ghost before = out@;
        out.push(a);
        proof {
            assert(a.view() =~= missing_anomaly(col@, ids@[i as int]));
            assert(anomaly_views(out@) =~= anomaly_views(before).push(a.view()));
            assert(ids@.take(i + 1).map_values(|id: i64| missing_anomaly(col@, id)) =~= ids@.take(
                i as int,
            ).map_values(|id: i64| missing_anomaly(col@, id)).push(missing_anomaly(col@, ids@[i as int])));
        }
        i = i + 1;
    }
    assert(ids@.take(ids@.len() as int) =~= ids@);
    out
}

} // verus!

verus! {

// ── Duplicate groups ──────────────────────────────────────────────────────────

/// One record as read for duplicate detection: its id and the text of each hash
/// column (`None` where the column is null).
#[derive(Debug)]
pub struct KeyRow {
    pub id: i64,
    pub values: Vec<Option<String>>,
}

pub open spec fn opt_text(v: Option<String>) -> Option<Seq<char>> {
    match v {
        Some(s) => Some(s@),
        None => None,
    }
}

/// The key under which a record is grouped: the values of its hash columns, a null
/// kept apart from any text.
pub open spec fn key_of(values: Seq<Option<String>>) -> Seq<Option<Seq<char>>> {
    values.map_values(|v: Option<String>| opt_text(v))
}

/// Each record as the pair of its key and its id.
pub open spec fn keyed_rows(rows: Seq<KeyRow>) -> Seq<(Seq<Option<Seq<char>>>, i64)> {
    rows.map_values(|r: KeyRow| (key_of(r.values@), r.id))
}

/// The distinct values of `hs`, each where it first occurs.
pub open spec fn first_seen<K>(hs: Seq<K>) -> Seq<K>
    decreases hs.len(),
{
    if hs.len() == 0 {
        Seq::empty()
    } else if hs.drop_last().contains(hs.last()) {
        first_seen(hs.drop_last())
    } else {
        first_seen(hs.drop_last()).push(hs.last())
    }
}

/// The ids of the records whose key is `h`, in record order.
pub open spec fn ids_with<K>(rows: Seq<(K, i64)>, h: K) -> Seq<i64>
    decreases rows.len(),
{
    if rows.len() == 0 {
        Seq::empty()
    } else if rows.last().0 == h {
        ids_with(rows.drop_last(), h).push(rows.last().1)
    } else {
        ids_with(rows.drop_last(), h)
    }
}

pub open spec fn keys_of<K>(rows: Seq<(K, i64)>) -> Seq<K> {
    rows.map_values(|p: (K, i64)| p.0)
}

/// The groups of ids that share a key, in the order in which each key first occurs.
pub open spec fn dup_groups<K>(rows: Seq<(K, i64)>) -> Seq<Seq<i64>> {
    first_seen(keys_of(rows)).map_values(|h: K| ids_with(rows, h))
}

/// The finding for record `id` of the duplicate group `ids`.
pub open spec fn dup_anomaly(field_list: Seq<char>, ids: Seq<i64>, id: i64) -> AnomalyView {
    AnomalyView {
        check: "duplicates"@,
        record_id: id,
        field: None,
        detail: "Duplicate group on fields ["@ + field_list + "]: records ["@ + join_spec(
            ids.map_values(|i: i64| int_text(i as int)),
            ", "@,
        ) + "]"@,
        severity: "medium"@,
    }
}

/// The findings of the groups in order: one per member of each group with more than one.
pub open spec fn group_anomalies(field_list: Seq<char>, groups: Seq<Seq<i64>>) -> Seq<AnomalyView>
    decreases groups.len(),
{
    if groups.len() == 0 {
        Seq::empty()
    } else {
        let g = groups.last();
        group_anomalies(field_list, groups.drop_last()) + if g.len() > 1 {
            g.map_values(|id: i64| dup_anomaly(field_list, g, id))
        } else {
            Seq::empty()
        }
    }
}

/// Whether two records have the same values in their hash columns.
fn same_values(a: &Vec<Option<String>>, b: &Vec<Option<String>>) -> (r: bool)
    ensures
        r == (key_of(a@) == key_of(b@)),
{
    if a.len() != b.len() {
        assert(key_of(a@).len() != key_of(b@).len());
        return false;
    }
    let mut i: usize = 0;
    while i < a.len()
        invariant
            i <= a.len() == b.len(),
            forall|j: int| 0 <= j < i ==> opt_text(a@[j]) == opt_text(b@[j]),
        decreases a.len() - i,
    {
        let same = match (&a[i], &b[i]) {
            (None, None) => true,
            (Some(x), Some(y)) => str_eq(x.as_str(), y.as_str()),
            _ => false,
        };
        if !same {
            assert(key_of(a@)[i as int] != key_of(b@)[i as int]);
            return false;
        }
        i = i + 1;
    }
    assert(key_of(a@) =~= key_of(b@));
    true
}

/// The rows at which each key first occurs, in record order.
fn distinct_keys(rows: &Vec<KeyRow>) -> (r: Vec<usize>)
    ensures
        forall|k: int| 0 <= k < r@.len() ==> r@[k] < rows@.len(),
        r@.map_values(|i: usize| key_of(rows@[i as int].values@)) == first_seen(
            keys_of(keyed_rows(rows@)),
        ),
{
    let ghost ks = keys_of(keyed_rows(rows@));
    assert forall|t: int| 0 <= t < rows@.len() implies #[trigger] ks[t] == key_of(rows@[t].values@) by {}
    let mut out: Vec<usize> = Vec::new();
    let mut i: usize = 0;
    while i < rows.len()
        invariant
            i <= rows.len(),
            ks == keys_of(keyed_rows(rows@)),
            ks.len() == rows@.len(),
            forall|t: int| 0 <= t < rows@.len() ==> #[trigger] ks[t] == key_of(rows@[t].values@),
            forall|k: int| 0 <= k < out@.len() ==> out@[k] < rows@.len(),
            out@.map_values(|x: usize| key_of(rows@[x as int].values@)) == first_seen(ks.take(i as int)),
        decreases rows.len() - i,
    {
        let mut seen = false;
        let mut j: usize = 0;
        while j < i
            invariant
                i < rows.len(),
                j <= i,
                forall|t: int| 0 <= t < rows@.len() ==> #[trigger] ks[t] == key_of(rows@[t].values@),
                ks.len() == rows@.len(),
                seen <==> exists|t: int| 0 <= t < j && ks[t] == ks[i as int],
            decreases i - j,
        {
            assert(ks[j as int] == key_of(rows@[j as int].values@));
            assert(ks[i as int] == key_of(rows@[i as int].values@));
            if same_values(&rows[j].values, &rows[i].values) {
                seen = true;
            }
            j = j + 1;
        }
        let ghost before = out@;
        proof {
            let hs = ks.take(i + 1);
            assert(hs.drop_last() =~= ks.take(i as int));
            assert(hs.last() == ks[i as int]);
            if seen {
                let t = choose|t: int| 0 <= t < i && ks[t] == ks[i as int];
                assert(hs.drop_last()[t] == ks[i as int]);
            } else {
                assert(!hs.drop_last().contains(ks[i as int])) by {
                    if hs.drop_last().contains(ks[i as int]) {
                        let t = choose|t: int| 0 <= t < hs.drop_last().len() && hs.drop_last()[t] == ks[i as int];
                        assert(ks[t] == ks[i as int]);
                    }
                }
            }
        }
        if !seen {
            out.push(i);
            proof {
                assert(out@.map_values(|x: usize| key_of(rows@[x as int].values@)) =~= before.map_values(
                    |x: usize| key_of(rows@[x as int].values@),
                ).push(ks[i as int]));
            }
        }
        i = i + 1;
    }
    assert(ks.take(rows@.len() as int) =~= ks);
    out
}

/// The ids of the records whose key is that of `values`, in record order.
fn ids_for(rows: &Vec<KeyRow>, values: &Vec<Option<String>>) -> (r: Vec<i64>)
    ensures
        r@ == ids_with(keyed_rows(rows@), key_of(values@)),
{
    let ghost kr = keyed_rows(rows@);
    let mut out: Vec<i64> = Vec::new();
    let mut i: usize = 0;
    while i < rows.len()
        invariant
            i <= rows.len(),
            kr == keyed_rows(rows@),
            out@ == ids_with(kr.take(i as int), key_of(values@)),
        decreases rows.len() - i,
    {
        assert(kr.take(i + 1).drop_last() =~= kr.take(i as int));
        assert(kr.take(i + 1).last() == (key_of(rows@[i as int].values@), rows@[i as int].id));
        if same_values(&rows[i].values, values) {
            out.push(rows[i].id);
        }
        i = i + 1;
    }
    assert(kr.take(rows@.len() as int) =~= kr);
    out
}

fn id_list_text(ids: &Vec<i64>) -> (r: String)
    ensures
        r@ == join_spec(ids@.map_values(|i: i64| int_text(i as int)), ", "@),
{
    let mut parts: Vec<String> = Vec::new();
    let mut k: usize = 0;
    while k < ids.len()
        invariant
            k <= ids.len(),
            string_views(parts@) == ids@.take(k as int).map_values(|i: i64| int_text(i as int)),
        decreases ids.len() - k,
    {
        let t = i64_text(ids[k]);
        let ghost before = parts@;
        parts.push(t);
        proof {
            assert(string_views(parts@) =~= string_views(before).push(t@));
            assert(ids@.take(k + 1).map_values(|i: i64| int_text(i as int)) =~= ids@.take(
                k as int,
            ).map_values(|i: i64| int_text(i as int)).push(int_text(ids@[k as int] as int)));
        }
        k = k + 1;
    }
    assert(ids@.take(ids@.len() as int) =~= ids@);
    join_strings(&parts, ", ")
}

/// The duplicate findings of a table read as `rows`, on the columns `fields`: records
/// whose values in those columns are identical (a null apart from any text) form a
/// group, and each member of a group of two or more gets a finding that lists the
/// whole group. Groups come in the order in which their values first occur.
pub fn duplicate_anomalies(fields: &Vec<String>, rows: &Vec<KeyRow>) -> (r: Vec<Anomaly>)
    ensures
        anomaly_views(r@) == group_anomalies(
            join_spec(string_views(fields@), ", "@),
            dup_groups(keyed_rows(rows@)),
        ),
{
    let field_list = join_strings(fields, ", ");
    let order = distinct_keys(rows);
    let ghost kr = keyed_rows(rows@);
    let ghost groups = dup_groups(kr);
    let mut out: Vec<Anomaly> = Vec::new();
    let mut g: usize = 0;
    while g < order.len()
        invariant
            g <= order.len(),
            forall|k: int| 0 <= k < order@.len() ==> order@[k] < rows@.len(),
            order@.map_values(|i: usize| key_of(rows@[i as int].values@)) == first_seen(keys_of(kr)),
            kr == keyed_rows(rows@),
            groups == dup_groups(kr),
            anomaly_views(out@) == group_anomalies(field_list@, groups.take(g as int)),
        decreases order.len() - g,
    {
        let ids = ids_for(rows, &rows[order[g]].values);
        proof {
            assert(order@.map_values(|i: usize| key_of(rows@[i as int].values@))[g as int] == key_of(
                rows@[order@[g as int] as int].values@,
            ));
        }
        let ghost before = out@;
        proof {
            assert(groups.take(g + 1).drop_last() =~= groups.take(g as int));
            assert(groups.take(g + 1).last() == ids@);
        }
        if ids.len() > 1 {
            let dup_ids = id_list_text(&ids);
            let mut detail = owned("Duplicate group on fields [");
            push_str(&mut detail, field_list.as_str());
            push_str(&mut detail, "]: records [");
            push_str(&mut detail, dup_ids.as_str());
            push_str(&mut detail, "]");
            let mut k: usize = 0;
            while k < ids.len()
                invariant
                    k <= ids.len(),
                    ids.len() > 1,
                    detail@ == dup_anomaly(field_list@, ids@, 0).detail,
                    anomaly_views(out@) == anomaly_views(before) + ids@.take(k as int).map_values(
                        |id: i64| dup_anomaly(field_list@, ids@, id),
                    ),
                decreases ids.len() - k,
            {
                let a = Anomaly {
                    check: owned("duplicates"),
                    record_id: ids[k],
                    field: None,
                    detail: owned(detail.as_str()),
                    severity: owned("medium"),
                };
                let ghost mid = out@;
                out.push(a);
                proof {
                    assert(a.view() =~= dup_anomaly(field_list@, ids@, ids@[k as int]));
                    assert(anomaly_views(out@) =~= anomaly_views(mid).push(a.view()));
                    assert(ids@.take(k + 1).map_values(|id: i64| dup_anomaly(field_list@, ids@, id))
                        =~= ids@.take(k as int).map_values(
                        |id: i64| dup_anomaly(field_list@, ids@, id),
                    ).push(dup_anomaly(field_list@, ids@, ids@[k as int])));
                }
                k = k + 1;
            }
            assert(ids@.take(ids@.len() as int) =~= ids@);
        } else {
            assert(anomaly_views(out@) =~= anomaly_views(before) + Seq::<AnomalyView>::empty());
        }
        g = g + 1;
    }
    assert(groups.take(order@.len() as int) =~= groups);
    out
}

} // verus!

verus! {

/// A scan in a listing, without its findings.
#[derive(Debug)]
pub struct ScanSummary {
    pub id: i64,
    pub entity: String,
    pub checks_run: Vec<String>,
    pub total_records: i64,
    pub anomaly_count: i64,
    pub created_by: i64,
    pub created_at: String,
}

/// The error for a scan that does not exist.
pub fn scan_not_found(id: i64) -> (r: AppError)
    ensures
        r matches AppError::NotFound(m) && m@ == "Scan "@ + int_text(id as int) + " not found"@,
{
    let mut m = owned("Scan ");
    push_str(&mut m, &i64_text(id));
    push_str(&mut m, " not found");
    AppError::NotFound(m)
}

/// Filters of the scan listing.
#[derive(Debug)]
pub struct ScanListQuery {
    /// Only scans of this entity.
    pub entity: Option<String>,
    /// At most this many: 20 by default, 100 at most.
    pub limit: Option<u64>,
}

impl ScanListQuery {
    /// How many scans the listing returns.
    pub fn effective_limit(&self) -> (r: u64)
        ensures
            r == match self.limit {
                Some(l) => if l < 100 {
                    l
                } else {
                    100
                },
                None => 20,
            },
    {
        let l = match self.limit {
            Some(l) => l,
            None => 20,
        };
        if l < 100 {
            l
        } else {
            100
        }
    }
}

} // verus!

verus! {

// ── Running a scan ────────────────────────────────────────────────────────────

/// One check of a scan, as it is run.
#[derive(Debug, Clone, Copy, PartialEq, Eq, Structural)]
pub enum ScanStep {
    MissingFields,
    Outliers,
    Duplicates,
}

/// The steps of the checks `checks`, in order: outliers only with numeric fields,
/// duplicates only with hash fields.
pub open spec fn steps_of(checks: Seq<Seq<char>>, has_numeric: bool, has_hash: bool) -> Seq<ScanStep>
    decreases checks.len(),
{
    if checks.len() == 0 {
        Seq::empty()
    } else {
        let c = checks.last();
        steps_of(checks.drop_last(), has_numeric, has_hash) + if c == "missing_fields"@ {
            seq![ScanStep::MissingFields]
        } else if c == "outliers"@ && has_numeric {
            seq![ScanStep::Outliers]
        } else if c == "duplicates"@ && has_hash {
            seq![ScanStep::Duplicates]
        } else {
            Seq::empty()
        }
    }
}

/// Each requested check adds its own step, whatever the other field kinds: asking for
/// one more check appends the missing-fields step always, the outliers step exactly when
/// the entity has numeric fields (whether or not it has hash fields), and the
/// duplicates step exactly when it has hash fields (whether or not it has numeric
/// fields); no check adds more than one step.
pub proof fn lemma_each_check_adds_its_step(
    checks: Seq<Seq<char>>,
    has_numeric: bool,
    has_hash: bool,
)
    ensures
        steps_of(checks.push("missing_fields"@), has_numeric, has_hash) == steps_of(
            checks,
            has_numeric,
            has_hash,
        ).push(ScanStep::MissingFields),
        has_numeric ==> steps_of(checks.push("outliers"@), has_numeric, has_hash) == steps_of(
            checks,
            has_numeric,
            has_hash,
        ).push(ScanStep::Outliers),
        !has_numeric ==> steps_of(checks.push("outliers"@), has_numeric, has_hash) == steps_of(
            checks,
            has_numeric,
            has_hash,
        ),
        has_hash ==> steps_of(checks.push("duplicates"@), has_numeric, has_hash) == steps_of(
            checks,
            has_numeric,
            has_hash,
        ).push(ScanStep::Duplicates),
        !has_hash ==> steps_of(checks.push("duplicates"@), has_numeric, has_hash) == steps_of(
            checks,
            has_numeric,
            has_hash,
        ),
        steps_of(checks, has_numeric, has_hash).len() <= checks.len(),
    decreases checks.len(),
{
    reveal_strlit("missing_fields");
    reveal_strlit("outliers");
    reveal_strlit("duplicates");
    assert("outliers"@ != "missing_fields"@) by {
        assert("outliers"@[0] != "missing_fields"@[0]);
    }
    assert("duplicates"@ != "missing_fields"@) by {
        assert("duplicates"@[0] != "missing_fields"@[0]);
    }
    assert("duplicates"@ != "outliers"@) by {
        assert("duplicates"@[0] != "outliers"@[0]);
    }
    let base = steps_of(checks, has_numeric, has_hash);
    assert(checks.push("missing_fields"@).drop_last() =~= checks);
    assert(checks.push("outliers"@).drop_last() =~= checks);
    assert(checks.push("duplicates"@).drop_last() =~= checks);
    assert(base + seq![ScanStep::MissingFields] =~= base.push(ScanStep::MissingFields));
    assert(base + seq![ScanStep::Outliers] =~= base.push(ScanStep::Outliers));
    assert(base + seq![ScanStep::Duplicates] =~= base.push(ScanStep::Duplicates));
    assert(base + Seq::<ScanStep>::empty() =~= base);
    if checks.len() > 0 {
        lemma_each_check_adds_its_step(checks.drop_last(), has_numeric, has_hash);
    }
}

/// The steps a scan runs for its checks, in the order asked.
pub fn scan_steps(checks: &Vec<String>, has_numeric: bool, has_hash: bool) -> (r: Vec<ScanStep>)
    ensures
        r@ == steps_of(string_views(checks@), has_numeric, has_hash),
{
    let mut out: Vec<ScanStep> = Vec::new();
    let mut i: usize = 0;
    while i < checks.len()
        invariant
            i <= checks@.len(),
            out@ == steps_of(string_views(checks@.take(i as int)), has_numeric, has_hash),
        decreases checks.len() - i,
    {
        assert(string_views(checks@.take(i + 1)).drop_last() =~= string_views(checks@.take(i as int)));
        assert(string_views(checks@.take(i + 1)).last() == checks@[i as int]@);
        let c = checks[i].as_str();
        if str_eq(c, "missing_fields") {
            out.push(ScanStep::MissingFields);
        } else if str_eq(c, "outliers") && has_numeric {
            out.push(ScanStep::Outliers);
        } else if str_eq(c, "duplicates") && has_hash {
            out.push(ScanStep::Duplicates);
        }
        i = i + 1;
    }
    assert(checks@.take(checks@.len() as int) =~= checks@);
    out
}

/// The query counting the rows of `table`.
pub fn count_query(table: &str) -> (r: String)
    ensures
        r@ == "SELECT COUNT(*) AS cnt FROM "@ + table@,
{
    let mut q = owned("SELECT COUNT(*) AS cnt FROM ");
    push_str(&mut q, table);
    q
}

/// The query of the ids of the rows of `table` where `condition` holds.
pub fn missing_query(table: &str, condition: &str) -> (r: String)
    ensures
        r@ == "SELECT id FROM "@ + table@ + " WHERE "@ + condition@,
{
    let mut q = owned("SELECT id FROM ");
    push_str(&mut q, table);
    push_str(&mut q, " WHERE ");
    push_str(&mut q, condition);
    q
}

/// The query of the ids and numeric values of `field` in `table`, where not null.
pub fn outlier_query(table: &str, field: &str) -> (r: String)
    ensures
        r@ == "SELECT id, CAST("@ + field@ + " AS REAL) AS val FROM "@ + table@ + " WHERE "@ + field@
            + " IS NOT NULL"@,
{
    let mut q = owned("SELECT id, CAST(");
    push_str(&mut q, field);
    push_str(&mut q, " AS REAL) AS val FROM ");
    push_str(&mut q, table);
    push_str(&mut q, " WHERE ");
    push_str(&mut q, field);
    push_str(&mut q, " IS NOT NULL");
    q
}

/// The column `f` read as text under its own name.
pub open spec fn text_column(f: Seq<char>) -> Seq<char> {
    "CAST("@ + f + " AS TEXT) AS "@ + f
}

/// The query of the ids of `table` with the hash fields `fields` read as text.
pub fn duplicate_query(table: &str, fields: &Vec<String>) -> (r: String)
    ensures
        r@ == "SELECT id, "@ + join_spec(
            string_views(fields@).map_values(|f: Seq<char>| text_column(f)),
            ", "@,
        ) + " FROM "@ + table@,
{
    let mut cols: Vec<String> = Vec::new();
    let mut i: usize = 0;
    while i < fields.len()
        invariant
            i <= fields@.len(),
            string_views(cols@) == string_views(fields@.take(i as int)).map_values(
                |f: Seq<char>| text_column(f),
            ),
        decreases fields.len() - i,
    {
        let mut c = owned("CAST(");
        push_str(&mut c, fields[i].as_str());
        push_str(&mut c, " AS TEXT) AS ");
        push_str(&mut c, fields[i].as_str());
        let ghost before = cols@;
        cols.push(c);
        proof {
            assert(string_views(cols@) =~= string_views(before).push(c@));
            assert(string_views(fields@.take(i + 1)).map_values(|f: Seq<char>| text_column(f))
                =~= string_views(fields@.take(i as int)).map_values(|f: Seq<char>| text_column(f)).push(
                text_column(fields@[i as int]@),
            ));
        }
        i = i + 1;
    }
    assert(fields@.take(fields@.len() as int) =~= fields@);
    let mut q = owned("SELECT id, ");
    push_str(&mut q, &join_strings(&cols, ", "));
    push_str(&mut q, " FROM ");
    push_str(&mut q, table);
    q
}

} // verus!

verus! {

// ── Laws of duplicate grouping ────────────────────────────────────────────────

/// The number of ids in all the groups.
pub open spec fn total_len(groups: Seq<Seq<i64>>) -> nat
    decreases groups.len(),
{
    if groups.len() == 0 {
        0
    } else {
        total_len(groups.drop_last()) + groups.last().len()
    }
}

/// The sizes of the groups of the keys `hs` in `rows`, summed.
pub open spec fn size_sum<K>(hs: Seq<K>, rows: Seq<(K, i64)>) -> nat
    decreases hs.len(),
{
    if hs.len() == 0 {
        0
    } else {
        size_sum(hs.drop_last(), rows) + ids_with(rows, hs.last()).len()
    }
}

proof fn lemma_total_len_is_size_sum<K>(hs: Seq<K>, rows: Seq<(K, i64)>)
    ensures
        total_len(hs.map_values(|h: K| ids_with(rows, h))) == size_sum(hs, rows),
    decreases hs.len(),
{
    if hs.len() > 0 {
        lemma_total_len_is_size_sum(hs.drop_last(), rows);
        assert(hs.map_values(|h: K| ids_with(rows, h)).drop_last() =~= hs.drop_last().map_values(
            |h: K| ids_with(rows, h),
        ));
    }
}

proof fn lemma_first_seen_contains<K>(hs: Seq<K>, h: K)
    ensures
        first_seen(hs).contains(h) <==> hs.contains(h),
    decreases hs.len(),
{
    if hs.len() > 0 {
        lemma_first_seen_contains(hs.drop_last(), h);
        let p = hs.drop_last();
        if hs.contains(h) && h != hs.last() {
            let i = choose|i: int| 0 <= i < hs.len() && hs[i] == h;
            assert(p[i] == h);
        }
        if p.contains(h) {
            let i = choose|i: int| 0 <= i < p.len() && p[i] == h;
            assert(hs[i] == h);
        }
        if first_seen(hs).contains(h) && !first_seen(p).contains(h) {
            assert(first_seen(hs) == first_seen(p).push(hs.last()));
            let i = choose|i: int| 0 <= i < first_seen(hs).len() && first_seen(hs)[i] == h;
            assert(h == hs.last());
            assert(hs[hs.len() - 1] == h);
        }
        if hs.last() == h && !p.contains(h) {
            assert(first_seen(hs).last() == h);
            assert(first_seen(hs)[first_seen(hs).len() - 1] == h);
        }
        if first_seen(p).contains(h) {
            let i = choose|i: int| 0 <= i < first_seen(p).len() && first_seen(p)[i] == h;
            if !p.contains(hs.last()) {
                assert(first_seen(hs)[i] == h);
            }
        }
    }
}

proof fn lemma_first_seen_distinct<K>(hs: Seq<K>)
    ensures
        first_seen(hs).no_duplicates(),
    decreases hs.len(),
{
    if hs.len() > 0 {
        let p = hs.drop_last();
        lemma_first_seen_distinct(p);
        lemma_first_seen_contains(p, hs.last());
    }
}

/// Adding a row `(h, id)` adds one to the sizes of a set of distinct keys holding `h`,
/// and nothing otherwise.
proof fn lemma_size_sum_push<K>(hs: Seq<K>, rows: Seq<(K, i64)>, x: (K, i64))
    requires
        hs.no_duplicates(),
    ensures
        size_sum(hs, rows.push(x)) == size_sum(hs, rows) + if hs.contains(x.0) {
            1nat
        } else {
            0nat
        },
    decreases hs.len(),
{
    if hs.len() > 0 {
        let p = hs.drop_last();
        assert(p.no_duplicates());
        lemma_size_sum_push(p, rows, x);
        assert(rows.push(x).drop_last() =~= rows);
        if hs.contains(x.0) && hs.last() != x.0 {
            let i = choose|i: int| 0 <= i < hs.len() && hs[i] == x.0;
            assert(p[i] == x.0);
        }
        if p.contains(x.0) {
            let i = choose|i: int| 0 <= i < p.len() && p[i] == x.0;
            assert(hs[i] == x.0);
            if hs.last() == x.0 {
                assert(hs[hs.len() - 1] == hs[i]);
            }
        }
        if hs.last() == x.0 {
            assert(hs[hs.len() - 1] == x.0);
        }
    }
}

proof fn lemma_ids_with_absent<K>(rows: Seq<(K, i64)>, h: K)
    requires
        !keys_of(rows).contains(h),
    ensures
        ids_with(rows, h).len() == 0,
    decreases rows.len(),
{
    if rows.len() > 0 {
        let p = rows.drop_last();
        assert(keys_of(p) =~= keys_of(rows).drop_last());
        if keys_of(p).contains(h) {
            let i = choose|i: int| 0 <= i < keys_of(p).len() && keys_of(p)[i] == h;
            assert(keys_of(rows)[i] == h);
        }
        lemma_ids_with_absent(p, h);
        assert(keys_of(rows)[rows.len() - 1] == rows.last().0);
    }
}

/// Duplicate groups partition the records: every record is in exactly one group, so
/// the groups hold as many ids as there are records.
pub proof fn lemma_groups_cover_rows<K>(rows: Seq<(K, i64)>)
    ensures
        total_len(dup_groups(rows)) == rows.len(),
    decreases rows.len(),
{
    let hs = keys_of(rows);
    lemma_total_len_is_size_sum(first_seen(hs), rows);
    if rows.len() > 0 {
        let p = rows.drop_last();
        let x = rows.last();
        assert(rows =~= p.push(x));
        lemma_groups_cover_rows(p);
        let hp = keys_of(p);
        lemma_total_len_is_size_sum(first_seen(hp), p);
        assert(hs.drop_last() =~= hp);
        assert(hs.last() == x.0);
        lemma_first_seen_distinct(hp);
        lemma_first_seen_contains(hp, x.0);
        lemma_size_sum_push(first_seen(hp), p, x);
        if !hp.contains(x.0) {
            assert(first_seen(hs) == first_seen(hp).push(x.0));
            assert(first_seen(hs).drop_last() =~= first_seen(hp));
            lemma_ids_with_absent(p, x.0);
            assert(ids_with(rows, x.0) == ids_with(p, x.0).push(x.1));
        } else {
            assert(first_seen(hs) == first_seen(hp));
        }
    }
}

/// Every id of a group is of a record whose key is that group's key: the members of a
/// group have identical values.
pub proof fn lemma_group_members_share_key<K>(rows: Seq<(K, i64)>, h: K, k: int)
    requires
        0 <= k < ids_with(rows, h).len(),
    ensures
        exists|i: int| 0 <= i < rows.len() && rows[i].0 == h && rows[i].1 == ids_with(rows, h)[k],
    decreases rows.len(),
{
    let p = rows.drop_last();
    if rows.last().0 == h && k == ids_with(p, h).len() {
        assert(rows[rows.len() - 1] == rows.last());
    } else {
        lemma_group_members_share_key(p, h, k);
        let i = choose|i: int| 0 <= i < p.len() && p[i].0 == h && p[i].1 == ids_with(p, h)[k];
        assert(rows[i] == p[i]);
    }
}

} // verus!
