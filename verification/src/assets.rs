//! Physical assets: categories and statuses, field validation, the records written on
//! create and update, status transitions, bulk-import decisions and depreciation age.
use vstd::prelude::*;

use crate::crypto::{decrypt_view, encrypted_under, ok_text, Cipher, PLAINTEXT_MAX};
use vstd::utf8::encode_utf8;
use crate::dates::{naive_date_ymd, parse_ymd, Ymd};
use crate::decimal::{Dec, DecView};
use crate::errors::{fails_bad_request, is_bad_request, is_conflict, is_internal_with, AppError, AppResult};
use crate::text::{
    blank, contains_str, copy_opt, has_substr, is_empty_str, i64_text, int_text, is_blank, owned, push_str, str_eq,
    trim, trimmed,
};

verus! {

// ── Categories and statuses ───────────────────────────────────────────────────

/// What kind of thing an asset is.
#[derive(Debug, Clone, Copy, PartialEq, Eq, Structural)]
pub enum AssetCategory {
    Vehicle,
    Equipment,
    Facility,
    Electronic,
    Other,
}

/// Where an asset stands in its working life.
#[derive(Debug, Clone, Copy, PartialEq, Eq, Structural)]
pub enum AssetStatus {
    InService,
    OutForRepair,
    Retired,
}

pub open spec fn category_name(c: AssetCategory) -> Seq<char> {
    match c {
        AssetCategory::Vehicle => "vehicle"@,
        AssetCategory::Equipment => "equipment"@,
        AssetCategory::Facility => "facility"@,
        AssetCategory::Electronic => "electronic"@,
        AssetCategory::Other => "other"@,
    }
}

pub open spec fn category_of(s: Seq<char>) -> Option<AssetCategory> {
    if s == "vehicle"@ {
        Some(AssetCategory::Vehicle)
    } else if s == "equipment"@ {
        Some(AssetCategory::Equipment)
    } else if s == "facility"@ {
        Some(AssetCategory::Facility)
    } else if s == "electronic"@ {
        Some(AssetCategory::Electronic)
    } else if s == "other"@ {
        Some(AssetCategory::Other)
    } else {
        None
    }
}

pub open spec fn asset_status_name(s: AssetStatus) -> Seq<char> {
    match s {
        AssetStatus::InService => "in_service"@,
        AssetStatus::OutForRepair => "out_for_repair"@,
        AssetStatus::Retired => "retired"@,
    }
}

pub open spec fn asset_status_of(s: Seq<char>) -> Option<AssetStatus> {
    if s == "in_service"@ {
        Some(AssetStatus::InService)
    } else if s == "out_for_repair"@ {
        Some(AssetStatus::OutForRepair)
    } else if s == "retired"@ {
        Some(AssetStatus::Retired)
    } else {
        None
    }
}

pub open spec fn unknown_category_message(s: Seq<char>) -> Seq<char> {
    "Unknown category '"@ + s + "'. Valid values: vehicle, equipment, facility, electronic, other"@
}

pub open spec fn unknown_status_message(s: Seq<char>) -> Seq<char> {
    "Unknown status '"@ + s + "'. Valid values: in_service, out_for_repair, retired"@
}

/// Parses a category name.
pub fn parse_category(s: &str) -> (r: AppResult<AssetCategory>)
    ensures
        r matches Ok(c) ==> category_of(s@) == Some(c),
        r matches Err(e) ==> is_bad_request(e, unknown_category_message(s@)),
        r is Ok <==> category_of(s@) is Some,
{
    if str_eq(s, "vehicle") {
        Ok(AssetCategory::Vehicle)
    } else if str_eq(s, "equipment") {
        Ok(AssetCategory::Equipment)
    } else if str_eq(s, "facility") {
        Ok(AssetCategory::Facility)
    } else if str_eq(s, "electronic") {
        Ok(AssetCategory::Electronic)
    } else if str_eq(s, "other") {
        Ok(AssetCategory::Other)
    } else {
        let mut m = owned("Unknown category '");
        push_str(&mut m, s);
        push_str(&mut m, "'. Valid values: vehicle, equipment, facility, electronic, other");
        Err(AppError::BadRequest(m))
    }
}

/// The name of a category.
pub fn category_str(c: &AssetCategory) -> (r: &'static str)
    ensures
        r@ == category_name(*c),
{
    match c {
        AssetCategory::Vehicle => "vehicle",
        AssetCategory::Equipment => "equipment",
        AssetCategory::Facility => "facility",
        AssetCategory::Electronic => "electronic",
        AssetCategory::Other => "other",
    }
}

/// Parses an asset status name.
pub fn parse_status(s: &str) -> (r: AppResult<AssetStatus>)
    ensures
        r matches Ok(st) ==> asset_status_of(s@) == Some(st),
        r matches Err(e) ==> is_bad_request(e, unknown_status_message(s@)),
        r is Ok <==> asset_status_of(s@) is Some,
{
    if str_eq(s, "in_service") {
        Ok(AssetStatus::InService)
    } else if str_eq(s, "out_for_repair") {
        Ok(AssetStatus::OutForRepair)
    } else if str_eq(s, "retired") {
        Ok(AssetStatus::Retired)
    } else {
        let mut m = owned("Unknown status '");
        push_str(&mut m, s);
        push_str(&mut m, "'. Valid values: in_service, out_for_repair, retired");
        Err(AppError::BadRequest(m))
    }
}

/// The name of an asset status.
pub fn status_str(s: &AssetStatus) -> (r: &'static str)
    ensures
        r@ == asset_status_name(*s),
{
    match s {
        AssetStatus::InService => "in_service",
        AssetStatus::OutForRepair => "out_for_repair",
        AssetStatus::Retired => "retired",
    }
}

/// Parsing the name of a category gives that category back.
pub proof fn lemma_category_roundtrip(c: AssetCategory)
    ensures
        category_of(category_name(c)) == Some(c),
{
    reveal_strlit("vehicle");
    reveal_strlit("equipment");
    reveal_strlit("facility");
    reveal_strlit("electronic");
    reveal_strlit("other");
    assert("vehicle"@.len() == 7);
    assert("equipment"@.len() == 9);
    assert("facility"@.len() == 8);
    assert("electronic"@.len() == 10);
    assert("other"@.len() == 5);
    assert("vehicle"@[0] != "facility"@[0]);
}

/// Parsing the name of an asset status gives that status back.
pub proof fn lemma_asset_status_roundtrip(s: AssetStatus)
    ensures
        asset_status_of(asset_status_name(s)) == Some(s),
{
    reveal_strlit("in_service");
    reveal_strlit("out_for_repair");
    reveal_strlit("retired");
    assert("in_service"@.len() == 10);
    assert("out_for_repair"@.len() == 14);
    assert("retired"@.len() == 7);
}

// ── Errors of the cipher ──────────────────────────────────────────────────────

/// The error for a failed encryption.
pub fn enc_err(e: String) -> (r: AppError)
    ensures
        is_internal_with(r, "Encryption error: "@ + e@),
{
    let mut m = owned("Encryption error: ");
    push_str(&mut m, e.as_str());
    AppError::Internal(m)
}

/// The error for a failed decryption.
pub fn dec_err(e: String) -> (r: AppError)
    ensures
        is_internal_with(r, "Decryption error: "@ + e@),
{
    let mut m = owned("Decryption error: ");
    push_str(&mut m, e.as_str());
    AppError::Internal(m)
}

} // verus!

verus! {

// ── Requests and validation ───────────────────────────────────────────────────

/// A submitted procurement cost: absent; negative or not finite; a decimal amount; or a
/// finite, non-negative number that has no decimal form.
#[derive(Debug, Clone, Copy)]
pub enum CostInput {
    Absent,
    Invalid,
    Amount(Dec),
    Unrepresentable,
}

/// The fields of a new asset as submitted.
#[derive(Debug)]
pub struct CreateAssetRequest {
    pub asset_code: String,
    /// `vehicle`, `equipment`, `facility`, `electronic` or `other`.
    pub category: String,
    pub brand: String,
    pub model: String,
    pub serial_number: Option<String>,
    /// `in_service` (the default), `out_for_repair` or `retired`.
    pub status: Option<String>,
    pub owner_id: Option<i64>,
    pub responsible_person_id: Option<i64>,
    pub procurement_cost: CostInput,
    /// `YYYY-MM-DD`.
    pub procurement_date: Option<String>,
    /// The straight-line depreciation period, in months.
    pub useful_life_months: Option<i32>,
    pub notes: Option<String>,
}

pub open spec fn bad_date_message(d: Seq<char>) -> Seq<char> {
    "Invalid procurement_date '"@ + d + "'; expected YYYY-MM-DD"@
}

/// The first error among the checks on a date, a depreciation period and a cost that
/// creates and updates share.
pub open spec fn common_fields_error(
    date: Option<String>,
    life: Option<i32>,
    cost: CostInput,
) -> Option<Seq<char>> {
    if date is Some && naive_date_ymd(date->0@) is None {
        Some(bad_date_message(date->0@))
    } else if life is Some && life->0 <= 0 {
        Some("useful_life_months must be > 0"@)
    } else if cost is Invalid {
        Some("procurement_cost must be a non-negative finite number"@)
    } else {
        None
    }
}

/// The first error in the fields of a new asset, if any.
pub open spec fn create_fields_error(req: CreateAssetRequest) -> Option<Seq<char>> {
    if blank(req.asset_code@) {
        Some("asset_code is required"@)
    } else if blank(req.brand@) {
        Some("brand is required"@)
    } else if blank(req.model@) {
        Some("model is required"@)
    } else {
        common_fields_error(req.procurement_date, req.useful_life_months, req.procurement_cost)
    }
}

/// Parses a procurement date `YYYY-MM-DD`.
pub fn parse_procurement_date(s: &str) -> (r: AppResult<Ymd>)
    ensures
        r matches Ok(d) ==> naive_date_ymd(s@) == Some((d.year as int, d.month as int, d.day as int)),
        r matches Err(e) ==> is_bad_request(e, bad_date_message(s@)),
        r is Ok <==> naive_date_ymd(s@) is Some,
{
    match parse_ymd(s) {
        Some(d) => Ok(d),
        None => {
            let mut m = owned("Invalid procurement_date '");
            push_str(&mut m, s);
            push_str(&mut m, "'; expected YYYY-MM-DD");
            Err(AppError::BadRequest(m))
        },
    }
}

fn check_common_fields(date: &Option<String>, life: Option<i32>, cost: &CostInput) -> (r: AppResult<()>)
    ensures
        r is Ok <==> common_fields_error(*date, life, *cost) is None,
        r is Err ==> fails_bad_request(r, common_fields_error(*date, life, *cost)->0),
{
    if let Some(d) = date {
        match parse_procurement_date(d.as_str()) {
            Ok(_) => {},
            Err(e) => {
                return Err(e);
            },
        }
    }
    if let Some(l) = life {
        if l <= 0 {
            return Err(AppError::BadRequest(owned("useful_life_months must be > 0")));
        }
    }
    if let CostInput::Invalid = cost {
        return Err(AppError::BadRequest(owned("procurement_cost must be a non-negative finite number")));
    }
    Ok(())
}

/// Checks the fields of a new asset: code, brand and model are not blank, the date
/// parses, the depreciation period is positive and the cost is a non-negative finite
/// number.
pub fn validate_create_fields(req: &CreateAssetRequest) -> (r: AppResult<()>)
    ensures
        r is Ok <==> create_fields_error(*req) is None,
        r is Err ==> fails_bad_request(r, create_fields_error(*req)->0),
{
    if is_blank(req.asset_code.as_str()) {
        return Err(AppError::BadRequest(owned("asset_code is required")));
    }
    if is_blank(req.brand.as_str()) {
        return Err(AppError::BadRequest(owned("brand is required")));
    }
    if is_blank(req.model.as_str()) {
        return Err(AppError::BadRequest(owned("model is required")));
    }
    check_common_fields(&req.procurement_date, req.useful_life_months, &req.procurement_cost)
}

// ── Stored records ────────────────────────────────────────────────────────────

/// The stored state of an asset; `serial_number` holds the encrypted blob.
#[derive(Debug)]
pub struct AssetRecord {
    pub asset_code: String,
    pub category: AssetCategory,
    pub brand: String,
    pub model: String,
    pub serial_number: Option<String>,
    pub status: AssetStatus,
    pub owner_id: Option<i64>,
    pub responsible_person_id: Option<i64>,
    pub procurement_cost: Option<Dec>,
    pub procurement_date: Option<String>,
    pub useful_life_months: Option<i32>,
    pub notes: Option<String>,
}

/// The status a new asset asks for: the one named, else `in_service`.
pub open spec fn requested_status(s: Option<String>) -> Seq<char> {
    match s {
        Some(v) => v@,
        None => "in_service"@,
    }
}

/// The first error in creating an asset from `req` that does not depend on the cipher:
/// a field error, an unknown category or status, or a cost with no decimal form.
pub open spec fn create_error(req: CreateAssetRequest) -> Option<Seq<char>> {
    if create_fields_error(req) is Some {
        create_fields_error(req)
    } else if category_of(req.category@) is None {
        Some(unknown_category_message(req.category@))
    } else if asset_status_of(requested_status(req.status)) is None {
        Some(unknown_status_message(requested_status(req.status)))
    } else if req.procurement_cost is Unrepresentable {
        Some("Invalid procurement_cost"@)
    } else {
        None
    }
}

/// The stored cost for a submitted one.
pub open spec fn cost_value(c: CostInput) -> Option<Dec> {
    match c {
        CostInput::Amount(d) => Some(d),
        _ => None,
    }
}

/// Whether `blob` is what the record holds for the serial number `serial` under key
/// `k`: nothing for nothing, else an encryption of it.
pub open spec fn stores_serial(k: Seq<u8>, serial: Option<Seq<char>>, blob: Option<String>) -> bool {
    match serial {
        None => blob is None,
        Some(p) => blob is Some && encrypted_under(k, p, blob->0@) && decrypt_view(k, blob->0@)
            == ok_text(p),
    }
}

pub open spec fn encryption_failure() -> Seq<char> {
    "Encryption error: AES-GCM encryption failed: aead::Error"@
}

fn parse_requested_status(s: &Option<String>) -> (r: AppResult<AssetStatus>)
    ensures
        r matches Ok(st) ==> asset_status_of(requested_status(*s)) == Some(st),
        r matches Err(e) ==> is_bad_request(e, unknown_status_message(requested_status(*s))),
        r is Ok <==> asset_status_of(requested_status(*s)) is Some,
{
    match s {
        Some(v) => parse_status(v.as_str()),
        None => parse_status("in_service"),
    }
}

/// Whether a serial number is short enough to be encrypted (at most 2^36 bytes).
pub open spec fn serial_fits(serial: Option<String>) -> bool {
    serial matches Some(s) ==> encode_utf8(s@).len() <= PLAINTEXT_MAX
}

fn encrypt_serial(cipher: &Cipher, serial: &Option<String>) -> (r: AppResult<Option<String>>)
    ensures
        serial_fits(*serial) ==> r is Ok,
        r matches Ok(b) ==> stores_serial(cipher.key(), opt_text_of(*serial), b),
        r matches Err(e) ==> serial is Some && is_internal_with(e, encryption_failure()),
        serial is None ==> r is Ok,
{
    let v: Option<&str> = match serial {
        Some(s) => Some(s.as_str()),
        None => None,
    };
    match cipher.encrypt_opt(v) {
        Ok(b) => Ok(b),
        Err(e) => {
            let r = enc_err(e);
            proof {
                reveal_strlit("Encryption error: ");
                reveal_strlit("AES-GCM encryption failed: aead::Error");
                reveal_strlit("Encryption error: AES-GCM encryption failed: aead::Error");
                assert("Encryption error: "@ + "AES-GCM encryption failed: aead::Error"@
                    =~= encryption_failure());
            }
            Err(r)
        },
    }
}

pub open spec fn opt_text_of(o: Option<String>) -> Option<Seq<char>> {
    match o {
        Some(s) => Some(s@),
        None => None,
    }
}

/// The record a new asset is stored as: code, brand and model trimmed, the category
/// and status parsed (`in_service` by default), the cost as a decimal and the serial
/// number encrypted.
pub fn prepare_new_asset(cipher: &Cipher, req: &CreateAssetRequest) -> (r: AppResult<AssetRecord>)
    ensures
        create_error(*req) matches Some(m) ==> fails_bad_request(r, m),
        create_error(*req) is None && serial_fits(req.serial_number) ==> r is Ok,
        create_error(*req) is None && r is Err ==> (r matches Err(e) && is_internal_with(
            e,
            encryption_failure(),
        )),
        r matches Ok(a) ==> {
            &&& create_error(*req) is None
            &&& a.asset_code@ == trimmed(req.asset_code@)
            &&& a.brand@ == trimmed(req.brand@)
            &&& a.model@ == trimmed(req.model@)
            &&& category_of(req.category@) == Some(a.category)
            &&& asset_status_of(requested_status(req.status)) == Some(a.status)
            &&& a.owner_id == req.owner_id
            &&& a.responsible_person_id == req.responsible_person_id
            &&& a.procurement_cost == cost_value(req.procurement_cost)
            &&& opt_text_of(a.procurement_date) == opt_text_of(req.procurement_date)
            &&& a.useful_life_months == req.useful_life_months
            &&& opt_text_of(a.notes) == opt_text_of(req.notes)
            &&& stores_serial(cipher.key(), opt_text_of(req.serial_number), a.serial_number)
        },
{
    validate_create_fields(req)?;
    let category = parse_category(req.category.as_str())?;
    let status = parse_requested_status(&req.status)?;
    let cost: Option<Dec> = match req.procurement_cost {
        CostInput::Unrepresentable => {
            return Err(AppError::BadRequest(owned("Invalid procurement_cost")));
        },
        CostInput::Amount(d) => Some(d),
        _ => None,
    };
    let serial = encrypt_serial(cipher, &req.serial_number)?;
    let date = copy_opt(&req.procurement_date);
    let notes = copy_opt(&req.notes);
    Ok(AssetRecord {
        asset_code: trim(req.asset_code.as_str()),
        category,
        brand: trim(req.brand.as_str()),
        model: trim(req.model.as_str()),
        serial_number: serial,
        status,
        owner_id: req.owner_id,
        responsible_person_id: req.responsible_person_id,
        procurement_cost: cost,
        procurement_date: date,
        useful_life_months: req.useful_life_months,
        notes,
    })
}

/// The error for a failed insert of asset `code`: a conflict where the database
/// reports a uniqueness violation, else an internal error with its message.
pub fn insert_error(code: &str, db_message: &str) -> (r: AppError)
    ensures
        has_substr(db_message@, "UNIQUE"@) ==> is_conflict(
            r,
            "Asset code '"@ + code@ + "' already exists"@,
        ),
        !has_substr(db_message@, "UNIQUE"@) ==> is_internal_with(r, db_message@),
{
    if contains_str(db_message, "UNIQUE") {
        let mut m = owned("Asset code '");
        push_str(&mut m, code);
        push_str(&mut m, "' already exists");
        AppError::Conflict(m)
    } else {
        AppError::Internal(owned(db_message))
    }
}

} // verus!

verus! {

// ── Updates ───────────────────────────────────────────────────────────────────

/// A patch of an asset: only the fields present are written. An empty serial number,
/// date or note clears that field.
#[derive(Debug)]
pub struct UpdateAssetRequest {
    pub category: Option<String>,
    pub brand: Option<String>,
    pub model: Option<String>,
    pub serial_number: Option<String>,
    pub owner_id: Option<i64>,
    pub responsible_person_id: Option<i64>,
    pub procurement_cost: CostInput,
    pub procurement_date: Option<String>,
    pub useful_life_months: Option<i32>,
    pub notes: Option<String>,
}

/// The first error in the fields of a patch, if any.
pub open spec fn update_fields_error(req: UpdateAssetRequest) -> Option<Seq<char>> {
    common_fields_error(req.procurement_date, req.useful_life_months, req.procurement_cost)
}

/// Checks the fields of a patch: the date parses, the depreciation period is positive
/// and the cost is a non-negative finite number.
pub fn check_update_fields(req: &UpdateAssetRequest) -> (r: AppResult<()>)
    ensures
        r is Ok <==> update_fields_error(*req) is None,
        r is Err ==> fails_bad_request(r, update_fields_error(*req)->0),
{
    check_common_fields(&req.procurement_date, req.useful_life_months, &req.procurement_cost)
}

/// The first error in applying a checked patch that does not depend on the cipher.
pub open spec fn update_error(req: UpdateAssetRequest) -> Option<Seq<char>> {
    if req.category is Some && category_of(req.category->0@) is None {
        Some(unknown_category_message(req.category->0@))
    } else if req.procurement_cost is Unrepresentable {
        Some("Invalid procurement_cost"@)
    } else {
        None
    }
}

/// A field after a patch of text that may be cleared: kept when absent, cleared when
/// empty, else replaced.
pub open spec fn patched_text(old: Option<Seq<char>>, new: Option<Seq<char>>) -> Option<Seq<char>> {
    match new {
        None => old,
        Some(v) => if v.len() == 0 {
            None
        } else {
            Some(v)
        },
    }
}

/// A field after a patch that replaces it when present.
pub open spec fn patched<T>(old: T, new: Option<T>) -> T {
    match new {
        Some(v) => v,
        None => old,
    }
}

/// An optional field after a patch that replaces it when present.
pub open spec fn patched_opt<T>(old: Option<T>, new: Option<T>) -> Option<T> {
    match new {
        Some(v) => Some(v),
        None => old,
    }
}

/// Whether `a` is `e` with the patch `req` applied to every field but the serial number.
pub open spec fn patched_fields(e: AssetRecord, req: UpdateAssetRequest, a: AssetRecord) -> bool {
    &&& a.asset_code@ == e.asset_code@
    &&& a.category == (match req.category {
        Some(c) => category_of(c@)->0,
        None => e.category,
    })
    &&& a.brand@ == patched(e.brand@, opt_text_of(req.brand))
    &&& a.model@ == patched(e.model@, opt_text_of(req.model))
    &&& a.status == e.status
    &&& a.owner_id == patched_opt(e.owner_id, req.owner_id)
    &&& a.responsible_person_id == patched_opt(e.responsible_person_id, req.responsible_person_id)
    &&& a.procurement_cost == (match req.procurement_cost {
        CostInput::Amount(d) => Some(d),
        _ => e.procurement_cost,
    })
    &&& opt_text_of(a.procurement_date) == patched_text(
        opt_text_of(e.procurement_date),
        opt_text_of(req.procurement_date),
    )
    &&& a.useful_life_months == patched_opt(e.useful_life_months, req.useful_life_months)
    &&& opt_text_of(a.notes) == patched_text(opt_text_of(e.notes), opt_text_of(req.notes))
}

/// Whether the patch asks for a new, non-empty serial number (which is encrypted).
pub open spec fn sets_serial(req: UpdateAssetRequest) -> bool {
    req.serial_number is Some && req.serial_number->0@.len() > 0
}

/// Whether the serial number of `a` is what the patch leaves: the old blob when absent,
/// nothing when empty, else an encryption of the new one under key `k`.
pub open spec fn patched_serial(k: Seq<u8>, e: AssetRecord, req: UpdateAssetRequest, a: AssetRecord) -> bool {
    match req.serial_number {
        None => opt_text_of(a.serial_number) == opt_text_of(e.serial_number),
        Some(s) => if s@.len() == 0 {
            a.serial_number is None
        } else {
            stores_serial(k, Some(s@), a.serial_number)
        },
    }
}

fn patch_text(old: Option<String>, new: Option<String>) -> (r: Option<String>)
    ensures
        opt_text_of(r) == patched_text(opt_text_of(old), opt_text_of(new)),
{
    match new {
        None => old,
        Some(v) => if is_empty_str(v.as_str()) {
            None
        } else {
            Some(v)
        },
    }
}

/// Applies a checked patch to the stored asset `existing`. A new serial number is
/// encrypted first; then the category is parsed and the cost converted.
pub fn apply_asset_update(cipher: &Cipher, existing: AssetRecord, req: UpdateAssetRequest) -> (r: AppResult<
    AssetRecord,
>)
    requires
        update_fields_error(req) is None,
    ensures
        r matches Ok(a) ==> update_error(req) is None && patched_fields(existing, req, a)
            && patched_serial(cipher.key(), existing, req, a),
        r matches Err(e) ==> (sets_serial(req) && is_internal_with(e, encryption_failure())) || (
        update_error(req) is Some && is_bad_request(e, update_error(req)->0)),
        !sets_serial(req) ==> (r is Ok <==> update_error(req) is None),
        serial_fits(req.serial_number) ==> (r is Ok <==> update_error(req) is None),
{
    let new_serial: Option<Option<String>> = match &req.serial_number {
        Some(sn) => if is_empty_str(sn.as_str()) {
            Some(None)
        } else {
            match encrypt_serial(cipher, &req.serial_number) {
                Ok(b) => Some(b),
                Err(e) => {
                    return Err(e);
                },
            }
        },
        None => None,
    };
    let category = match &req.category {
        Some(c) => parse_category(c.as_str())?,
        None => existing.category,
    };
    let cost = match req.procurement_cost {
        CostInput::Amount(d) => Some(d),
        CostInput::Unrepresentable => {
            return Err(AppError::BadRequest(owned("Invalid procurement_cost")));
        },
        _ => existing.procurement_cost,
    };
    let brand = match req.brand {
        Some(b) => b,
        None => existing.brand,
    };
    let model = match req.model {
        Some(m) => m,
        None => existing.model,
    };
    let serial_number = match new_serial {
        Some(b) => b,
        None => existing.serial_number,
    };
    let owner_id = match req.owner_id {
        Some(o) => Some(o),
        None => existing.owner_id,
    };
    let responsible_person_id = match req.responsible_person_id {
        Some(p) => Some(p),
        None => existing.responsible_person_id,
    };
    let useful_life_months = match req.useful_life_months {
        Some(l) => Some(l),
        None => existing.useful_life_months,
    };
    Ok(AssetRecord {
        asset_code: existing.asset_code,
        category,
        brand,
        model,
        serial_number,
        status: existing.status,
        owner_id,
        responsible_person_id,
        procurement_cost: cost,
        procurement_date: patch_text(existing.procurement_date, req.procurement_date),
        useful_life_months,
        notes: patch_text(existing.notes, req.notes),
    })
}

/// Checks a patch and applies it to the stored asset `existing`: the fields are checked
/// first (see `check_update_fields`), then the patch is applied (see
/// `apply_asset_update`).
pub fn update_asset_record(cipher: &Cipher, existing: AssetRecord, req: UpdateAssetRequest) -> (r:
    AppResult<AssetRecord>)
    ensures
        update_fields_error(req) is Some ==> fails_bad_request(r, update_fields_error(req)->0),
        update_fields_error(req) is None && serial_fits(req.serial_number) ==> (r is Ok
            <==> update_error(req) is None),
        r matches Ok(a) ==> update_fields_error(req) is None && update_error(req) is None
            && patched_fields(existing, req, a) && patched_serial(cipher.key(), existing, req, a),
        update_fields_error(req) is None ==> (r matches Err(e) ==> (sets_serial(req) && is_internal_with(
            e,
            encryption_failure(),
        )) || (update_error(req) is Some && is_bad_request(e, update_error(req)->0))),
{
    check_update_fields(&req)?;
    apply_asset_update(cipher, existing, req)
}

// ── Status transitions ────────────────────────────────────────────────────────

/// Whether an asset may move from `current` to `next`: a retired asset stays retired.
pub open spec fn transition_allowed(current: AssetStatus, next: AssetStatus) -> bool {
    current != AssetStatus::Retired || next == AssetStatus::Retired
}

/// Checks that asset `asset_id` may move from `current` to `next`.
pub fn check_status_transition(asset_id: i64, current: AssetStatus, next: AssetStatus) -> (r: AppResult<()>)
    ensures
        r is Ok <==> transition_allowed(current, next),
        current != AssetStatus::Retired ==> r is Ok,
        next == AssetStatus::Retired ==> r is Ok,
        r matches Err(e) ==> is_conflict(
            e,
            "Asset "@ + int_text(asset_id as int) + " is retired and cannot transition to '"@
                + asset_status_name(next) + "'"@,
        ),
{
    if current == AssetStatus::Retired && next != AssetStatus::Retired {
        let mut m = owned("Asset ");
        push_str(&mut m, &i64_text(asset_id));
        push_str(&mut m, " is retired and cannot transition to '");
        push_str(&mut m, status_str(&next));
        push_str(&mut m, "'");
        return Err(AppError::Conflict(m));
    }
    Ok(())
}

/// Only retirement is final: an asset that is not retired may move to any status, and
/// every asset may be retired, so two statuses other than `retired` allow exactly the
/// same moves.
pub proof fn lemma_only_retired_is_refused(current: AssetStatus, other: AssetStatus, next: AssetStatus)
    ensures
        current != AssetStatus::Retired ==> transition_allowed(current, next),
        transition_allowed(current, AssetStatus::Retired),
        current != AssetStatus::Retired && other != AssetStatus::Retired ==> transition_allowed(
            current,
            next,
        ) == transition_allowed(other, next),
        !transition_allowed(current, next) ==> current == AssetStatus::Retired && next
            != AssetStatus::Retired,
{
}

/// Once retired, an asset stays retired: along any path of allowed transitions that
/// starts at `retired`, every status is `retired`.
pub proof fn lemma_retired_is_final(path: Seq<AssetStatus>)
    requires
        path.len() > 0,
        path[0] == AssetStatus::Retired,
        forall|i: int| #![trigger path[i]] 0 < i < path.len() ==> transition_allowed(path[i - 1], path[i]),
    ensures
        forall|i: int| 0 <= i < path.len() ==> path[i] == AssetStatus::Retired,
    decreases path.len(),
{
    if path.len() > 1 {
        let p = path.drop_last();
        assert forall|i: int| #![trigger p[i]] 0 < i < p.len() implies transition_allowed(p[i - 1], p[i]) by {
            assert(path[i] == p[i]);
            assert(path[i - 1] == p[i - 1]);
        }
        lemma_retired_is_final(p);
        let n = path.len() - 1;
        assert(transition_allowed(path[n - 1], path[n]));
        assert(path[n - 1] == p[n - 1]);
        assert forall|i: int| 0 <= i < path.len() implies path[i] == AssetStatus::Retired by {
            if i < n {
                assert(path[i] == p[i]);
            }
        }
    }
}

} // verus!

verus! {

// ── Bulk import ───────────────────────────────────────────────────────────────

/// Why one row of a bulk import was not imported.
#[derive(Debug)]
pub struct ImportRowError {
    /// The row's position in the submitted list, from 0.
    pub index: usize,
    pub asset_code: Option<String>,
    pub reason: String,
}

/// The outcome of a bulk import: rows imported, rows skipped as already present, and
/// the rows refused with their reasons.
#[derive(Debug)]
pub struct BulkImportResponse {
    pub imported: usize,
    pub skipped: usize,
    pub errors: Vec<ImportRowError>,
}

impl BulkImportResponse {
    /// The number of rows accounted for.
    pub open spec fn processed(&self) -> int {
        self.imported + self.skipped + self.errors@.len()
    }

    /// Whether the outcome accounts for the first `n` rows of an import: each row once,
    /// the refused ones by their positions, which are below `n` and in increasing order.
    pub open spec fn accounts_for(&self, n: int) -> bool {
        &&& self.processed() == n
        &&& forall|k: int| 0 <= k < self.errors@.len() ==> #[trigger] self.errors@[k].index < n
        &&& forall|k: int, l: int|
            0 <= k < l < self.errors@.len() ==> #[trigger] self.errors@[k].index
                < #[trigger] self.errors@[l].index
    }

    /// The outcome before any row.
    pub fn new() -> (r: BulkImportResponse)
        ensures
            r.accounts_for(0),
            r.imported == 0,
            r.skipped == 0,
            r.errors@.len() == 0,
    {
        BulkImportResponse { imported: 0, skipped: 0, errors: Vec::new() }
    }

    /// Counts a row as imported.
    pub fn record_imported(&mut self)
        requires
            old(self).imported < usize::MAX,
        ensures
            final(self).imported == old(self).imported + 1,
            final(self).skipped == old(self).skipped,
            final(self).errors@ == old(self).errors@,
            final(self).processed() == old(self).processed() + 1,
    {
        self.imported = self.imported + 1;
    }

    /// Counts a row as skipped.
    pub fn record_skipped(&mut self)
        requires
            old(self).skipped < usize::MAX,
        ensures
            final(self).imported == old(self).imported,
            final(self).skipped == old(self).skipped + 1,
            final(self).errors@ == old(self).errors@,
            final(self).processed() == old(self).processed() + 1,
    {
        self.skipped = self.skipped + 1;
    }

    /// Records that row `index`, with code `asset_code`, was refused for `reason`.
    pub fn record_error(&mut self, index: usize, asset_code: &str, reason: String)
        ensures
            final(self).imported == old(self).imported,
            final(self).skipped == old(self).skipped,
            final(self).errors@.len() == old(self).errors@.len() + 1,
            final(self).errors@.drop_last() == old(self).errors@,
            final(self).errors@.last().index == index,
            opt_text_of(final(self).errors@.last().asset_code) == Some(asset_code@),
            final(self).errors@.last().reason@ == reason@,
            final(self).processed() == old(self).processed() + 1,
    {
        let e = ImportRowError { index, asset_code: Some(owned(asset_code)), reason };
        self.errors.push(e);
        assert(self.errors@.drop_last() =~= old(self).errors@);
    }
}

/// The display text of a bad-request error with detail `m`.
pub open spec fn bad_request_text(m: Seq<char>) -> Seq<char> {
    "Bad request: "@ + m
}

/// Why a row of a bulk import fails its checks, if it does: the display text of the
/// first field error, unknown category or unknown status.
pub open spec fn import_check_error(row: CreateAssetRequest) -> Option<Seq<char>> {
    if create_fields_error(row) is Some {
        Some(bad_request_text(create_fields_error(row)->0))
    } else if category_of(row.category@) is None {
        Some(bad_request_text(unknown_category_message(row.category@)))
    } else if asset_status_of(requested_status(row.status)) is None {
        Some(bad_request_text(unknown_status_message(requested_status(row.status))))
    } else {
        None
    }
}

fn bad_request_reason(e: AppError) -> (r: String)
    requires
        e is BadRequest,
    ensures
        r@ == bad_request_text(e->BadRequest_0@),
{
    proof {
        reveal_strlit("Bad request: ");
    }
    e.message()
}

/// The checks of one import row: its fields, category and status. A refusal carries
/// the display text of the error.
pub fn check_import_row(row: &CreateAssetRequest) -> (r: Result<(AssetCategory, AssetStatus), String>)
    ensures
        r is Ok <==> import_check_error(*row) is None,
        r matches Err(m) ==> m@ == import_check_error(*row)->0,
        r matches Ok(p) ==> category_of(row.category@) == Some(p.0) && asset_status_of(
            requested_status(row.status),
        ) == Some(p.1),
{
    match validate_create_fields(row) {
        Ok(()) => {},
        Err(e) => {
            return Err(bad_request_reason(e));
        },
    }
    let category = match parse_category(row.category.as_str()) {
        Ok(c) => c,
        Err(e) => {
            return Err(bad_request_reason(e));
        },
    };
    let status = match parse_requested_status(&row.status) {
        Ok(s) => s,
        Err(e) => {
            return Err(bad_request_reason(e));
        },
    };
    Ok((category, status))
}

/// What to do with a row whose code is already stored.
#[derive(Debug)]
pub enum DedupVerdict {
    /// The stored asset has the same serial number: skip the row.
    Skip,
    /// Refuse the row for the reason given.
    Reject(String),
}

/// The plain serial number of a stored asset under key `k`, or why it cannot be read.
pub open spec fn stored_plain(k: Seq<u8>, blob: Option<Seq<char>>) -> Result<Option<Seq<char>>, Seq<char>> {
    match blob {
        None => Ok(None),
        Some(b) => match decrypt_view(k, b) {
            Ok(p) => Ok(Some(p)),
            Err(m) => Err(m),
        },
    }
}

/// Decides a row whose code `row_code` is already stored with the serial blob
/// `stored_serial`: skip it when the serial numbers agree, else refuse it.
pub fn dedup_verdict(
    cipher: &Cipher,
    row_code: &str,
    row_serial: &Option<String>,
    stored_serial: &Option<String>,
) -> (r: DedupVerdict)
    ensures
        match stored_plain(cipher.key(), opt_text_of(*stored_serial)) {
            Err(m) => r matches DedupVerdict::Reject(t) && t@ == "Decryption error during dedup check: "@
                + m,
            Ok(p) => if p == opt_text_of(*row_serial) {
                r is Skip
            } else {
                r matches DedupVerdict::Reject(t) && t@ == "asset_code '"@ + row_code@
                    + "' already exists with a different serial_number"@
            },
        },
{
    let blob: Option<&str> = match stored_serial {
        Some(s) => Some(s.as_str()),
        None => None,
    };
    let existing = match cipher.decrypt_opt(blob) {
        Ok(v) => v,
        Err(e) => {
            let mut m = owned("Decryption error during dedup check: ");
            push_str(&mut m, e.as_str());
            return DedupVerdict::Reject(m);
        },
    };
    let same = match (&existing, row_serial) {
        (None, None) => true,
        (Some(a), Some(b)) => str_eq(a.as_str(), b.as_str()),
        _ => false,
    };
    if same {
        DedupVerdict::Skip
    } else {
        let mut m = owned("asset_code '");
        push_str(&mut m, row_code);
        push_str(&mut m, "' already exists with a different serial_number");
        DedupVerdict::Reject(m)
    }
}

/// What becomes of a checked import row before it is inserted.
#[derive(Debug)]
pub enum ImportPrep {
    /// The record to insert.
    Ready(AssetRecord),
    /// Refuse the row for the reason given.
    RowError(String),
    /// Stop the whole import with this error.
    Fatal(AppError),
}

/// Whether `a` is the record an import row `row`, with its parsed category and status,
/// is stored as under key `k`: code, brand and model trimmed, the cost as a decimal and
/// the serial number encrypted.
pub open spec fn imported_record(
    k: Seq<u8>,
    row: CreateAssetRequest,
    category: AssetCategory,
    status: AssetStatus,
    a: AssetRecord,
) -> bool {
    &&& a.asset_code@ == trimmed(row.asset_code@)
    &&& a.brand@ == trimmed(row.brand@)
    &&& a.model@ == trimmed(row.model@)
    &&& a.category == category
    &&& a.status == status
    &&& a.owner_id == row.owner_id
    &&& a.responsible_person_id == row.responsible_person_id
    &&& a.procurement_cost == cost_value(row.procurement_cost)
    &&& opt_text_of(a.procurement_date) == opt_text_of(row.procurement_date)
    &&& a.useful_life_months == row.useful_life_months
    &&& opt_text_of(a.notes) == opt_text_of(row.notes)
    &&& stores_serial(k, opt_text_of(row.serial_number), a.serial_number)
}

/// Prepares a checked import row, with its parsed category and status: its serial
/// number is encrypted (a failure refuses the row), then its cost is converted (a cost
/// with no decimal form stops the import).
pub fn prepare_import(
    cipher: &Cipher,
    row: &CreateAssetRequest,
    category: AssetCategory,
    status: AssetStatus,
) -> (r: ImportPrep)
    ensures
        r matches ImportPrep::RowError(t) ==> row.serial_number is Some && t@ == encryption_failure(),
        r matches ImportPrep::Fatal(e) ==> row.procurement_cost is Unrepresentable && is_bad_request(
            e,
            "Invalid procurement_cost"@,
        ),
        serial_fits(row.serial_number) ==> !(r is RowError),
        serial_fits(row.serial_number) ==> (r is Fatal <==> row.procurement_cost is Unrepresentable),
        r is Ready ==> !(row.procurement_cost is Unrepresentable),
        r matches ImportPrep::Ready(a) ==> imported_record(cipher.key(), *row, category, status, a),
{
    let serial = match encrypt_serial(cipher, &row.serial_number) {
        Ok(b) => b,
        Err(e) => {
            return ImportPrep::RowError(owned(e.detail()));
        },
    };
    let cost: Option<Dec> = match row.procurement_cost {
        CostInput::Unrepresentable => {
            return ImportPrep::Fatal(AppError::BadRequest(owned("Invalid procurement_cost")));
        },
        CostInput::Amount(d) => Some(d),
        _ => None,
    };
    ImportPrep::Ready(
        AssetRecord {
            asset_code: trim(row.asset_code.as_str()),
            category,
            brand: trim(row.brand.as_str()),
            model: trim(row.model.as_str()),
            serial_number: serial,
            status,
            owner_id: row.owner_id,
            responsible_person_id: row.responsible_person_id,
            procurement_cost: cost,
            procurement_date: copy_opt(&row.procurement_date),
            useful_life_months: row.useful_life_months,
            notes: copy_opt(&row.notes),
        },
    )
}

/// How one import row ends.
#[derive(Debug)]
pub enum RowOutcome {
    Imported,
    /// Already stored with the same serial number.
    Skipped,
    /// Refused for the reason given.
    Refused(String),
}

/// What to do with a checked import row.
#[derive(Debug)]
pub enum ImportAction {
    /// The row is settled without writing anything.
    Settle(RowOutcome),
    /// Insert this record; the insert's result settles the row.
    Insert(AssetRecord),
    /// Stop the whole import with this error.
    Abort(AppError),
}

/// Decides a checked import row, with its parsed category and status, given the serial
/// blob of the stored asset with the same code (`None` when no asset has it): a stored
/// code is settled by `dedup_verdict`, a new one is prepared by `prepare_import`.
pub fn import_action(
    cipher: &Cipher,
    row: &CreateAssetRequest,
    category: AssetCategory,
    status: AssetStatus,
    existing: Option<&Option<String>>,
) -> (r: ImportAction)
    ensures
        existing matches Some(stored) ==> match stored_plain(cipher.key(), opt_text_of(*stored)) {
            Err(m) => r matches ImportAction::Settle(RowOutcome::Refused(t)) && t@
                == "Decryption error during dedup check: "@ + m,
            Ok(p) => if p == opt_text_of(row.serial_number) {
                r matches ImportAction::Settle(RowOutcome::Skipped)
            } else {
                r matches ImportAction::Settle(RowOutcome::Refused(t)) && t@ == "asset_code '"@
                    + row.asset_code@ + "' already exists with a different serial_number"@
            },
        },
        existing is None ==> !(r matches ImportAction::Settle(RowOutcome::Imported)),
        existing is None ==> !(r matches ImportAction::Settle(RowOutcome::Skipped)),
        existing is None ==> (r matches ImportAction::Settle(RowOutcome::Refused(t)) ==> row.serial_number
            is Some && t@ == encryption_failure()),
        existing is None ==> (r matches ImportAction::Abort(e) ==> row.procurement_cost is Unrepresentable
            && is_bad_request(e, "Invalid procurement_cost"@)),
        existing is None && serial_fits(row.serial_number) ==> !(r is Settle) && (r is Abort
            <==> row.procurement_cost is Unrepresentable),
        r matches ImportAction::Insert(a) ==> existing is None && imported_record(
            cipher.key(),
            *row,
            category,
            status,
            a,
        ),
{
    match existing {
        Some(stored) => match dedup_verdict(cipher, row.asset_code.as_str(), &row.serial_number, stored) {
            DedupVerdict::Skip => ImportAction::Settle(RowOutcome::Skipped),
            DedupVerdict::Reject(t) => ImportAction::Settle(RowOutcome::Refused(t)),
        },
        None => match prepare_import(cipher, row, category, status) {
            ImportPrep::Ready(a) => ImportAction::Insert(a),
            ImportPrep::RowError(t) => ImportAction::Settle(RowOutcome::Refused(t)),
            ImportPrep::Fatal(e) => ImportAction::Abort(e),
        },
    }
}

impl BulkImportResponse {
    /// Settles row `index`, with code `asset_code`: counts it as imported or skipped, or
    /// records why it was refused. Every row settled adds one to the rows accounted for,
    /// so an import that settles its rows 0, 1, … in turn accounts for each row once,
    /// its refusals in row order.
    pub fn settle(&mut self, index: usize, asset_code: &str, outcome: RowOutcome)
        requires
            old(self).imported < usize::MAX,
            old(self).skipped < usize::MAX,
        ensures
            final(self).processed() == old(self).processed() + 1,
            old(self).accounts_for(index as int) ==> final(self).accounts_for(index + 1),
            outcome is Imported ==> final(self).imported == old(self).imported + 1
                && final(self).skipped == old(self).skipped && final(self).errors@ == old(self).errors@,
            outcome is Skipped ==> final(self).skipped == old(self).skipped + 1
                && final(self).imported == old(self).imported && final(self).errors@ == old(self).errors@,
            outcome matches RowOutcome::Refused(t) ==> final(self).imported == old(self).imported
                && final(self).skipped == old(self).skipped && final(self).errors@.drop_last()
                == old(self).errors@ && final(self).errors@.last().index == index && opt_text_of(
                final(self).errors@.last().asset_code,
            ) == Some(asset_code@) && final(self).errors@.last().reason@ == t@,
    {
        match outcome {
            RowOutcome::Imported => self.record_imported(),
            RowOutcome::Skipped => self.record_skipped(),
            RowOutcome::Refused(t) => self.record_error(index, asset_code, t),
        }
        proof {
            if old(self).accounts_for(index as int) {
                let e0 = old(self).errors@;
                let e1 = self.errors@;
                assert(e1.len() >= e0.len());
                assert forall|k: int| 0 <= k < e0.len() implies #[trigger] e1[k] == e0[k] by {
                    if e1.len() > e0.len() {
                        assert(e1.drop_last()[k] == e1[k]);
                    }
                }
                assert forall|k: int| 0 <= k < e1.len() implies #[trigger] e1[k].index < index + 1 by {
                    if k < e0.len() {
                        assert(e1[k] == e0[k]);
                        assert(e0[k].index < index);
                    }
                }
                assert forall|k: int, l: int| 0 <= k < l < e1.len() implies #[trigger] e1[k].index
                    < #[trigger] e1[l].index by {
                    assert(e1[k] == e0[k]);
                    assert(e0[k].index < index);
                    if l < e0.len() {
                        assert(e1[l] == e0[l]);
                    }
                }
            }
        }
    }
}

} // verus!

verus! {

// ── Status requests, filters and depreciation ─────────────────────────────────

/// A request to move an asset to another status.
#[derive(Debug)]
pub struct StatusUpdateRequest {
    /// `in_service`, `out_for_repair` or `retired`.
    pub status: String,
}

/// Filters of an asset listing.
#[derive(Debug)]
pub struct AssetFilterQuery {
    pub category: Option<String>,
    pub status: Option<String>,
}

impl AssetFilterQuery {
    /// Parses the filters: the category first, then the status.
    pub fn parse(&self) -> (r: AppResult<(Option<AssetCategory>, Option<AssetStatus>)>)
        ensures
            self.category is Some && category_of(self.category->0@) is None ==> fails_bad_request(
                r,
                unknown_category_message(self.category->0@),
            ),
            (self.category is None || category_of(self.category->0@) is Some) && self.status is Some
                && asset_status_of(self.status->0@) is None ==> fails_bad_request(
                r,
                unknown_status_message(self.status->0@),
            ),
            r matches Ok(p) ==> (match self.category {
                Some(c) => category_of(c@) is Some && p.0 == category_of(c@),
                None => p.0 is None,
            }) && (match self.status {
                Some(s) => asset_status_of(s@) is Some && p.1 == asset_status_of(s@),
                None => p.1 is None,
            }),
            (self.category is None || category_of(self.category->0@) is Some) && (self.status is None
                || asset_status_of(self.status->0@) is Some) ==> r is Ok,
    {
        let c = match &self.category {
            Some(c) => Some(parse_category(c.as_str())?),
            None => None,
        };
        let s = match &self.status {
            Some(s) => Some(parse_status(s.as_str())?),
            None => None,
        };
        Ok((c, s))
    }
}

/// How far an asset is through its depreciation period.
#[derive(Debug, Clone, Copy)]
pub struct DepreciationAge {
    /// Whole calendar months since procurement, never negative.
    pub months_elapsed: i32,
    /// Whether the period has run out.
    pub fully_depreciated: bool,
}

/// Calendar months from month `(sy, sm)` to the month of `today`, by year and month
/// number alone.
pub open spec fn months_between(sy: int, sm: int, today: Ymd) -> int {
    (today.year - sy) * 12 + (today.month - sm)
}

/// The depreciation age of an asset on day `today`, where it has a cost, a
/// procurement date that parses and a positive period; else none.
pub fn depreciation_age(has_cost: bool, date: Option<&str>, life: Option<i32>, today: Ymd) -> (r: Option<
    DepreciationAge,
>)
    requires
        crate::dates::MIN_YEAR <= today.year <= crate::dates::MAX_YEAR,
        1 <= today.month <= 12,
    ensures
        r is Some <==> has_cost && date is Some && life is Some && life->0 > 0 && naive_date_ymd(
            date->0@,
        ) is Some,
        r matches Some(a) ==> {
            let (sy, sm, sd) = naive_date_ymd(date->0@)->0;
            &&& a.months_elapsed == (if months_between(sy, sm, today) > 0 {
                months_between(sy, sm, today)
            } else {
                0
            })
            &&& a.fully_depreciated == (a.months_elapsed >= life->0)
        },
{
    if !has_cost {
        return None;
    }
    let (d, l) = match (date, life) {
        (Some(d), Some(l)) => (d, l),
        _ => {
            return None;
        },
    };
    if l <= 0 {
        return None;
    }
    let start = match parse_ymd(d) {
        Some(s) => s,
        None => {
            return None;
        },
    };
    let months: i64 = (today.year as i64 - start.year as i64) * 12 + (today.month as i64
        - start.month as i64);
    let m: i32 = if months > 0 {
        months as i32
    } else {
        0
    };
    Some(DepreciationAge { months_elapsed: m, fully_depreciated: m >= l })
}

} // verus!

verus! {

/// The plain serial number of a stored asset, for its response.
pub fn read_serial(cipher: &Cipher, stored: &Option<String>) -> (r: AppResult<Option<String>>)
    ensures
        match stored_plain(cipher.key(), opt_text_of(*stored)) {
            Ok(p) => r matches Ok(v) && opt_text_of(v) == p,
            Err(m) => r matches Err(e) && is_internal_with(e, "Decryption error: "@ + m),
        },
{
    let blob: Option<&str> = match stored {
        Some(s) => Some(s.as_str()),
        None => None,
    };
    match cipher.decrypt_opt(blob) {
        Ok(v) => Ok(v),
        Err(e) => Err(dec_err(e)),
    }
}

} // verus!
