use base64::engine::general_purpose::STANDARD;
use base64::Engine;
use rust_decimal::Decimal;

use motorsport_backend::assets::{
    apply_asset_update, category_str, check_import_row, check_status_transition,
    check_update_fields, dec_err, dedup_verdict, depreciation_age, enc_err, insert_error,
    parse_category, parse_status, prepare_import, prepare_new_asset, read_serial, status_str,
    validate_create_fields, AssetCategory, AssetFilterQuery, AssetRecord, AssetStatus,
    BulkImportResponse, CostInput, CreateAssetRequest, DedupVerdict, ImportPrep,
    UpdateAssetRequest,
};
use motorsport_backend::assets::{import_action, update_asset_record, ImportAction, RowOutcome};
use motorsport_backend::crypto::Cipher;
use motorsport_backend::dates::Ymd;
use motorsport_backend::decimal::Dec;
use motorsport_backend::errors::AppError;

fn cipher() -> Cipher {
    Cipher::from_base64_key(&STANDARD.encode([7u8; 32])).unwrap()
}

fn amount(s: &str) -> Dec {
    let x = Decimal::from_str_exact(s).unwrap();
    Dec::new(x.mantissa(), x.scale()).unwrap()
}

fn request() -> CreateAssetRequest {
    CreateAssetRequest {
        asset_code: " A-100 ".to_string(),
        category: "vehicle".to_string(),
        brand: " Ford ".to_string(),
        model: "Transit".to_string(),
        serial_number: Some("SN-1".to_string()),
        status: None,
        owner_id: Some(3),
        responsible_person_id: None,
        procurement_cost: CostInput::Amount(amount("1200.50")),
        procurement_date: Some("2024-03-01".to_string()),
        useful_life_months: Some(36),
        notes: None,
    }
}

fn detail(e: AppError) -> String {
    match e {
        AppError::BadRequest(m)
        | AppError::Conflict(m)
        | AppError::Internal(m)
        | AppError::NotFound(m) => m,
        other => panic!("unexpected error {other:?}"),
    }
}

fn empty_patch() -> UpdateAssetRequest {
    UpdateAssetRequest {
        category: None,
        brand: None,
        model: None,
        serial_number: None,
        owner_id: None,
        responsible_person_id: None,
        procurement_cost: CostInput::Absent,
        procurement_date: None,
        useful_life_months: None,
        notes: None,
    }
}

#[test]
fn category_and_status_names_roundtrip() {
    for c in [
        AssetCategory::Vehicle,
        AssetCategory::Equipment,
        AssetCategory::Facility,
        AssetCategory::Electronic,
        AssetCategory::Other,
    ] {
        assert_eq!(parse_category(category_str(&c)).unwrap(), c);
    }
    for s in [AssetStatus::InService, AssetStatus::OutForRepair, AssetStatus::Retired] {
        assert_eq!(parse_status(status_str(&s)).unwrap(), s);
    }
    assert_eq!(
        detail(parse_category("boat").unwrap_err()),
        "Unknown category 'boat'. Valid values: vehicle, equipment, facility, electronic, other"
    );
    assert_eq!(
        detail(parse_status("lost").unwrap_err()),
        "Unknown status 'lost'. Valid values: in_service, out_for_repair, retired"
    );
}

#[test]
fn create_fields_checked_in_order() {
    let mut r = request();
    r.asset_code = "  ".to_string();
    assert_eq!(detail(validate_create_fields(&r).unwrap_err()), "asset_code is required");
    let mut r = request();
    r.brand = "".to_string();
    assert_eq!(detail(validate_create_fields(&r).unwrap_err()), "brand is required");
    let mut r = request();
    r.model = " ".to_string();
    assert_eq!(detail(validate_create_fields(&r).unwrap_err()), "model is required");
    let mut r = request();
    r.procurement_date = Some("2024-02-30".to_string());
    assert_eq!(
        detail(validate_create_fields(&r).unwrap_err()),
        "Invalid procurement_date '2024-02-30'; expected YYYY-MM-DD"
    );
    let mut r = request();
    r.useful_life_months = Some(0);
    assert_eq!(detail(validate_create_fields(&r).unwrap_err()), "useful_life_months must be > 0");
    let mut r = request();
    r.procurement_cost = CostInput::Invalid;
    assert_eq!(
        detail(validate_create_fields(&r).unwrap_err()),
        "procurement_cost must be a non-negative finite number"
    );
    assert!(validate_create_fields(&request()).is_ok());
}

#[test]
fn new_asset_record_is_trimmed_and_encrypted() {
    let c = cipher();
    let a = prepare_new_asset(&c, &request()).unwrap();
    assert_eq!(a.asset_code, "A-100");
    assert_eq!(a.brand, "Ford");
    assert_eq!(a.category, AssetCategory::Vehicle);
    assert_eq!(a.status, AssetStatus::InService);
    let blob = a.serial_number.clone().unwrap();
    assert_ne!(blob, "SN-1");
    assert_eq!(c.decrypt(&blob).unwrap(), "SN-1");
    let mut r = request();
    r.procurement_cost = CostInput::Unrepresentable;
    assert_eq!(detail(prepare_new_asset(&c, &r).unwrap_err()), "Invalid procurement_cost");
    let mut r = request();
    r.status = Some("gone".to_string());
    assert!(prepare_new_asset(&c, &r).is_err());
}

#[test]
fn insert_errors() {
    match insert_error("A-1", "UNIQUE constraint failed: assets.asset_code") {
        AppError::Conflict(m) => assert_eq!(m, "Asset code 'A-1' already exists"),
        _ => panic!("expected a conflict"),
    }
    assert_eq!(detail(insert_error("A-1", "disk I/O error")), "disk I/O error");
}

#[test]
fn cipher_errors() {
    assert_eq!(detail(enc_err("boom".to_string())), "Encryption error: boom");
    assert_eq!(detail(dec_err("boom".to_string())), "Decryption error: boom");
}

fn record(c: &Cipher) -> AssetRecord {
    prepare_new_asset(c, &request()).unwrap()
}

#[test]
fn patches_write_only_given_fields() {
    let c = cipher();
    let before = record(&c);
    let blob = before.serial_number.clone();
    let after = apply_asset_update(&c, before, empty_patch()).unwrap();
    assert_eq!(after.asset_code, "A-100");
    assert_eq!(after.serial_number, blob);
    assert_eq!(after.procurement_date.as_deref(), Some("2024-03-01"));

    let mut p = empty_patch();
    p.notes = Some("".to_string());
    p.procurement_date = Some("".to_string());
    p.serial_number = Some("".to_string());
    p.brand = Some(" Fiat ".to_string());
    p.category = Some("equipment".to_string());
    p.useful_life_months = Some(12);
    let after = apply_asset_update(&c, record(&c), p).unwrap();
    assert_eq!(after.procurement_date, None);
    assert_eq!(after.serial_number, None);
    assert_eq!(after.brand, " Fiat ");
    assert_eq!(after.category, AssetCategory::Equipment);
    assert_eq!(after.useful_life_months, Some(12));

    let mut p = empty_patch();
    p.serial_number = Some("SN-2".to_string());
    let after = apply_asset_update(&c, record(&c), p).unwrap();
    assert_eq!(c.decrypt(after.serial_number.as_deref().unwrap()).unwrap(), "SN-2");

    let mut p = empty_patch();
    p.category = Some("boat".to_string());
    assert!(apply_asset_update(&c, record(&c), p).is_err());
}

#[test]
fn patch_fields_checked() {
    let mut p = empty_patch();
    p.useful_life_months = Some(-1);
    assert_eq!(detail(check_update_fields(&p).unwrap_err()), "useful_life_months must be > 0");
    assert!(check_update_fields(&empty_patch()).is_ok());
}

#[test]
fn update_record_checks_fields_before_patching() {
    let c = cipher();
    let mut p = empty_patch();
    p.useful_life_months = Some(0);
    p.brand = Some("Lancia".to_string());
    let err = update_asset_record(&c, record(&c), p).unwrap_err();
    assert_eq!(detail(err), "useful_life_months must be > 0");

    let mut p = empty_patch();
    p.brand = Some("Lancia".to_string());
    p.serial_number = Some("SN-9".to_string());
    let after = update_asset_record(&c, record(&c), p).unwrap();
    assert_eq!(after.brand, "Lancia");
    assert_eq!(after.asset_code, "A-100");
    assert_eq!(c.decrypt(after.serial_number.as_deref().unwrap()).unwrap(), "SN-9");
}

#[test]
fn retired_assets_stay_retired() {
    assert!(check_status_transition(5, AssetStatus::InService, AssetStatus::Retired).is_ok());
    assert!(check_status_transition(5, AssetStatus::Retired, AssetStatus::Retired).is_ok());
    match check_status_transition(5, AssetStatus::Retired, AssetStatus::InService) {
        Err(AppError::Conflict(m)) => {
            assert_eq!(m, "Asset 5 is retired and cannot transition to 'in_service'")
        }
        _ => panic!("expected a conflict"),
    }
}

#[test]
fn import_rows() {
    assert!(check_import_row(&request()).is_ok());
    let mut r = request();
    r.brand = " ".to_string();
    assert_eq!(check_import_row(&r).unwrap_err(), "Bad request: brand is required");
    let mut r = request();
    r.category = "boat".to_string();
    assert!(check_import_row(&r).unwrap_err().starts_with("Bad request: Unknown category 'boat'"));

    let c = cipher();
    let stored = c.encrypt("SN-1").unwrap();
    let row = request();
    assert!(matches!(
        dedup_verdict(&c, &row.asset_code, &row.serial_number, &Some(stored.clone())),
        DedupVerdict::Skip
    ));
    match dedup_verdict(&c, "A-100", &Some("SN-9".to_string()), &Some(stored)) {
        DedupVerdict::Reject(m) => {
            assert_eq!(m, "asset_code 'A-100' already exists with a different serial_number")
        }
        DedupVerdict::Skip => panic!("expected a refusal"),
    }
    match dedup_verdict(&c, "A-100", &None, &Some("%%".to_string())) {
        DedupVerdict::Reject(m) => {
            assert!(m.starts_with("Decryption error during dedup check: base64 decode error"))
        }
        DedupVerdict::Skip => panic!("expected a refusal"),
    }

    match prepare_import(&c, &row, AssetCategory::Vehicle, AssetStatus::InService) {
        ImportPrep::Ready(a) => assert_eq!(a.asset_code, "A-100"),
        _ => panic!("expected a record"),
    }
    let mut bad = request();
    bad.procurement_cost = CostInput::Unrepresentable;
    assert!(matches!(
        prepare_import(&c, &bad, AssetCategory::Vehicle, AssetStatus::InService),
        ImportPrep::Fatal(AppError::BadRequest(_))
    ));

    let mut tally = BulkImportResponse::new();
    tally.record_imported();
    tally.record_skipped();
    tally.record_error(2, "A-3", "nope".to_string());
    assert_eq!((tally.imported, tally.skipped, tally.errors.len()), (1, 1, 1));
    assert_eq!(tally.errors[0].index, 2);
    assert_eq!(tally.errors[0].asset_code.as_deref(), Some("A-3"));
}

#[test]
fn settling_every_row_accounts_for_the_whole_import() {
    let mut tally = BulkImportResponse::new();
    tally.settle(0, "A-1", RowOutcome::Imported);
    tally.settle(1, "A-2", RowOutcome::Refused("Bad request: brand must not be empty".to_string()));
    tally.settle(2, "A-3", RowOutcome::Skipped);
    tally.settle(3, "A-4", RowOutcome::Refused("Encryption error: x".to_string()));
    assert_eq!(tally.imported + tally.skipped + tally.errors.len(), 4);
    let indices: Vec<usize> = tally.errors.iter().map(|e| e.index).collect();
    assert_eq!(indices, vec![1, 3]);
    assert_eq!(tally.errors[0].asset_code.as_deref(), Some("A-2"));
    assert_eq!(tally.errors[1].reason, "Encryption error: x");
}

#[test]
fn serial_numbers_read_back() {
    let c = cipher();
    let blob = c.encrypt("SN-7").unwrap();
    assert_eq!(read_serial(&c, &Some(blob)).unwrap(), Some("SN-7".to_string()));
    assert_eq!(read_serial(&c, &None).unwrap(), None);
    assert!(detail(read_serial(&c, &Some("AAAA".to_string())).unwrap_err())
        .starts_with("Decryption error: "));
}

#[test]
fn filters_parse() {
    let q = AssetFilterQuery { category: Some("facility".to_string()), status: None };
    assert_eq!(q.parse().unwrap(), (Some(AssetCategory::Facility), None));
    let q = AssetFilterQuery { category: None, status: Some("x".to_string()) };
    assert!(q.parse().is_err());
}

#[test]
fn depreciation_months() {
    let today = Ymd { year: 2026, month: 3, day: 15 };
    let a = depreciation_age(true, Some("2024-01-31"), Some(36), today).unwrap();
    assert_eq!(a.months_elapsed, 26);
    assert!(!a.fully_depreciated);
    let b = depreciation_age(true, Some("2020-01-01"), Some(12), today).unwrap();
    assert!(b.fully_depreciated);
    let c = depreciation_age(true, Some("2027-01-01"), Some(12), today).unwrap();
    assert_eq!(c.months_elapsed, 0);
    assert!(depreciation_age(false, Some("2020-01-01"), Some(12), today).is_none());
    assert!(depreciation_age(true, Some("2020-01-01"), Some(0), today).is_none());
    assert!(depreciation_age(true, Some("bad"), Some(12), today).is_none());
}

#[test]
fn import_actions_settle_each_row_once() {
    let c = cipher();
    let row = request();
    let stored = Some(c.encrypt("SN-1").unwrap());
    let mut tally = BulkImportResponse::new();
    match import_action(&c, &row, AssetCategory::Vehicle, AssetStatus::InService, Some(&stored)) {
        ImportAction::Settle(o) => {
            assert!(matches!(o, RowOutcome::Skipped));
            tally.settle(0, &row.asset_code, o);
        }
        _ => panic!("expected the row to be skipped"),
    }
    let other = Some(c.encrypt("SN-2").unwrap());
    match import_action(&c, &row, AssetCategory::Vehicle, AssetStatus::InService, Some(&other)) {
        ImportAction::Settle(o) => tally.settle(1, "A-100", o),
        _ => panic!("expected the row to be refused"),
    }
    match import_action(&c, &row, AssetCategory::Vehicle, AssetStatus::InService, None) {
        ImportAction::Insert(a) => {
            assert_eq!(a.asset_code, "A-100");
            assert_eq!(c.decrypt(a.serial_number.as_deref().unwrap()).unwrap(), "SN-1");
            tally.settle(2, "A-100", RowOutcome::Imported);
        }
        _ => panic!("expected a record to insert"),
    }
    let mut bad = request();
    bad.procurement_cost = CostInput::Unrepresentable;
    assert!(matches!(
        import_action(&c, &bad, AssetCategory::Vehicle, AssetStatus::InService, None),
        ImportAction::Abort(AppError::BadRequest(_))
    ));
    assert_eq!((tally.imported, tally.skipped, tally.errors.len()), (1, 1, 1));
    assert_eq!(tally.errors[0].index, 1);
    assert_eq!(tally.errors[0].reason, "asset_code ' A-100 ' already exists with a different serial_number");
}

#[test]
fn encryption_blob_length() {
    let c = cipher();
    let blob = c.encrypt("hello").unwrap();
    assert_eq!(STANDARD.decode(&blob).unwrap().len(), 5 + 28);
}
