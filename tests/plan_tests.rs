use storage_billing::amount::Amount;
use storage_billing::error::AppError;
use storage_billing::plan::{get_storage_limit_for_plan, plan_for_amount, Plan, PlanThresholds};

fn amount(mantissa: i128, scale: u32) -> Amount {
    Amount { mantissa, scale }
}

#[test]
fn storage_limit_per_plan() {
    assert_eq!(Plan::Free.storage_limit_bytes(), 104_857_600);
    assert_eq!(Plan::Basic.storage_limit_bytes(), 1_073_741_824);
    assert_eq!(Plan::Premium.storage_limit_bytes(), 5_368_709_120);
    assert_eq!(Plan::Enterprise.storage_limit_bytes(), 10_737_418_240);
}

#[test]
fn document_limit_per_plan() {
    assert_eq!(Plan::Free.document_limit(), 10);
    assert_eq!(Plan::Basic.document_limit(), 100);
    assert_eq!(Plan::Premium.document_limit(), 1000);
    assert_eq!(Plan::Enterprise.document_limit(), i32::MAX);
}

#[test]
fn storage_limit_for_plan_name() {
    assert_eq!(get_storage_limit_for_plan("basic"), 1_073_741_824);
    assert_eq!(get_storage_limit_for_plan("premium"), 5_368_709_120);
    assert_eq!(get_storage_limit_for_plan("enterprise"), 10_737_418_240);
    assert_eq!(get_storage_limit_for_plan("none"), 0);
    assert_eq!(get_storage_limit_for_plan("gold"), 0);
    assert_eq!(get_storage_limit_for_plan(""), 0);
}

#[test]
fn plan_names_round_trip() {
    for p in [Plan::Free, Plan::Basic, Plan::Premium, Plan::Enterprise] {
        assert_eq!(Plan::from_name(p.name()), Some(p));
    }
    assert_eq!(Plan::Free.name(), "none");
    assert_eq!(Plan::from_name("Basic"), None);
    assert_eq!(Plan::from_name("free"), None);
}

#[test]
fn tiers_are_ordered() {
    assert_eq!(Plan::Free.tier(), 0);
    assert_eq!(Plan::Basic.tier(), 1);
    assert_eq!(Plan::Premium.tier(), 2);
    assert_eq!(Plan::Enterprise.tier(), 3);
}

#[test]
fn standard_thresholds_map_amounts() {
    let t = PlanThresholds::standard();
    assert_eq!(plan_for_amount(&t, &amount(1250, 2)), Plan::Basic);
    assert_eq!(plan_for_amount(&t, &amount(49999, 2)), Plan::Basic);
    assert_eq!(plan_for_amount(&t, &amount(500, 0)), Plan::Premium);
    assert_eq!(plan_for_amount(&t, &amount(99999, 2)), Plan::Premium);
    assert_eq!(plan_for_amount(&t, &amount(1000, 0)), Plan::Enterprise);
    assert_eq!(plan_for_amount(&t, &amount(10000000, 4)), Plan::Enterprise);
}

#[test]
fn configured_thresholds_map_amounts() {
    let t = PlanThresholds::new(10, 50).unwrap();
    assert_eq!(plan_for_amount(&t, &amount(999, 2)), Plan::Basic);
    assert_eq!(plan_for_amount(&t, &amount(1250, 2)), Plan::Premium);
    assert_eq!(plan_for_amount(&t, &amount(50, 0)), Plan::Enterprise);
}

#[test]
fn thresholds_out_of_order_are_refused() {
    assert!(PlanThresholds::new(1000, 500).is_none());
    assert!(PlanThresholds::new(500, 500).is_some());
}

#[test]
fn amount_to_plan_is_monotonic_on_samples() {
    let t = PlanThresholds::standard();
    let samples = [
        amount(0, 0),
        amount(1, 2),
        amount(49999, 2),
        amount(500, 0),
        amount(5000001, 4),
        amount(99999, 2),
        amount(1000, 0),
        amount(123456789, 0),
    ];
    for w in samples.windows(2) {
        assert!(plan_for_amount(&t, &w[0]).tier() <= plan_for_amount(&t, &w[1]).tier());
    }
}

#[test]
fn error_kinds_map_to_status_codes() {
    assert_eq!(AppError::InvalidInput("x".to_string()).status_code(), 400);
    assert_eq!(AppError::NotFound("x".to_string()).status_code(), 404);
    assert_eq!(AppError::DuplicateRequest("x".to_string()).status_code(), 409);
    assert_eq!(AppError::GatewayUnavailable("x".to_string()).status_code(), 503);
    assert_eq!(AppError::QuotaExceeded("x".to_string()).status_code(), 403);
    assert_eq!(AppError::Internal("x".to_string()).status_code(), 500);
    assert_eq!(AppError::NotFound("gone".to_string()).message(), "gone");
}
